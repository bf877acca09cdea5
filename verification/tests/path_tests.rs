use cargo_credential_pass::path::PathError;
use cargo_credential_pass::path::PassPathBuilder;
use cargo_credential_pass::path::normalise_url;
use cargo_credential_pass::path::path_from_args;

const INDEX_URL: &str = "http://itsallbroken.com/cargo";
const NAME: Option<&str> = Some("bananas");

#[test]
fn test_path_with_name() {
    let p = PassPathBuilder::new()
        .with_name("bananas")
        .build("sparse+https://cargo.itsallbroken.com/index/");

    assert_eq!(p.as_str(), "cargo-registry/bananas.token");
}

#[test]
fn test_path_without_name_sparse() {
    let p = PassPathBuilder::new().build("sparse+https://cargo.itsallbroken.com/index/");

    assert_eq!(
        p.as_str(),
        "cargo-registry/https___cargo_itsallbroken_com_index_.token"
    );
}

#[test]
fn test_path_without_name_non_sparse() {
    let p = PassPathBuilder::new().build("https://cargo.itsallbroken.com/index/");

    assert_eq!(
        p.as_str(),
        "cargo-registry/https___cargo_itsallbroken_com_index_.token"
    );
}

#[test]
fn test_path_under_dir() {
    let p = PassPathBuilder::new()
        .with_name("bananas")
        .under_dir("platanos/are/good")
        .build("sparse+https://cargo.itsallbroken.com/index/");

    assert_eq!(p.as_str(), "platanos/are/good/bananas.token");
}

#[test]
fn test_path_under_dir_trailing_slash() {
    let p = PassPathBuilder::new()
        .with_name("bananas")
        .under_dir("platanos/are/good/")
        .build("sparse+https://cargo.itsallbroken.com/index/");

    assert_eq!(p.as_str(), "platanos/are/good/bananas.token");
}

#[test]
fn test_path_from_no_custom_path() {
    let args: Vec<String> = vec![];
    let got = path_from_args(&args, INDEX_URL, NAME).expect("valid path");

    assert_eq!(got.as_str(), "cargo-registry/bananas.token");
}

#[test]
fn test_path_from_with_custom_path() {
    let args: Vec<String> = vec!["tokens/go/here".to_string()];
    let got = path_from_args(&args, INDEX_URL, NAME).expect("valid path");

    assert_eq!(got.as_str(), "tokens/go/here");
}

#[test]
fn test_path_from_with_custom_dir() {
    let args: Vec<String> = vec!["tokens/go/here/".to_string()];
    let got = path_from_args(&args, INDEX_URL, NAME).expect("valid path");

    assert_eq!(got.as_str(), "tokens/go/here/bananas.token");
}

#[test]
fn test_named_registry_ignores_index_url() {
    let args: Vec<String> = vec![];
    let got = path_from_args(&args, "sparse+https://example.com/index", Some("crates-io"))
        .expect("valid path");

    assert_eq!(got.as_str(), "cargo-registry/crates-io.token");
}

#[test]
fn test_unnamed_registry_normalises_index_url() {
    let args: Vec<String> = vec![];
    let got =
        path_from_args(&args, "sparse+https://example.com/index", None).expect("valid path");

    assert_eq!(got.as_str(), "cargo-registry/https___example_com_index.token");
}

#[test]
fn test_sparse_prefix_is_ignored() {
    let args: Vec<String> = vec![];
    let with_prefix =
        path_from_args(&args, "sparse+https://example.com/index", None).expect("valid path");
    let without_prefix =
        path_from_args(&args, "https://example.com/index", None).expect("valid path");

    assert_eq!(with_prefix.as_str(), without_prefix.as_str());
}

#[test]
fn test_absolute_path_rejected() {
    let args: Vec<String> = vec!["/root/token".to_string()];
    let got = path_from_args(&args, INDEX_URL, NAME);

    assert!(matches!(got, Err(PathError::AbsolutePathRejected)));
}

#[test]
fn test_too_many_args_rejected() {
    let args: Vec<String> = vec!["a".to_string(), "b".to_string()];
    let got = path_from_args(&args, INDEX_URL, NAME);

    assert!(matches!(got, Err(PathError::TooManyArguments)));
}

#[test]
fn test_empty_argument_is_kept_verbatim() {
    let args: Vec<String> = vec![String::new()];
    let got = path_from_args(&args, INDEX_URL, NAME).expect("valid path");

    assert_eq!(got.as_str(), "");
}

#[test]
fn test_normalise_url_replaces_each_special_character() {
    assert_eq!(
        normalise_url("https://example.com/index"),
        "https___example_com_index"
    );
}

#[test]
fn test_normalise_url_keeps_single_underscore_per_character() {
    assert_eq!(normalise_url("a--b"), "a__b");
    assert_eq!(normalise_url("."), "_");
}

#[test]
fn test_normalise_url_keeps_unicode_alphanumerics() {
    assert_eq!(normalise_url("caf\u{e9}9"), "caf\u{e9}9");
}

#[test]
fn test_normalise_url_is_idempotent_on_normalised_text() {
    let once = normalise_url("sparse+https://x.y/z");
    let twice = normalise_url(&once);

    assert_eq!(once, twice);
}
