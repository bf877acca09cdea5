use cargo_credential_pass::dispatch::ActionKind;
use cargo_credential_pass::dispatch::DispatchError;
use cargo_credential_pass::dispatch::PlannedOp;
use cargo_credential_pass::dispatch::path_error_message;
use cargo_credential_pass::dispatch::plan_request;
use cargo_credential_pass::path::PathError;

const INDEX_URL: &str = "sparse+https://example.com/index";

#[test]
fn test_login_with_token_plans_insert() {
    let args: Vec<String> = vec![];
    let plan = plan_request(
        ActionKind::Login(Some("my-token".to_string())),
        &args,
        INDEX_URL,
        Some("crates-io"),
    )
    .expect("valid plan");

    assert_eq!(plan.path.as_str(), "cargo-registry/crates-io.token");
    match plan.op {
        PlannedOp::Insert { stdin } => assert_eq!(stdin, "my-token\nmy-token\n"),
        _ => panic!("expected an insert"),
    }
}

#[test]
fn test_login_without_token_plans_interactive_edit() {
    let args: Vec<String> = vec![];
    let plan =
        plan_request(ActionKind::Login(None), &args, INDEX_URL, None).expect("valid plan");

    assert_eq!(plan.path.as_str(), "cargo-registry/https___example_com_index.token");
    assert!(matches!(plan.op, PlannedOp::Edit));
}

#[test]
fn test_get_plans_show() {
    let args: Vec<String> = vec![];
    let plan =
        plan_request(ActionKind::Get, &args, INDEX_URL, Some("crates-io")).expect("valid plan");

    assert_eq!(plan.path.as_str(), "cargo-registry/crates-io.token");
    assert!(matches!(plan.op, PlannedOp::Show));
}

#[test]
fn test_logout_plans_remove() {
    let args: Vec<String> = vec![];
    let plan = plan_request(ActionKind::Logout, &args, INDEX_URL, Some("crates-io"))
        .expect("valid plan");

    assert_eq!(plan.path.as_str(), "cargo-registry/crates-io.token");
    assert!(matches!(plan.op, PlannedOp::Remove));
}

#[test]
fn test_unknown_action_rejected() {
    let args: Vec<String> = vec![];
    let got = plan_request(ActionKind::Unknown, &args, INDEX_URL, None);

    assert!(matches!(got, Err(DispatchError::OperationNotSupported)));
}

#[test]
fn test_absolute_path_rejected_before_any_action() {
    let args: Vec<String> = vec!["/root/token".to_string()];
    let got = plan_request(ActionKind::Unknown, &args, INDEX_URL, None);

    assert!(matches!(
        got,
        Err(DispatchError::Path(PathError::AbsolutePathRejected))
    ));
}

#[test]
fn test_too_many_arguments_rejected_for_every_action() {
    let args: Vec<String> = vec!["a".to_string(), "b".to_string()];

    let login = plan_request(ActionKind::Login(None), &args, INDEX_URL, None);
    assert!(matches!(
        login,
        Err(DispatchError::Path(PathError::TooManyArguments))
    ));

    let get = plan_request(ActionKind::Get, &args, INDEX_URL, None);
    assert!(matches!(
        get,
        Err(DispatchError::Path(PathError::TooManyArguments))
    ));
}

#[test]
fn test_custom_dir_is_shared_by_all_actions() {
    let args: Vec<String> = vec!["tokens/go/here/".to_string()];
    let plan = plan_request(ActionKind::Logout, &args, INDEX_URL, Some("bananas"))
        .expect("valid plan");

    assert_eq!(plan.path.as_str(), "tokens/go/here/bananas.token");
}

#[test]
fn test_path_error_messages() {
    assert_eq!(
        path_error_message(&PathError::TooManyArguments),
        "too many arguments specified in cargo credential provider config"
    );
    assert_eq!(
        path_error_message(&PathError::AbsolutePathRejected),
        "pass cargo credential provider cannot be configured with absolute path, \
         specify path relative to password store root"
    );
}
