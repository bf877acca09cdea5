//! Derivation of the storage path that addresses one registry's token inside
//! the secret store.
//!
//! A path is always relative to the store's root. With no operator-supplied
//! argument the token lives under the `cargo-registry` directory, named after
//! the registry: its configured name when it has one, else its index URL with
//! the `sparse+` transport prefix stripped and every non-alphanumeric
//! character replaced by an underscore.

use vstd::prelude::*;

verus! {

/// Whether `c` counts as safe in a URL-derived file name.
///
/// Stands for what `char::is_alphanumeric` returns, which depends on the
/// character alone.
pub uninterp spec fn is_alphanum(c: char) -> bool;

/// Relies on `char::is_alphanumeric`: a pure Unicode character classification.
#[verifier::external_body]
fn char_is_alphanumeric(c: char) -> (r: bool)
    ensures
        r == is_alphanum(c),
{
    c.is_alphanumeric()
}

/// Relies on `String::push`: appends the character to the end of the string.
#[verifier::external_body]
fn push_char(s: &mut String, c: char)
    ensures
        final(s)@ == old(s)@.push(c),
{
    s.push(c)
}

/// Every non-alphanumeric character replaced by one underscore, the rest kept.
pub open spec fn normalize_chars(s: Seq<char>) -> Seq<char> {
    s.map_values(|c: char| if is_alphanum(c) { c } else { '_' })
}

/// Replace any non-alphanumeric characters in `url` with an underscore.
pub fn normalise_url(url: &str) -> (r: String)
    ensures
        r@ == normalize_chars(url@),
{
    let n: usize = url.unicode_len();
    let mut out = String::new();
    let mut i: usize = 0;
    while i < n
        invariant
            n == url@.len(),
            i <= n,
            out@.len() == i,
            forall|j: int|
                0 <= j < i ==> out@[j] == (if is_alphanum(url@[j]) {
                    url@[j]
                } else {
                    '_'
                }),
        decreases n - i,
    {
        let c = url.get_char(i);
        if char_is_alphanumeric(c) {
            push_char(&mut out, c);
        } else {
            push_char(&mut out, '_');
        }
        i += 1;
    }
    proof {
        assert(out@ =~= normalize_chars(url@));
    }
    out
}

/// Normalization maps every character on its own, so running it again over an
/// already-normalized string changes nothing: a kept character is still
/// alphanumeric and an underscore is replaced (or kept) as an underscore.
pub proof fn lemma_normalize_idempotent(s: Seq<char>)
    ensures
        normalize_chars(normalize_chars(s)) == normalize_chars(s),
{
    assert(normalize_chars(normalize_chars(s)) =~= normalize_chars(s));
}

/// `url` without its leading `sparse+`, when it carries one.
pub open spec fn strip_sparse(url: Seq<char>) -> Seq<char> {
    if url.len() >= 7 && url.subrange(0, 7) == "sparse+"@ {
        url.subrange(7, url.len() as int)
    } else {
        url
    }
}

/// Drop a `sparse+` transport prefix from the index URL, if present, so that a
/// token is resolved for a registry regardless of the index protocol used.
fn strip_sparse_prefix(url: &str) -> (r: String)
    ensures
        r@ == strip_sparse(url@),
{
    proof {
        reveal_strlit("sparse+");
    }
    let n: usize = url.unicode_len();
    if n >= 7 && url.get_char(0) == 's' && url.get_char(1) == 'p' && url.get_char(2) == 'a'
        && url.get_char(3) == 'r' && url.get_char(4) == 's' && url.get_char(5) == 'e'
        && url.get_char(6) == '+' {
        proof {
            assert(url@.subrange(0, 7) =~= "sparse+"@);
        }
        let rest = url.substring_char(7, n);
        String::from_str(rest)
    } else {
        proof {
            if url@.len() >= 7 && url@.subrange(0, 7) == "sparse+"@ {
                assert(url@.subrange(0, 7)[0] == url@[0]);
                assert(url@.subrange(0, 7)[1] == url@[1]);
                assert(url@.subrange(0, 7)[2] == url@[2]);
                assert(url@.subrange(0, 7)[3] == url@[3]);
                assert(url@.subrange(0, 7)[4] == url@[4]);
                assert(url@.subrange(0, 7)[5] == url@[5]);
                assert(url@.subrange(0, 7)[6] == url@[6]);
            }
        }
        String::from_str(url)
    }
}

/// The file name stem for a registry: the configured name verbatim when there
/// is one, else the normalized index URL.
pub open spec fn token_stem(name: Option<Seq<char>>, url: Seq<char>) -> Seq<char> {
    match name {
        Some(n) => n,
        None => normalize_chars(strip_sparse(url)),
    }
}

/// The token's file name: the stem with the `.token` suffix.
pub open spec fn token_file(name: Option<Seq<char>>, url: Seq<char>) -> Seq<char> {
    token_stem(name, url) + ".token"@
}

/// `file` placed under `dir`, with exactly one separator between them.
pub open spec fn join_dir(dir: Seq<char>, file: Seq<char>) -> Seq<char> {
    if dir.len() == 0 {
        file
    } else if dir.last() == '/' {
        dir + file
    } else {
        dir + seq!['/'] + file
    }
}

/// The full storage path a builder produces: the token file under the chosen
/// directory, or under the `cargo-registry` default.
pub open spec fn build_spec(dir: Option<Seq<char>>, name: Option<Seq<char>>, url: Seq<char>) -> Seq<
    char,
> {
    join_dir(
        match dir {
            Some(d) => d,
            None => "cargo-registry"@,
        },
        token_file(name, url),
    )
}

/// A path that does not start at the filesystem root.
pub open spec fn is_relative_path(s: Seq<char>) -> bool {
    s.len() == 0 || s[0] != '/'
}

/// A `pass` path used to deterministically address a specific registry.
pub struct PassPath {
    path: String,
}

impl View for PassPath {
    type V = Seq<char>;

    closed spec fn view(&self) -> Seq<char> {
        self.path@
    }
}

impl PassPath {
    /// A storage path never leaves the password store root.
    pub open spec fn wf(&self) -> bool {
        is_relative_path(self@)
    }

    /// Initialise a new [`PassPath`] instance that stores the token in the
    /// specified path. The path must be relative, as it will be interpreted
    /// relative to the password store root.
    pub fn new(path: String) -> (r: PassPath)
        requires
            is_relative_path(path@),
        ensures
            r@ == path@,
            r.wf(),
    {
        PassPath { path }
    }

    /// The path as text, to hand to the secret-store tool.
    pub fn as_str(&self) -> (r: &str)
        ensures
            r@ == self@,
    {
        self.path.as_str()
    }
}

/// An initialiser of [`PassPath`] from configuration.
pub struct PassPathBuilder {
    /// Directory to store token relative to password store root.
    dir: Option<String>,
    /// Filename without extension.
    name: Option<String>,
}

impl PassPathBuilder {
    /// The directory override this builder carries, if any.
    pub closed spec fn dir_spec(&self) -> Option<Seq<char>> {
        match self.dir {
            Some(d) => Some(d@),
            None => None,
        }
    }

    /// The name override this builder carries, if any.
    pub closed spec fn name_spec(&self) -> Option<Seq<char>> {
        match self.name {
            Some(n) => Some(n@),
            None => None,
        }
    }

    /// A directory override, once given, is relative to the store root.
    pub open spec fn wf(&self) -> bool {
        match self.dir_spec() {
            Some(d) => is_relative_path(d),
            None => true,
        }
    }

    /// A builder with no overrides: the default directory and a stem derived
    /// from the index URL.
    pub fn new() -> (r: Self)
        ensures
            r.dir_spec() is None,
            r.name_spec() is None,
            r.wf(),
    {
        PassPathBuilder { dir: None, name: None }
    }

    /// Set the path relative to the password store root, under which the token
    /// is created.
    ///
    /// If not provided, tokens will be stored under the default path of
    /// `cargo-registry`. A relative path must be provided as the path will be
    /// interpreted relative to the password store root.
    pub fn under_dir(self, dir: &str) -> (r: Self)
        requires
            is_relative_path(dir@),
        ensures
            r.dir_spec() == Some(dir@),
            r.name_spec() == self.name_spec(),
            r.wf(),
    {
        PassPathBuilder { dir: Some(String::from_str(dir)), name: self.name }
    }

    /// Set the name of the token, or deterministically derive it from the
    /// registry URL if not provided.
    pub fn with_name(self, name: &str) -> (r: Self)
        ensures
            r.name_spec() == Some(name@),
            r.dir_spec() == self.dir_spec(),
            r.wf() == self.wf(),
    {
        PassPathBuilder { dir: self.dir, name: Some(String::from_str(name)) }
    }

    /// Instantiate a [`PassPath`] with the specified components.
    ///
    /// The components must combine into a relative path: a registry name that
    /// starts with a separator, placed directly under an empty directory
    /// override, would escape the store root.
    pub fn build(self, index_url: &str) -> (r: PassPath)
        requires
            self.wf(),
            is_relative_path(build_spec(self.dir_spec(), self.name_spec(), index_url@)),
        ensures
            r@ == build_spec(self.dir_spec(), self.name_spec(), index_url@),
            r.wf(),
    {
        let stem: String = match self.name {
            Some(n) => n,
            None => {
                let stripped = strip_sparse_prefix(index_url);
                normalise_url(stripped.as_str())
            },
        };
        let file: String = stem.concat(".token");
        let dir: String = match self.dir {
            Some(d) => d,
            None => String::from_str("cargo-registry"),
        };
        let dlen: usize = dir.as_str().unicode_len();
        if dlen == 0 {
            PassPath::new(file)
        } else if dir.as_str().get_char(dlen - 1) == '/' {
            PassPath::new(dir.concat(file.as_str()))
        } else {
            proof {
                reveal_strlit("/");
                assert("/"@ =~= seq!['/']);
            }
            let with_sep: String = dir.concat("/");
            PassPath::new(with_sep.concat(file.as_str()))
        }
    }
}

/// A fault in the operator-supplied path configuration, found before any
/// external process is spawned.
#[derive(Debug, Clone, Copy, PartialEq, Eq, Structural)]
pub enum PathError {
    /// More than one path argument was configured.
    TooManyArguments,
    /// The configured path is absolute; paths are rooted under the password
    /// store directory and must be relative.
    AbsolutePathRejected,
}

/// The view of an optional borrowed name.
pub open spec fn opt_view(name: Option<&str>) -> Option<Seq<char>> {
    match name {
        Some(n) => Some(n@),
        None => None,
    }
}

/// What resolution returns for every argument list, registry name and index
/// URL: the derived default path when no argument is given, a rejection for
/// several arguments or an absolute one, the token file under the argument
/// when it names a directory, and the argument itself otherwise.
pub open spec fn resolve_spec(args: Seq<Seq<char>>, name: Option<Seq<char>>, url: Seq<char>) -> Result<
    Seq<char>,
    PathError,
> {
    if args.len() == 0 {
        Ok(build_spec(None, name, url))
    } else if args.len() > 1 {
        Err(PathError::TooManyArguments)
    } else {
        let a = args[0];
        if a.len() > 0 && a[0] == '/' {
            Err(PathError::AbsolutePathRejected)
        } else if a.len() > 0 && a.last() == '/' {
            Ok(build_spec(Some(a), name, url))
        } else {
            Ok(a)
        }
    }
}

/// Parse (potentially empty) `args` to construct a [`PassPath`].
///
///   1. If args is empty, return a [`PassPath`] derived from the registry.
///   2. If args contains more than 1 entry, return an error.
///   3. If args contains exactly one entry, and starts with `/`, return an
///      error.
///   4. If args contains exactly one entry, and ends with `/`, return a
///      [`PassPath`] that uses this value as the directory under the password
///      store root where tokens are stored.
///   5. If args contains exactly one entry, and does not end with `/`, return a
///      [`PassPath`] that uses this exact value as the storage path for the
///      token.
pub fn path_from_args(args: &Vec<String>, index_url: &str, name: Option<&str>) -> (r: Result<
    PassPath,
    PathError,
>)
    ensures
        r matches Ok(p) ==> resolve_spec(args.deep_view(), opt_view(name), index_url@) == Ok::<
            Seq<char>,
            PathError,
        >(p@) && p.wf(),
        r matches Err(e) ==> resolve_spec(args.deep_view(), opt_view(name), index_url@) == Err::<
            Seq<char>,
            PathError,
        >(e),
{
    let mut builder = PassPathBuilder::new();
    if let Some(n) = name {
        builder = builder.with_name(n);
    }
    if args.len() == 0 {
        proof {
            reveal_strlit("cargo-registry");
        }
        Ok(builder.build(index_url))
    } else if args.len() > 1 {
        Err(PathError::TooManyArguments)
    } else {
        let arg: &String = &args[0];
        let alen: usize = arg.as_str().unicode_len();
        if alen > 0 && arg.as_str().get_char(0) == '/' {
            Err(PathError::AbsolutePathRejected)
        } else if alen > 0 && arg.as_str().get_char(alen - 1) == '/' {
            Ok(builder.under_dir(arg.as_str()).build(index_url))
        } else {
            Ok(PassPath::new(arg.clone()))
        }
    }
}

/// With a registry name configured and no path argument, the token lives under
/// the default directory in a file named after the registry, whatever the
/// index URL says.
pub proof fn lemma_named_registry_default_path(name: Seq<char>, url: Seq<char>)
    ensures
        resolve_spec(seq![], Some(name), url) == Ok::<Seq<char>, PathError>(
            "cargo-registry/"@ + name + ".token"@,
        ),
{
    reveal_strlit("cargo-registry");
    reveal_strlit("cargo-registry/");
    assert("cargo-registry"@ + seq!['/'] + (name + ".token"@) =~= "cargo-registry/"@ + name
        + ".token"@);
}

/// A `sparse+` transport prefix on the index URL makes no difference to the
/// derived path when the registry has no name: the URL-derived stem, and with
/// it every resolved path, is the same either way.
pub proof fn lemma_sparse_prefix_insensitive(url: Seq<char>)
    requires
        !(url.len() >= 7 && url.subrange(0, 7) == "sparse+"@),
    ensures
        token_stem(None, "sparse+"@ + url) == token_stem(None, url),
        resolve_spec(seq![], None, "sparse+"@ + url) == resolve_spec(seq![], None, url),
{
    reveal_strlit("sparse+");
    let pre = "sparse+"@ + url;
    assert(pre.subrange(0, 7) =~= "sparse+"@);
    assert(pre.subrange(7, pre.len() as int) =~= url);
}

/// A single argument that names a directory puts the token file, with the stem
/// derived as in the default case, directly under it.
pub proof fn lemma_dir_argument_path(arg: Seq<char>, name: Option<Seq<char>>, url: Seq<char>)
    requires
        arg.len() > 0,
        arg[0] != '/',
        arg.last() == '/',
    ensures
        resolve_spec(seq![arg], name, url) == Ok::<Seq<char>, PathError>(
            arg + token_stem(name, url) + ".token"@,
        ),
{
    assert(arg + (token_stem(name, url) + ".token"@) =~= arg + token_stem(name, url) + ".token"@);
}

/// A single relative argument without a trailing separator is the storage
/// path, byte for byte.
pub proof fn lemma_exact_argument_path(arg: Seq<char>, name: Option<Seq<char>>, url: Seq<char>)
    requires
        arg.len() > 0,
        arg[0] != '/',
        arg.last() != '/',
    ensures
        resolve_spec(seq![arg], name, url) == Ok::<Seq<char>, PathError>(arg),
{
}

/// An absolute path argument is always rejected, whatever the registry
/// descriptor holds.
pub proof fn lemma_absolute_argument_rejected(arg: Seq<char>, name: Option<Seq<char>>, url: Seq<char>)
    requires
        arg.len() > 0,
        arg[0] == '/',
    ensures
        resolve_spec(seq![arg], name, url) == Err::<Seq<char>, PathError>(
            PathError::AbsolutePathRejected,
        ),
{
}

/// More than one path argument is always rejected.
pub proof fn lemma_too_many_arguments_rejected(
    args: Seq<Seq<char>>,
    name: Option<Seq<char>>,
    url: Seq<char>,
)
    requires
        args.len() > 1,
    ensures
        resolve_spec(args, name, url) == Err::<Seq<char>, PathError>(PathError::TooManyArguments),
{
}

} // verus!
