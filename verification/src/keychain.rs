//! Interpretation layer for the `pass` secret-store tool.
//!
//! The tool runs as an external process. The library does not spawn it; it
//! states which subcommand and arguments each operation needs, what to feed it
//! on its input stream, and what a terminated process's outcome means. The
//! thin binary around the library performs the spawning and hands the
//! captured outcome back to the functions here.

use vstd::prelude::*;
use vstd::utf8::decode_utf8;
use vstd::utf8::valid_utf8;

use crate::path::PassPath;

verus! {

/// Failures interacting with `pass`.
#[derive(Debug, Clone, PartialEq, Eq)]
pub enum Error {
    /// Spawning a `pass` child process failed; carries the reported reason.
    Exec(String),
    /// `pass` was executed, but returned a non-zero error code.
    ExecNonZero { stdout: String, stderr: String },
    /// The token read from `pass` is not a valid UTF-8 string.
    NonUtf8Password,
}

/// Whether `c` is trimmed away at the edges of the tool's output.
///
/// Stands for what `char::is_whitespace` returns, which depends on the
/// character alone.
pub uninterp spec fn is_white(c: char) -> bool;

/// Relies on `char::is_whitespace`: a pure Unicode character classification.
#[verifier::external_body]
fn char_is_whitespace(c: char) -> (r: bool)
    ensures
        r == is_white(c),
{
    c.is_whitespace()
}

/// Relies on `String::from_utf8`: it returns the decoded text exactly when
/// the bytes are valid UTF-8, and an error otherwise.
#[verifier::external_body]
fn string_from_utf8(bytes: Vec<u8>) -> (r: Option<String>)
    ensures
        r is Some <==> valid_utf8(bytes@),
        r matches Some(s) ==> s@ == decode_utf8(bytes@),
{
    match String::from_utf8(bytes) {
        Ok(s) => Some(s),
        Err(_) => None,
    }
}

/// `s` without its trailing whitespace.
pub open spec fn trim_end_spec(s: Seq<char>) -> Seq<char>
    decreases s.len(),
{
    if s.len() > 0 && is_white(s.last()) {
        trim_end_spec(s.drop_last())
    } else {
        s
    }
}

/// Strip trailing whitespace from `s`.
pub fn trim_end_str(s: &str) -> (r: String)
    ensures
        r@ == trim_end_spec(s@),
{
    let n: usize = s.unicode_len();
    proof {
        assert(s@.subrange(0, n as int) =~= s@);
    }
    let mut end: usize = n;
    loop
        invariant
            end <= n,
            n == s@.len(),
            trim_end_spec(s@) == trim_end_spec(s@.subrange(0, end as int)),
        ensures
            end == 0 || !is_white(s@[end - 1]),
        decreases end,
    {
        if end == 0 {
            break ;
        }
        let c = s.get_char(end - 1);
        if !char_is_whitespace(c) {
            break ;
        }
        proof {
            assert(s@.subrange(0, end as int).last() == s@[end - 1]);
            assert(s@.subrange(0, end as int).drop_last() =~= s@.subrange(0, end - 1));
        }
        end = end - 1;
    }
    proof {
        if end > 0 {
            assert(s@.subrange(0, end as int).last() == s@[end - 1]);
        }
        assert(trim_end_spec(s@.subrange(0, end as int)) == s@.subrange(0, end as int));
    }
    let out = s.substring_char(0, end);
    String::from_str(out)
}

/// The argument list of the forced-insert subcommand that stores a token.
pub fn insert_args(path: &PassPath) -> (r: Vec<String>)
    ensures
        r.deep_view() == seq!["insert"@, "--force"@, path@],
{
    let r: Vec<String> = vec![
        String::from_str("insert"),
        String::from_str("--force"),
        String::from_str(path.as_str()),
    ];
    proof {
        assert(r.deep_view() =~= seq!["insert"@, "--force"@, path@]);
    }
    r
}

/// The argument list of the interactive edit subcommand.
pub fn edit_args(path: &PassPath) -> (r: Vec<String>)
    ensures
        r.deep_view() == seq!["edit"@, path@],
{
    let r: Vec<String> = vec![String::from_str("edit"), String::from_str(path.as_str())];
    proof {
        assert(r.deep_view() =~= seq!["edit"@, path@]);
    }
    r
}

/// The argument list of the show subcommand that prints a stored token.
pub fn show_args(path: &PassPath) -> (r: Vec<String>)
    ensures
        r.deep_view() == seq!["show"@, path@],
{
    let r: Vec<String> = vec![String::from_str("show"), String::from_str(path.as_str())];
    proof {
        assert(r.deep_view() =~= seq!["show"@, path@]);
    }
    r
}

/// The argument list of the forced remove subcommand that deletes a token.
pub fn remove_args(path: &PassPath) -> (r: Vec<String>)
    ensures
        r.deep_view() == seq!["rm"@, "--force"@, path@],
{
    let r: Vec<String> = vec![
        String::from_str("rm"),
        String::from_str("--force"),
        String::from_str(path.as_str()),
    ];
    proof {
        assert(r.deep_view() =~= seq!["rm"@, "--force"@, path@]);
    }
    r
}

/// What the insert subcommand is fed on its input stream: the token and its
/// confirmation, each on a line of its own, matching the tool's interactive
/// insert protocol.
pub fn insert_stdin(token: &str) -> (r: String)
    ensures
        r@ == token@ + seq!['\n'] + token@ + seq!['\n'],
{
    proof {
        reveal_strlit("\n");
        assert("\n"@ =~= seq!['\n']);
    }
    let mut out = String::from_str(token);
    out.append("\n");
    out.append(token);
    out.append("\n");
    proof {
        assert(out@ =~= token@ + seq!['\n'] + token@ + seq!['\n']);
    }
    out
}

/// The shared failure-detection rule of every subcommand: a terminated
/// process succeeded exactly when its exit status did, and a failure carries
/// the tool's own output, trimmed of trailing whitespace, translated into
/// nothing else.
pub fn command_outcome(success: bool, stdout: &str, stderr: &str) -> (r: Result<(), Error>)
    ensures
        r is Ok <==> success,
        !success ==> (r matches Err(e) && e matches Error::ExecNonZero { stdout: so, stderr: se }
            && so@ == trim_end_spec(stdout@) && se@ == trim_end_spec(stderr@)),
{
    if success {
        Ok(())
    } else {
        Err(Error::ExecNonZero { stdout: trim_end_str(stdout), stderr: trim_end_str(stderr) })
    }
}

/// The token a successful show subcommand printed: its output decoded as
/// text, with trailing whitespace trimmed off, or a distinct error when the
/// output is not valid text.
pub fn token_from_stdout(stdout: Vec<u8>) -> (r: Result<String, Error>)
    ensures
        r is Ok <==> valid_utf8(stdout@),
        r matches Ok(t) ==> t@ == trim_end_spec(decode_utf8(stdout@)),
        !valid_utf8(stdout@) ==> r == Err::<String, Error>(Error::NonUtf8Password),
{
    match string_from_utf8(stdout) {
        Some(s) => Ok(trim_end_str(s.as_str())),
        None => Err(Error::NonUtf8Password),
    }
}

/// The pure half of the store/read round trip: storing writes the token
/// followed by a line break, and reading trims the trailing whitespace back
/// off, so every stored token reads back unchanged modulo that trimming.
pub proof fn lemma_trim_restores_token(token: Seq<char>, nl: char)
    ensures
        is_white(nl) ==> trim_end_spec(token.push(nl)) == trim_end_spec(token),
{
    assert(token.push(nl).drop_last() =~= token);
}

} // verus!
