//! Dispatch of one incoming request to a secret-store operation.
//!
//! Every request resolves its storage path the same way, whatever its action;
//! the action then picks which subcommand runs against that path. A request
//! whose path configuration is faulty is rejected before the action is even
//! looked at, and an action the helper does not know is rejected after the
//! path resolved, so that nothing external is ever spawned for it.

use vstd::prelude::*;

use crate::keychain::insert_stdin;
use crate::path::PassPath;
use crate::path::PathError;
use crate::path::opt_view;
use crate::path::path_from_args;
use crate::path::resolve_spec;

verus! {

/// The action an incoming request asks for, reduced to what dispatch decides
/// on.
pub enum ActionKind {
    /// Store the supplied token or, without one, let the user edit the entry
    /// interactively.
    Login(Option<String>),
    /// Read the registry's token back.
    Get,
    /// Remove the registry's token.
    Logout,
    /// Any other action the protocol may grow.
    Unknown,
}

/// The secret-store operation a request resolves to.
pub enum PlannedOp {
    /// Feed `stdin` to the forced-insert subcommand.
    Insert { stdin: String },
    /// Run the interactive edit subcommand.
    Edit,
    /// Run the show subcommand and read the token off its output.
    Show,
    /// Run the forced remove subcommand.
    Remove,
}

/// What one request comes down to: a storage path, and the operation to run
/// against it.
pub struct Plan {
    /// Where the registry's token lives in the store.
    pub path: PassPath,
    /// Which subcommand the request needs.
    pub op: PlannedOp,
}

/// Why a request is rejected without any external process being spawned.
#[derive(Debug, Clone, Copy, PartialEq, Eq, Structural)]
pub enum DispatchError {
    /// The operator-supplied path configuration is faulty.
    Path(PathError),
    /// The requested action is not one the helper supports.
    OperationNotSupported,
}

/// Decide what a request needs: the storage path all actions share, and the
/// subcommand the action maps to. Path faults are reported first; an unknown
/// action is rejected once the path resolved.
pub fn plan_request(action: ActionKind, args: &Vec<String>, index_url: &str, name: Option<
    &str,
>) -> (r: Result<Plan, DispatchError>)
    ensures
        match r {
            Ok(plan) => {
                &&& resolve_spec(args.deep_view(), opt_view(name), index_url@) == Ok::<
                    Seq<char>,
                    PathError,
                >(plan.path@)
                &&& plan.path.wf()
                &&& match action {
                    ActionKind::Login(Some(t)) => plan.op matches PlannedOp::Insert { stdin }
                        && stdin@ == t@ + seq!['\n'] + t@ + seq!['\n'],
                    ActionKind::Login(None) => plan.op is Edit,
                    ActionKind::Get => plan.op is Show,
                    ActionKind::Logout => plan.op is Remove,
                    ActionKind::Unknown => false,
                }
            },
            Err(DispatchError::Path(pe)) => resolve_spec(
                args.deep_view(),
                opt_view(name),
                index_url@,
            ) == Err::<Seq<char>, PathError>(pe),
            Err(DispatchError::OperationNotSupported) => action is Unknown && resolve_spec(
                args.deep_view(),
                opt_view(name),
                index_url@,
            ) is Ok,
        },
{
    let path = match path_from_args(args, index_url, name) {
        Ok(p) => p,
        Err(e) => {
            return Err(DispatchError::Path(e));
        },
    };
    match action {
        ActionKind::Login(Some(token)) => Ok(
            Plan { path, op: PlannedOp::Insert { stdin: insert_stdin(token.as_str()) } },
        ),
        ActionKind::Login(None) => Ok(Plan { path, op: PlannedOp::Edit }),
        ActionKind::Get => Ok(Plan { path, op: PlannedOp::Show }),
        ActionKind::Logout => Ok(Plan { path, op: PlannedOp::Remove }),
        ActionKind::Unknown => Err(DispatchError::OperationNotSupported),
    }
}

/// The wording a rejected path configuration surfaces to the transport.
pub fn path_error_message(e: &PathError) -> (r: String)
    ensures
        e is TooManyArguments ==> r@
            == "too many arguments specified in cargo credential provider config"@,
        e is AbsolutePathRejected ==> r@
            == "pass cargo credential provider cannot be configured with absolute path, specify path relative to password store root"@,
{
    match e {
        PathError::TooManyArguments => String::from_str(
            "too many arguments specified in cargo credential provider config",
        ),
        PathError::AbsolutePathRejected => String::from_str(
            "pass cargo credential provider cannot be configured with absolute path, specify path relative to password store root",
        ),
    }
}

} // verus!
