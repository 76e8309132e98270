//! The operations that a run asks its caller to perform on the file system,
//! and what the caller hands back for each.

use crate::config::Permissions;
use crate::error::{EnvFileError, ErrorView, IoErrorKind, IoFailure, IoFailureView};
use crate::path::{parent_of, path_parent};
use vstd::prelude::*;

verus! {

/// One operation on the file system.
#[derive(Debug, PartialEq, Eq)]
pub enum Action {
    /// Create the directory `path` and every missing directory above it.
    CreateDirAll { path: String },
    /// Make `dst` a second name of the file `src`.
    HardLink { src: String, dst: String },
    /// Make `dst` a symbolic link that points to `src`.
    SymLink { src: String, dst: String },
    /// Give `path` the permission bits `permission`.
    SetPermissions { path: String, permission: Permissions },
}

/// The mathematical value of an [`Action`].
pub enum ActionView {
    CreateDirAll { path: Seq<char> },
    HardLink { src: Seq<char>, dst: Seq<char> },
    SymLink { src: Seq<char>, dst: Seq<char> },
    SetPermissions { path: Seq<char>, permission: Permissions },
}

impl View for Action {
    type V = ActionView;

    open spec fn view(&self) -> ActionView {
        match self {
            Action::CreateDirAll { path } => ActionView::CreateDirAll { path: path@ },
            Action::HardLink { src, dst } => ActionView::HardLink { src: src@, dst: dst@ },
            Action::SymLink { src, dst } => ActionView::SymLink { src: src@, dst: dst@ },
            Action::SetPermissions { path, permission } => ActionView::SetPermissions {
                path: path@,
                permission: *permission,
            },
        }
    }
}

/// The value of what the caller hands back for an operation: nothing on
/// success, the failure otherwise.
pub open spec fn outcome_view(outcome: Result<(), IoFailure>) -> Result<(), IoFailureView> {
    match outcome {
        Ok(_) => Ok(()),
        Err(f) => Err(f@),
    }
}

/// The value of what the caller hands back for a path that it looked up.
pub open spec fn lookup_view(lookup: Result<String, IoFailure>) -> Result<
    Seq<char>,
    IoFailureView,
> {
    match lookup {
        Ok(p) => Ok(p@),
        Err(f) => Err(f@),
    }
}

/// The value of how a task or a run ended.
pub open spec fn result_view(result: Result<(), EnvFileError>) -> Result<(), ErrorView> {
    match result {
        Ok(_) => Ok(()),
        Err(e) => Err(e@),
    }
}

/// How the creation of the directories ended, once "it was there already"
/// counts as success.
pub open spec fn dirs_settled(outcome: Result<(), IoFailureView>) -> Result<(), ErrorView> {
    match outcome {
        Ok(_) => Ok(()),
        Err(f) => if f.kind == IoErrorKind::AlreadyExists {
            Ok(())
        } else {
            Err(ErrorView::Io(f))
        },
    }
}

/// The operation that makes room for the destination `p`: it creates the
/// directory that `p` lies in, with every missing directory above it.
pub fn create_dir_all(p: &str) -> (res: Action)
    ensures
        res@ == (ActionView::CreateDirAll { path: path_parent(p@) }),
{
    Action::CreateDirAll { path: parent_of(p) }
}

/// Judges the outcome of [`create_dir_all`]'s operation: a failure that says
/// the directory was there already is no failure, any other is handed on.
pub fn created_dir_all(outcome: Result<(), IoFailure>) -> (res: Result<(), EnvFileError>)
    ensures
        result_view(res) == dirs_settled(outcome_view(outcome)),
{
    match outcome {
        Ok(()) => Ok(()),
        Err(f) => {
            if f.kind == IoErrorKind::AlreadyExists {
                Ok(())
            } else {
                Err(EnvFileError::IoError(f))
            }
        },
    }
}

} // verus!
