//! The interface to the version-control backend: what the library asks of
//! it, and what it answers.
//!
//! The library performs none of these operations. It says which one comes
//! next; its caller performs it on the repository and reports the answer.

use crate::git::ChangeEntry;
use crate::remote::Upstream;
use vstd::prelude::*;

verus! {

/// Which repository a request is about. `S` is the type of text: `String`
/// in values, `Seq<char>` in contracts.
#[derive(Debug, Clone, PartialEq, Eq)]
pub enum Repo<S> {
    /// The repository being watched.
    Root,
    /// The submodule registered at this path, relative to the root.
    Submodule(S),
}

/// Which paths a status read reports.
#[derive(Debug, Clone, Copy, PartialEq, Eq, Structural)]
pub struct StatusQuery {
    /// Compare the working tree only, not the index against the head.
    pub workdir_only: bool,
    pub include_untracked: bool,
    pub include_ignored: bool,
    pub include_unmodified: bool,
    pub include_unreadable: bool,
}

/// One operation asked of the backend. `S` is the type of text: `String`
/// in values, `Seq<char>` in contracts.
#[derive(Debug, Clone, PartialEq, Eq)]
pub enum Request<S> {
    /// Open the repository at `path`; where there is none, create one.
    /// Answered by `Done` or `Failed`.
    OpenOrInit { path: S },
    /// Open the repository of the submodule at `path`. Answered by `Done`
    /// or `Failed`.
    Open { path: S },
    /// Read the status. Answered by `Status` or `Failed`.
    Status { repo: Repo<S>, query: StatusQuery },
    /// List the paths of the registered submodules. Answered by
    /// `Submodules` or `Failed`.
    ListSubmodules { repo: Repo<S> },
    /// Add the file at `path` to the index. Answered by `Done` or `Failed`.
    Stage { repo: Repo<S>, path: S },
    /// Remove `path` from the index. Answered by `Done` or `Failed`.
    Unstage { repo: Repo<S>, path: S },
    /// Record the current commit of the submodule at `path` in the index.
    /// Answered by `Done` or `Failed`.
    StageSubmodule { repo: Repo<S>, path: S },
    /// Read one entry of the configuration. Answered by `Value`, with
    /// `None` where the entry is unset, or `Failed`.
    ConfigGet { repo: Repo<S>, key: S },
    /// Read the commit that the head points at. Answered by `Head`, with
    /// `None` where the history is empty, or `Failed`.
    Head { repo: Repo<S> },
    /// Write the index as a tree and commit it with `parent` as its only
    /// parent, or as a first commit without one, then move the head to the
    /// new commit. `name` and `email` are both author and committer.
    /// Answered by `Committed` or `Failed`.
    Commit { repo: Repo<S>, message: S, name: S, email: S, parent: Option<S> },
    /// Read the short name of the head. Answered by `Value`, with `None`
    /// where the head has no short name, or `Failed` where there is no
    /// head.
    HeadName { repo: Repo<S> },
    /// Read the upstream of the local branch `branch`. Answered by
    /// `Upstream`, or `Failed` where there is no such branch.
    Upstream { repo: Repo<S>, branch: S },
    /// Push `refspec` to `remote`. Answered by `Done` or `Failed`.
    Push { repo: Repo<S>, remote: S, refspec: S },
}

/// The answer to a request.
#[derive(Debug, Clone, PartialEq, Eq)]
pub enum Reply {
    /// The operation succeeded and has nothing to report.
    Done,
    /// The operation failed, for this reason.
    Failed(String),
    /// The changed paths.
    Status(Vec<ChangeEntry>),
    /// The paths of the registered submodules.
    Submodules(Vec<String>),
    /// The value of a configuration entry, if it is set; the short name of
    /// the head, if it has one.
    Value(Option<String>),
    /// The id of the head commit, if there is one.
    Head(Option<String>),
    /// The id of the new commit.
    Committed(String),
    /// The upstream of a branch.
    Upstream(Upstream),
}

impl View for Repo<String> {
    type V = Repo<Seq<char>>;

    open spec fn view(&self) -> Repo<Seq<char>> {
        match self {
            Repo::Root => Repo::Root,
            Repo::Submodule(path) => Repo::Submodule(path@),
        }
    }
}

/// The text of `s`, if there is one.
pub open spec fn opt_text(s: Option<String>) -> Option<Seq<char>> {
    match s {
        Some(s) => Some(s@),
        None => None,
    }
}

impl View for Request<String> {
    type V = Request<Seq<char>>;

    open spec fn view(&self) -> Request<Seq<char>> {
        match self {
            Request::OpenOrInit { path } => Request::OpenOrInit { path: path@ },
            Request::Open { path } => Request::Open { path: path@ },
            Request::Status { repo, query } => Request::Status { repo: repo@, query: *query },
            Request::ListSubmodules { repo } => Request::ListSubmodules { repo: repo@ },
            Request::Stage { repo, path } => Request::Stage { repo: repo@, path: path@ },
            Request::Unstage { repo, path } => Request::Unstage { repo: repo@, path: path@ },
            Request::StageSubmodule { repo, path } => Request::StageSubmodule {
                repo: repo@,
                path: path@,
            },
            Request::ConfigGet { repo, key } => Request::ConfigGet { repo: repo@, key: key@ },
            Request::Head { repo } => Request::Head { repo: repo@ },
            Request::Commit { repo, message, name, email, parent } => Request::Commit {
                repo: repo@,
                message: message@,
                name: name@,
                email: email@,
                parent: opt_text(*parent),
            },
            Request::HeadName { repo } => Request::HeadName { repo: repo@ },
            Request::Upstream { repo, branch } => Request::Upstream {
                repo: repo@,
                branch: branch@,
            },
            Request::Push { repo, remote, refspec } => Request::Push {
                repo: repo@,
                remote: remote@,
                refspec: refspec@,
            },
        }
    }
}

impl Reply {
    /// Why the operation failed, where the answer says so.
    pub open spec fn reason(self) -> Option<String> {
        match self {
            Reply::Failed(why) => Some(why),
            _ => None,
        }
    }

    /// Why the operation failed, where the answer says so.
    pub fn into_reason(self) -> (why: Option<String>)
        ensures
            why == self.reason(),
    {
        match self {
            Reply::Failed(why) => Some(why),
            _ => None,
        }
    }
}

} // verus!
