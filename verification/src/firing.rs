//! The commit policy: what one firing of the debouncer does to the
//! repository, step by step.
//!
//! A [`Firing`] says which operation the backend is to perform next; the
//! caller performs it and reports the answer with [`Firing::step`]. This
//! goes on until the firing is finished and holds its [`Outcome`].

use crate::backend::{opt_text, Reply, Repo, Request};
use crate::git::{
    changed_files_query, commit_message, create_commit, fallback_identity, get_changed_files,
    get_commit_message, open_or_create_repo, stage_changes, stage_plan, text_or, ChangeEntry,
    EventContext, StageOp,
};
use crate::remote::{
    local_branch, push_target, refspec_for, target_branch, target_remote, Upstream,
};
use vstd::prelude::*;

verus! {

/// Where a firing stands: which answer it waits for.
#[derive(Debug, Clone, Copy, PartialEq, Eq, Structural)]
pub enum Phase {
    /// The root repository is being opened or created.
    Opening,
    /// The status of the root is being read.
    RootStatus,
    /// The submodules of the root are being listed, to commit in each.
    Submodules,
    /// The repository of a submodule is being opened.
    SubOpening,
    /// The status of a submodule is being read.
    SubStatus,
    /// The submodules of the repository to commit in are being listed, to
    /// tell them from files when staging.
    Listing,
    /// A path is being staged.
    Staging,
    /// The configured user name is being read.
    UserName,
    /// The configured user email is being read.
    UserEmail,
    /// The head commit is being read.
    Head,
    /// The commit is being created.
    Committing,
    /// The short name of the head is being read, to push.
    BranchName,
    /// The upstream of the branch is being read, to push.
    Upstream,
    /// The push is under way.
    Pushing,
    /// Nothing is left to do.
    Finished,
}

/// What went wrong without ending the firing.
#[derive(Debug, Clone, PartialEq, Eq)]
pub enum Trouble {
    /// The submodules could not be listed: none was committed in.
    ListSubmodules,
    /// The repository of the submodule could not be opened.
    OpenSubmodule,
    /// The status of the submodule could not be read.
    SubmoduleStatus,
    /// The path could not be staged: the commit is made without it.
    Stage(StageOp),
    /// No commit could be created in the submodule.
    Commit,
    /// The commit in the submodule could not be pushed.
    Push,
}

/// One failure that was passed over, for the log.
#[derive(Debug, Clone, PartialEq, Eq)]
pub struct Incident {
    pub repo: Repo<String>,
    pub trouble: Trouble,
    /// What the backend gave as the reason, if it gave one.
    pub reason: Option<String>,
}

/// What became of the push of a commit.
#[derive(Debug, Clone, PartialEq, Eq)]
pub enum PushOutcome {
    /// The watcher does not push.
    NotRequested,
    /// The push went through.
    Pushed,
    /// The push failed; the commit stays.
    Failed(Option<String>),
}

/// How a firing ended, for the root repository.
#[derive(Debug, Clone, PartialEq, Eq)]
pub enum Outcome {
    /// The repository could be neither opened nor created.
    OpenFailed(Option<String>),
    /// The status could not be read.
    StatusFailed(Option<String>),
    /// Nothing has changed: no commit, and no error.
    NoChanges,
    /// The commit could not be created.
    CommitFailed(Option<String>),
    /// The commit `id` was created.
    Committed { id: String, push: PushOutcome },
}

/// The state of a firing, as contracts speak of it.
pub struct Progress {
    pub context: EventContext,
    pub phase: Phase,
    /// Whether the repository at work is a submodule, not the root.
    pub in_submodule: bool,
    /// The submodules of the root.
    pub submodules: Seq<String>,
    /// How many submodules of the root are done with.
    pub cursor: nat,
    /// The status of the root.
    pub root_entries: Seq<ChangeEntry>,
    /// The status of the submodule at work.
    pub sub_entries: Seq<ChangeEntry>,
    /// The staging planned for the repository at work.
    pub ops: Seq<StageOp>,
    /// How many of `ops` are done with.
    pub stage_cursor: nat,
    pub user_name: Option<String>,
    pub user_email: Option<String>,
    pub head: Option<String>,
    /// The commit just created, while it is being pushed.
    pub committed: Option<String>,
    pub push_head: Option<String>,
    pub upstream: Upstream,
    /// The failures passed over so far, in order.
    pub incidents: Seq<Incident>,
    /// How the firing ended, once it has.
    pub outcome: Option<Outcome>,
}

impl Progress {
    /// The state in which a firing for `context` starts.
    pub open spec fn start(context: EventContext) -> Progress {
        Progress {
            context,
            phase: Phase::Opening,
            in_submodule: false,
            submodules: Seq::empty(),
            cursor: 0,
            root_entries: Seq::empty(),
            sub_entries: Seq::empty(),
            ops: Seq::empty(),
            stage_cursor: 0,
            user_name: None,
            user_email: None,
            head: None,
            committed: None,
            push_head: None,
            upstream: Upstream::Missing,
            incidents: Seq::empty(),
            outcome: None,
        }
    }

    /// The repository at work.
    pub open spec fn repo(self) -> Repo<String> {
        if self.in_submodule {
            Repo::Submodule(self.submodules[self.cursor as int])
        } else {
            Repo::Root
        }
    }

    /// The status of the repository at work.
    pub open spec fn entries(self) -> Seq<ChangeEntry> {
        if self.in_submodule {
            self.sub_entries
        } else {
            self.root_entries
        }
    }

    /// Whether the firing is in the course of committing in the repository
    /// at work: from the listing of its submodules to the push.
    pub open spec fn committing(self) -> bool {
        match self.phase {
            Phase::Listing
            | Phase::Staging
            | Phase::UserName
            | Phase::UserEmail
            | Phase::Head
            | Phase::Committing
            | Phase::BranchName
            | Phase::Upstream
            | Phase::Pushing => true,
            _ => false,
        }
    }

    /// What holds of every state that a firing goes through.
    pub open spec fn wf(self) -> bool {
        &&& self.cursor <= self.submodules.len()
        &&& self.in_submodule ==> self.cursor < self.submodules.len()
        &&& self.phase == Phase::Staging ==> self.stage_cursor < self.ops.len()
        &&& (self.phase == Phase::SubOpening || self.phase == Phase::SubStatus)
            ==> self.in_submodule
        &&& (self.phase == Phase::Opening || self.phase == Phase::RootStatus || self.phase
            == Phase::Submodules || self.phase == Phase::Finished) ==> !self.in_submodule
        &&& self.committing() ==> self.entries().len() > 0
        &&& (self.phase == Phase::BranchName || self.phase == Phase::Upstream || self.phase
            == Phase::Pushing) ==> {
            &&& self.committed is Some
            &&& self.context.config.auto_push
        }
        &&& (self.phase == Phase::Finished) == (self.outcome is Some)
        &&& (self.phase != Phase::Opening && self.phase != Phase::RootStatus && self.phase
            != Phase::Finished) ==> self.root_entries.len() > 0
        &&& (self.committing() && !self.in_submodule) ==> self.cursor == self.submodules.len()
    }

    /// In the phase `phase`, all else as it is.
    pub open spec fn at(self, phase: Phase) -> Progress {
        Progress { phase, ..self }
    }

    /// With one more failure passed over, in the repository at work.
    pub open spec fn noting(self, trouble: Trouble, reason: Option<String>) -> Progress {
        Progress {
            incidents: self.incidents.push(Incident { repo: self.repo(), trouble, reason }),
            ..self
        }
    }

    /// Finished, with `outcome`.
    pub open spec fn finish(self, outcome: Outcome) -> Progress {
        Progress { phase: Phase::Finished, in_submodule: false, outcome: Some(outcome), ..self }
    }

    /// Turning to the submodule number `k` of the root; past the last one,
    /// to the commit in the root itself.
    pub open spec fn turn_to(self, k: nat) -> Progress {
        if k < self.submodules.len() {
            Progress { phase: Phase::SubOpening, in_submodule: true, cursor: k, ..self }
        } else {
            Progress {
                phase: Phase::Listing,
                in_submodule: false,
                cursor: self.submodules.len(),
                ..self
            }
        }
    }

    /// Done with the submodule at work, turning to what comes after it.
    pub open spec fn skip(self) -> Progress {
        self.turn_to(self.cursor + 1)
    }

    /// Staging the path at `k` of the plan; past the last one, going on to
    /// the identity.
    pub open spec fn stage_from(self, k: nat) -> Progress {
        if k < self.ops.len() {
            Progress { phase: Phase::Staging, stage_cursor: k, ..self }
        } else {
            Progress { phase: Phase::UserName, stage_cursor: k, ..self }
        }
    }

    /// No commit could be created in the repository at work. In a submodule
    /// that is passed over; in the root it ends the firing.
    pub open spec fn commit_failed(self, reason: Option<String>) -> Progress {
        if self.in_submodule {
            self.noting(Trouble::Commit, reason).skip()
        } else {
            self.finish(Outcome::CommitFailed(reason))
        }
    }

    /// The commit `id` was created in the repository at work, and `push`
    /// became of its push. A failed push is passed over in a submodule and
    /// told in the outcome of the root.
    pub open spec fn commit_done(self, id: String, push: PushOutcome) -> Progress {
        if self.in_submodule {
            match push {
                PushOutcome::Failed(reason) => self.noting(Trouble::Push, reason).skip(),
                _ => self.skip(),
            }
        } else {
            self.finish(Outcome::Committed { id, push })
        }
    }

    /// The push of the commit just created ended as `push`.
    pub open spec fn push_done(self, push: PushOutcome) -> Progress {
        match self.committed {
            Some(id) => self.commit_done(id, push),
            None => self.commit_failed(None),
        }
    }

    /// The state after `reply` has answered the request of this state. An
    /// answer that does not fit the request counts as its failure.
    pub open spec fn next(self, reply: Reply) -> Progress {
        match self.phase {
            Phase::Opening => match reply {
                Reply::Done => self.at(Phase::RootStatus),
                _ => self.finish(Outcome::OpenFailed(reply.reason())),
            },
            Phase::RootStatus => match reply {
                Reply::Status(entries) => if entries@.len() == 0 {
                    self.finish(Outcome::NoChanges)
                } else {
                    Progress { phase: Phase::Submodules, root_entries: entries@, ..self }
                },
                _ => self.finish(Outcome::StatusFailed(reply.reason())),
            },
            Phase::Submodules => match reply {
                Reply::Submodules(paths) => (Progress { submodules: paths@, ..self }).turn_to(0),
                _ => self.noting(Trouble::ListSubmodules, reply.reason()).turn_to(
                    self.submodules.len(),
                ),
            },
            Phase::SubOpening => match reply {
                Reply::Done => self.at(Phase::SubStatus),
                _ => self.noting(Trouble::OpenSubmodule, reply.reason()).skip(),
            },
            Phase::SubStatus => match reply {
                Reply::Status(entries) => if entries@.len() == 0 {
                    self.skip()
                } else {
                    Progress { phase: Phase::Listing, sub_entries: entries@, ..self }
                },
                _ => self.noting(Trouble::SubmoduleStatus, reply.reason()).skip(),
            },
            Phase::Listing => match reply {
                Reply::Submodules(paths) => (Progress {
                    ops: stage_plan(self.entries(), paths@),
                    ..self
                }).stage_from(0),
                _ => self.commit_failed(reply.reason()),
            },
            Phase::Staging => match reply {
                Reply::Done => self.stage_from(self.stage_cursor + 1),
                _ => self.noting(
                    Trouble::Stage(self.ops[self.stage_cursor as int]),
                    reply.reason(),
                ).stage_from(self.stage_cursor + 1),
            },
            Phase::UserName => match reply {
                Reply::Value(name) => Progress { phase: Phase::UserEmail, user_name: name, ..self },
                _ => self.commit_failed(reply.reason()),
            },
            Phase::UserEmail => match reply {
                Reply::Value(email) => Progress { phase: Phase::Head, user_email: email, ..self },
                _ => self.commit_failed(reply.reason()),
            },
            Phase::Head => match reply {
                Reply::Head(head) => Progress { phase: Phase::Committing, head, ..self },
                _ => self.commit_failed(reply.reason()),
            },
            Phase::Committing => match reply {
                Reply::Committed(id) => if self.context.config.auto_push {
                    Progress { phase: Phase::BranchName, committed: Some(id), ..self }
                } else {
                    self.commit_done(id, PushOutcome::NotRequested)
                },
                _ => self.commit_failed(reply.reason()),
            },
            Phase::BranchName => match reply {
                Reply::Value(name) => Progress { phase: Phase::Upstream, push_head: name, ..self },
                _ => self.push_done(PushOutcome::Failed(reply.reason())),
            },
            Phase::Upstream => match reply {
                Reply::Upstream(upstream) => Progress { phase: Phase::Pushing, upstream, ..self },
                _ => self.push_done(PushOutcome::Failed(reply.reason())),
            },
            Phase::Pushing => match reply {
                Reply::Done => self.push_done(PushOutcome::Pushed),
                _ => self.push_done(PushOutcome::Failed(reply.reason())),
            },
            Phase::Finished => self,
        }
    }

    /// What the backend is asked to do in this state; nothing once the
    /// firing is finished.
    pub open spec fn request(self) -> Option<Request<Seq<char>>> {
        let repo = self.repo()@;
        match self.phase {
            Phase::Opening => Some(Request::OpenOrInit { path: self.context.repo_path@ }),
            Phase::RootStatus | Phase::SubStatus => Some(
                Request::Status { repo, query: changed_files_query() },
            ),
            Phase::Submodules | Phase::Listing => Some(Request::ListSubmodules { repo }),
            Phase::SubOpening => Some(Request::Open { path: self.submodules[self.cursor as int]@ }),
            Phase::Staging => Some(
                match self.ops[self.stage_cursor as int] {
                    StageOp::Add(path) => Request::Stage { repo, path: path@ },
                    StageOp::Remove(path) => Request::Unstage { repo, path: path@ },
                    StageOp::Submodule(path) => Request::StageSubmodule { repo, path: path@ },
                },
            ),
            Phase::UserName => Some(Request::ConfigGet { repo, key: "user.name"@ }),
            Phase::UserEmail => Some(Request::ConfigGet { repo, key: "user.email"@ }),
            Phase::Head => Some(Request::Head { repo }),
            Phase::Committing => Some(
                Request::Commit {
                    repo,
                    message: commit_message(self.entries()),
                    name: text_or(opt_text(self.user_name), fallback_identity()),
                    email: text_or(opt_text(self.user_email), fallback_identity()),
                    parent: opt_text(self.head),
                },
            ),
            Phase::BranchName => Some(Request::HeadName { repo }),
            Phase::Upstream => Some(
                Request::Upstream { repo, branch: local_branch(opt_text(self.push_head)) },
            ),
            Phase::Pushing => Some(
                Request::Push {
                    repo,
                    remote: target_remote(self.upstream),
                    refspec: refspec_for(target_branch(opt_text(self.push_head), self.upstream)),
                },
            ),
            Phase::Finished => None,
        }
    }
}

/// One firing under way: the state of the commit policy between two
/// operations of the backend.
pub struct Firing {
    context: EventContext,
    phase: Phase,
    in_submodule: bool,
    submodules: Vec<String>,
    cursor: usize,
    root_entries: Vec<ChangeEntry>,
    sub_entries: Vec<ChangeEntry>,
    ops: Vec<StageOp>,
    stage_cursor: usize,
    user_name: Option<String>,
    user_email: Option<String>,
    head: Option<String>,
    committed: Option<String>,
    push_head: Option<String>,
    upstream: Upstream,
    incidents: Vec<Incident>,
    outcome: Option<Outcome>,
}

impl View for Firing {
    type V = Progress;

    closed spec fn view(&self) -> Progress {
        Progress {
            context: self.context,
            phase: self.phase,
            in_submodule: self.in_submodule,
            submodules: self.submodules@,
            cursor: self.cursor as nat,
            root_entries: self.root_entries@,
            sub_entries: self.sub_entries@,
            ops: self.ops@,
            stage_cursor: self.stage_cursor as nat,
            user_name: self.user_name,
            user_email: self.user_email,
            head: self.head,
            committed: self.committed,
            push_head: self.push_head,
            upstream: self.upstream,
            incidents: self.incidents@,
            outcome: self.outcome,
        }
    }
}

/// Starts the firing for `context`. Its first request opens the repository
/// at `context.repo_path`.
pub fn handle_event(context: EventContext) -> (firing: Firing)
    ensures
        firing@ == Progress::start(context),
{
    Firing {
        context,
        phase: Phase::Opening,
        in_submodule: false,
        submodules: Vec::new(),
        cursor: 0,
        root_entries: Vec::new(),
        sub_entries: Vec::new(),
        ops: Vec::new(),
        stage_cursor: 0,
        user_name: None,
        user_email: None,
        head: None,
        committed: None,
        push_head: None,
        upstream: Upstream::Missing,
        incidents: Vec::new(),
        outcome: None,
    }
}

impl Firing {
    #[verifier::type_invariant]
    spec fn inv(self) -> bool {
        self@.wf()
    }

    /// Where the firing stands.
    pub fn phase(&self) -> (phase: Phase)
        ensures
            phase == self@.phase,
            self@.wf(),
    {
        proof {
            use_type_invariant(self);
        }
        self.phase
    }

    /// Whether nothing is left to do.
    pub fn is_finished(&self) -> (finished: bool)
        ensures
            finished == (self@.phase == Phase::Finished),
            finished == (self@.outcome is Some),
    {
        proof {
            use_type_invariant(self);
        }
        match self.phase {
            Phase::Finished => true,
            _ => false,
        }
    }

    /// How the firing ended, once it has.
    pub fn outcome(&self) -> (outcome: &Option<Outcome>)
        ensures
            *outcome == self@.outcome,
    {
        &self.outcome
    }

    /// The failures passed over so far, in order.
    pub fn incidents(&self) -> (incidents: &Vec<Incident>)
        ensures
            incidents@ == self@.incidents,
    {
        &self.incidents
    }

    fn repo(&self) -> (repo: Repo<String>)
        ensures
            repo == self@.repo(),
    {
        proof {
            use_type_invariant(self);
        }
        if self.in_submodule {
            Repo::Submodule(self.submodules[self.cursor].clone())
        } else {
            Repo::Root
        }
    }

    fn entries(&self) -> (entries: &Vec<ChangeEntry>)
        ensures
            entries@ == self@.entries(),
    {
        if self.in_submodule {
            &self.sub_entries
        } else {
            &self.root_entries
        }
    }

    /// What the backend is to do next; nothing once the firing is finished.
    pub fn request(&self) -> (request: Option<Request<String>>)
        ensures
            match request {
                Some(r) => self@.request() == Some(r@),
                None => self@.request() is None,
            },
    {
        proof {
            use_type_invariant(self);
        }
        match self.phase {
            Phase::Opening => Some(open_or_create_repo(self.context.repo_path.as_str())),
            Phase::RootStatus | Phase::SubStatus => Some(get_changed_files(self.repo())),
            Phase::Submodules | Phase::Listing => Some(
                Request::ListSubmodules { repo: self.repo() },
            ),
            Phase::SubOpening => Some(
                Request::Open { path: self.submodules[self.cursor].clone() },
            ),
            Phase::Staging => Some(
                match &self.ops[self.stage_cursor] {
                    StageOp::Add(path) => Request::Stage { repo: self.repo(), path: path.clone() },
                    StageOp::Remove(path) => Request::Unstage {
                        repo: self.repo(),
                        path: path.clone(),
                    },
                    StageOp::Submodule(path) => Request::StageSubmodule {
                        repo: self.repo(),
                        path: path.clone(),
                    },
                },
            ),
            Phase::UserName => Some(
                Request::ConfigGet { repo: self.repo(), key: String::from_str("user.name") },
            ),
            Phase::UserEmail => Some(
                Request::ConfigGet { repo: self.repo(), key: String::from_str("user.email") },
            ),
            Phase::Head => Some(Request::Head { repo: self.repo() }),
            Phase::Committing => Some(
                create_commit(
                    self.repo(),
                    Some(get_commit_message(self.entries())),
                    &self.user_name,
                    &self.user_email,
                    &self.head,
                ),
            ),
            Phase::BranchName => Some(Request::HeadName { repo: self.repo() }),
            Phase::Upstream => {
                let branch = match &self.push_head {
                    Some(name) => name.clone(),
                    None => String::from_str("main"),
                };
                Some(Request::Upstream { repo: self.repo(), branch })
            },
            Phase::Pushing => {
                let head = match &self.push_head {
                    Some(name) => Some(name.as_str()),
                    None => None,
                };
                let target = push_target(head, &self.upstream);
                Some(
                    Request::Push {
                        repo: self.repo(),
                        remote: target.remote,
                        refspec: target.refspec,
                    },
                )
            },
            Phase::Finished => None,
        }
    }
}

fn copy_op(op: &StageOp) -> (copy: StageOp)
    ensures
        copy == *op,
{
    match op {
        StageOp::Add(path) => StageOp::Add(path.clone()),
        StageOp::Remove(path) => StageOp::Remove(path.clone()),
        StageOp::Submodule(path) => StageOp::Submodule(path.clone()),
    }
}

impl Firing {
    fn at(self, phase: Phase) -> (next: Firing)
        requires
            self@.at(phase).wf(),
        ensures
            next@ == self@.at(phase),
    {
        Firing { phase, ..self }
    }

    fn noting(self, trouble: Trouble, reason: Option<String>) -> (next: Firing)
        ensures
            next@ == self@.noting(trouble, reason),
    {
        proof {
            use_type_invariant(&self);
        }
        let repo = self.repo();
        let mut incidents = self.incidents;
        incidents.push(Incident { repo, trouble, reason });
        Firing { incidents, ..self }
    }

    fn finish(self, outcome: Outcome) -> (next: Firing)
        ensures
            next@ == self@.finish(outcome),
    {
        proof {
            use_type_invariant(&self);
        }
        Firing { phase: Phase::Finished, in_submodule: false, outcome: Some(outcome), ..self }
    }

    fn turn_to(self, k: usize) -> (next: Firing)
        requires
            self@.turn_to(k as nat).wf(),
        ensures
            next@ == self@.turn_to(k as nat),
    {
        if k < self.submodules.len() {
            Firing { phase: Phase::SubOpening, in_submodule: true, cursor: k, ..self }
        } else {
            let cursor = self.submodules.len();
            Firing { phase: Phase::Listing, in_submodule: false, cursor, ..self }
        }
    }

    fn skip(self) -> (next: Firing)
        requires
            self@.in_submodule,
            self@.phase != Phase::Finished,
        ensures
            next@ == self@.skip(),
    {
        proof {
            use_type_invariant(&self);
        }
        assert(self.cursor < self.submodules.len());
        let k = self.cursor + 1;
        self.turn_to(k)
    }

    fn stage_from(self, k: usize) -> (next: Firing)
        requires
            self@.stage_from(k as nat).wf(),
        ensures
            next@ == self@.stage_from(k as nat),
    {
        if k < self.ops.len() {
            Firing { phase: Phase::Staging, stage_cursor: k, ..self }
        } else {
            Firing { phase: Phase::UserName, stage_cursor: k, ..self }
        }
    }

    fn commit_failed(self, reason: Option<String>) -> (next: Firing)
        requires
            self@.phase != Phase::Finished,
        ensures
            next@ == self@.commit_failed(reason),
    {
        proof {
            use_type_invariant(&self);
        }
        if self.in_submodule {
            self.noting(Trouble::Commit, reason).skip()
        } else {
            self.finish(Outcome::CommitFailed(reason))
        }
    }

    fn commit_done(self, id: String, push: PushOutcome) -> (next: Firing)
        requires
            self@.phase != Phase::Finished,
        ensures
            next@ == self@.commit_done(id, push),
    {
        proof {
            use_type_invariant(&self);
        }
        if self.in_submodule {
            match push {
                PushOutcome::Failed(reason) => self.noting(Trouble::Push, reason).skip(),
                _ => self.skip(),
            }
        } else {
            self.finish(Outcome::Committed { id, push })
        }
    }

    fn push_done(self, push: PushOutcome) -> (next: Firing)
        requires
            self@.phase != Phase::Finished,
        ensures
            next@ == self@.push_done(push),
    {
        proof {
            use_type_invariant(&self);
        }
        match &self.committed {
            Some(id) => {
                let id = id.clone();
                self.commit_done(id, push)
            },
            None => self.commit_failed(None),
        }
    }

    /// The step from a phase that comes before the first submodule.
    fn step_root(self, reply: Reply) -> (next: Firing)
        requires
            self@.phase == Phase::Opening || self@.phase == Phase::RootStatus || self@.phase
                == Phase::Submodules,
        ensures
            next@ == self@.next(reply),
    {
        proof {
            use_type_invariant(&self);
        }
        match self.phase {
            Phase::Opening => match reply {
                Reply::Done => self.at(Phase::RootStatus),
                other => {
                    let why = other.into_reason();
                    self.finish(Outcome::OpenFailed(why))
                },
            },
            Phase::RootStatus => match reply {
                Reply::Status(entries) => {
                    if entries.len() == 0 {
                        self.finish(Outcome::NoChanges)
                    } else {
                        Firing { phase: Phase::Submodules, root_entries: entries, ..self }
                    }
                },
                other => {
                    let why = other.into_reason();
                    self.finish(Outcome::StatusFailed(why))
                },
            },
            Phase::Submodules => match reply {
                Reply::Submodules(paths) => {
                    if paths.len() > 0 {
                        Firing {
                            phase: Phase::SubOpening,
                            in_submodule: true,
                            submodules: paths,
                            cursor: 0,
                            ..self
                        }
                    } else {
                        Firing {
                            phase: Phase::Listing,
                            in_submodule: false,
                            submodules: paths,
                            cursor: 0,
                            ..self
                        }
                    }
                },
                other => {
                    let why = other.into_reason();
                    let k = self.submodules.len();
                    self.noting(Trouble::ListSubmodules, why).turn_to(k)
                },
            },
            _ => self,
        }
    }

    /// The step from a phase that looks into a submodule.
    fn step_submodule(self, reply: Reply) -> (next: Firing)
        requires
            self@.phase == Phase::SubOpening || self@.phase == Phase::SubStatus,
        ensures
            next@ == self@.next(reply),
    {
        proof {
            use_type_invariant(&self);
        }
        match self.phase {
            Phase::SubOpening => match reply {
                Reply::Done => self.at(Phase::SubStatus),
                other => {
                    let why = other.into_reason();
                    self.noting(Trouble::OpenSubmodule, why).skip()
                },
            },
            Phase::SubStatus => match reply {
                Reply::Status(entries) => {
                    if entries.len() == 0 {
                        self.skip()
                    } else {
                        Firing { phase: Phase::Listing, sub_entries: entries, ..self }
                    }
                },
                other => {
                    let why = other.into_reason();
                    self.noting(Trouble::SubmoduleStatus, why).skip()
                },
            },
            _ => self,
        }
    }

    /// The step from a phase that fills the index.
    fn step_staging(self, reply: Reply) -> (next: Firing)
        requires
            self@.phase == Phase::Listing || self@.phase == Phase::Staging,
        ensures
            next@ == self@.next(reply),
    {
        proof {
            use_type_invariant(&self);
        }
        match self.phase {
            Phase::Listing => match reply {
                Reply::Submodules(paths) => {
                    let ops = stage_changes(self.entries(), &paths);
                    let planned = Firing { ops, ..self };
                    planned.stage_from(0)
                },
                other => {
                    let why = other.into_reason();
                    self.commit_failed(why)
                },
            },
            Phase::Staging => match reply {
                Reply::Done => {
                    assert(self.stage_cursor < self.ops.len());
                    let k = self.stage_cursor + 1;
                    self.stage_from(k)
                },
                other => {
                    let why = other.into_reason();
                    assert(self.stage_cursor < self.ops.len());
                    let k = self.stage_cursor + 1;
                    let op = copy_op(&self.ops[self.stage_cursor]);
                    self.noting(Trouble::Stage(op), why).stage_from(k)
                },
            },
            _ => self,
        }
    }

    /// The step from a phase that leads from the index to the commit.
    fn step_commit(self, reply: Reply) -> (next: Firing)
        requires
            self@.phase == Phase::UserName || self@.phase == Phase::UserEmail || self@.phase
                == Phase::Head || self@.phase == Phase::Committing,
        ensures
            next@ == self@.next(reply),
    {
        proof {
            use_type_invariant(&self);
        }
        match self.phase {
            Phase::UserName => match reply {
                Reply::Value(name) => Firing { phase: Phase::UserEmail, user_name: name, ..self },
                other => {
                    let why = other.into_reason();
                    self.commit_failed(why)
                },
            },
            Phase::UserEmail => match reply {
                Reply::Value(email) => Firing { phase: Phase::Head, user_email: email, ..self },
                other => {
                    let why = other.into_reason();
                    self.commit_failed(why)
                },
            },
            Phase::Head => match reply {
                Reply::Head(head) => Firing { phase: Phase::Committing, head, ..self },
                other => {
                    let why = other.into_reason();
                    self.commit_failed(why)
                },
            },
            Phase::Committing => match reply {
                Reply::Committed(id) => {
                    if self.context.config.auto_push {
                        Firing { phase: Phase::BranchName, committed: Some(id), ..self }
                    } else {
                        self.commit_done(id, PushOutcome::NotRequested)
                    }
                },
                other => {
                    let why = other.into_reason();
                    self.commit_failed(why)
                },
            },
            _ => self,
        }
    }

    /// The step from a phase that pushes the commit.
    fn step_push(self, reply: Reply) -> (next: Firing)
        requires
            self@.phase == Phase::BranchName || self@.phase == Phase::Upstream || self@.phase
                == Phase::Pushing,
        ensures
            next@ == self@.next(reply),
    {
        proof {
            use_type_invariant(&self);
        }
        match self.phase {
            Phase::BranchName => match reply {
                Reply::Value(name) => Firing { phase: Phase::Upstream, push_head: name, ..self },
                other => {
                    let why = other.into_reason();
                    self.push_done(PushOutcome::Failed(why))
                },
            },
            Phase::Upstream => match reply {
                Reply::Upstream(upstream) => Firing { phase: Phase::Pushing, upstream, ..self },
                other => {
                    let why = other.into_reason();
                    self.push_done(PushOutcome::Failed(why))
                },
            },
            Phase::Pushing => match reply {
                Reply::Done => self.push_done(PushOutcome::Pushed),
                other => {
                    let why = other.into_reason();
                    self.push_done(PushOutcome::Failed(why))
                },
            },
            _ => self,
        }
    }

    /// Takes the answer to the request of this state and moves on. An
    /// answer that does not fit the request counts as its failure. A
    /// finished firing stays as it is.
    pub fn step(self, reply: Reply) -> (next: Firing)
        ensures
            next@ == self@.next(reply),
            next@.wf(),
    {
        let next = match self.phase {
            Phase::Opening | Phase::RootStatus | Phase::Submodules => self.step_root(reply),
            Phase::SubOpening | Phase::SubStatus => self.step_submodule(reply),
            Phase::Listing | Phase::Staging => self.step_staging(reply),
            Phase::UserName | Phase::UserEmail | Phase::Head | Phase::Committing => {
                self.step_commit(reply)
            },
            Phase::BranchName | Phase::Upstream | Phase::Pushing => self.step_push(reply),
            Phase::Finished => self,
        };
        proof {
            use_type_invariant(&next);
        }
        next
    }
}

/// A firing starts in a state that the policy allows.
pub proof fn start_is_wf(context: EventContext)
    ensures
        Progress::start(context).wf(),
{
}

/// Whatever the backend answers, the firing stays in a state that the
/// policy allows.
pub proof fn next_is_wf(state: Progress, reply: Reply)
    requires
        state.wf(),
    ensures
        state.next(reply).wf(),
{
}

/// An empty status of the root ends the firing at once: no commit, no
/// error, nothing to log.
pub proof fn empty_status_is_no_op(state: Progress, entries: Vec<ChangeEntry>)
    requires
        state.phase == Phase::RootStatus,
        entries@.len() == 0,
    ensures
        state.next(Reply::Status(entries)).outcome == Some(Outcome::NoChanges),
        state.next(Reply::Status(entries)).request() is None,
        state.next(Reply::Status(entries)).incidents == state.incidents,
{
}

/// A commit is asked for only in a repository whose status holds at least
/// one changed path, and its message describes that status.
pub proof fn commit_needs_changes(state: Progress)
    requires
        state.wf(),
        state.request() is Some,
        state.request()->0 is Commit,
    ensures
        state.entries().len() > 0,
        state.request()->0->message == commit_message(state.entries()),
{
}

/// A commit in a repository without history has no parent; any other has
/// the head commit as its only parent.
pub proof fn commit_follows_head(state: Progress)
    requires
        state.request() is Some,
        state.request()->0 is Commit,
    ensures
        state.request()->0->parent == opt_text(state.head),
{
}

/// A push is asked for only after a commit was created, and only where the
/// watcher is set to push.
pub proof fn push_needs_commit(state: Progress)
    requires
        state.wf(),
        state.request() is Some,
        state.request()->0 is Push || state.request()->0 is HeadName || state.request()->0
            is Upstream,
    ensures
        state.context.config.auto_push,
        state.committed is Some,
{
}

/// The root stages its own changes only when every submodule is done
/// with.
pub proof fn submodules_come_first(state: Progress)
    requires
        state.wf(),
        state.committing(),
        !state.in_submodule,
    ensures
        state.cursor == state.submodules.len(),
{
}

/// A path that cannot be staged does not stop the firing: it is noted, and
/// the firing goes on as if the path had been staged.
pub proof fn stage_failure_goes_on(state: Progress, reply: Reply)
    requires
        state.wf(),
        state.phase == Phase::Staging,
        !(reply is Done),
    ensures
        state.next(reply).phase == state.next(Reply::Done).phase,
        state.next(reply).stage_cursor == state.next(Reply::Done).stage_cursor,
        state.next(reply).ops == state.ops,
        state.next(reply).incidents == state.incidents.push(
            Incident {
                repo: state.repo(),
                trouble: Trouble::Stage(state.ops[state.stage_cursor as int]),
                reason: reply.reason(),
            },
        ),
{
}

/// In the root, a failure that is no failure to stage or to push ends the
/// firing without a commit, or with the commit already made.
pub proof fn root_failure_aborts(state: Progress, reply: Reply)
    requires
        state.wf(),
        !state.in_submodule,
        state.phase != Phase::Finished,
        state.phase != Phase::Staging,
        state.phase != Phase::Submodules,
        !state.phase.answered_by(reply),
    ensures
        state.next(reply).phase == Phase::Finished,
        state.next(reply).outcome == Some(
            match state.phase {
                Phase::Opening => Outcome::OpenFailed(reply.reason()),
                Phase::RootStatus => Outcome::StatusFailed(reply.reason()),
                Phase::BranchName | Phase::Upstream | Phase::Pushing => Outcome::Committed {
                    id: state.committed->0,
                    push: PushOutcome::Failed(reply.reason()),
                },
                _ => Outcome::CommitFailed(reply.reason()),
            },
        ),
{
}

/// A failure inside a submodule never ends the firing: the next submodule,
/// or the root itself, is turned to.
pub proof fn submodule_failure_goes_on(state: Progress, reply: Reply)
    requires
        state.wf(),
        state.in_submodule,
    ensures
        state.next(reply).phase != Phase::Finished,
{
}

/// A failed push does not undo the commit: the root's outcome still names
/// it.
pub proof fn push_failure_keeps_commit(state: Progress, reply: Reply)
    requires
        state.wf(),
        state.phase == Phase::BranchName || state.phase == Phase::Upstream || state.phase
            == Phase::Pushing,
        !state.in_submodule,
        !state.phase.answered_by(reply),
    ensures
        state.next(reply).outcome == Some(
            Outcome::Committed {
                id: state.committed->0,
                push: PushOutcome::Failed(reply.reason()),
            },
        ),
{
}

impl Phase {
    /// Whether `reply` is an answer that the request of this phase can
    /// have on success.
    pub open spec fn answered_by(self, reply: Reply) -> bool {
        match self {
            Phase::Opening | Phase::SubOpening | Phase::Staging | Phase::Pushing => reply is Done,
            Phase::RootStatus | Phase::SubStatus => reply is Status,
            Phase::Submodules | Phase::Listing => reply is Submodules,
            Phase::UserName | Phase::UserEmail | Phase::BranchName => reply is Value,
            Phase::Head => reply is Head,
            Phase::Committing => reply is Committed,
            Phase::Upstream => reply is Upstream,
            Phase::Finished => false,
        }
    }

    /// How far the phase is from the end of the work on one repository.
    pub open spec fn rank(self) -> nat {
        match self {
            Phase::SubOpening => 11,
            Phase::SubStatus => 10,
            Phase::Listing => 9,
            Phase::Staging => 8,
            Phase::UserName => 7,
            Phase::UserEmail => 6,
            Phase::Head => 5,
            Phase::Committing => 4,
            Phase::BranchName => 3,
            Phase::Upstream => 2,
            Phase::Pushing => 1,
            _ => 0,
        }
    }

    /// How far the phase is from the turn to the submodules.
    pub open spec fn lead(self) -> nat {
        match self {
            Phase::Opening => 3,
            Phase::RootStatus => 2,
            Phase::Submodules => 1,
            _ => 0,
        }
    }
}

impl Progress {
    /// What is left to do, largest matter first: the phases before the
    /// submodules, the submodules, the phases in the repository at work,
    /// the paths to stage.
    pub open spec fn left(self) -> (nat, nat, nat, nat) {
        (
            self.phase.lead(),
            if self.in_submodule {
                (self.submodules.len() - self.cursor) as nat
            } else {
                0
            },
            self.phase.rank(),
            if self.phase == Phase::Staging {
                (self.ops.len() - self.stage_cursor) as nat
            } else {
                0
            },
        )
    }
}

/// Whether `a` comes before `b` where the first place that differs decides.
pub open spec fn less_left(a: (nat, nat, nat, nat), b: (nat, nat, nat, nat)) -> bool {
    a.0 < b.0 || (a.0 == b.0 && (a.1 < b.1 || (a.1 == b.1 && (a.2 < b.2 || (a.2 == b.2 && a.3
        < b.3)))))
}

/// Every answer brings an unfinished firing closer to its end, so every
/// firing ends.
pub proof fn each_step_is_progress(state: Progress, reply: Reply)
    requires
        state.wf(),
        state.phase != Phase::Finished,
    ensures
        less_left(state.next(reply).left(), state.left()),
{
}

} // verus!
