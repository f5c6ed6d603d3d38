//! What a firing commits: the changed paths and the message that describes
//! them.

use crate::backend::{opt_text, Repo, Request, StatusQuery};
use crate::config::Config;
use crate::text::{decimal, decimal_string, join, joined, texts};
use vstd::prelude::*;

verus! {

/// Snapshot handed to the debounced callback: where the repository is, and
/// the settings of the watcher that saw the change.
#[derive(Debug, PartialEq, Eq)]
pub struct EventContext {
    /// Root of the repository.
    pub repo_path: String,
    /// Settings of the active watcher.
    pub config: Config,
}

impl Clone for EventContext {
    fn clone(&self) -> (copy: EventContext)
        ensures
            copy == *self,
    {
        EventContext { repo_path: self.repo_path.clone(), config: self.config.clone() }
    }
}

/// One path of the working-tree status, with the flags the backend reports
/// for it.
#[derive(Debug, Clone, PartialEq, Eq)]
pub struct ChangeEntry {
    /// The path, relative to the repository root. `None` where the backend
    /// cannot give it as text.
    pub path: Option<String>,
    /// The path is gone from the working tree.
    pub deleted: bool,
    /// The path differs from what is recorded.
    pub modified: bool,
    /// The path is new and not yet tracked.
    pub added: bool,
}

/// The three kinds of change a message reports, in the order it reports them.
#[derive(Debug, Clone, Copy, PartialEq, Eq, Structural)]
pub enum Action {
    Deleted,
    Modified,
    Added,
}

impl Action {
    /// The word that a message uses for this kind of change.
    pub open spec fn word(self) -> Seq<char> {
        match self {
            Action::Deleted => "Deleted"@,
            Action::Modified => "Modified"@,
            Action::Added => "Added"@,
        }
    }

    /// The word that a message uses for this kind of change.
    pub fn label(self) -> (text: &'static str)
        ensures
            text@ == self.word(),
    {
        match self {
            Action::Deleted => "Deleted",
            Action::Modified => "Modified",
            Action::Added => "Added",
        }
    }
}

impl ChangeEntry {
    /// Whether the entry carries the flag of `action`.
    pub open spec fn has(self, action: Action) -> bool {
        match action {
            Action::Deleted => self.deleted,
            Action::Modified => self.modified,
            Action::Added => self.added,
        }
    }

    /// The path as a message shows it.
    pub open spec fn shown(self) -> Seq<char> {
        match self.path {
            Some(p) => p@,
            None => "Unknown file"@,
        }
    }

    /// Whether the entry carries the flag of `action`.
    pub fn is(&self, action: Action) -> (flag: bool)
        ensures
            flag == self.has(action),
    {
        match action {
            Action::Deleted => self.deleted,
            Action::Modified => self.modified,
            Action::Added => self.added,
        }
    }
}

/// The shown paths of the entries of `entries` that carry the flag of
/// `action`, in the order of `entries`.
pub open spec fn listed(entries: Seq<ChangeEntry>, action: Action) -> Seq<Seq<char>> {
    entries.filter(|e: ChangeEntry| e.has(action)).map_values(|e: ChangeEntry| e.shown())
}

/// The lines of the detail block of `action`: its heading, then each of
/// `paths` behind an indent of two spaces.
pub open spec fn block_lines(action: Action, paths: Seq<Seq<char>>) -> Seq<Seq<char>> {
    seq![action.word() + ":"@] + paths.map_values(|p: Seq<char>| "  "@ + p)
}

/// The part of the summary line for `action`, or nothing where no entry
/// carries its flag.
pub open spec fn summary_parts(entries: Seq<ChangeEntry>, action: Action) -> Seq<Seq<char>> {
    let paths = listed(entries, action);
    if paths.len() == 0 {
        Seq::empty()
    } else {
        seq![action.word() + " "@ + decimal(paths.len())]
    }
}

/// The detail block for `action`, or nothing where no entry carries its flag.
pub open spec fn detail_blocks(entries: Seq<ChangeEntry>, action: Action) -> Seq<Seq<char>> {
    let paths = listed(entries, action);
    if paths.len() == 0 {
        Seq::empty()
    } else {
        seq![joined(block_lines(action, paths), "\n"@)]
    }
}

/// The summary line: `"<Action> <count>"` for each kind of change that
/// occurs, in the order Deleted, Modified, Added, joined by `", "`.
pub open spec fn summary_line(entries: Seq<ChangeEntry>) -> Seq<char> {
    joined(
        summary_parts(entries, Action::Deleted) + summary_parts(entries, Action::Modified)
            + summary_parts(entries, Action::Added),
        ", "@,
    )
}

/// The detail: one block for each kind of change that occurs, in the order
/// Deleted, Modified, Added, each on lines of its own.
pub open spec fn detail(entries: Seq<ChangeEntry>) -> Seq<char> {
    joined(
        detail_blocks(entries, Action::Deleted) + detail_blocks(entries, Action::Modified)
            + detail_blocks(entries, Action::Added),
        "\n"@,
    )
}

/// The commit message for a status: summary line, blank line, detail.
pub open spec fn commit_message(entries: Seq<ChangeEntry>) -> Seq<char> {
    summary_line(entries) + "\n\n"@ + detail(entries)
}

/// The lines of the detail block of `action` over `entries`.
fn collect_block(entries: &Vec<ChangeEntry>, action: Action) -> (lines: Vec<String>)
    ensures
        texts(lines@) == block_lines(action, listed(entries@, action)),
{
    let mut heading = String::from_str(action.label());
    heading.append(":");
    let mut lines: Vec<String> = Vec::new();
    lines.push(heading);
    assert(texts(lines@) =~= block_lines(action, listed(entries@.take(0), action))) by {
        assert(entries@.take(0) =~= Seq::<ChangeEntry>::empty());
    }
    let mut i: usize = 0;
    while i < entries.len()
        invariant
            i <= entries.len(),
            texts(lines@) == block_lines(action, listed(entries@.take(i as int), action)),
        decreases entries.len() - i,
    {
        let ghost before = entries@.take(i as int);
        let ghost pred = |e: ChangeEntry| e.has(action);
        proof {
            assert(entries@.take(i + 1) =~= before.push(entries@[i as int]));
            before.lemma_filter_push(entries@[i as int], pred);
        }
        if entries[i].is(action) {
            let mut line = String::from_str("  ");
            match &entries[i].path {
                Some(p) => line.append(p.as_str()),
                None => line.append("Unknown file"),
            }
            let ghost old_lines = lines@;
            lines.push(line);
            proof {
                let kept = before.filter(pred);
                let e = entries@[i as int];
                assert(entries@.take(i + 1).filter(pred) == kept.push(e));
                assert(listed(entries@.take(i + 1), action) =~= listed(before, action).push(
                    e.shown(),
                ));
                assert(line@ == "  "@ + e.shown());
                assert(texts(lines@) =~= texts(old_lines).push(line@));
                assert(block_lines(action, listed(before, action).push(e.shown()))
                    =~= block_lines(action, listed(before, action)).push("  "@ + e.shown()));
            }
        }
        i += 1;
    }
    assert(entries@.take(i as int) =~= entries@);
    lines
}

/// Adds to `summary` and `blocks` what the message says of `action`.
fn report_action(
    entries: &Vec<ChangeEntry>,
    action: Action,
    summary: &mut Vec<String>,
    blocks: &mut Vec<String>,
)
    ensures
        texts(final(summary)@) == texts(old(summary)@) + summary_parts(entries@, action),
        texts(final(blocks)@) == texts(old(blocks)@) + detail_blocks(entries@, action),
{
    let lines = collect_block(entries, action);
    assert(lines@.len() == texts(lines@).len());
    if lines.len() > 1 {
        let mut part = String::from_str(action.label());
        part.append(" ");
        let count = decimal_string(lines.len() - 1);
        part.append(count.as_str());
        summary.push(part);
        let block = join(&lines, "\n");
        blocks.push(block);
        assert(texts(summary@) =~= texts(old(summary)@) + summary_parts(entries@, action));
        assert(texts(blocks@) =~= texts(old(blocks)@) + detail_blocks(entries@, action));
    } else {
        assert(texts(summary@) =~= texts(old(summary)@) + summary_parts(entries@, action));
        assert(texts(blocks@) =~= texts(old(blocks)@) + detail_blocks(entries@, action));
    }
}

/// Builds the commit message for the status `changed_files`.
pub fn get_commit_message(changed_files: &Vec<ChangeEntry>) -> (message: String)
    ensures
        message@ == commit_message(changed_files@),
{
    let mut summary: Vec<String> = Vec::new();
    let mut blocks: Vec<String> = Vec::new();
    assert(texts(summary@) =~= Seq::<Seq<char>>::empty());
    assert(texts(blocks@) =~= Seq::<Seq<char>>::empty());
    report_action(changed_files, Action::Deleted, &mut summary, &mut blocks);
    report_action(changed_files, Action::Modified, &mut summary, &mut blocks);
    report_action(changed_files, Action::Added, &mut summary, &mut blocks);
    let ghost e = changed_files@;
    assert(texts(summary@) =~= summary_parts(e, Action::Deleted) + summary_parts(
        e,
        Action::Modified,
    ) + summary_parts(e, Action::Added));
    assert(texts(blocks@) =~= detail_blocks(e, Action::Deleted) + detail_blocks(
        e,
        Action::Modified,
    ) + detail_blocks(e, Action::Added));
    let mut message = join(&summary, ", ");
    message.append("\n\n");
    let body = join(&blocks, "\n");
    message.append(body.as_str());
    message
}

/// How one changed path goes into the index.
#[derive(Debug, Clone, PartialEq, Eq)]
pub enum StageOp {
    /// Add the file at this path.
    Add(String),
    /// Remove this path.
    Remove(String),
    /// Record the current commit of the submodule at this path.
    Submodule(String),
}

/// Whether `path` is one of `paths`, compared as text.
pub open spec fn is_listed(paths: Seq<String>, path: Seq<char>) -> bool {
    exists|j: int| 0 <= j < paths.len() && (#[trigger] paths[j])@ == path
}

/// How `entry` goes into the index of a repository whose submodules are
/// registered at `submodules`: a submodule by recording its commit, a
/// deleted path by removal, any other path by addition. An entry without a
/// path is left out.
pub open spec fn stage_op(entry: ChangeEntry, submodules: Seq<String>) -> Option<StageOp> {
    match entry.path {
        None => None,
        Some(path) => Some(
            if is_listed(submodules, path@) {
                StageOp::Submodule(path)
            } else if entry.deleted {
                StageOp::Remove(path)
            } else {
                StageOp::Add(path)
            },
        ),
    }
}

/// The staging of `entries`, path by path, in their order.
pub open spec fn stage_plan(entries: Seq<ChangeEntry>, submodules: Seq<String>) -> Seq<StageOp> {
    entries.filter_map(|e: ChangeEntry| stage_op(e, submodules))
}

fn contains_path(paths: &Vec<String>, path: &String) -> (found: bool)
    ensures
        found == is_listed(paths@, path@),
{
    let mut j: usize = 0;
    while j < paths.len()
        invariant
            j <= paths.len(),
            forall|k: int| 0 <= k < j ==> (#[trigger] paths@[k])@ != path@,
        decreases paths.len() - j,
    {
        if paths[j] == *path {
            return true;
        }
        j += 1;
    }
    false
}

/// Plans the staging of `entries`, path by path, for a repository whose
/// submodules are registered at `submodules`.
pub fn stage_changes(entries: &Vec<ChangeEntry>, submodules: &Vec<String>) -> (ops: Vec<StageOp>)
    ensures
        ops@ == stage_plan(entries@, submodules@),
{
    let mut ops: Vec<StageOp> = Vec::new();
    let ghost f = |e: ChangeEntry| stage_op(e, submodules@);
    let mut i: usize = 0;
    assert(entries@.take(0).filter_map(f) =~= Seq::<StageOp>::empty());
    while i < entries.len()
        invariant
            i <= entries.len(),
            f == |e: ChangeEntry| stage_op(e, submodules@),
            ops@ == entries@.take(i as int).filter_map(f),
        decreases entries.len() - i,
    {
        proof {
            entries@.lemma_filter_map_take_succ(f, i as int);
        }
        match &entries[i].path {
            None => {},
            Some(path) => {
                if contains_path(submodules, path) {
                    ops.push(StageOp::Submodule(path.clone()));
                } else if entries[i].deleted {
                    ops.push(StageOp::Remove(path.clone()));
                } else {
                    ops.push(StageOp::Add(path.clone()));
                }
            },
        }
        i += 1;
    }
    assert(entries@.take(i as int) =~= entries@);
    ops
}

/// The status read that a firing makes: the working tree only, with new
/// files, without ignored, unmodified and unreadable ones.
pub open spec fn changed_files_query() -> StatusQuery {
    StatusQuery {
        workdir_only: true,
        include_untracked: true,
        include_ignored: false,
        include_unmodified: false,
        include_unreadable: false,
    }
}

/// Name and email of author and committer where the configuration sets
/// none.
pub open spec fn fallback_identity() -> Seq<char> {
    "Watchers"@
}

/// Message of a commit that is given none.
pub open spec fn fallback_message() -> Seq<char> {
    "Autocommit"@
}

/// `text` if there is one, else `fallback`.
pub open spec fn text_or(text: Option<Seq<char>>, fallback: Seq<char>) -> Seq<char> {
    match text {
        Some(t) => t,
        None => fallback,
    }
}

/// The request that opens the repository at `repo_path`, creating it where
/// there is none.
pub fn open_or_create_repo(repo_path: &str) -> (request: Request<String>)
    ensures
        request@ == (Request::OpenOrInit { path: repo_path@ }),
{
    Request::OpenOrInit { path: String::from_str(repo_path) }
}

/// The request that reads the changed files of `repo`.
pub fn get_changed_files(repo: Repo<String>) -> (request: Request<String>)
    ensures
        request@ == (Request::Status { repo: repo@, query: changed_files_query() }),
{
    Request::Status {
        repo,
        query: StatusQuery {
            workdir_only: true,
            include_untracked: true,
            include_ignored: false,
            include_unmodified: false,
            include_unreadable: false,
        },
    }
}

fn owned_or(text: &Option<String>, fallback: &str) -> (owned: String)
    ensures
        owned@ == text_or(opt_text(*text), fallback@),
{
    match text {
        Some(t) => t.clone(),
        None => String::from_str(fallback),
    }
}

/// The request that commits the index of `repo`. The message is `message`,
/// or the fallback where none is given. Author and committer are the
/// configured `user_name` and `user_email`, each replaced by the fallback
/// identity where it is unset. The new commit has the commit `head` as its
/// only parent; where the history is empty, it has none.
pub fn create_commit(
    repo: Repo<String>,
    message: Option<String>,
    user_name: &Option<String>,
    user_email: &Option<String>,
    head: &Option<String>,
) -> (request: Request<String>)
    ensures
        request@ == (Request::Commit {
            repo: repo@,
            message: text_or(opt_text(message), fallback_message()),
            name: text_or(opt_text(*user_name), fallback_identity()),
            email: text_or(opt_text(*user_email), fallback_identity()),
            parent: opt_text(*head),
        }),
{
    let message = match message {
        Some(m) => m,
        None => String::from_str("Autocommit"),
    };
    let parent = match head {
        Some(id) => Some(id.clone()),
        None => None,
    };
    Request::Commit {
        repo,
        message,
        name: owned_or(user_name, "Watchers"),
        email: owned_or(user_email, "Watchers"),
        parent,
    }
}

} // verus!
