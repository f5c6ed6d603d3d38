//! The watch loop, one notification at a time, and the management of
//! watchers.

use crate::config::Config;
use crate::debouncer::{Debouncer, Engine};
use crate::file_utils::{
    all_ignored, any_in_metadata_dir, is_git_ignored, needs_ignore_check, FsEvent,
};
use crate::git::EventContext;
use crate::text::{texts, to_chars};
use vstd::prelude::*;

verus! {

/// A watcher: its settings and the debouncer that its notifications feed.
pub struct Watcher<'a> {
    /// The settings.
    pub config: &'a Config,
    /// Delays the commit until the changes have stopped.
    pub debouncer: Debouncer,
}

/// The payload that a watcher with the settings `config` hands to its
/// debouncer: the watched directory is the root of the repository.
pub open spec fn context_of(config: Config) -> EventContext {
    EventContext { repo_path: config.watch_dir, config }
}

/// The quiet period, in milliseconds, of a watcher with the settings
/// `config`.
pub open spec fn delay_of(config: Config) -> nat {
    (config.commit_delay_secs * 1000) as nat
}

impl<'a> Watcher<'a> {
    /// A watcher with the settings `config`, at rest.
    pub fn new(config: &'a Config) -> (watcher: Watcher<'a>)
        ensures
            watcher.config == config,
            watcher.debouncer@ == Engine::idle(delay_of(*config)),
    {
        let secs: u64 = config.commit_delay_secs as u64;
        Watcher { config, debouncer: Debouncer::new(secs * 1000) }
    }

    /// Feeds the debouncer one event at `now`, with a fresh payload made
    /// from the settings. The result says whether a timer was in flight,
    /// which the caller then stops before it starts the new one.
    pub fn trigger_debouncer(&mut self, now: u64) -> (superseded: bool)
        ensures
            final(self).config == old(self).config,
            final(self).debouncer@ == old(self).debouncer@.on_event(
                context_of(*old(self).config),
                now as nat,
            ),
            superseded == old(self).debouncer@.is_armed(),
    {
        let context = EventContext {
            repo_path: self.config.watch_dir.clone(),
            config: self.config.clone(),
        };
        self.debouncer.on_event(context, now)
    }
}

/// What the notification stream has delivered.
#[derive(Debug, Clone, PartialEq, Eq)]
pub enum Received {
    /// A notification.
    Event(FsEvent),
    /// An error in place of a notification.
    Failed(String),
    /// Nothing more: the stream has ended.
    Closed,
}

/// What the watch loop does after one delivery.
#[derive(Debug, Clone, PartialEq, Eq)]
pub enum WatchStep {
    /// The notification is noise: wait for the next.
    Skipped,
    /// The debouncer took the notification. `superseded` says whether a
    /// timer was in flight, which the caller stops before it starts the new
    /// one.
    Triggered { superseded: bool },
    /// The loop ends with a fatal error: the stream has ended or failed
    /// (`None` where it gave no reason), or the repository could not say
    /// which paths it ignores.
    Stopped(Option<String>),
}

/// One turn of the watch loop at `now`. `ignored` is what the repository
/// says of the paths of a notification, one answer for each, or why it
/// could not say; it is looked at only where
/// [`needs_ignore_check`](crate::file_utils::needs_ignore_check) holds of
/// the notification.
pub fn watch_repo(
    watcher: &mut Watcher,
    received: Received,
    ignored: Result<Vec<bool>, String>,
    now: u64,
) -> (step: WatchStep)
    ensures
        final(watcher).config == old(watcher).config,
        match received {
            Received::Closed => step == WatchStep::Stopped(None),
            Received::Failed(why) => step == WatchStep::Stopped(Some(why)),
            Received::Event(event) => if !(event.kind.is_change() && !any_in_metadata_dir(
                event.paths@,
            )) {
                step == WatchStep::Skipped
            } else {
                match ignored {
                    Err(why) => step == WatchStep::Stopped(Some(why)),
                    Ok(flags) => if all_ignored(flags@) {
                        step == WatchStep::Skipped
                    } else {
                        step == (WatchStep::Triggered {
                            superseded: old(watcher).debouncer@.is_armed(),
                        })
                    },
                }
            },
        },
        step is Triggered ==> final(watcher).debouncer@ == old(watcher).debouncer@.on_event(
            context_of(*old(watcher).config),
            now as nat,
        ),
        !(step is Triggered) ==> final(watcher).debouncer@ == old(watcher).debouncer@,
{
    match received {
        Received::Closed => WatchStep::Stopped(None),
        Received::Failed(why) => WatchStep::Stopped(Some(why)),
        Received::Event(event) => {
            if !needs_ignore_check(&event) {
                WatchStep::Skipped
            } else {
                match ignored {
                    Err(why) => WatchStep::Stopped(Some(why)),
                    Ok(flags) => {
                        if is_git_ignored(&flags) {
                            WatchStep::Skipped
                        } else {
                            let superseded = watcher.trigger_debouncer(now);
                            WatchStep::Triggered { superseded }
                        }
                    },
                }
            }
        },
    }
}

/// What tilde expansion makes of `input` where the home directory is
/// `home`: a leading `~` that stands alone or before a `/` becomes the home
/// directory, if that is known; anything else stays as it is.
pub open spec fn tilde_expanded(input: Seq<char>, home: Option<Seq<char>>) -> Seq<char> {
    if input.len() > 0 && input[0] == '~' && (input.len() == 1 || input[1] == '/') {
        match home {
            Some(dir) => dir + input.skip(1),
            None => input,
        }
    } else {
        input
    }
}

/// Whether `input` begins with `~\`, which is expanded on some platforms
/// and not on others.
pub open spec fn tilde_before_backslash(input: Seq<char>) -> bool {
    input.len() >= 2 && input[0] == '~' && input[1] == '\\'
}

/// Calls `shellexpand::tilde_with_context` with a home directory that is
/// already known. The contract restates the function's documented
/// behaviour: a `~` at the start, alone or followed by `/`, is replaced by
/// the home directory if there is one, and every other input comes back
/// unchanged. Inputs that begin with `~\`, which the function treats
/// differently on Windows, are left out.
#[verifier::external_body]
fn tilde_with_home(input: &str, home: Option<&str>) -> (expanded: String)
    requires
        !tilde_before_backslash(input@),
    ensures
        expanded@ == tilde_expanded(
            input@,
            match home {
                Some(dir) => Some(dir@),
                None => None,
            },
        ),
{
    shellexpand::tilde_with_context(input, || home).into_owned()
}

/// The directory that the user means by `input`: a leading `~` stands for
/// the home directory `home`.
pub fn expand_watch_dir(input: &str, home: Option<&str>) -> (dir: String)
    ensures
        dir@ == tilde_expanded(
            input@,
            match home {
                Some(dir) => Some(dir@),
                None => None,
            },
        ),
{
    let chars = to_chars(input);
    if chars.len() >= 2 && chars[0] == '~' && chars[1] == '\\' {
        String::from_str(input)
    } else {
        tilde_with_home(input, home)
    }
}

/// What lies at a path.
#[derive(Debug, Clone, Copy, PartialEq, Eq, Structural)]
pub enum FileKind {
    /// Nothing.
    Missing,
    /// A regular file.
    Regular,
    /// Something else, such as a directory.
    Other,
}

/// What the creation of a watcher does next.
#[derive(Debug, Clone, PartialEq, Eq)]
pub enum CreateStep {
    /// Give up with this complaint.
    Fail(String),
    /// Ask this question, which defaults to no, and come back with the
    /// answer.
    Confirm(String),
    /// Leave the existing configuration alone: nothing is written and no
    /// service is started.
    Keep,
    /// Write the configuration, then start and enable the service.
    Write,
}

/// The complaint about a directory to watch that is none.
pub open spec fn not_a_directory(path: Seq<char>) -> Seq<char> {
    "Path '"@ + path + "' is not a directory"@
}

/// The complaint about a configuration path that holds no regular file.
pub open spec fn not_a_regular_file(path: Seq<char>) -> Seq<char> {
    "'"@ + path + "' is not a regular file."@
}

/// The question whether to overwrite a configuration.
pub open spec fn overwrite_question(path: Seq<char>) -> Seq<char> {
    "'"@ + path + "' already exists, do you want to overwrite it?"@
}

/// The text of `step`, where it carries one.
pub open spec fn step_text(step: CreateStep) -> Option<Seq<char>> {
    match step {
        CreateStep::Fail(text) => Some(text@),
        CreateStep::Confirm(text) => Some(text@),
        _ => None,
    }
}

/// Decides the next step in creating a watcher for `watch_dir`, whose
/// configuration goes to `config_path`. `is_dir` says whether `watch_dir`
/// is a directory, `config_file` what lies at `config_path`, and
/// `overwrite` the user's answer to the question of overwriting, if it was
/// asked already.
pub fn create_watcher(
    watch_dir: &str,
    is_dir: bool,
    config_path: &str,
    config_file: FileKind,
    overwrite: Option<bool>,
) -> (step: CreateStep)
    ensures
        !is_dir ==> step is Fail && step_text(step) == Some(not_a_directory(watch_dir@)),
        is_dir && config_file == FileKind::Missing ==> step is Write,
        is_dir && config_file == FileKind::Other ==> step is Fail && step_text(step) == Some(
            not_a_regular_file(config_path@),
        ),
        is_dir && config_file == FileKind::Regular ==> match overwrite {
            None => step is Confirm && step_text(step) == Some(overwrite_question(config_path@)),
            Some(true) => step is Write,
            Some(false) => step is Keep,
        },
{
    if !is_dir {
        let mut complaint = String::from_str("Path '");
        complaint.append(watch_dir);
        complaint.append("' is not a directory");
        return CreateStep::Fail(complaint);
    }
    match config_file {
        FileKind::Missing => CreateStep::Write,
        FileKind::Other => {
            let mut complaint = String::from_str("'");
            complaint.append(config_path);
            complaint.append("' is not a regular file.");
            CreateStep::Fail(complaint)
        },
        FileKind::Regular => match overwrite {
            None => {
                let mut question = String::from_str("'");
                question.append(config_path);
                question.append("' already exists, do you want to overwrite it?");
                CreateStep::Confirm(question)
            },
            Some(true) => CreateStep::Write,
            Some(false) => CreateStep::Keep,
        },
    }
}

/// The complaint about a watcher that does not exist.
pub open spec fn no_such_watcher(name: Seq<char>) -> Seq<char> {
    "Couldn't find watcher '"@ + name + "'"@
}

/// Decides whether the watcher `name` can be deleted, where `is_file` says
/// whether its configuration file exists: the file is then to be removed.
pub fn delete_watcher(name: &str, is_file: bool) -> (verdict: Result<(), String>)
    ensures
        is_file ==> verdict is Ok,
        !is_file ==> verdict is Err && verdict->Err_0@ == no_such_watcher(name@),
{
    if is_file {
        Ok(())
    } else {
        let mut complaint = String::from_str("Couldn't find watcher '");
        complaint.append(name);
        complaint.append("'");
        Err(complaint)
    }
}

/// The line that lists a watcher: its name behind two spaces.
pub open spec fn listing_line(name: Option<String>) -> Seq<char> {
    "  "@ + name->0@
}

/// Whether every file of the configuration directory has a name that can
/// be shown.
pub open spec fn all_named(stems: Seq<Option<String>>) -> bool {
    forall|i: int| 0 <= i < stems.len() ==> (#[trigger] stems[i]) is Some
}

/// The listing of watchers with the names `stems`: a heading, then one
/// line for each.
pub open spec fn listing(stems: Seq<Option<String>>) -> Seq<Seq<char>> {
    seq!["Watchers:"@] + stems.map_values(|s: Option<String>| listing_line(s))
}

/// Whether `k` is the place of the first file of `stems` without a name.
pub open spec fn first_unnamed(stems: Seq<Option<String>>, k: int) -> bool {
    0 <= k < stems.len() && stems[k] is None && all_named(stems.take(k))
}

/// Lists the watchers, where `stems` holds the name, without its
/// extension, of each regular file of the configuration directory, and
/// `None` for a name that is no text. Such a name ends the listing with a
/// complaint; the lines up to it come along.
pub fn list_watchers(stems: &Vec<Option<String>>) -> (lines: Result<
    Vec<String>,
    (Vec<String>, String),
>)
    ensures
        all_named(stems@) ==> lines is Ok && texts(lines->Ok_0@) == listing(stems@),
        !all_named(stems@) ==> lines is Err && lines->Err_0.1@
            == "Failed to read config directory"@ && exists|k: int| #[trigger]
            first_unnamed(stems@, k) && texts(lines->Err_0.0@) == listing(stems@.take(k)),
{
    let mut lines: Vec<String> = Vec::new();
    lines.push(String::from_str("Watchers:"));
    let mut i: usize = 0;
    assert(texts(lines@) =~= listing(stems@.take(0)));
    while i < stems.len()
        invariant
            i <= stems.len(),
            all_named(stems@.take(i as int)),
            texts(lines@) == listing(stems@.take(i as int)),
        decreases stems.len() - i,
    {
        match &stems[i] {
            None => {
                assert(first_unnamed(stems@, i as int));
                return Err((lines, String::from_str("Failed to read config directory")));
            },
            Some(name) => {
                let mut line = String::from_str("  ");
                line.append(name.as_str());
                let ghost before = lines@;
                lines.push(line);
                proof {
                    let head = stems@.take(i as int);
                    let f = |s: Option<String>| listing_line(s);
                    assert(stems@.take(i + 1) =~= head.push(stems@[i as int]));
                    assert(head.push(stems@[i as int]).map_values(f) =~= head.map_values(f).push(
                        line@,
                    ));
                    assert(texts(lines@) =~= texts(before).push(line@));
                    assert(texts(lines@) =~= listing(stems@.take(i + 1)));
                    assert forall|j: int| 0 <= j < i + 1 implies (#[trigger] stems@.take(
                        i + 1,
                    )[j]) is Some by {
                        if j < i {
                            assert(stems@.take(i as int)[j] is Some);
                        }
                    }
                }
            },
        }
        i += 1;
    }
    assert(stems@.take(i as int) =~= stems@);
    Ok(lines)
}

} // verus!
