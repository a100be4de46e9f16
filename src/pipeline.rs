//! The order of a run: fetch, write, install, with the first failure ending it.
//!
//! A driver starts at [`Stage::Idle`] and feeds [`Event::Start`] to [`run`].
//! Each call returns the [`Action`] to perform; the driver performs it and
//! feeds back the event that reports how it went, until an [`Action::Exit`].

use vstd::prelude::*;
use crate::download::{
    on_response, opt_view, response_outcome, success_status, CONNECT_TIMEOUT_SECS, DOWNLOAD_URL,
};
use crate::error::RunError;
use crate::install::{exit_ok, install_command, installed_by, installer_succeeded};

verus! {

/// Where a run stands.
#[derive(Debug)]
pub enum Stage {
    /// Nothing has been done yet.
    Idle,
    /// The request has been asked for.
    Fetching,
    /// The body is being written to `path`.
    Saving { path: String },
    /// The installer has been asked to install the file at `path`.
    Installing { path: String },
    /// The package was installed.
    Succeeded,
    /// The run stopped on `error`.
    Failed { error: RunError },
}

/// What the driver reports back.
#[derive(Debug)]
pub enum Event {
    /// Begin the run.
    Start,
    /// The server answered with `status`; `url_path` is the path of the final
    /// URL after redirects, and `temp_dir` the temporary directory (`None`
    /// where it has no text form).
    ResponseReceived { status: u16, url_path: String, temp_dir: Option<String> },
    /// The request or the reading of the body failed.
    TransportFailed,
    /// The whole body is in the file, and the file is closed.
    Saved,
    /// The file could not be created or written.
    SaveFailed,
    /// The installer ended; `code` is its exit status, `None` when a signal
    /// ended it.
    InstallerExited { code: Option<i32> },
    /// The installer could not be started.
    SpawnFailed,
}

/// What the driver is to do next.
#[derive(Debug)]
pub enum Action {
    /// Send a GET request to `url`, with a connection timeout in seconds.
    Fetch { url: String, connect_timeout_secs: u64 },
    /// Create (or truncate) the file at `path` and write the body into it.
    Save { path: String },
    /// Run `program` with `args` and wait for it to end.
    Install { program: String, args: Vec<String> },
    /// End the process with `code`.
    Exit { code: i32 },
    /// Nothing: the event does not belong to the current stage.
    Wait,
}

/// The action that ends a failed run: exit with status one.
pub open spec fn failed_exit(act: Action) -> bool {
    act == (Action::Exit { code: 1 })
}

/// One step of a run: in stage `pre`, `ev` leads to stage `post` and action `act`.
pub open spec fn next(pre: Stage, ev: Event, post: Stage, act: Action) -> bool {
    match (pre, ev) {
        (Stage::Idle, Event::Start) => {
            &&& post is Fetching
            &&& act matches Action::Fetch { url, connect_timeout_secs }
            &&& url@ == DOWNLOAD_URL@
            &&& connect_timeout_secs == CONNECT_TIMEOUT_SECS
        },
        (Stage::Fetching, Event::ResponseReceived { status, url_path, temp_dir }) => {
            match response_outcome(status, url_path@, opt_view(temp_dir)) {
                Ok(dest) => {
                    &&& post matches Stage::Saving { path } && path@ == dest
                    &&& act matches Action::Save { path } && path@ == dest
                },
                Err(error) => post == (Stage::Failed { error }) && failed_exit(act),
            }
        },
        (Stage::Fetching, Event::TransportFailed) | (Stage::Saving { .. }, Event::TransportFailed) => {
            post == (Stage::Failed { error: RunError::Transport }) && failed_exit(act)
        },
        (Stage::Saving { .. }, Event::SaveFailed) => {
            post == (Stage::Failed { error: RunError::File }) && failed_exit(act)
        },
        (Stage::Saving { path }, Event::Saved) => {
            &&& post matches Stage::Installing { path: p } && p@ == path@
            &&& act matches Action::Install { program, args } && installed_by(program, args, path@)
        },
        (Stage::Installing { .. }, Event::InstallerExited { code }) => {
            if exit_ok(code) {
                post == Stage::Succeeded && act == (Action::Exit { code: 0 })
            } else {
                post == (Stage::Failed { error: RunError::Installer { code } }) && failed_exit(act)
            }
        },
        (Stage::Installing { .. }, Event::SpawnFailed) => {
            post == (Stage::Failed { error: RunError::Spawn }) && failed_exit(act)
        },
        _ => post == pre && act == Action::Wait,
    }
}

/// Ends the run on `error`.
fn fail(stage: &mut Stage, error: RunError) -> (act: Action)
    ensures
        *final(stage) == (Stage::Failed { error }),
        failed_exit(act),
{
    *stage = Stage::Failed { error };
    Action::Exit { code: 1 }
}

/// Takes a run one step on: moves `stage` on by `event` and returns what to do next.
pub fn run(stage: &mut Stage, event: Event) -> (act: Action)
    ensures
        next(*old(stage), event, *final(stage), act),
{
    match (&*stage, event) {
        (Stage::Idle, Event::Start) => {
            *stage = Stage::Fetching;
            Action::Fetch {
                url: String::from_str(DOWNLOAD_URL),
                connect_timeout_secs: CONNECT_TIMEOUT_SECS,
            }
        },
        (Stage::Fetching, Event::ResponseReceived { status, url_path, temp_dir }) => {
            match on_response(status, url_path.as_str(), &temp_dir) {
                Ok(path) => {
                    let save = path.clone();
                    *stage = Stage::Saving { path };
                    Action::Save { path: save }
                },
                Err(error) => fail(stage, error),
            }
        },
        (Stage::Fetching, Event::TransportFailed) | (Stage::Saving { .. }, Event::TransportFailed) => {
            fail(stage, RunError::Transport)
        },
        (Stage::Saving { .. }, Event::SaveFailed) => fail(stage, RunError::File),
        (Stage::Saving { path }, Event::Saved) => {
            let cmd = install_command(path.as_str());
            let path = path.clone();
            *stage = Stage::Installing { path };
            Action::Install { program: cmd.program, args: cmd.args }
        },
        (Stage::Installing { .. }, Event::InstallerExited { code }) => {
            if installer_succeeded(code) {
                *stage = Stage::Succeeded;
                Action::Exit { code: 0 }
            } else {
                fail(stage, RunError::Installer { code })
            }
        },
        (Stage::Installing { .. }, Event::SpawnFailed) => fail(stage, RunError::Spawn),
        _ => Action::Wait,
    }
}

/// `stages`, `events` and `actions` record a run from its start: each event
/// `events[i]` took `stages[i]` to `stages[i + 1]` and gave `actions[i]`.
pub open spec fn is_run(stages: Seq<Stage>, events: Seq<Event>, actions: Seq<Action>) -> bool {
    &&& stages.len() == events.len() + 1
    &&& actions.len() == events.len()
    &&& stages[0] is Idle
    &&& forall|i: int| 0 <= i < events.len() ==> #[trigger] next(stages[i], events[i], stages[i + 1], actions[i])
}

/// A response whose status is not a success ends the run with that status as
/// the error and a non-zero exit, without asking for the body to be written.
pub proof fn lemma_error_status_stops_run(pre: Stage, ev: Event, post: Stage, act: Action)
    requires
        pre is Fetching,
        ev matches Event::ResponseReceived { status, .. } && !success_status(status),
        next(pre, ev, post, act),
    ensures
        post == (Stage::Failed { error: RunError::HttpStatus { status: ev->status } }),
        act == (Action::Exit { code: 1 }),
{
}

/// A run that has succeeded or failed stays as it is, and asks for nothing
/// more, whatever is reported afterwards.
pub proof fn lemma_end_is_final(pre: Stage, ev: Event, post: Stage, act: Action)
    requires
        pre is Succeeded || pre is Failed,
        next(pre, ev, post, act),
    ensures
        post == pre,
        act is Wait,
{
}

/// An installer that exits with anything but status zero fails the run, and
/// the process exits with a non-zero code.
pub proof fn lemma_installer_failure_fails_run(pre: Stage, ev: Event, post: Stage, act: Action)
    requires
        pre is Installing,
        ev matches Event::InstallerExited { code } && code != Some(0i32),
        next(pre, ev, post, act),
    ensures
        post == (Stage::Failed { error: RunError::Installer { code: ev->code } }),
        act matches Action::Exit { code } && code != 0,
{
}

/// Writing the body is only ever asked for on a response with a success status.
pub proof fn lemma_save_needs_success_status(pre: Stage, ev: Event, post: Stage, act: Action)
    requires
        next(pre, ev, post, act),
        act is Save,
    ensures
        pre is Fetching,
        ev matches Event::ResponseReceived { status, .. } && success_status(status),
{
}

proof fn lemma_saving_stage_origin(stages: Seq<Stage>, events: Seq<Event>, actions: Seq<Action>, j: int)
    requires
        is_run(stages, events, actions),
        0 <= j < stages.len(),
        stages[j] is Saving,
    ensures
        exists|i: int|
            #![trigger actions[i]]
            0 <= i < j && (events[i] matches Event::ResponseReceived { status, .. } && success_status(status))
                && (actions[i] matches Action::Save { path } && path@ == stages[j]->Saving_path@),
    decreases j,
{
    assert(j > 0);
    let k = j - 1;
    assert(next(stages[k], events[k], stages[k + 1], actions[k]));
    if stages[k] is Saving {
        lemma_saving_stage_origin(stages, events, actions, k);
        let i = choose|i: int|
            #![trigger actions[i]]
            0 <= i < k && (events[i] matches Event::ResponseReceived { status, .. } && success_status(status))
                && (actions[i] matches Action::Save { path } && path@ == stages[k]->Saving_path@);
        assert(actions[i] matches Action::Save { path } && path@ == stages[j]->Saving_path@);
    } else {
        assert(actions[k] is Save);
    }
}

/// In a run, the installer is only ever started on the event that the file is
/// fully written and closed, after a response with a success status, and it is
/// given, unchanged as its last argument, the path that the body was written to.
pub proof fn lemma_install_follows_save(stages: Seq<Stage>, events: Seq<Event>, actions: Seq<Action>, j: int)
    requires
        is_run(stages, events, actions),
        0 <= j < actions.len(),
        actions[j] is Install,
    ensures
        events[j] is Saved,
        exists|i: int|
            #![trigger actions[i]]
            0 <= i < j && (events[i] matches Event::ResponseReceived { status, .. } && success_status(status))
                && (actions[i] matches Action::Save { path } && installed_by(
                actions[j]->program,
                actions[j]->args,
                path@,
            )),
{
    assert(next(stages[j], events[j], stages[j + 1], actions[j]));
    lemma_saving_stage_origin(stages, events, actions, j);
}

/// Two runs that get the same response, with the same temporary directory,
/// write the body to the same path, so a second run replaces the first file.
pub proof fn lemma_same_response_same_destination(
    pre1: Stage,
    ev1: Event,
    post1: Stage,
    act1: Action,
    pre2: Stage,
    ev2: Event,
    post2: Stage,
    act2: Action,
)
    requires
        pre1 is Fetching,
        pre2 is Fetching,
        ev1 matches Event::ResponseReceived { status, url_path, temp_dir },
        ev2 matches Event::ResponseReceived { status: s2, url_path: u2, temp_dir: d2 }
            && s2 == ev1->status && u2@ == ev1->url_path@ && opt_view(d2) == opt_view(ev1->temp_dir),
        next(pre1, ev1, post1, act1),
        next(pre2, ev2, post2, act2),
        act1 is Save,
    ensures
        act2 matches Action::Save { path } && path@ == act1->Save_path@,
{
}

} // verus!
