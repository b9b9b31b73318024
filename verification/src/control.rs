//! The loop that keeps the server running: load the configuration, collect
//! the jars, run the server, wait if all that took too little time, and
//! begin again.

use vstd::prelude::*;

verus! {

/// The least time, in nanoseconds, from the beginning of one attempt to the
/// beginning of the next: four minutes. An attempt begins with the loading
/// of the configuration and ends when the server has ended.
pub const MIN_INTERVAL: u64 = 4 * 60 * 1_000_000_000;

/// Where the loop stands.
#[derive(Debug, Clone, Copy, PartialEq, Eq, Structural)]
pub enum Stage {
    /// The configuration is being read.
    Loading,
    /// The mods are being turned into jars.
    Resolving,
    /// The server is being set up, or runs.
    Running,
    /// The attempt ended too soon: the loop waits for this many nanoseconds.
    Throttling(u64),
}

/// What has just come to pass.
#[derive(Debug, Clone, Copy, PartialEq, Eq, Structural)]
pub enum Event {
    /// The configuration has been read.
    Loaded,
    /// The jars have been collected.
    Collected,
    /// The attempt is over, however the server ended or failed to start,
    /// this many nanoseconds after the loading of its configuration began.
    Exited(u128),
    /// The wait is over.
    Woke,
}

/// What the driver of the loop has to do next.
#[derive(Debug, Clone, Copy, PartialEq, Eq, Structural)]
pub enum Task {
    /// Note the time, at which a new attempt begins, then read the
    /// configuration afresh.
    Load,
    /// Turn the mods into jars.
    Collect,
    /// Set up and run the server, and say how long the attempt has taken
    /// since its configuration was loaded.
    Run,
    /// Wait for this many nanoseconds.
    Sleep(u64),
}

/// How long to wait after an attempt that took `elapsed` nanoseconds, from
/// loading to the end of the server: what is missing to the least interval,
/// or not at all where nothing is missing.
pub open spec fn wait_after(elapsed: nat) -> Option<nat> {
    if elapsed < MIN_INTERVAL {
        Some((MIN_INTERVAL - elapsed) as nat)
    } else {
        None
    }
}

/// What is to be done in `stage`.
pub open spec fn task_of(stage: Stage) -> Task {
    match stage {
        Stage::Loading => Task::Load,
        Stage::Resolving => Task::Collect,
        Stage::Running => Task::Run,
        Stage::Throttling(wait) => Task::Sleep(wait),
    }
}

/// The stage that follows `stage` on `event`. An event that the stage does
/// not wait for changes nothing.
pub open spec fn stage_after(stage: Stage, event: Event) -> Stage {
    match (stage, event) {
        (Stage::Loading, Event::Loaded) => Stage::Resolving,
        (Stage::Resolving, Event::Collected) => Stage::Running,
        (Stage::Running, Event::Exited(elapsed)) => match wait_after(elapsed as nat) {
            Some(wait) => Stage::Throttling(wait as u64),
            None => Stage::Loading,
        },
        (Stage::Throttling(_), Event::Woke) => Stage::Loading,
        _ => stage,
    }
}

/// How long to wait, in nanoseconds, before the next iteration when the
/// last attempt took `elapsed` nanoseconds; `None` where it took the least
/// interval or longer.
pub fn throttle(elapsed: u128) -> (wait: Option<u64>)
    ensures
        match wait {
            Some(w) => wait_after(elapsed as nat) == Some(w as nat),
            None => wait_after(elapsed as nat) is None,
        },
{
    if elapsed < MIN_INTERVAL as u128 {
        Some(MIN_INTERVAL - (elapsed as u64))
    } else {
        None
    }
}

/// The stage in which the loop begins.
pub fn start() -> (stage: Stage)
    ensures
        stage == Stage::Loading,
{
    Stage::Loading
}

/// The stage that follows `stage` on `event`, and what is to be done in it.
/// There is always something to be done: the loop has no end of its own.
pub fn advance(stage: Stage, event: Event) -> (next: (Stage, Task))
    ensures
        next.0 == stage_after(stage, event),
        next.1 == task_of(next.0),
{
    match (stage, event) {
        (Stage::Loading, Event::Loaded) => (Stage::Resolving, Task::Collect),
        (Stage::Resolving, Event::Collected) => (Stage::Running, Task::Run),
        (Stage::Running, Event::Exited(elapsed)) => match throttle(elapsed) {
            Some(wait) => (Stage::Throttling(wait), Task::Sleep(wait)),
            None => (Stage::Loading, Task::Load),
        },
        (Stage::Throttling(_), Event::Woke) => (Stage::Loading, Task::Load),
        (Stage::Loading, _) => (stage, Task::Load),
        (Stage::Resolving, _) => (stage, Task::Collect),
        (Stage::Running, _) => (stage, Task::Run),
        (Stage::Throttling(wait), _) => (stage, Task::Sleep(wait)),
    }
}

/// An attempt that ends before the least interval is over is followed by a
/// wait of exactly what is missing to it, and only then by the next
/// iteration. An attempt that takes that long or longer is followed by the
/// next iteration at once.
pub proof fn lemma_restart_guard(elapsed: u128)
    ensures
        elapsed < MIN_INTERVAL ==> {
            &&& stage_after(Stage::Running, Event::Exited(elapsed)) == Stage::Throttling(
                (MIN_INTERVAL - elapsed) as u64,
            )
            &&& task_of(stage_after(Stage::Running, Event::Exited(elapsed))) == Task::Sleep(
                (MIN_INTERVAL - elapsed) as u64,
            )
            &&& elapsed + (MIN_INTERVAL - elapsed) == MIN_INTERVAL
            &&& stage_after(stage_after(Stage::Running, Event::Exited(elapsed)), Event::Woke)
                == Stage::Loading
        },
        elapsed >= MIN_INTERVAL ==> stage_after(Stage::Running, Event::Exited(elapsed))
            == Stage::Loading,
{
}

/// One iteration goes through loading, resolving and running in this
/// order and comes back to loading, with or without a wait.
pub proof fn lemma_loop_comes_round(elapsed: u128)
    ensures
        ({
            let resolving = stage_after(Stage::Loading, Event::Loaded);
            let running = stage_after(resolving, Event::Collected);
            let ended = stage_after(running, Event::Exited(elapsed));
            &&& resolving == Stage::Resolving
            &&& running == Stage::Running
            &&& ended == Stage::Loading || stage_after(ended, Event::Woke) == Stage::Loading
        }),
{
}

} // verus!
