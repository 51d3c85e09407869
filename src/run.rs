use vstd::prelude::*;

verus! {

/// Where a run stands. `Done` and `Failed` are terminal.
#[derive(Clone, Copy, Debug, PartialEq, Eq, Structural)]
pub enum Stage {
    Init,
    DirReady,
    Connected,
    SizeKnown,
    Streaming,
    Done,
    Failed,
}

/// What the outside world reports back to the run.
#[derive(Clone, Copy, Debug, PartialEq, Eq, Structural)]
pub enum Event {
    /// The program was started with this many command-line words, its own
    /// name included.
    Started { arg_count: usize },
    /// The output directory exists now.
    DirectoryReady,
    /// The request was sent and a response stream is open.
    Connected,
    /// The declared total size of the response, if the server gave one.
    ContentLength { total: Option<u64> },
    /// Every entry of the archive was written.
    Extracted,
    /// The outside work of the current stage failed.
    Failure,
}

/// What the run asks the outside world to do next.
#[derive(Clone, Copy, Debug, PartialEq, Eq, Structural)]
pub enum Action {
    /// Print the usage line and finish successfully.
    PrintUsage,
    /// Create the output directory and its missing ancestors, if absent.
    EnsureDirectory,
    /// Send the request for the archive.
    Connect,
    /// Read the declared total size off the response.
    ReadLength,
    /// Pull the stream through the progress, decompression and extraction
    /// layers, counting against this total.
    Extract { total: u64 },
    /// Report that extraction completed.
    ReportDone,
    /// Fail: the server declared no size.
    FailMissingLength,
    /// Stop: the failure that was just reported ends the run.
    Stop,
    /// Nothing more: the run is over.
    Nothing,
}

pub open spec fn is_terminal(s: Stage) -> bool {
    s == Stage::Done || s == Stage::Failed
}

/// Whether the action touches the network or the filesystem.
pub open spec fn is_outside_work(a: Action) -> bool {
    match a {
        Action::EnsureDirectory | Action::Connect | Action::ReadLength | Action::Extract { .. } => true,
        _ => false,
    }
}

/// The transition table of a run: a linear sequence of stages with a single
/// attempt at each, where any failure ends the run.
pub open spec fn next_spec(s: Stage, e: Event) -> (Stage, Action) {
    if is_terminal(s) {
        (s, Action::Nothing)
    } else if e == Event::Failure {
        (Stage::Failed, Action::Stop)
    } else {
        match (s, e) {
            (Stage::Init, Event::Started { arg_count }) => if arg_count == 3 {
                (Stage::Init, Action::EnsureDirectory)
            } else {
                (Stage::Done, Action::PrintUsage)
            },
            (Stage::Init, Event::DirectoryReady) => (Stage::DirReady, Action::Connect),
            (Stage::DirReady, Event::Connected) => (Stage::Connected, Action::ReadLength),
            (Stage::Connected, Event::ContentLength { total }) => match total {
                Some(t) => (Stage::SizeKnown, Action::Extract { total: t }),
                None => (Stage::Failed, Action::FailMissingLength),
            },
            (Stage::SizeKnown, Event::Extracted) => (Stage::Done, Action::ReportDone),
            _ => (Stage::Failed, Action::Stop),
        }
    }
}

/// Advances a run by one event and names the next action.
pub fn next(s: Stage, e: Event) -> (r: (Stage, Action))
    ensures
        r == next_spec(s, e),
{
    if s == Stage::Done || s == Stage::Failed {
        return (s, Action::Nothing);
    }
    match e {
        Event::Failure => (Stage::Failed, Action::Stop),
        Event::Started { arg_count } => {
            if s != Stage::Init {
                (Stage::Failed, Action::Stop)
            } else if arg_count == 3 {
                (Stage::Init, Action::EnsureDirectory)
            } else {
                (Stage::Done, Action::PrintUsage)
            }
        },
        Event::DirectoryReady => if s == Stage::Init {
            (Stage::DirReady, Action::Connect)
        } else {
            (Stage::Failed, Action::Stop)
        },
        Event::Connected => if s == Stage::DirReady {
            (Stage::Connected, Action::ReadLength)
        } else {
            (Stage::Failed, Action::Stop)
        },
        Event::ContentLength { total } => if s == Stage::Connected {
            match total {
                Some(t) => (Stage::SizeKnown, Action::Extract { total: t }),
                None => (Stage::Failed, Action::FailMissingLength),
            }
        } else {
            (Stage::Failed, Action::Stop)
        },
        Event::Extracted => if s == Stage::SizeKnown {
            (Stage::Done, Action::ReportDone)
        } else {
            (Stage::Failed, Action::Stop)
        },
    }
}

/// The stage and actions after feeding `events` in order to a fresh run.
pub open spec fn run_from(s: Stage, events: Seq<Event>) -> (Stage, Seq<Action>)
    decreases events.len(),
{
    if events.len() == 0 {
        (s, Seq::empty())
    } else {
        let (s1, acts) = run_from(s, events.drop_last());
        let (s2, a) = next_spec(s1, events.last());
        (s2, acts.push(a))
    }
}

/// A terminal stage stays put and asks for nothing, whatever comes after.
pub proof fn lemma_terminal_is_final(s: Stage, events: Seq<Event>)
    requires
        is_terminal(s),
    ensures
        run_from(s, events).0 == s,
        run_from(s, events).1.len() == events.len(),
        forall|i: int| 0 <= i < events.len() ==> run_from(s, events).1[i] == Action::Nothing,
    decreases events.len(),
{
    if events.len() > 0 {
        lemma_terminal_is_final(s, events.drop_last());
        let prev = run_from(s, events.drop_last()).1;
        assert(run_from(s, events).1 == prev.push(Action::Nothing));
        assert forall|i: int| 0 <= i < events.len() implies run_from(s, events).1[i] == Action::Nothing by {
            if i < events.len() - 1 {
                assert(prev[i] == Action::Nothing);
            }
        }
    }
}

/// Started with any number of words but three (the program and its two
/// arguments), a run prints the usage line, finishes successfully, and
/// asks for no network or filesystem work afterwards.
pub proof fn lemma_wrong_arguments_do_no_work(arg_count: usize, later: Seq<Event>)
    requires
        arg_count != 3,
    ensures
        next_spec(Stage::Init, Event::Started { arg_count }) == (Stage::Done, Action::PrintUsage),
        forall|i: int| 0 <= i < later.len() ==> !is_outside_work(#[trigger] run_from(Stage::Done, later).1[i]),
{
    lemma_terminal_is_final(Stage::Done, later);
}

/// A failure at any stage before the end fails the run.
pub proof fn lemma_failure_stops(s: Stage)
    requires
        !is_terminal(s),
    ensures
        next_spec(s, Event::Failure) == (Stage::Failed, Action::Stop),
{
}

} // verus!
