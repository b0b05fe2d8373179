//! What holds of every run of the session: the trace of actions a sequence
//! of events produces, and the guarantees of the print loop.

use vstd::prelude::*;
use crate::config::{spec_config, ConfigModel};
use crate::session::{spec_step, Action, EventModel, LoadError, StartupError, StateModel};

verus! {

/// The actions a run from `s` performs, one per event.
pub open spec fn run_from(s: StateModel, events: Seq<EventModel>) -> Seq<Action>
    decreases events.len(),
{
    if events.len() == 0 {
        Seq::empty()
    } else {
        seq![spec_step(s, events[0]).1] + run_from(
            spec_step(s, events[0]).0,
            events.drop_first(),
        )
    }
}

/// The state a run from `s` ends in.
pub open spec fn state_after(s: StateModel, events: Seq<EventModel>) -> StateModel
    decreases events.len(),
{
    if events.len() == 0 {
        s
    } else {
        state_after(spec_step(s, events[0]).0, events.drop_first())
    }
}

/// The polls of a sequence of shutdown-flag values.
pub open spec fn polls(flags: Seq<bool>) -> Seq<EventModel> {
    flags.map(|i: int, b: bool| EventModel::Poll { runnable: b })
}

/// Index of the first `false` in a sequence of flag values.
pub open spec fn first_false(flags: Seq<bool>) -> int
    decreases flags.len(),
{
    if flags.len() == 0 {
        0
    } else if !flags[0] {
        0
    } else {
        1 + first_false(flags.drop_first())
    }
}

/// A run performs exactly one action per event.
pub proof fn lemma_run_length(s: StateModel, events: Seq<EventModel>)
    ensures
        run_from(s, events).len() == events.len(),
    decreases events.len(),
{
    if events.len() > 0 {
        lemma_run_length(spec_step(s, events[0]).0, events.drop_first());
    }
}

proof fn lemma_first_false(flags: Seq<bool>)
    requires
        exists|i: int| 0 <= i < flags.len() && !flags[i],
    ensures
        ({
            let k = first_false(flags);
            &&& 0 <= k < flags.len()
            &&& !flags[k]
            &&& forall|j: int| 0 <= j < k ==> flags[j]
        }),
    decreases flags.len(),
{
    if flags[0] {
        let i = choose|i: int| 0 <= i < flags.len() && !flags[i];
        assert(0 <= i - 1 < flags.drop_first().len() && !flags.drop_first()[i - 1]);
        lemma_first_false(flags.drop_first());
        let k = first_false(flags);
        assert(!flags.drop_first()[k - 1]);
        assert forall|j: int| 0 <= j < k implies flags[j] by {
            if j >= 1 {
                assert(flags.drop_first()[j - 1]);
            }
        }
    }
}

proof fn lemma_polls_drop_first(flags: Seq<bool>)
    requires
        flags.len() > 0,
    ensures
        polls(flags).drop_first() =~= polls(flags.drop_first()),
{
}

/// A session that has stopped, or has failed, stays where it is: every
/// further event leaves the state unchanged and asks the driver for nothing.
pub proof fn lemma_terminal(s: StateModel, events: Seq<EventModel>)
    requires
        s is Stopped || s is Failed,
    ensures
        state_after(s, events) == s,
        run_from(s, events).len() == events.len(),
        forall|j: int| 0 <= j < events.len() ==> run_from(s, events)[j] == Action::Continue,
    decreases events.len(),
{
    lemma_run_length(s, events);
    if events.len() > 0 {
        assert(spec_step(s, events[0]).0 == s);
        lemma_terminal(s, events.drop_first());
        assert forall|j: int| 0 <= j < events.len() implies run_from(s, events)[j]
            == Action::Continue by {
            if j >= 1 {
                assert(run_from(s, events.drop_first())[j - 1] == Action::Continue);
            }
        }
    }
}

/// A running loop polled until the flag is down prints once per poll that
/// finds the flag up, then says farewell exactly once — at the first poll
/// that finds it down — and ends stopped; polls after that do nothing, so
/// repeated shutdown requests still produce a single farewell.
pub proof fn lemma_shutdown_farewell_once(
    config: ConfigModel,
    content: Seq<char>,
    flags: Seq<bool>,
)
    requires
        exists|i: int| 0 <= i < flags.len() && !flags[i],
    ensures
        ({
            let out = run_from(StateModel::Running { config, content }, polls(flags));
            let k = first_false(flags);
            &&& 0 <= k < flags.len()
            &&& out.len() == flags.len()
            &&& out[k] == Action::PrintFarewell
            &&& forall|j: int| 0 <= j < k ==> out[j] == Action::PrintContent
            &&& forall|j: int| k < j < flags.len() ==> out[j] == Action::Continue
            &&& state_after(StateModel::Running { config, content }, polls(flags)) is Stopped
        }),
    decreases flags.len(),
{
    lemma_first_false(flags);
    let s0 = StateModel::Running { config, content };
    let evs = polls(flags);
    let out = run_from(s0, evs);
    let k = first_false(flags);
    lemma_run_length(s0, evs);
    assert(evs[0] == (EventModel::Poll { runnable: flags[0] }));
    lemma_polls_drop_first(flags);
    if !flags[0] {
        assert(spec_step(s0, evs[0]) == (StateModel::Stopped, Action::PrintFarewell));
        lemma_terminal(StateModel::Stopped, evs.drop_first());
        assert(out[0] == Action::PrintFarewell);
        assert forall|j: int| 0 < j < flags.len() implies out[j] == Action::Continue by {
            assert(run_from(StateModel::Stopped, evs.drop_first())[j - 1] == Action::Continue);
        }
    } else {
        assert(spec_step(s0, evs[0]) == (s0, Action::PrintContent));
        assert(0 <= k - 1 < flags.drop_first().len() && !flags.drop_first()[k - 1]);
        lemma_shutdown_farewell_once(config, content, flags.drop_first());
        let out1 = run_from(s0, polls(flags.drop_first()));
        let k1 = first_false(flags.drop_first());
        assert(k == 1 + k1);
        assert(out[k] == out1[k1]);
        assert forall|j: int| 0 <= j < k implies out[j] == Action::PrintContent by {
            if j >= 1 {
                assert(out1[j - 1] == Action::PrintContent);
            }
        }
        assert forall|j: int| k < j < flags.len() implies out[j] == Action::Continue by {
            assert(out1[j - 1] == Action::Continue);
        }
    }
}

/// With the flag up, the very first poll already prints: the loop does not
/// wait before its first line, whatever the interval.
pub proof fn lemma_prints_immediately(config: ConfigModel, content: Seq<char>, flags: Seq<bool>)
    requires
        flags.len() > 0,
        flags[0],
    ensures
        run_from(StateModel::Running { config, content }, polls(flags)).len() == flags.len(),
        run_from(StateModel::Running { config, content }, polls(flags))[0]
            == Action::PrintContent,
{
    let s0 = StateModel::Running { config, content };
    lemma_run_length(s0, polls(flags));
    assert(polls(flags)[0] == (EventModel::Poll { runnable: flags[0] }));
}

/// When the configured file cannot be loaded, the session fails at startup:
/// nothing is ever printed — no content line and no farewell — whatever
/// events follow, and the run ends in the failed state.
pub proof fn lemma_load_failure_prints_nothing(
    time: Option<Seq<char>>,
    path: Seq<char>,
    err: LoadError,
    rest: Seq<EventModel>,
)
    requires
        spec_config(time, Option::Some(path)) is Ok,
    ensures
        ({
            let events = seq![
                EventModel::Options { time, file: Option::Some(path) },
                EventModel::Loaded { outcome: Result::Err(err) },
            ] + rest;
            let out = run_from(StateModel::AwaitOptions, events);
            &&& out.len() == rest.len() + 2
            &&& forall|j: int| 0 <= j < out.len() ==> out[j] != Action::PrintContent
                && out[j] != Action::PrintFarewell
            &&& state_after(StateModel::AwaitOptions, events) == (StateModel::Failed {
                error: StartupError::LoadFailed(err),
            })
        }),
{
    let events = seq![
        EventModel::Options { time, file: Option::Some(path) },
        EventModel::Loaded { outcome: Result::Err(err) },
    ] + rest;
    let out = run_from(StateModel::AwaitOptions, events);
    lemma_run_length(StateModel::AwaitOptions, events);
    let config = spec_config(time, Option::Some(path))->Ok_0;
    assert(config.file_path == Option::Some(path));
    let s1 = StateModel::AwaitContent { config };
    let s2 = StateModel::Failed { error: StartupError::LoadFailed(err) };
    assert(spec_step(StateModel::AwaitOptions, events[0]) == (s1, Action::ReadFile));
    assert(events.drop_first()[0] == events[1]);
    assert(spec_step(s1, events[1]) == (s2, Action::Abort));
    assert(events.drop_first().drop_first() =~= rest);
    lemma_terminal(s2, rest);
    assert(state_after(StateModel::AwaitOptions, events) == state_after(s1, events.drop_first()));
    assert(state_after(s1, events.drop_first()) == state_after(s2, events.drop_first().drop_first()));
    assert(state_after(s2, rest) == s2);
    lemma_run_length(s1, events.drop_first());
    assert(out[0] == Action::ReadFile);
    assert(out[1] == run_from(s1, events.drop_first())[0]);
    assert(out[1] == Action::Abort);
    assert forall|j: int| 0 <= j < out.len() implies out[j] != Action::PrintContent && out[j]
        != Action::PrintFarewell by {
        if j >= 2 {
            assert(out[j] == run_from(s1, events.drop_first())[j - 1]);
            assert(run_from(s1, events.drop_first())[j - 1] == run_from(s2, rest)[j - 2]);
            assert(run_from(s2, rest)[j - 2] == Action::Continue);
        }
    }
}

/// Once the loop runs, its configuration and content never change: every
/// reachable state is the same running state or the stopped one. The content
/// loaded at startup is the content of every later print.
pub proof fn lemma_running_content_constant(
    config: ConfigModel,
    content: Seq<char>,
    events: Seq<EventModel>,
)
    ensures
        ({
            let f = state_after(StateModel::Running { config, content }, events);
            f == (StateModel::Running { config, content }) || f == StateModel::Stopped
        }),
    decreases events.len(),
{
    let s0 = StateModel::Running { config, content };
    if events.len() > 0 {
        let s1 = spec_step(s0, events[0]).0;
        assert(s1 == s0 || s1 == StateModel::Stopped);
        if s1 == s0 {
            lemma_running_content_constant(config, content, events.drop_first());
        } else {
            lemma_terminal(StateModel::Stopped, events.drop_first());
        }
    }
}

/// With no file option given, the loop starts — and, by
/// [`lemma_running_content_constant`], forever runs — with empty content:
/// each iteration prints an empty line.
pub proof fn lemma_no_file_empty_content(time: Option<Seq<char>>, rest: Seq<EventModel>)
    requires
        spec_config(time, Option::None) is Ok,
    ensures
        ({
            let config = spec_config(time, Option::None)->Ok_0;
            let first = EventModel::Options { time, file: Option::None };
            let running = StateModel::Running { config, content: Seq::<char>::empty() };
            &&& spec_step(StateModel::AwaitOptions, first) == (running, Action::Continue)
            &&& {
                let f = state_after(StateModel::AwaitOptions, seq![first] + rest);
                f == running || f == StateModel::Stopped
            }
        }),
{
    let config = spec_config(time, Option::None)->Ok_0;
    let first = EventModel::Options { time, file: Option::None };
    assert(config.file_path is None);
    assert((seq![first] + rest).drop_first() =~= rest);
    lemma_running_content_constant(config, Seq::<char>::empty(), rest);
}

} // verus!
