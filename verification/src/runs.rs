//! Whole runs of a width probe: what it asks for and how it ends, for every
//! way in which the terminal may answer.

use crate::probe::{
    answers, failure_of, failure_verdict, ActionView, CursorPosition, Event, OracleError, ProbeView,
    ProgressView,
};
use vstd::prelude::*;

verus! {

/// Where a probe stands after it was told `events` in order. Events behind
/// the verdict are not looked at.
pub open spec fn run<E>(probe: ProbeView, events: Seq<Event<E>>) -> ProgressView<E>
    decreases events.len(),
{
    if events.len() == 0 {
        ProgressView::Continue(probe)
    } else {
        match probe.advance(events[0]) {
            ProgressView::Continue(next) => run(next, events.drop_first()),
            ProgressView::Finished(verdict) => ProgressView::Finished(verdict),
        }
    }
}

/// The actions that a probe asks for while it is told `events` in order:
/// its pending action, then the pending action after each event, up to the
/// verdict.
pub open spec fn requests<E>(probe: ProbeView, events: Seq<Event<E>>) -> Seq<ActionView>
    decreases events.len(),
{
    if events.len() == 0 {
        seq![probe.pending()]
    } else {
        match probe.advance(events[0]) {
            ProgressView::Continue(next) => seq![probe.pending()] + requests(
                next,
                events.drop_first(),
            ),
            ProgressView::Finished(_) => seq![probe.pending()],
        }
    }
}

/// The events of a probe during which nothing failed: the terminal reported
/// `origin`, then `behind`, and took the cursor back both times.
pub open spec fn smooth<E>(origin: CursorPosition, behind: CursorPosition) -> Seq<Event<E>> {
    seq![
        Event::Position(Ok(origin)),
        Event::Printed,
        Event::Position(Ok(behind)),
        Event::Moved(Ok(())),
        Event::Printed,
        Event::Moved(Ok(())),
    ]
}

/// Where nothing fails, the probe asks for the position, prints the
/// character, asks again, goes back to the origin, prints a space for each
/// byte of the character and goes back once more. Its verdict is `true` where
/// the column moved by exactly the expected width, and `false` for every
/// other displacement.
pub proof fn law_displacement_decides<E>(
    character: Seq<char>,
    expected_width: int,
    origin: CursorPosition,
    behind: CursorPosition,
)
    ensures
        run(ProbeView::start(character, expected_width), smooth::<E>(origin, behind))
            == ProgressView::<E>::Finished(Ok(behind.column - origin.column == expected_width)),
        requests(ProbeView::start(character, expected_width), smooth::<E>(origin, behind)) == seq![
            ActionView::QueryPosition,
            ActionView::Print(character),
            ActionView::QueryPosition,
            ActionView::SetPosition(origin),
            ActionView::Print(ProbeView::start(character, expected_width).cover()),
            ActionView::SetPosition(origin),
        ],
{
    reveal_with_fuel(run, 7);
    reveal_with_fuel(requests, 7);
}

/// A probe told `head` and then `tail` stands where the probe that `head`
/// left stands after `tail`, and has asked for what the two asked for; and
/// where `head` ended it, `tail` changes nothing.
pub proof fn lemma_run_in_two<E>(probe: ProbeView, head: Seq<Event<E>>, tail: Seq<Event<E>>)
    ensures
        requests(probe, head).len() > 0,
        run(probe, head + tail) == (match run(probe, head) {
            ProgressView::Continue(next) => run(next, tail),
            ProgressView::Finished(verdict) => ProgressView::Finished(verdict),
        }),
        requests(probe, head + tail) == (match run(probe, head) {
            ProgressView::Continue(next) => requests(probe, head).drop_last() + requests(
                next,
                tail,
            ),
            ProgressView::Finished(_) => requests(probe, head),
        }),
    decreases head.len(),
{
    if head.len() == 0 {
        assert(head + tail == tail);
        assert(requests(probe, head).drop_last() + requests(probe, tail) == requests(
            probe,
            tail,
        ));
    } else {
        assert((head + tail).drop_first() == head.drop_first() + tail);
        match probe.advance(head[0]) {
            ProgressView::Continue(next) => {
                lemma_run_in_two(next, head.drop_first(), tail);
                let first = seq![probe.pending()];
                let rest = requests(next, head.drop_first());
                assert((first + rest).drop_last() == first + rest.drop_last());
                match run(next, head.drop_first()) {
                    ProgressView::Continue(last) => {
                        assert(first + (rest.drop_last() + requests(last, tail)) == (first
                            + rest.drop_last()) + requests(last, tail));
                    },
                    ProgressView::Finished(_) => {},
                }
            },
            ProgressView::Finished(_) => {},
        }
    }
}

/// The last action that a probe under way has asked for is the one that it
/// waits for.
pub proof fn lemma_last_request<E>(probe: ProbeView, events: Seq<Event<E>>)
    requires
        run(probe, events) is Continue,
    ensures
        requests(probe, events).len() > 0,
        requests(probe, events).last() == run(probe, events)->Continue_0.pending(),
    decreases events.len(),
{
    if events.len() > 0 {
        match probe.advance(events[0]) {
            ProgressView::Continue(next) => {
                lemma_last_request(next, events.drop_first());
            },
            ProgressView::Finished(_) => {},
        }
    }
}

/// Where the platform cannot report the cursor position when the probe
/// first asks for it, the verdict is `false`, and the probe has asked for
/// nothing but that position: nothing was printed.
pub proof fn law_unsupported_platform_is_silent<E>(
    character: Seq<char>,
    expected_width: int,
    after: Seq<Event<E>>,
)
    ensures
        run(
            ProbeView::start(character, expected_width),
            seq![Event::<E>::Position(Err(OracleError::PlatformUnsupported))] + after,
        ) == ProgressView::<E>::Finished(Ok(false)),
        requests(
            ProbeView::start(character, expected_width),
            seq![Event::<E>::Position(Err(OracleError::PlatformUnsupported))] + after,
        ) == seq![ActionView::QueryPosition],
{
    let refusal = seq![Event::<E>::Position(Err(OracleError::PlatformUnsupported))];
    reveal_with_fuel(run, 2);
    reveal_with_fuel(requests, 2);
    lemma_run_in_two(ProbeView::start(character, expected_width), refusal, after);
}

/// Whenever the terminal fails to report or to set the cursor position, at
/// whichever stage, the probe ends there: with `false` where the platform
/// cannot do it, with the error itself where there was an I/O error. The
/// failed action is the last that the probe asks for, whatever it is told
/// afterwards.
pub proof fn law_failure_ends_probe<E>(
    probe: ProbeView,
    before: Seq<Event<E>>,
    failure: Event<E>,
    after: Seq<Event<E>>,
)
    requires
        run(probe, before) matches ProgressView::Continue(waiting) && answers(
            waiting.pending(),
            failure,
        ),
        failure_of(failure) is Some,
    ensures
        run(probe, before + seq![failure] + after) == ProgressView::Finished(
            failure_verdict(failure_of(failure)->0),
        ),
        requests(probe, before + seq![failure] + after) == requests(probe, before),
{
    let waiting = run(probe, before)->Continue_0;
    reveal_with_fuel(run, 2);
    reveal_with_fuel(requests, 2);
    lemma_run_in_two(probe, before, seq![failure]);
    lemma_run_in_two(probe, before + seq![failure], after);
    assert(requests(probe, before).drop_last() + seq![waiting.pending()] == requests(
        probe,
        before,
    )) by {
        lemma_last_request(probe, before);
    }
}

/// An I/O error of the terminal, at whichever stage, is the verdict of the
/// probe, and the probe asks for nothing more.
pub proof fn law_io_error_is_returned<E>(
    probe: ProbeView,
    before: Seq<Event<E>>,
    failure: Event<E>,
    after: Seq<Event<E>>,
    cause: E,
)
    requires
        run(probe, before) matches ProgressView::Continue(waiting) && answers(
            waiting.pending(),
            failure,
        ),
        failure_of(failure) == Some(OracleError::Io(cause)),
    ensures
        run(probe, before + seq![failure] + after) == ProgressView::<E>::Finished(Err(cause)),
        requests(probe, before + seq![failure] + after) == requests(probe, before),
{
    law_failure_ends_probe(probe, before, failure, after);
}

} // verus!
