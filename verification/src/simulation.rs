//! A width probe against a simulated terminal: one that always answers, and
//! whose cursor goes where it is sent.
//!
//! How such a terminal draws a character, and how far it moves the cursor
//! for it, is left open: that is what a probe is there to find out.

use crate::probe::{blanks, ActionView, CursorPosition, Event, ProbeView, ProgressView};
use vstd::prelude::*;
use vstd::utf8::encode_utf8;

verus! {

/// What each cell of a screen shows. A cell is named by the position that
/// the cursor has when it stands on it.
pub type Screen = spec_fn(CursorPosition) -> char;

/// A terminal that never fails.
pub struct Terminal {
    /// Where the cursor stands.
    pub cursor: CursorPosition,
    /// What the screen shows.
    pub screen: Screen,
    /// Where printing a text leaves a cursor that stood at a position.
    pub advance: spec_fn(CursorPosition, Seq<char>) -> CursorPosition,
    /// What a screen shows after a text was printed with the cursor at a
    /// position.
    pub paint: spec_fn(Screen, CursorPosition, Seq<char>) -> Screen,
}

/// Whether `cell` is one of the `n` cells from `from` to the right.
pub open spec fn within(from: CursorPosition, n: int, cell: CursorPosition) -> bool {
    cell.row == from.row && from.column <= cell.column < from.column + n
}

impl Terminal {
    /// The terminal after it carried out `action`, and what it reports of it.
    pub open spec fn perform<E>(self, action: ActionView) -> (Terminal, Event<E>) {
        match action {
            ActionView::QueryPosition => (self, Event::Position(Ok(self.cursor))),
            ActionView::Print(text) => (
                Terminal {
                    cursor: (self.advance)(self.cursor, text),
                    screen: (self.paint)(self.screen, self.cursor, text),
                    ..self
                },
                Event::Printed,
            ),
            ActionView::SetPosition(position) => (
                Terminal { cursor: position, ..self },
                Event::Moved(Ok(())),
            ),
        }
    }

    /// Whether the terminal draws `text` on no more cells than `text` has
    /// bytes, to the right of the cursor: at worst it shows a glyph of its
    /// own for every byte.
    pub open spec fn draws_within_bytes(self, text: Seq<char>) -> bool {
        forall|screen: Screen, cursor: CursorPosition, cell: CursorPosition|
            !within(cursor, encode_utf8(text).len() as int, cell) ==> #[trigger] (self.paint)(
                screen,
                cursor,
                text,
            )(cell) == screen(cell)
    }

    /// Whether the terminal draws spaces as blank cells, one for each, to the
    /// right of the cursor.
    pub open spec fn draws_blanks(self) -> bool {
        forall|screen: Screen, cursor: CursorPosition, n: nat, cell: CursorPosition|
            #[trigger] (self.paint)(screen, cursor, blanks(n))(cell) == if within(
                cursor,
                n as int,
                cell,
            ) {
                ' '
            } else {
                screen(cell)
            }
    }
}

/// A probe and a terminal after at most `rounds` rounds, in each of which the
/// terminal carries out what the probe waits for and the probe is told the
/// outcome.
pub open spec fn drive<E>(probe: ProbeView, terminal: Terminal, rounds: nat) -> (
    ProgressView<E>,
    Terminal,
)
    decreases rounds,
{
    if rounds == 0 {
        (ProgressView::Continue(probe), terminal)
    } else {
        let (reached, event) = terminal.perform::<E>(probe.pending());
        match probe.advance(event) {
            ProgressView::Continue(next) => drive(next, reached, (rounds - 1) as nat),
            ProgressView::Finished(verdict) => (ProgressView::Finished(verdict), reached),
        }
    }
}

/// A whole probe on `terminal`: the six rounds that a probe takes where
/// nothing fails.
pub open spec fn probe_on<E>(terminal: Terminal, character: Seq<char>, expected_width: int) -> (
    ProgressView<E>,
    Terminal,
) {
    drive(ProbeView::start(character, expected_width), terminal, 6)
}

/// A probe on a simulated terminal says whether printing the character moved
/// the cursor by the expected width, and leaves the cursor where it found
/// it. So a second probe right after the first finds what the first found:
/// it gives the same verdict, and the cursor is still where it was.
pub proof fn law_probe_is_idempotent<E>(
    terminal: Terminal,
    character: Seq<char>,
    expected_width: int,
)
    ensures
        ({
            let behind = (terminal.advance)(terminal.cursor, character);
            let once = probe_on::<E>(terminal, character, expected_width);
            let twice = probe_on::<E>(once.1, character, expected_width);
            &&& once.0 == ProgressView::<E>::Finished(
                Ok(behind.column - terminal.cursor.column == expected_width),
            )
            &&& once.1.cursor == terminal.cursor
            &&& twice.0 == once.0
            &&& twice.1.cursor == terminal.cursor
        }),
{
    reveal_with_fuel(drive, 7);
}

/// The spaces of a probe take away what its character left on the screen.
/// From the fifth round on, the cells that the bytes of the character could
/// take are blank and every other cell shows what it showed before the
/// probe. Where those cells were blank before, as they are behind a prompt,
/// the probe has left no trace.
pub proof fn law_probe_leaves_no_trace<E>(
    terminal: Terminal,
    character: Seq<char>,
    expected_width: int,
    cell: CursorPosition,
)
    requires
        terminal.draws_within_bytes(character),
        terminal.draws_blanks(),
    ensures
        ({
            let bytes = encode_utf8(character).len() as int;
            let erased = drive::<E>(ProbeView::start(character, expected_width), terminal, 5).1;
            let done = probe_on::<E>(terminal, character, expected_width).1;
            let expected = if within(terminal.cursor, bytes, cell) {
                ' '
            } else {
                (terminal.screen)(cell)
            };
            &&& (erased.screen)(cell) == expected
            &&& (done.screen)(cell) == expected
        }),
{
    reveal_with_fuel(drive, 7);
    let probe = ProbeView::start(character, expected_width);
    let bytes = encode_utf8(character).len();
    let drawn = (terminal.paint)(terminal.screen, terminal.cursor, character);
    let erased = (terminal.paint)(drawn, terminal.cursor, blanks(bytes));
    assert(drive::<E>(probe, terminal, 5).1.screen == erased);
    assert(probe_on::<E>(terminal, character, expected_width).1.screen == erased);
    if !within(terminal.cursor, bytes as int, cell) {
        assert(drawn(cell) == (terminal.screen)(cell));
    }
}

} // verus!
