//! The width probe: print a character, see how far the cursor moved, and
//! put everything back.
//!
//! The probe neither writes to the terminal nor asks it anything. It is a
//! state machine: it names the one thing to do next, the driver does it and
//! reports what happened, and the probe moves on or gives its verdict.
//!
//! 1. ask for the cursor position, the origin;
//! 2. print the character;
//! 3. ask for the cursor position again;
//! 4. move the cursor back to the origin;
//! 5. print one space for each byte of the character's UTF-8 encoding, since
//!    some terminals show a glyph for every byte;
//! 6. move the cursor back to the origin.
//!
//! The verdict is `true` exactly where the column moved by the expected
//! width between the two answers.

use vstd::prelude::*;
use vstd::string::StringExecFns;
use vstd::utf8::encode_utf8;

verus! {

/// Where the cursor stands.
#[derive(Clone, Copy, Debug, PartialEq, Eq, Structural)]
pub struct CursorPosition {
    pub column: i32,
    pub row: i32,
}

/// Why the terminal did not report or set the cursor position.
#[derive(Debug)]
pub enum OracleError<E> {
    /// The platform has no way to do so.
    PlatformUnsupported,
    /// Talking to the terminal failed.
    Io(E),
}

/// What the driver is to do for the probe.
#[derive(Debug, PartialEq, Eq)]
pub enum Action {
    /// Ask the terminal where the cursor stands.
    QueryPosition,
    /// Write the text to the terminal.
    Print(String),
    /// Move the cursor.
    SetPosition(CursorPosition),
}

/// What came of an action.
#[derive(Debug)]
pub enum Event<E> {
    /// The answer to `Action::QueryPosition`.
    Position(Result<CursorPosition, OracleError<E>>),
    /// The text of `Action::Print` was written.
    Printed,
    /// The outcome of `Action::SetPosition`.
    Moved(Result<(), OracleError<E>>),
}

/// How far a probe has come. Each stage waits for the outcome of one action.
#[derive(Clone, Copy, Debug, PartialEq, Eq, Structural)]
pub enum Stage {
    /// Waits for the cursor position before anything is printed.
    Origin,
    /// Waits for the character to be printed.
    Probe { origin: CursorPosition },
    /// Waits for the cursor position behind the character.
    Displaced { origin: CursorPosition },
    /// Waits for the cursor to be back at the origin, before erasing.
    Rewind { origin: CursorPosition, reached: i32 },
    /// Waits for the spaces to be printed over the character.
    Erase { origin: CursorPosition, reached: i32 },
    /// Waits for the cursor to be back at the origin, after erasing.
    Restore { origin: CursorPosition, reached: i32 },
}

/// A width probe under way.
#[derive(Debug)]
pub struct WidthProbe {
    character: String,
    expected_width: i32,
    stage: Stage,
}

/// A probe after an event: still under way, or done with its verdict.
#[derive(Debug)]
pub enum Progress<E> {
    Continue(WidthProbe),
    Finished(Result<bool, E>),
}

/// `Action` with its text as a sequence of characters.
pub enum ActionView {
    QueryPosition,
    Print(Seq<char>),
    SetPosition(CursorPosition),
}

/// What a probe is made of: the character it prints, the number of columns
/// that the character takes where the terminal supports it, and the stage.
pub struct ProbeView {
    pub character: Seq<char>,
    pub expected_width: int,
    pub stage: Stage,
}

/// `Progress` with the probe as its view.
pub enum ProgressView<E> {
    Continue(ProbeView),
    Finished(Result<bool, E>),
}

impl View for Action {
    type V = ActionView;

    open spec fn view(&self) -> ActionView {
        match *self {
            Action::QueryPosition => ActionView::QueryPosition,
            Action::Print(text) => ActionView::Print(text@),
            Action::SetPosition(position) => ActionView::SetPosition(position),
        }
    }
}

impl View for WidthProbe {
    type V = ProbeView;

    closed spec fn view(&self) -> ProbeView {
        ProbeView {
            character: self.character@,
            expected_width: self.expected_width as int,
            stage: self.stage,
        }
    }
}

impl<E> View for Progress<E> {
    type V = ProgressView<E>;

    open spec fn view(&self) -> ProgressView<E> {
        match *self {
            Progress::Continue(probe) => ProgressView::Continue(probe@),
            Progress::Finished(verdict) => ProgressView::Finished(verdict),
        }
    }
}

/// A run of `n` spaces.
pub open spec fn blanks(n: nat) -> Seq<char> {
    Seq::new(n, |i: int| ' ')
}

/// What a failure of the terminal makes of the probe: a platform that cannot
/// tell shows no support, and an I/O error is the caller's to handle.
pub open spec fn failure_verdict<E>(error: OracleError<E>) -> Result<bool, E> {
    match error {
        OracleError::PlatformUnsupported => Ok(false),
        OracleError::Io(cause) => Err(cause),
    }
}

/// Whether `event` is an outcome of `action`.
pub open spec fn answers<E>(action: ActionView, event: Event<E>) -> bool {
    match action {
        ActionView::QueryPosition => event is Position,
        ActionView::Print(_) => event is Printed,
        ActionView::SetPosition(_) => event is Moved,
    }
}

/// The error that `event` reports, if it reports one.
pub open spec fn failure_of<E>(event: Event<E>) -> Option<OracleError<E>> {
    match event {
        Event::Position(Err(error)) => Some(error),
        Event::Moved(Err(error)) => Some(error),
        _ => None,
    }
}

impl ProbeView {
    /// A probe that has not begun.
    pub open spec fn start(character: Seq<char>, expected_width: int) -> ProbeView {
        ProbeView { character, expected_width, stage: Stage::Origin }
    }

    /// This probe at another stage.
    pub open spec fn at(self, stage: Stage) -> ProbeView {
        ProbeView { stage, ..self }
    }

    /// The spaces that cover whatever the terminal made of the character:
    /// one for each byte of its UTF-8 encoding.
    pub open spec fn cover(self) -> Seq<char> {
        blanks(encode_utf8(self.character).len())
    }

    /// How many columns the cursor moved when the character was printed,
    /// from the stage on at which the probe knows.
    pub open spec fn displacement(self) -> Option<int> {
        match self.stage {
            Stage::Origin => None,
            Stage::Probe { .. } => None,
            Stage::Displaced { .. } => None,
            Stage::Rewind { origin, reached } => Some(reached - origin.column),
            Stage::Erase { origin, reached } => Some(reached - origin.column),
            Stage::Restore { origin, reached } => Some(reached - origin.column),
        }
    }

    /// The action whose outcome the probe waits for.
    pub open spec fn pending(self) -> ActionView {
        match self.stage {
            Stage::Origin => ActionView::QueryPosition,
            Stage::Probe { .. } => ActionView::Print(self.character),
            Stage::Displaced { .. } => ActionView::QueryPosition,
            Stage::Rewind { origin, .. } => ActionView::SetPosition(origin),
            Stage::Erase { .. } => ActionView::Print(self.cover()),
            Stage::Restore { origin, .. } => ActionView::SetPosition(origin),
        }
    }

    /// The probe after the pending action went well with `event`: at its
    /// next stage or, behind the last stage, done. The verdict is whether
    /// the cursor moved by the expected width.
    pub open spec fn proceed<E>(self, event: Event<E>) -> ProgressView<E> {
        match (self.stage, event) {
            (Stage::Origin, Event::Position(Ok(origin))) => ProgressView::Continue(
                self.at(Stage::Probe { origin }),
            ),
            (Stage::Probe { origin }, Event::Printed) => ProgressView::Continue(
                self.at(Stage::Displaced { origin }),
            ),
            (Stage::Displaced { origin }, Event::Position(Ok(behind))) => ProgressView::Continue(
                self.at(Stage::Rewind { origin, reached: behind.column }),
            ),
            (Stage::Rewind { origin, reached }, Event::Moved(Ok(_))) => ProgressView::Continue(
                self.at(Stage::Erase { origin, reached }),
            ),
            (Stage::Erase { origin, reached }, Event::Printed) => ProgressView::Continue(
                self.at(Stage::Restore { origin, reached }),
            ),
            (Stage::Restore { .. }, Event::Moved(Ok(_))) => ProgressView::Finished(
                Ok(self.displacement() == Some(self.expected_width)),
            ),
            _ => ProgressView::Continue(self),
        }
    }

    /// The probe after `event`. An event that is no outcome of the pending
    /// action leaves the probe as it is. A failure ends the probe at once.
    /// Anything else takes it one stage further.
    pub open spec fn advance<E>(self, event: Event<E>) -> ProgressView<E> {
        if answers(self.pending(), event) {
            match failure_of(event) {
                Some(error) => ProgressView::Finished(failure_verdict(error)),
                None => self.proceed(event),
            }
        } else {
            ProgressView::Continue(self)
        }
    }
}

/// What a failure of the terminal makes of the probe.
fn settle<E>(error: OracleError<E>) -> (verdict: Result<bool, E>)
    ensures
        verdict == failure_verdict(error),
{
    match error {
        OracleError::PlatformUnsupported => Ok(false),
        OracleError::Io(cause) => Err(cause),
    }
}

/// The columns from `origin` to the column `reached`, in a width that holds
/// the difference of any two columns.
fn columns_between(origin: CursorPosition, reached: i32) -> (columns: i64)
    ensures
        columns == reached - origin.column,
{
    reached as i64 - origin.column as i64
}

/// A run of `n` spaces.
fn blank_run(n: usize) -> (text: String)
    ensures
        text@ == blanks(n as nat),
{
    let mut text = String::new();
    let mut i: usize = 0;
    while i < n
        invariant
            i <= n,
            text@ == blanks(i as nat),
        decreases n - i,
    {
        proof {
            reveal_strlit(" ");
        }
        text.append(" ");
        i = i + 1;
    }
    text
}

/// A probe that prints `character` and expects the cursor to move by
/// `expected_width` columns.
pub fn probe_width(character: &str, expected_width: i32) -> (probe: WidthProbe)
    ensures
        probe@ == ProbeView::start(character@, expected_width as int),
{
    WidthProbe { character: character.to_owned(), expected_width, stage: Stage::Origin }
}

impl WidthProbe {
    /// The action that the driver is to carry out now.
    pub fn action(&self) -> (action: Action)
        ensures
            action@ == self@.pending(),
    {
        match self.stage {
            Stage::Origin => Action::QueryPosition,
            Stage::Probe { .. } => Action::Print(self.character.clone()),
            Stage::Displaced { .. } => Action::QueryPosition,
            Stage::Rewind { origin, .. } => Action::SetPosition(origin),
            Stage::Erase { .. } => Action::Print(
                blank_run(self.character.as_str().as_bytes().len()),
            ),
            Stage::Restore { origin, .. } => Action::SetPosition(origin),
        }
    }

    /// How many columns the cursor moved when the character was printed:
    /// for a driver that wants to tell no movement from a wrong one. `None`
    /// before the probe has both positions.
    pub fn displacement(&self) -> (moved: Option<i64>)
        ensures
            self@.displacement() == (match moved {
                Some(columns) => Some(columns as int),
                None => None,
            }),
    {
        match self.stage {
            Stage::Origin => None,
            Stage::Probe { .. } => None,
            Stage::Displaced { .. } => None,
            Stage::Rewind { origin, reached } => Some(columns_between(origin, reached)),
            Stage::Erase { origin, reached } => Some(columns_between(origin, reached)),
            Stage::Restore { origin, reached } => Some(columns_between(origin, reached)),
        }
    }

    /// This probe at another stage.
    fn at(self, stage: Stage) -> (probe: WidthProbe)
        ensures
            probe@ == self@.at(stage),
    {
        WidthProbe { character: self.character, expected_width: self.expected_width, stage }
    }

    /// Takes in what came of the pending action, and says how the probe
    /// goes on.
    pub fn step<E>(self, event: Event<E>) -> (progress: Progress<E>)
        ensures
            progress@ == self@.advance(event),
    {
        match (self.stage, event) {
            (Stage::Origin, Event::Position(Ok(origin))) => Progress::Continue(
                self.at(Stage::Probe { origin }),
            ),
            (Stage::Origin, Event::Position(Err(error))) => Progress::Finished(settle(error)),
            (Stage::Probe { origin }, Event::Printed) => Progress::Continue(
                self.at(Stage::Displaced { origin }),
            ),
            (Stage::Displaced { origin }, Event::Position(Ok(behind))) => Progress::Continue(
                self.at(Stage::Rewind { origin, reached: behind.column }),
            ),
            (Stage::Displaced { .. }, Event::Position(Err(error))) => Progress::Finished(
                settle(error),
            ),
            (Stage::Rewind { origin, reached }, Event::Moved(Ok(_))) => Progress::Continue(
                self.at(Stage::Erase { origin, reached }),
            ),
            (Stage::Rewind { .. }, Event::Moved(Err(error))) => Progress::Finished(settle(error)),
            (Stage::Erase { origin, reached }, Event::Printed) => Progress::Continue(
                self.at(Stage::Restore { origin, reached }),
            ),
            (Stage::Restore { origin, reached }, Event::Moved(Ok(_))) => Progress::Finished(
                Ok(columns_between(origin, reached) == self.expected_width as i64),
            ),
            (Stage::Restore { .. }, Event::Moved(Err(error))) => Progress::Finished(settle(error)),
            _ => Progress::Continue(self),
        }
    }
}

/// The probe for single-width characters: `é` takes two bytes and one column.
pub fn supports_single_width_chars() -> (probe: WidthProbe)
    ensures
        probe@ == ProbeView::start(seq!['é'], 1),
        probe@.cover() == blanks(2),
{
    proof {
        reveal_strlit("é");
        reveal_with_fuel(encode_utf8, 2);
    }
    let probe = probe_width("é", 1);
    assert(probe@.character =~= seq!['é']);
    probe
}

/// The probe for double-width characters, as the Chinese, Japanese and
/// Korean scripts have them: `好` takes three bytes and two columns.
pub fn supports_double_width_chars() -> (probe: WidthProbe)
    ensures
        probe@ == ProbeView::start(seq!['好'], 2),
        probe@.cover() == blanks(3),
{
    proof {
        reveal_strlit("好");
        reveal_with_fuel(encode_utf8, 2);
    }
    let probe = probe_width("好", 2);
    assert(probe@.character =~= seq!['好']);
    probe
}

} // verus!
