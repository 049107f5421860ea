//! The keystroke engine: scores typed keys against one target line.

use crate::analytics::{Analytics, Tally};
use crate::errors::LineError;
use crate::keys::{Input, RawKey};
use vstd::prelude::*;
use vstd::std_specs::iter::IteratorSpec;

verus! {

/// One thing for the terminal to do.
#[derive(Debug, Clone, Copy, PartialEq, Eq, Structural)]
pub enum Render {
    /// Move the cursor up by that many lines.
    MoveUp(usize),
    /// Move the cursor right by that many characters.
    MoveRight(usize),
    /// Move the cursor left by that many characters.
    MoveLeft(usize),
    /// Write one character, in the colour of a match or of a mismatch.
    Write { shown: char, matched: bool },
}

/// Where a line stands after some keys: still being typed, completed by Enter at
/// its end, or aborted by Esc. Each holds the counters at that point.
pub enum Progress {
    Typing(Tally),
    Completed(Tally),
    Aborted(Tally),
}

impl Progress {
    /// The counters, whatever the state.
    pub open spec fn tally(self) -> Tally {
        match self {
            Progress::Typing(t) => t,
            Progress::Completed(t) => t,
            Progress::Aborted(t) => t,
        }
    }
}

/// The number of spaces that `line` begins with.
pub open spec fn leading_spaces(line: Seq<char>) -> nat
    decreases line.len(),
{
    if line.len() > 0 && line[0] == ' ' {
        1 + leading_spaces(line.skip(1))
    } else {
        0
    }
}

/// The part of `line` that is typed: what follows its leading spaces.
pub open spec fn typed_part(line: Seq<char>) -> Seq<char> {
    line.skip(leading_spaces(line) as int)
}

/// What is rendered before the first key: the cursor goes up to the line, and
/// right once for each leading space.
pub open spec fn opening(line: Seq<char>, window_size: usize) -> Seq<Render> {
    seq![Render::MoveUp((window_size + 1) as usize)] + Seq::new(
        leading_spaces(line),
        |i: int| Render::MoveRight(1),
    )
}

/// What is written when `user_char` is typed where `target_char` stands.
pub open spec fn shown(target_char: char, user_char: char) -> Render {
    Render::Write { shown: target_char, matched: target_char == user_char }
}

/// 1 if `user_char` is not `target_char`, else 0.
pub open spec fn miss(target_char: char, user_char: char) -> nat {
    if target_char == user_char {
        0
    } else {
        1
    }
}

/// The number of characters of `part` that are not `typed`.
pub open spec fn misses(part: Seq<char>, typed: char) -> nat
    decreases part.len(),
{
    if part.len() == 0 {
        0
    } else {
        misses(part.drop_last(), typed) + miss(part.last(), typed)
    }
}

/// The number of positions that a Tab covers at `cursor`: four, or as many as
/// the line has left.
pub open spec fn tab_reach(target: Seq<char>, cursor: int) -> nat {
    if cursor + 4 <= target.len() {
        4
    } else if cursor <= target.len() {
        (target.len() - cursor) as nat
    } else {
        0
    }
}

/// The counters after a backspace: one character is given back and the
/// keystroke is counted, unless the cursor is at the start.
pub open spec fn backspaced(tally: Tally) -> Tally {
    if tally.line_length > 0 {
        Tally {
            total_input_chars: tally.total_input_chars + 1,
            line_length: (tally.line_length - 1) as nat,
            ..tally
        }
    } else {
        tally
    }
}

/// What a backspace renders: one step left, unless the cursor is at the start.
pub open spec fn stepping_back(tally: Tally) -> Seq<Render> {
    if tally.line_length > 0 {
        seq![Render::MoveLeft(1)]
    } else {
        Seq::empty()
    }
}

/// The state after one input event that `invalid` invalid keys came before.
/// `target` is the typed part of the line; the cursor is `before.line_length`.
pub open spec fn advance(target: Seq<char>, before: Tally, input: Input, invalid: nat) -> Progress {
    let tally = before.with_errors(invalid);
    let cursor = tally.line_length as int;
    match input {
        Input::Esc => Progress::Aborted(tally),
        Input::Backspace => Progress::Typing(backspaced(tally)),
        Input::Enter => if cursor < target.len() {
            Progress::Typing(
                Tally {
                    errors: tally.errors + 1,
                    total_input_chars: tally.total_input_chars + 1,
                    ..tally
                },
            )
        } else {
            Progress::Completed(
                Tally {
                    total_input_chars: tally.total_input_chars + 1,
                    line_length: tally.line_length + 1,
                    ..tally
                },
            )
        },
        Input::Char(c) => if cursor < target.len() {
            Progress::Typing(
                Tally {
                    errors: tally.errors + miss(target[cursor], c),
                    total_input_chars: tally.total_input_chars + 1,
                    line_length: tally.line_length + 1,
                },
            )
        } else {
            Progress::Typing(tally.with_errors(1))
        },
        Input::Tab => if cursor < target.len() {
            let reach = tab_reach(target, cursor);
            Progress::Typing(
                Tally {
                    errors: tally.errors + misses(target.subrange(cursor, cursor + reach), ' '),
                    total_input_chars: tally.total_input_chars + reach,
                    line_length: tally.line_length + reach,
                },
            )
        } else {
            Progress::Typing(tally.with_errors(1))
        },
    }
}

/// What one input event renders when the counters before it are `before`.
pub open spec fn rendering(target: Seq<char>, before: Tally, input: Input) -> Seq<Render> {
    let cursor = before.line_length as int;
    match input {
        Input::Char(c) => if cursor < target.len() {
            seq![shown(target[cursor], c)]
        } else {
            seq![shown(' ', c)]
        },
        Input::Tab => if cursor < target.len() {
            Seq::new(tab_reach(target, cursor), |i: int| shown(target[cursor + i], ' '))
        } else {
            Seq::empty()
        },
        Input::Backspace => stepping_back(before),
        Input::Enter => Seq::empty(),
        Input::Esc => Seq::empty(),
    }
}

/// What a sequence of input events does to a line: what is rendered, and where
/// the line stands then.
pub struct Run {
    pub renders: Seq<Render>,
    pub progress: Progress,
}

/// Runs `events` in order from the counters `tally`, up to the event that
/// completes or aborts the line; later events are not looked at.
pub open spec fn run(target: Seq<char>, tally: Tally, events: Seq<(Input, nat)>) -> Run
    decreases events.len(),
{
    if events.len() == 0 {
        Run { renders: Seq::empty(), progress: Progress::Typing(tally) }
    } else {
        match advance(target, tally, events[0].0, events[0].1) {
            Progress::Typing(next) => {
                let rest = run(target, next, events.skip(1));
                Run {
                    renders: rendering(target, tally, events[0].0) + rest.renders,
                    progress: rest.progress,
                }
            },
            ended => Run { renders: Seq::empty(), progress: ended },
        }
    }
}

/// The cursor is on the line or at its end, and the counters are consistent.
pub open spec fn on_line(target: Seq<char>, tally: Tally) -> bool {
    &&& tally.line_length <= target.len()
    &&& tally.consistent()
}

/// The leading spaces of a line are spaces, they are all of them, and the typed
/// part is the rest of the line.
pub proof fn lemma_leading_spaces(line: Seq<char>)
    ensures
        leading_spaces(line) <= line.len(),
        forall|i: int| 0 <= i < leading_spaces(line) ==> line[i] == ' ',
        leading_spaces(line) < line.len() ==> line[leading_spaces(line) as int] != ' ',
        typed_part(line).len() == line.len() - leading_spaces(line),
    decreases line.len(),
{
    if line.len() > 0 && line[0] == ' ' {
        let rest = line.skip(1);
        lemma_leading_spaces(rest);
        assert forall|i: int| 0 <= i < leading_spaces(line) implies line[i] == ' ' by {
            if i > 0 {
                assert(line[i] == rest[i - 1]);
            }
        }
        if leading_spaces(line) < line.len() {
        }
    }
}

/// The index of the first character of `line` that is not a space, or the
/// number of its characters if there is none.
pub fn first_non_space(line: &str) -> (at: usize)
    ensures
        at == leading_spaces(line@),
        at <= line@.len(),
        forall|i: int| 0 <= i < at ==> line@[i] == ' ',
        at < line@.len() ==> line@[at as int] != ' ',
{
    let length = line.unicode_len();
    let mut at: usize = 0;
    let mut rest = line.chars();
    loop
        invariant
            length == line@.len(),
            at <= length,
            rest.remaining() == line@.skip(at as int),
            leading_spaces(line@) == at + leading_spaces(line@.skip(at as int)),
            rest.decrease() is Some,
        decreases rest.decrease()->0,
    {
        match rest.next() {
            Some(c) => {
                if c == ' ' {
                    at += 1;
                } else {
                    proof {
                        lemma_leading_spaces(line@);
                    }
                    return at;
                }
            },
            None => {
                proof {
                    lemma_leading_spaces(line@);
                }
                return at;
            },
        }
    }
}

/// The characters of `line` from index `from` on.
fn chars_from(line: &str, from: usize) -> (tail: Vec<char>)
    requires
        from <= line@.len(),
    ensures
        tail@ == line@.skip(from as int),
{
    let mut tail: Vec<char> = Vec::new();
    let mut passed: usize = 0;
    let mut rest = line.chars();
    loop
        invariant
            from <= line@.len(),
            passed <= from,
            passed < from ==> tail@.len() == 0,
            rest.remaining() == line@.skip(passed + tail@.len()),
            tail@ == line@.subrange(passed as int, passed + tail@.len()),
            passed + tail@.len() <= line@.len(),
            rest.decrease() is Some,
        decreases rest.decrease()->0,
    {
        match rest.next() {
            Some(c) => {
                if passed < from {
                    passed += 1;
                } else {
                    tail.push(c);
                }
            },
            None => {
                return tail;
            },
        }
    }
}

/// Says how a typed character is written, colour coded for correctness.
/// Returns it with 1 if it is an error, else 0.
pub fn write_char(target_char: char, user_char: char) -> (written: (Render, u64))
    ensures
        written.0 == shown(target_char, user_char),
        written.1 == miss(target_char, user_char),
{
    if target_char == user_char {
        (Render::Write { shown: user_char, matched: true }, 0)
    } else {
        (Render::Write { shown: target_char, matched: false }, 1)
    }
}

/// Performs a backspace: moves the current position back one and increases the
/// total input chars, unless the position is the start of the line.
pub fn backspace(analytics: Analytics) -> (back: (Analytics, Vec<Render>))
    requires
        backspaced(analytics@).fits(),
    ensures
        back.0@ == backspaced(analytics@),
        back.1@ == stepping_back(analytics@),
{
    let mut renders: Vec<Render> = Vec::new();
    if analytics.line_length > 0 {
        renders.push(Render::MoveLeft(1));
        (
            Analytics {
                errors: analytics.errors,
                total_input_chars: analytics.total_input_chars + 1,
                line_length: analytics.line_length - 1,
            },
            renders,
        )
    } else {
        (analytics, renders)
    }
}

/// No more characters of `part` differ from `typed` than `part` has.
pub proof fn lemma_misses_bounded(part: Seq<char>, typed: char)
    ensures
        misses(part, typed) <= part.len(),
    decreases part.len(),
{
    if part.len() > 0 {
        lemma_misses_bounded(part.drop_last(), typed);
    }
}

/// One event adds at most its invalid keys and four to the errors, and at most
/// four to the keystrokes; while the line is being typed the cursor stays on it
/// and the counters stay consistent.
pub proof fn lemma_advance_bounded(target: Seq<char>, before: Tally, input: Input, invalid: nat)
    requires
        on_line(target, before),
    ensures
        ({
            let after = advance(target, before, input, invalid);
            &&& before.errors + invalid <= after.tally().errors <= before.errors + invalid + 4
            &&& before.total_input_chars <= after.tally().total_input_chars
                <= before.total_input_chars + 4
            &&& after.tally().consistent()
            &&& after is Typing ==> on_line(target, after.tally())
        }),
{
    let cursor = before.line_length as int;
    if input is Tab && cursor < target.len() {
        lemma_misses_bounded(target.subrange(cursor, cursor + tab_reach(target, cursor)), ' ');
    }
}

/// A line being typed, as contracts see it.
pub struct Typing {
    /// The typed part of the line.
    pub target: Seq<char>,
    /// The counters so far; the cursor is `tally.line_length`.
    pub tally: Tally,
}

/// The state carried across one line: the target and the counters so far.
#[derive(Debug)]
pub struct KeystrokeEngine {
    target: Vec<char>,
    analytics: Analytics,
}

/// What one input event led to.
#[derive(Debug)]
pub enum Step {
    /// The line goes on from the engine held here, after these renders.
    Continue(KeystrokeEngine, Vec<Render>),
    /// The line has ended: completed with `Ok`, aborted by Esc with
    /// `Err(LineError::Esc(..))`.
    Done(Result<Analytics, LineError>),
}

impl View for KeystrokeEngine {
    type V = Typing;

    closed spec fn view(&self) -> Typing {
        Typing { target: self.target@, tally: self.analytics@ }
    }
}

impl KeystrokeEngine {
    #[verifier::type_invariant]
    spec fn well_formed(self) -> bool {
        on_line(self.target@, self.analytics@)
    }

    /// Begins a line: skips its leading spaces and says what to render first.
    pub fn start(line: &str, window_size: usize) -> (begun: (KeystrokeEngine, Vec<Render>))
        requires
            window_size < usize::MAX,
        ensures
            begun.0@.target == typed_part(line@),
            begun.0@.tally == Tally::zero(),
            on_line(begun.0@.target, begun.0@.tally),
            begun.1@ == opening(line@, window_size),
    {
        let skipped = first_non_space(line);
        let mut renders: Vec<Render> = Vec::new();
        renders.push(Render::MoveUp(window_size + 1));
        let mut moved: usize = 0;
        while moved < skipped
            invariant
                moved <= skipped,
                renders@ == seq![Render::MoveUp((window_size + 1) as usize)] + Seq::new(
                    moved as nat,
                    |i: int| Render::MoveRight(1),
                ),
            decreases skipped - moved,
        {
            renders.push(Render::MoveRight(1));
            moved += 1;
        }
        let target = chars_from(line, skipped);
        (KeystrokeEngine { target, analytics: Analytics::new(0, 0, 0) }, renders)
    }

    /// The counters so far. The cursor they hold is on the line.
    pub fn analytics(&self) -> (analytics: Analytics)
        ensures
            analytics@ == self@.tally,
            on_line(self@.target, self@.tally),
    {
        proof {
            use_type_invariant(self);
        }
        self.analytics
    }

    /// Whether the counters have room for any one event after
    /// `invalid_keystrokes` invalid keys: four more keystrokes, and four more
    /// errors beside the invalid keys. Then `step` can take whatever comes.
    pub fn has_room(&self, invalid_keystrokes: u64) -> (room: bool)
        ensures
            room == (self@.tally.errors + invalid_keystrokes + 4 <= u64::MAX
                && self@.tally.total_input_chars + 4 <= u64::MAX),
            room ==> forall|input: Input|
                (#[trigger] advance(
                    self@.target,
                    self@.tally,
                    input,
                    invalid_keystrokes as nat,
                )).tally().fits(),
    {
        proof {
            use_type_invariant(self);
            assert forall|input: Input|
                self.analytics.errors + invalid_keystrokes + 4 <= u64::MAX
                    && self.analytics.total_input_chars + 4 <= u64::MAX implies (#[trigger] advance(
                    self.target@,
                    self.analytics@,
                    input,
                    invalid_keystrokes as nat,
                )).tally().fits() by {
                lemma_advance_bounded(
                    self.target@,
                    self.analytics@,
                    input,
                    invalid_keystrokes as nat,
                );
            }
        }
        self.analytics.errors <= u64::MAX - 4 && invalid_keystrokes <= u64::MAX - 4
            - self.analytics.errors && self.analytics.total_input_chars <= u64::MAX - 4
    }

    /// Takes one input event, with the number of invalid keys read before it:
    /// those are added to the errors first, then the event is scored against the
    /// character at the cursor.
    pub fn step(self, input: Input, invalid_keystrokes: u64) -> (step: Step)
        requires
            advance(self@.target, self@.tally, input, invalid_keystrokes as nat).tally().fits(),
        ensures
            match advance(self@.target, self@.tally, input, invalid_keystrokes as nat) {
                Progress::Typing(tally) => {
                    &&& step matches Step::Continue(next, renders)
                    &&& next@.target == self@.target
                    &&& next@.tally == tally
                    &&& on_line(next@.target, next@.tally)
                    &&& renders@ == rendering(self@.target, self@.tally, input)
                },
                Progress::Completed(tally) => {
                    &&& step matches Step::Done(Ok(analytics))
                    &&& analytics@ == tally
                    &&& tally.line_length == self@.target.len() + 1
                    &&& tally.consistent()
                },
                Progress::Aborted(tally) => {
                    &&& step matches Step::Done(Err(LineError::Esc(analytics)))
                    &&& analytics@ == tally
                    &&& tally.consistent()
                },
            },
    {
        proof {
            use_type_invariant(&self);
            lemma_advance_bounded(
                self.target@,
                self.analytics@,
                input,
                invalid_keystrokes as nat,
            );
        }
        let KeystrokeEngine { target, analytics } = self;
        let counted = Analytics {
            errors: analytics.errors + invalid_keystrokes,
            total_input_chars: analytics.total_input_chars,
            line_length: analytics.line_length,
        };
        let cursor = analytics.line_length as usize;
        match input {
            Input::Esc => Step::Done(Err(LineError::Esc(counted))),
            Input::Backspace => {
                let (analytics, renders) = backspace(counted);
                Step::Continue(KeystrokeEngine { target, analytics }, renders)
            },
            Input::Enter => {
                if cursor < target.len() {
                    let analytics = Analytics {
                        errors: counted.errors + 1,
                        total_input_chars: counted.total_input_chars + 1,
                        line_length: counted.line_length,
                    };
                    Step::Continue(KeystrokeEngine { target, analytics }, Vec::new())
                } else {
                    Step::Done(
                        Ok(
                            Analytics {
                                errors: counted.errors,
                                total_input_chars: counted.total_input_chars + 1,
                                line_length: counted.line_length + 1,
                            },
                        ),
                    )
                }
            },
            Input::Char(c) => {
                if cursor < target.len() {
                    let (render, wrong) = write_char(target[cursor], c);
                    let analytics = Analytics {
                        errors: counted.errors + wrong,
                        total_input_chars: counted.total_input_chars + 1,
                        line_length: counted.line_length + 1,
                    };
                    Step::Continue(KeystrokeEngine { target, analytics }, vec![render])
                } else {
                    let (render, _) = write_char(' ', c);
                    let analytics = Analytics {
                        errors: counted.errors + 1,
                        total_input_chars: counted.total_input_chars,
                        line_length: counted.line_length,
                    };
                    Step::Continue(KeystrokeEngine { target, analytics }, vec![render])
                }
            },
            Input::Tab => {
                if cursor < target.len() {
                    let mut renders: Vec<Render> = Vec::new();
                    let mut wrong: u64 = 0;
                    let mut applied: usize = 0;
                    while applied < 4 && applied < target.len() - cursor
                        invariant
                            cursor < target.len(),
                            applied <= tab_reach(target@, cursor as int),
                            wrong == misses(
                                target@.subrange(cursor as int, cursor + applied),
                                ' ',
                            ),
                            wrong <= applied,
                            renders@ == Seq::new(
                                applied as nat,
                                |i: int| shown(target@[cursor + i], ' '),
                            ),
                        decreases 4 - applied,
                    {
                        let (render, missed) = write_char(target[cursor + applied], ' ');
                        proof {
                            let longer = target@.subrange(cursor as int, cursor + applied + 1);
                            assert(longer.drop_last() == target@.subrange(
                                cursor as int,
                                cursor + applied,
                            ));
                        }
                        renders.push(render);
                        wrong += missed;
                        applied += 1;
                    }
                    let analytics = Analytics {
                        errors: counted.errors + wrong,
                        total_input_chars: counted.total_input_chars + applied as u64,
                        line_length: counted.line_length + applied as u64,
                    };
                    Step::Continue(KeystrokeEngine { target, analytics }, renders)
                } else {
                    let analytics = Analytics {
                        errors: counted.errors + 1,
                        total_input_chars: counted.total_input_chars,
                        line_length: counted.line_length,
                    };
                    Step::Continue(KeystrokeEngine { target, analytics }, Vec::new())
                }
            },
        }
    }
}

/// Handles the user's keys on one line and says what to display: begins the
/// line, then resolves `keys` into input events and takes them one by one until
/// the line is completed or aborted. Returns what is rendered, in order, and how
/// the line ended: `None` while it waits for more keys.
pub fn type_line(line: &str, window_size: usize, keys: &Vec<RawKey>) -> (typed: (
    Vec<Render>,
    Option<Result<Analytics, LineError>>,
))
    requires
        window_size < usize::MAX,
        4 * keys.len() <= u64::MAX,
    ensures
        ({
            let whole = run(typed_part(line@), Tally::zero(), Input::resolved(keys@, 0));
            &&& typed.0@ == opening(line@, window_size) + whole.renders
            &&& match whole.progress {
                Progress::Typing(_) => typed.1 is None,
                Progress::Completed(tally) => {
                    &&& typed.1 matches Some(Ok(analytics))
                    &&& analytics@ == tally
                },
                Progress::Aborted(tally) => {
                    &&& typed.1 matches Some(Err(LineError::Esc(analytics)))
                    &&& analytics@ == tally
                },
            }
        }),
        typed.1 matches Some(Ok(analytics)) ==> {
            &&& analytics.line_length == line@.len() - leading_spaces(line@) + 1
            &&& analytics.line_length <= analytics.total_input_chars
        },
{
    let (mut engine, mut renders) = KeystrokeEngine::start(line, window_size);
    let ghost target = typed_part(line@);
    let ghost whole = run(target, Tally::zero(), Input::resolved(keys@, 0));
    let mut at: usize = 0;
    loop
        invariant
            4 * keys.len() <= u64::MAX,
            at <= keys.len(),
            target == typed_part(line@),
            whole == run(target, Tally::zero(), Input::resolved(keys@, 0)),
            engine@.target == target,
            on_line(target, engine@.tally),
            engine@.tally.errors <= 4 * at,
            engine@.tally.total_input_chars <= 4 * at,
            whole.progress == run(target, engine@.tally, Input::resolved(keys@, at as int)).progress,
            opening(line@, window_size) + whole.renders == renders@ + run(
                target,
                engine@.tally,
                Input::resolved(keys@, at as int),
            ).renders,
        decreases keys.len() - at,
    {
        let ghost events = Input::resolved(keys@, at as int);
        match Input::is_valid(keys, at) {
            None => {
                return (renders, None);
            },
            Some((input, invalid_keystrokes)) => {
                let ghost tally = engine@.tally;
                proof {
                    assert(events.skip(1) == Input::resolved(
                        keys@,
                        at + invalid_keystrokes + 1,
                    ));
                    lemma_advance_bounded(target, tally, input, invalid_keystrokes as nat);
                }
                at = at + invalid_keystrokes as usize + 1;
                match engine.step(input, invalid_keystrokes) {
                    Step::Continue(next, mut more) => {
                        renders.append(&mut more);
                        engine = next;
                    },
                    Step::Done(outcome) => {
                        proof {
                            lemma_leading_spaces(line@);
                        }
                        return (renders, Some(outcome));
                    },
                }
            },
        }
    }
}

} // verus!
