//! What holds of every run of the keystroke engine.

use crate::analytics::Tally;
use crate::keys::Input;
use crate::typing::{
    advance, backspaced, leading_spaces, lemma_advance_bounded, lemma_leading_spaces, on_line,
    rendering, run, stepping_back, typed_part, Progress, Render, Run,
};
use vstd::prelude::*;

verus! {

/// Running two sequences of events one after the other is running the first and,
/// if the line is still being typed then, the second from where the first left
/// off. If the first ends the line, the second changes nothing.
pub proof fn lemma_run_append(
    target: Seq<char>,
    tally: Tally,
    first: Seq<(Input, nat)>,
    second: Seq<(Input, nat)>,
)
    ensures
        run(target, tally, first + second) == match run(target, tally, first).progress {
            Progress::Typing(mid) => Run {
                renders: run(target, tally, first).renders + run(target, mid, second).renders,
                progress: run(target, mid, second).progress,
            },
            _ => run(target, tally, first),
        },
    decreases first.len(),
{
    if first.len() > 0 {
        assert((first + second).skip(1) == first.skip(1) + second);
        if let Progress::Typing(next) = advance(target, tally, first[0].0, first[0].1) {
            lemma_run_append(target, next, first.skip(1), second);
            let shown = rendering(target, tally, first[0].0);
            let rest = run(target, next, first.skip(1));
            if let Progress::Typing(mid) = rest.progress {
                let last = run(target, mid, second);
                assert(shown + (rest.renders + last.renders) == (shown + rest.renders)
                    + last.renders);
            }
        }
    }
}

/// From a cursor on the line and consistent counters, no run consumes more
/// characters than it counts keystrokes; while the line is being typed the
/// cursor stays on it; and a line is completed only with the cursor at its end,
/// so the reported length is that of the typed part and one for the closing
/// Enter.
pub proof fn lemma_run_keeps_counters_consistent(
    target: Seq<char>,
    tally: Tally,
    events: Seq<(Input, nat)>,
)
    requires
        on_line(target, tally),
    ensures
        run(target, tally, events).progress.tally().consistent(),
        run(target, tally, events).progress is Typing ==> on_line(
            target,
            run(target, tally, events).progress.tally(),
        ),
        run(target, tally, events).progress is Completed ==> run(
            target,
            tally,
            events,
        ).progress.tally().line_length == target.len() + 1,
    decreases events.len(),
{
    if events.len() > 0 {
        lemma_advance_bounded(target, tally, events[0].0, events[0].1);
        match advance(target, tally, events[0].0, events[0].1) {
            Progress::Typing(next) => {
                lemma_run_keeps_counters_consistent(target, next, events.skip(1));
            },
            _ => {},
        }
    }
}

/// A line typed from its start and completed reports as its length the number
/// of its characters after the leading spaces, and one for the Enter that
/// closed it; the keystrokes counted are at least as many.
pub proof fn lemma_completed_line_length(line: Seq<char>, events: Seq<(Input, nat)>)
    ensures
        run(typed_part(line), Tally::zero(), events).progress matches Progress::Completed(
            tally,
        ) ==> {
            &&& tally.line_length == line.len() - leading_spaces(line) + 1
            &&& tally.total_input_chars >= tally.line_length
        },
{
    lemma_leading_spaces(line);
    lemma_run_keeps_counters_consistent(typed_part(line), Tally::zero(), events);
}

/// A backspace never takes the length below zero: it gives one character back
/// where there is one, and leaves the errors as they are.
pub proof fn lemma_backspace_stops_at_start(target: Seq<char>, tally: Tally)
    ensures
        advance(target, tally, Input::Backspace, 0) == Progress::Typing(backspaced(tally)),
        backspaced(tally).errors == tally.errors,
        tally.line_length > 0 ==> backspaced(tally).line_length == tally.line_length - 1,
        tally.line_length == 0 ==> backspaced(tally) == tally && stepping_back(tally).len() == 0,
{
}

/// The events of pressing backspace `presses` times, with no invalid key between.
pub open spec fn backspaces(presses: nat) -> Seq<(Input, nat)> {
    Seq::new(presses, |i: int| (Input::Backspace, 0nat))
}

/// With the cursor at the start of the line, backspace is idle however often it
/// is pressed: no counter changes and nothing is rendered.
pub proof fn lemma_backspace_at_start_is_idle(target: Seq<char>, tally: Tally, presses: nat)
    requires
        tally.line_length == 0,
    ensures
        run(target, tally, backspaces(presses)) == (Run {
            renders: Seq::empty(),
            progress: Progress::Typing(tally),
        }),
    decreases presses,
{
    if presses > 0 {
        assert(backspaces(presses).skip(1) == backspaces((presses - 1) as nat));
        lemma_backspace_at_start_is_idle(target, tally, (presses - 1) as nat);
    }
}

/// Esc at any point aborts the line with the counters as they stood before it,
/// to which only the invalid keys read just before the Esc are added as errors.
/// Nothing is rendered for it, and what follows it is not looked at.
pub proof fn lemma_esc_reports_counters_so_far(
    target: Seq<char>,
    tally: Tally,
    before: Seq<(Input, nat)>,
    invalid: nat,
    after: Seq<(Input, nat)>,
)
    requires
        run(target, tally, before).progress is Typing,
    ensures
        run(target, tally, before + seq![(Input::Esc, invalid)] + after) == (Run {
            renders: run(target, tally, before).renders,
            progress: Progress::Aborted(
                run(target, tally, before).progress.tally().with_errors(invalid),
            ),
        }),
{
    let esc = seq![(Input::Esc, invalid)];
    assert(before + esc + after == before + (esc + after));
    lemma_run_append(target, tally, before, esc + after);
}

} // verus!
