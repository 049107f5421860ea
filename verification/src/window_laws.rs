//! What holds of the windows of a source whose every line is read.

use crate::window::{
    emits, emitted, filled, initial, next_at, prefilled, pull_at, slid, windows_of, Buffer, Pull,
};
use vstd::prelude::*;

verus! {

/// The pulls of a source that holds `lines` and reads each of them.
pub open spec fn all_read(lines: Seq<Seq<char>>) -> Seq<Pull> {
    Seq::new(lines.len(), |i: int| Pull::Line(lines[i]))
}

/// The smaller of `i + ahead` and `count`.
pub open spec fn capped(i: int, ahead: nat, count: nat) -> int {
    if i + ahead <= count {
        i + ahead
    } else {
        count as int
    }
}

/// The window that begins at line `i`: that line and up to `window_size` more.
pub open spec fn window_from(lines: Seq<Seq<char>>, window_size: nat, i: int) -> Seq<Seq<char>> {
    lines.subrange(i, capped(i, window_size + 1, lines.len()))
}

/// The first filling of a source whose every line is read takes its first
/// `window_size` lines, or all of them if they are fewer.
proof fn lemma_filled_all_read(lines: Seq<Seq<char>>, window_size: nat, taken: int)
    requires
        0 <= taken <= capped(0, window_size, lines.len()),
    ensures
        filled(
            Buffer {
                lines: seq![Seq::<char>::empty()] + lines.take(taken),
                to_prefill: (window_size - taken) as nat,
            },
            all_read(lines),
            taken,
        ) == (
            Buffer {
                lines: seq![Seq::<char>::empty()] + lines.take(
                    capped(0, window_size, lines.len()),
                ),
                to_prefill: 0,
            },
            capped(0, window_size, lines.len()),
        ),
    decreases window_size - taken,
{
    let pulls = all_read(lines);
    let front = seq![Seq::<char>::empty()];
    let buffer = Buffer {
        lines: front + lines.take(taken),
        to_prefill: (window_size - taken) as nat,
    };
    if window_size - taken > 0 {
        if taken < lines.len() {
            assert((front + lines.take(taken)).push(lines[taken]) == front + lines.take(taken + 1));
            lemma_filled_all_read(lines, window_size, taken + 1);
        } else {
            let ended = prefilled(buffer, pull_at(pulls, taken));
            assert(filled(ended, pulls, taken) == (ended, taken));
        }
    }
}

/// From line `i` on, a source whose every line is read gives one window for
/// each line that is left, each beginning at its line.
proof fn lemma_emitted_all_read(
    lines: Seq<Seq<char>>,
    window_size: nat,
    i: int,
    head: Seq<char>,
)
    requires
        0 <= i <= lines.len(),
    ensures
        emitted(
            seq![head] + lines.subrange(i, capped(i, window_size, lines.len())),
            all_read(lines),
            capped(i, window_size, lines.len()),
        ) == Seq::new(
            (lines.len() - i) as nat,
            |n: int| window_from(lines, window_size, i + n),
        ),
    decreases lines.len() - i,
{
    let count = lines.len();
    let at = capped(i, window_size, count);
    let held = seq![head] + lines.subrange(i, at);
    if i < count {
        let window = window_from(lines, window_size, i);
        let then = capped(i + 1, window_size, count);
        assert(slid(held, pull_at(all_read(lines), at)) == window);
        assert(window == seq![lines[i]] + lines.subrange(i + 1, then));
        lemma_emitted_all_read(lines, window_size, i + 1, lines[i]);
    }
}

/// A source of `k` lines that are all read gives `k` windows, one per line:
/// window `i` holds line `i` and the lines after it, up to `window_size` of them.
pub proof fn lemma_one_window_per_line(lines: Seq<Seq<char>>, window_size: nat)
    ensures
        windows_of(all_read(lines), window_size).len() == lines.len(),
        forall|i: int|
            0 <= i < lines.len() ==> #[trigger] windows_of(all_read(lines), window_size)[i]
                == window_from(lines, window_size, i),
{
    lemma_filled_all_read(lines, window_size, 0);
    lemma_emitted_all_read(lines, window_size, 0, Seq::<char>::empty());
}

/// Every window of such a source begins with the line of its own index and holds
/// at least that line and at most `window_size` more. Once the source is
/// drained, each window is one line shorter than the one before, and the last
/// holds one line.
pub proof fn lemma_windows_shrink_to_one(lines: Seq<Seq<char>>, window_size: nat)
    ensures
        forall|i: int|
            0 <= i < lines.len() ==> {
                let window = #[trigger] windows_of(all_read(lines), window_size)[i];
                &&& 1 <= window.len() <= window_size + 1
                &&& window[0] == lines[i]
                &&& i + window_size + 1 >= lines.len() ==> window.len() == lines.len() - i
                &&& i + window_size + 1 <= lines.len() ==> window.len() == window_size + 1
            },
{
    lemma_one_window_per_line(lines, window_size);
}

/// Once the source is exhausted, a step emits nothing exactly when it leaves
/// no line in the buffer, and then no later step emits anything either.
pub proof fn lemma_nothing_after_the_last(lines: Seq<Seq<char>>)
    ensures
        !emits(lines, Pull::Exhausted) <==> slid(lines, Pull::Exhausted).len() == 0,
        !emits(lines, Pull::Exhausted) ==> !emits(slid(lines, Pull::Exhausted), Pull::Exhausted),
{
}

} // verus!
