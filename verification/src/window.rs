//! The sliding window of upcoming lines.

use crate::window_laws::{all_read, lemma_one_window_per_line, lemma_windows_shrink_to_one};
use vstd::prelude::*;

verus! {

/// What one pull from the line source gave.
#[derive(Debug, PartialEq, Eq)]
pub enum LineRead {
    /// A line was read.
    Line(String),
    /// There was a line, but reading it failed.
    Failed,
    /// The source has no more lines.
    Exhausted,
}

/// A pull from the line source, as contracts see it.
pub enum Pull {
    Line(Seq<char>),
    Failed,
    Exhausted,
}

impl View for LineRead {
    type V = Pull;

    open spec fn view(&self) -> Pull {
        match *self {
            LineRead::Line(text) => Pull::Line(text@),
            LineRead::Failed => Pull::Failed,
            LineRead::Exhausted => Pull::Exhausted,
        }
    }
}

impl Clone for LineRead {
    fn clone(&self) -> (copy: LineRead)
        ensures
            copy@ == self@,
    {
        match self {
            LineRead::Line(text) => LineRead::Line(text.clone()),
            LineRead::Failed => LineRead::Failed,
            LineRead::Exhausted => LineRead::Exhausted,
        }
    }
}

/// The texts of some lines.
pub open spec fn texts(lines: Seq<String>) -> Seq<Seq<char>> {
    Seq::new(lines.len(), |i: int| lines[i]@)
}

/// What some pulls gave, in the same order.
pub open spec fn pulls_of(reads: Seq<LineRead>) -> Seq<Pull> {
    Seq::new(reads.len(), |i: int| reads[i]@)
}

/// The texts of the lines of each of some windows.
pub open spec fn windows_texts(windows: Seq<Vec<String>>) -> Seq<Seq<Seq<char>>> {
    Seq::new(windows.len(), |i: int| texts(windows[i]@))
}

/// A window buffer, as contracts see it.
pub struct Buffer {
    /// The lines held, first the one being typed.
    pub lines: Seq<Seq<char>>,
    /// How many more pulls the first filling asks for.
    pub to_prefill: nat,
}

/// The buffer before anything is pulled: one empty line stands in front, and
/// the first filling asks for `window_size` pulls.
pub open spec fn initial(window_size: nat) -> Buffer {
    Buffer { lines: seq![Seq::<char>::empty()], to_prefill: window_size }
}

/// The buffer after one pull of the first filling: a line that was read is
/// appended, a failed read is only counted, and at exhaustion the filling ends.
pub open spec fn prefilled(buffer: Buffer, pull: Pull) -> Buffer {
    let fewer = if buffer.to_prefill > 0 {
        (buffer.to_prefill - 1) as nat
    } else {
        0
    };
    match pull {
        Pull::Line(text) => Buffer { lines: buffer.lines.push(text), to_prefill: fewer },
        Pull::Failed => Buffer { lines: buffer.lines, to_prefill: fewer },
        Pull::Exhausted => Buffer { lines: buffer.lines, to_prefill: 0 },
    }
}

/// The lines held after one step: the first is dropped, and a line that was
/// read is appended.
pub open spec fn slid(lines: Seq<Seq<char>>, pull: Pull) -> Seq<Seq<char>> {
    let rest = if lines.len() > 0 {
        lines.skip(1)
    } else {
        lines
    };
    match pull {
        Pull::Line(text) => rest.push(text),
        _ => rest,
    }
}

/// Whether a step emits a window: always while the source has something, and
/// after that as long as lines are left.
pub open spec fn emits(lines: Seq<Seq<char>>, pull: Pull) -> bool {
    !(pull is Exhausted) || slid(lines, pull).len() > 0
}

/// What the pull at index `at` gives from a source that yields `pulls` and is
/// exhausted after them.
pub open spec fn pull_at(pulls: Seq<Pull>, at: int) -> Pull {
    if 0 <= at < pulls.len() {
        pulls[at]
    } else {
        Pull::Exhausted
    }
}

/// The index of the pull after the one at `at`: the source does not move on
/// once it is exhausted.
pub open spec fn next_at(pulls: Seq<Pull>, at: int) -> int {
    if 0 <= at < pulls.len() {
        at + 1
    } else {
        at
    }
}

/// The number of pulls that the source still holds from index `at` on.
pub open spec fn left(pulls: Seq<Pull>, at: int) -> nat {
    if 0 <= at < pulls.len() {
        (pulls.len() - at) as nat
    } else {
        0
    }
}

/// The first filling, pulled through from index `at`: the buffer after it, and
/// the index of the pull that comes next.
pub open spec fn filled(buffer: Buffer, pulls: Seq<Pull>, at: int) -> (Buffer, int)
    decreases buffer.to_prefill,
{
    if buffer.to_prefill == 0 {
        (buffer, at)
    } else {
        filled(prefilled(buffer, pull_at(pulls, at)), pulls, next_at(pulls, at))
    }
}

/// The windows emitted from the lines held, pulling on from index `at`, up to
/// the step that emits none.
pub open spec fn emitted(lines: Seq<Seq<char>>, pulls: Seq<Pull>, at: int) -> Seq<Seq<Seq<char>>>
    decreases left(pulls, at), lines.len(),
{
    let pull = pull_at(pulls, at);
    if emits(lines, pull) {
        seq![slid(lines, pull)] + emitted(slid(lines, pull), pulls, next_at(pulls, at))
    } else {
        Seq::empty()
    }
}

/// All the windows of a source that yields `pulls` and is exhausted after them.
pub open spec fn windows_of(pulls: Seq<Pull>, window_size: nat) -> Seq<Seq<Seq<char>>> {
    let (buffer, at) = filled(initial(window_size), pulls, 0);
    emitted(buffer.lines, pulls, at)
}

/// Sliding window iterator over a source of lines, returning a window of lines.
/// The source is pulled by the caller, who hands each result in.
#[derive(Debug)]
pub struct LinesGenerator {
    current_window: Vec<String>,
    to_prefill: usize,
}

impl View for LinesGenerator {
    type V = Buffer;

    closed spec fn view(&self) -> Buffer {
        Buffer { lines: texts(self.current_window@), to_prefill: self.to_prefill as nat }
    }
}

/// A copy of some lines.
fn copy_lines(lines: &Vec<String>) -> (copy: Vec<String>)
    ensures
        copy@ == lines@,
{
    let mut copy: Vec<String> = Vec::new();
    let mut at: usize = 0;
    while at < lines.len()
        invariant
            at <= lines.len(),
            copy@ == lines@.take(at as int),
        decreases lines.len() - at,
    {
        copy.push(lines[at].clone());
        at += 1;
    }
    copy
}

impl LinesGenerator {
    /// Creates a generator whose first window is still to be filled: pull the
    /// source and hand the result to `prefill` for as long as `prefilling` says.
    ///
    /// # Arguments
    /// * `window_size` - Number of lines to show to the user beside the one typed
    pub fn new(window_size: usize) -> (generator: LinesGenerator)
        ensures
            generator@ == initial(window_size as nat),
    {
        let mut current_window: Vec<String> = Vec::new();
        current_window.push(String::new());
        assert(texts(current_window@) == initial(window_size as nat).lines);
        LinesGenerator { current_window, to_prefill: window_size }
    }

    /// Whether the first filling asks for one more pull.
    pub fn prefilling(&self) -> (more: bool)
        ensures
            more == (self@.to_prefill > 0),
    {
        self.to_prefill > 0
    }

    /// Takes one pull of the first filling: a line that was read is appended, a
    /// failed read is only counted, and at exhaustion the filling ends. A line
    /// handed in when none is asked for is appended all the same.
    pub fn prefill(&mut self, read: LineRead)
        ensures
            final(self)@ == prefilled(old(self)@, read@),
    {
        match read {
            LineRead::Line(text) => {
                self.current_window.push(text);
                if self.to_prefill > 0 {
                    self.to_prefill = self.to_prefill - 1;
                }
            },
            LineRead::Failed => {
                if self.to_prefill > 0 {
                    self.to_prefill = self.to_prefill - 1;
                }
            },
            LineRead::Exhausted => {
                self.to_prefill = 0;
            },
        }
        assert(final(self)@.lines == prefilled(old(self)@, read@).lines);
    }

    /// Slides the window by one line, given what the next pull gave: drops the
    /// first line, appends the one read, and returns the window, or `None` once
    /// the source is exhausted and no line is left.
    pub fn next(&mut self, read: LineRead) -> (window: Option<Vec<String>>)
        ensures
            final(self)@.lines == slid(old(self)@.lines, read@),
            final(self)@.to_prefill == old(self)@.to_prefill,
            match window {
                Some(lines) => emits(old(self)@.lines, read@) && texts(lines@) == final(self)@.lines,
                None => !emits(old(self)@.lines, read@),
            },
    {
        if self.current_window.len() > 0 {
            self.current_window.remove(0);
        }
        match read {
            LineRead::Line(text) => {
                self.current_window.push(text);
                Some(copy_lines(&self.current_window))
            },
            LineRead::Failed => Some(copy_lines(&self.current_window)),
            LineRead::Exhausted => {
                if self.current_window.len() > 0 {
                    Some(copy_lines(&self.current_window))
                } else {
                    None
                }
            },
        }
    }
}

/// What the pull at index `at` gives from a source that holds `reads`.
fn read_at(reads: &Vec<LineRead>, at: usize) -> (read: LineRead)
    ensures
        read@ == pull_at(pulls_of(reads@), at as int),
{
    if at < reads.len() {
        reads[at].clone()
    } else {
        LineRead::Exhausted
    }
}

/// All the windows of a source that yields `reads` and is exhausted after them:
/// fills a generator from it and slides it until it emits no more.
pub fn windows(reads: &Vec<LineRead>, window_size: usize) -> (all: Vec<Vec<String>>)
    ensures
        windows_texts(all@) == windows_of(pulls_of(reads@), window_size as nat),
        (forall|i: int| 0 <= i < reads.len() ==> reads[i] is Line) ==> {
            &&& all.len() == reads.len()
            &&& forall|i: int|
                0 <= i < all.len() ==> {
                    &&& 1 <= (#[trigger] all[i]).len() <= window_size + 1
                    &&& reads[i]@ == Pull::Line(all[i][0]@)
                }
        },
{
    let ghost pulls = pulls_of(reads@);
    let mut generator = LinesGenerator::new(window_size);
    let mut at: usize = 0;
    while generator.prefilling()
        invariant
            pulls == pulls_of(reads@),
            at <= reads.len(),
            filled(initial(window_size as nat), pulls, 0) == filled(generator@, pulls, at as int),
        decreases generator@.to_prefill,
    {
        generator.prefill(read_at(reads, at));
        if at < reads.len() {
            at += 1;
        }
    }
    let mut all: Vec<Vec<String>> = Vec::new();
    loop
        invariant
            pulls == pulls_of(reads@),
            at <= reads.len(),
            windows_of(pulls, window_size as nat) == windows_texts(all@) + emitted(
                generator@.lines,
                pulls,
                at as int,
            ),
        decreases left(pulls, at as int), generator@.lines.len(),
    {
        match generator.next(read_at(reads, at)) {
            Some(window) => {
                all.push(window);
            },
            None => {
                proof {
                    if forall|i: int| 0 <= i < reads.len() ==> reads[i] is Line {
                        let lines = Seq::new(reads.len() as nat, |i: int| pulls[i]->Line_0);
                        assert(pulls == all_read(lines));
                        lemma_one_window_per_line(lines, window_size as nat);
                        lemma_windows_shrink_to_one(lines, window_size as nat);
                        assert forall|i: int| 0 <= i < all.len() implies {
                            &&& 1 <= (#[trigger] all[i]).len() <= window_size + 1
                            &&& reads[i]@ == Pull::Line(all[i][0]@)
                        } by {
                            assert(texts(all[i]@) == windows_of(pulls, window_size as nat)[i]);
                        }
                    }
                }
                return all;
            },
        }
        if at < reads.len() {
            at += 1;
        }
    }
}

} // verus!
