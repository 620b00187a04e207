//! The scrolling text-line buffer: a bounded history of lines, most
//! recent first, with a write cursor into the most recent line.
//! Incoming text is consumed character by character; `'\n'` opens a new
//! head line (evicting the oldest at capacity) and `'\r'` rewinds the
//! cursor for overwriting in place.

use vstd::prelude::*;

verus! {

/// The model of the buffer: its lines, most recent first, and the
/// write cursor into the head line.
pub struct TextState {
    pub lines: Seq<Seq<char>>,
    pub cursor: int,
}

/// One line feed: a fresh empty line becomes the head, the oldest line
/// is evicted when the count would exceed `max`, and the cursor resets.
pub open spec fn step_newline(st: TextState, max: int) -> TextState {
    let grown = seq![Seq::<char>::empty()] + st.lines;
    let kept = if grown.len() > max {
        grown.drop_last()
    } else {
        grown
    };
    TextState { lines: kept, cursor: 0 }
}

/// One printable character: the head line is padded with spaces up to
/// the cursor, the character replaces the cell at the cursor (or is
/// appended when the cursor sits exactly at the end), and the cursor
/// advances by one.
pub open spec fn step_char(st: TextState, c: char) -> TextState {
    let head = st.lines[0];
    let padded = if st.cursor <= head.len() {
        head
    } else {
        head + Seq::new((st.cursor - head.len()) as nat, |i: int| ' ')
    };
    let written = if st.cursor < padded.len() {
        padded.update(st.cursor, c)
    } else {
        padded.push(c)
    };
    TextState { lines: st.lines.update(0, written), cursor: st.cursor + 1 }
}

/// One character of input applied to the text state.
pub open spec fn step(st: TextState, max: int, c: char) -> TextState {
    if c == '\n' {
        step_newline(st, max)
    } else if c == '\r' {
        TextState { lines: st.lines, cursor: 0 }
    } else {
        step_char(st, c)
    }
}

/// A pushed text applied character by character, in order.
pub open spec fn run(st: TextState, max: int, text: Seq<char>) -> TextState
    decreases text.len(),
{
    if text.len() == 0 {
        st
    } else {
        run(step(st, max, text[0]), max, text.skip(1))
    }
}

/// Before its first character is consumed, a buffer that never held a
/// line is given one empty line; the cursor is untouched.
pub open spec fn ensure_line(st: TextState) -> TextState {
    if st.lines.len() == 0 {
        TextState { lines: seq![Seq::<char>::empty()], cursor: st.cursor }
    } else {
        st
    }
}

/// A character written with the cursor past the end of the head line
/// pads the line with spaces up to the cursor and lands after them: the
/// head grows to exactly one more than the cursor, keeps its old
/// content, holds spaces in between, and ends with the character.
pub proof fn lemma_write_pads(st: TextState, max: int, c: char)
    requires
        c != '\n',
        c != '\r',
        st.lines.len() >= 1,
        st.cursor > st.lines[0].len(),
    ensures
        ({
            let head = st.lines[0];
            let next = step(st, max, c);
            &&& next.lines[0].len() == st.cursor + 1
            &&& next.lines[0] == head + Seq::new((st.cursor - head.len()) as nat, |i: int| ' ')
                + seq![c]
            &&& next.cursor == st.cursor + 1
            &&& next.lines.len() == st.lines.len()
        }),
{
    let head = st.lines[0];
    let next = step(st, max, c);
    assert(next.lines[0] =~= head + Seq::new((st.cursor - head.len()) as nat, |i: int| ' ')
        + seq![c]);
}

/// The scrolling line buffer: an ordered history of at most `len_max`
/// lines (most recent first) and the cursor `index` into the head line.
pub struct Buffer {
    data: Vec<Vec<char>>,
    len_max: usize,
    index: usize,
}

impl Buffer {
    /// The lines held, most recent first.
    pub closed spec fn lines(&self) -> Seq<Seq<char>> {
        self.data@.map_values(|v: Vec<char>| v@)
    }

    /// The next write column in the most recent line.
    pub closed spec fn cursor(&self) -> int {
        self.index as int
    }

    /// The configured line capacity.
    pub closed spec fn max_lines(&self) -> int {
        self.len_max as int
    }

    /// The buffer as its model.
    pub open spec fn state(&self) -> TextState {
        TextState { lines: self.lines(), cursor: self.cursor() }
    }

    /// The history never exceeds its capacity; the single line that the
    /// first pushed character opens is tolerated even at capacity zero.
    pub open spec fn wf(&self) -> bool {
        self.lines().len() <= self.max_lines() || self.lines().len() == 1
    }

    /// An empty buffer with the given capacity, cursor at 0.
    pub fn new(len_max: usize) -> (r: Buffer)
        ensures
            r.wf(),
            r.lines() == Seq::<Seq<char>>::empty(),
            r.cursor() == 0,
            r.max_lines() == len_max,
    {
        let r = Buffer { data: Vec::new(), len_max, index: 0 };
        proof {
            assert(r.lines() =~= Seq::<Seq<char>>::empty());
        }
        r
    }

    /// Consumes `s` one character at a time: `'\n'` opens a new head
    /// line and evicts the oldest line past capacity, `'\r'` rewinds
    /// the cursor to column 0, and any other character lands at the
    /// cursor of the head line, padding with spaces where the line is
    /// shorter than the cursor.
    pub fn push(&mut self, s: String)
        requires
            old(self).wf(),
        ensures
            final(self).wf(),
            final(self).max_lines() == old(self).max_lines(),
            final(self).state() == run(
                ensure_line(old(self).state()),
                old(self).max_lines(),
                s@,
            ),
    {
        if self.data.len() == 0 {
            self.data.push(Vec::new());
            proof {
                assert(self.lines() =~= seq![Seq::<char>::empty()]);
            }
        }
        let ghost st0 = ensure_line(old(self).state());
        let ghost max = old(self).max_lines();
        proof {
            assert(self.state() == st0);
            assert(s@.skip(0) =~= s@);
        }
        let sl = s.as_str();
        let n = sl.unicode_len();
        let mut k: usize = 0;
        while k < n
            invariant
                k <= n,
                n == s@.len(),
                sl@ == s@,
                self.lines().len() >= 1,
                self.wf(),
                max == self.max_lines(),
                run(st0, max, s@) == run(self.state(), max, s@.skip(k as int)),
            decreases n - k,
        {
            let ch = sl.get_char(k);
            let ghost pre = self.state();
            proof {
                assert(s@.skip(k as int)[0] == s@[k as int]);
                assert(s@.skip(k as int).skip(1) =~= s@.skip(k as int + 1));
            }
            if ch == '\n' {
                self.data.insert(0, Vec::new());
                proof {
                    assert(self.lines() =~= seq![Seq::<char>::empty()] + pre.lines);
                }
                if self.data.len() > self.len_max {
                    let _ = self.data.pop();
                    proof {
                        assert(self.lines() =~= (seq![Seq::<char>::empty()]
                            + pre.lines).drop_last());
                    }
                }
                self.index = 0;
                proof {
                    assert(self.state() == step(pre, max, ch));
                }
            } else if ch == '\r' {
                self.index = 0;
                proof {
                    assert(self.lines() == pre.lines);
                    assert(self.state() == step(pre, max, ch));
                }
            } else {
                let ghost head = pre.lines[0];
                let mut line = self.data.remove(0);
                proof {
                    assert(line@ == head);
                }
                while line.len() < self.index
                    invariant
                        head.len() <= line@.len(),
                        line@ =~= head + Seq::new((line@.len() - head.len()) as nat, |i: int| ' '),
                        line@.len() <= head.len() || line@.len() <= self.index,
                        self.index == pre.cursor,
                    decreases self.index - line@.len(),
                {
                    line.push(' ');
                    proof {
                        assert(line@ =~= head + Seq::new((line@.len() - head.len()) as nat, |i: int| ' '));
                    }
                }
                let ghost padded = if pre.cursor <= head.len() {
                    head
                } else {
                    head + Seq::new((pre.cursor - head.len()) as nat, |i: int| ' ')
                };
                proof {
                    assert(line@ =~= padded);
                }
                if self.index < line.len() {
                    line.set(self.index, ch);
                    self.index = self.index + 1;
                } else {
                    line.push(ch);
                    self.index = line.len();
                }
                self.data.insert(0, line);
                proof {
                    assert(self.lines() =~= pre.lines.update(0, step_char(pre, ch).lines[0]));
                    assert(self.state() == step(pre, max, ch));
                }
            }
            k = k + 1;
        }
        proof {
            assert(s@.skip(n as int) =~= Seq::<char>::empty());
        }
    }

    /// The line at `index`, 0 being the most recent, or nothing when
    /// fewer lines are held.
    pub fn get(&self, index: usize) -> (r: Option<&Vec<char>>)
        ensures
            match r {
                Some(l) => index < self.lines().len() && l@ == self.lines()[index as int],
                None => index >= self.lines().len(),
            },
    {
        if index < self.data.len() {
            Some(&self.data[index])
        } else {
            None
        }
    }

    /// How many lines the buffer currently holds.
    pub fn line_count(&self) -> (r: usize)
        ensures
            r == self.lines().len(),
    {
        self.data.len()
    }

    /// Empties the history and rewinds the cursor: the initial state.
    pub fn clear(&mut self)
        ensures
            final(self).wf(),
            final(self).lines() == Seq::<Seq<char>>::empty(),
            final(self).cursor() == 0,
            final(self).max_lines() == old(self).max_lines(),
    {
        self.data.clear();
        self.index = 0;
        proof {
            assert(self.lines() =~= Seq::<Seq<char>>::empty());
        }
    }
}

} // verus!
