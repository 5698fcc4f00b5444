//! A fixed-capacity circular store of text lines with oldest-first eviction.
//!
//! The buffer owns `SLOTS` slots arranged as a ring. The slots in the circular
//! half-open range `[start, end)` hold the sealed lines, oldest first; the slot
//! at `end` holds the line currently being composed (`None` until something is
//! appended to it). Sealing a line when the ring is full evicts the oldest
//! sealed line, so at most `SLOTS - 1` sealed lines are ever stored.

use vstd::prelude::*;
use vstd::string::StringExecFns;
use crate::text::{str_chars, chars_to_string};

verus! {

/// Number of ring slots. One slot is always the open line, so the buffer
/// stores at most `SLOTS - 1` sealed lines.
pub const SLOTS: usize = 64;

/// One character of control-character sanitization, applied left to right:
/// newline and NUL are dropped, a tab becomes four spaces, and a carriage
/// return discards everything accumulated so far in this pass.
pub open spec fn sanitize_step(acc: Seq<char>, c: char) -> Seq<char> {
    if c == '\n' || c == '\0' {
        acc
    } else if c == '\t' {
        acc + seq![' ', ' ', ' ', ' ']
    } else if c == '\r' {
        Seq::<char>::empty()
    } else {
        acc.push(c)
    }
}

/// The sanitized form of a raw text: `sanitize_step` folded over its
/// characters from left to right.
pub open spec fn sanitize(s: Seq<char>) -> Seq<char>
    decreases s.len(),
{
    if s.len() == 0 {
        Seq::<char>::empty()
    } else {
        sanitize_step(sanitize(s.drop_last()), s.last())
    }
}

/// The view of one ring slot: the line it holds, if any.
pub open spec fn line_view(o: Option<String>) -> Option<Seq<char>> {
    match o {
        Some(s) => Some(s@),
        None => None,
    }
}

/// The content of an open line: its text, or empty if nothing was appended yet.
pub open spec fn opened(o: Option<Seq<char>>) -> Seq<char> {
    match o {
        Some(l) => l,
        None => Seq::<char>::empty(),
    }
}

/// The ring index `k` positions after `start`.
pub open spec fn slot_index(start: int, k: int) -> int {
    if start + k < 64 {
        start + k
    } else {
        start + k - 64
    }
}

#[derive(Debug)]
pub struct Buffer {
    queue: Vec<Option<String>>,
    start_pointer: usize,
    end_pointer: usize,
}

impl Buffer {
    /// Ring index `j` lies in the circular range `[start, end]`, i.e. it holds
    /// either a sealed line or the open line.
    spec fn slot_in_use(self, j: int) -> bool {
        if self.start_pointer <= self.end_pointer {
            self.start_pointer <= j <= self.end_pointer
        } else {
            j <= self.end_pointer || self.start_pointer <= j
        }
    }

    pub closed spec fn wf(self) -> bool {
        &&& self.queue@.len() == 64
        &&& self.start_pointer < 64
        &&& self.end_pointer < 64
        &&& forall|j: int| 0 <= j < 64 && !self.slot_in_use(j) ==> self.queue@[j] is None
    }

    /// Number of sealed lines currently stored.
    pub open spec fn stored_len(self) -> int {
        self.stored().len() as int
    }

    /// Number of sealed lines, computed from the ring pointers.
    spec fn ring_len(self) -> int {
        if self.end_pointer >= self.start_pointer {
            self.end_pointer - self.start_pointer
        } else {
            self.end_pointer + 64 - self.start_pointer
        }
    }

    /// The `k`-th oldest sealed line (`None` if the line was sealed with no
    /// content ever appended to it).
    spec fn stored_at(self, k: int) -> Option<Seq<char>>
        recommends
            0 <= k < self.ring_len(),
    {
        line_view(self.queue@[slot_index(self.start_pointer as int, k)])
    }

    /// All sealed lines, oldest first.
    pub closed spec fn stored(self) -> Seq<Option<Seq<char>>> {
        Seq::new(self.ring_len() as nat, |k: int| self.stored_at(k))
    }

    /// The line currently being composed.
    pub closed spec fn open_line(self) -> Option<Seq<char>> {
        line_view(self.queue@[self.end_pointer as int])
    }

    /// A new, empty buffer.
    pub fn new() -> (b: Buffer)
        ensures
            b.wf(),
            b.stored_len() == 0,
            b.stored() == Seq::<Option<Seq<char>>>::empty(),
            b.open_line() is None,
    {
        let queue: Vec<Option<String>> = vec![None; SLOTS];
        let b = Buffer { queue, start_pointer: 0, end_pointer: 0 };
        proof {
            assert(b.stored() =~= Seq::<Option<Seq<char>>>::empty());
        }
        b
    }

    /// Sanitizes `suffix` and appends it to the open line, opening the line if
    /// this is the first content since the last seal. Sealed lines are
    /// untouched.
    pub fn append(&mut self, suffix: &str)
        requires
            old(self).wf(),
        ensures
            final(self).wf(),
            final(self).stored_len() == old(self).stored_len(),
            final(self).stored() == old(self).stored(),
            final(self).open_line() == Some(opened(old(self).open_line()) + sanitize(suffix@)),
    {
        let clean_chars = sanitize_chars(suffix);
        let clean = chars_to_string(&clean_chars);
        let idx = self.end_pointer;
        match &mut self.queue[idx] {
            Some(line) => {
                line.append(clean.as_str());
            },
            slot => {
                proof {
                    assert(Seq::<char>::empty() + sanitize(suffix@) =~= sanitize(suffix@));
                }
                *slot = Some(clean);
            },
        }
        proof {
            let pre = *old(self);
            assert(self.queue@[idx as int] is Some);
            assert forall|j: int| 0 <= j < 64 && !self.slot_in_use(j) implies self.queue@[j]
                is None by {
                assert(!pre.slot_in_use(j));
                assert(pre.queue@[j] is None);
                assert(j != idx);
            }
            assert forall|k: int| 0 <= k < self.ring_len() implies self.stored_at(k)
                == pre.stored_at(k) by {
                assert(slot_index(pre.start_pointer as int, k) != idx as int);
            }
            assert(self.stored() =~= pre.stored());
        }
    }

    /// Seals the open line and opens the next slot. If the ring was full, the
    /// oldest sealed line is evicted first (FIFO eviction), so the number of
    /// sealed lines never exceeds `SLOTS - 1`.
    pub fn flush(&mut self)
        requires
            old(self).wf(),
        ensures
            final(self).wf(),
            final(self).open_line() is None,
            final(self).stored_len() == if old(self).stored_len() < 63 {
                old(self).stored_len() + 1
            } else {
                63int
            },
            old(self).stored_len() < 63 ==> final(self).stored() == old(self).stored().push(
                old(self).open_line(),
            ),
            old(self).stored_len() == 63 ==> final(self).stored() == old(
                self,
            ).stored().drop_first().push(old(self).open_line()),
    {
        let ghost pre = *old(self);
        self.end_pointer = if self.end_pointer + 1 < 64 {
            self.end_pointer + 1
        } else {
            0
        };
        if self.start_pointer == self.end_pointer {
            proof {
                assert(pre.ring_len() == 63);
            }
            let e = self.end_pointer;
            self.queue[e] = None;
            self.start_pointer = if self.start_pointer + 1 < 64 {
                self.start_pointer + 1
            } else {
                0
            };
            proof {
                assert(self.ring_len() == 63);
                assert(self.open_line() is None);
                assert forall|k: int| 0 <= k < 63 implies self.stored_at(k) == (
                pre.stored().drop_first().push(pre.open_line()))[k] by {
                    if k < 62 {
                        assert(slot_index(self.start_pointer as int, k) == slot_index(
                            pre.start_pointer as int,
                            k + 1,
                        ));
                        assert(slot_index(pre.start_pointer as int, k + 1)
                            != pre.start_pointer as int);
                    } else {
                        assert(slot_index(self.start_pointer as int, 62)
                            == pre.end_pointer as int);
                        assert(pre.end_pointer != pre.start_pointer);
                    }
                }
                assert(self.stored() =~= pre.stored().drop_first().push(pre.open_line()));
            }
        } else {
            proof {
                assert(!pre.slot_in_use(self.end_pointer as int));
                assert(pre.queue@[self.end_pointer as int] is None);
                assert(pre.ring_len() < 63);
                assert(self.ring_len() == pre.ring_len() + 1);
                assert forall|j: int| 0 <= j < 64 && !self.slot_in_use(j) implies self.queue@[j]
                    is None by {
                    assert(!pre.slot_in_use(j));
                }
                assert(slot_index(pre.start_pointer as int, pre.ring_len())
                    == pre.end_pointer as int);
                assert(self.stored() =~= pre.stored().push(pre.open_line()));
            }
        }
    }

    /// Number of sealed lines.
    pub fn len(&self) -> (n: usize)
        requires
            self.wf(),
        ensures
            n == self.stored_len(),
    {
        if self.end_pointer >= self.start_pointer {
            self.end_pointer - self.start_pointer
        } else {
            self.end_pointer + 64 - self.start_pointer
        }
    }

    /// Borrows the `k`-th oldest sealed line.
    pub fn line(&self, k: usize) -> (r: &Option<String>)
        requires
            self.wf(),
            k < self.stored_len(),
        ensures
            line_view(*r) == self.stored()[k as int],
    {
        let j = if self.start_pointer + k < 64 {
            self.start_pointer + k
        } else {
            self.start_pointer + k - 64
        };
        &self.queue[j]
    }

    /// A cursor over the sealed lines, oldest first. Walking it does not
    /// mutate the buffer, and a fresh call restarts from the oldest line.
    pub fn iter(&self) -> (it: BufferIterator<'_>)
        requires
            self.wf(),
        ensures
            it.wf(),
            it.remaining() == self.stored(),
    {
        let it = BufferIterator {
            queue_pointer: &self.queue,
            start_pointer: self.start_pointer,
            end_pointer: self.end_pointer,
        };
        proof {
            assert(it.remaining() =~= self.stored());
        }
        it
    }
}

/// A non-mutating cursor over a buffer's sealed lines, oldest first.
pub struct BufferIterator<'a> {
    queue_pointer: &'a Vec<Option<String>>,
    start_pointer: usize,
    end_pointer: usize,
}

impl<'a> BufferIterator<'a> {
    pub closed spec fn wf(self) -> bool {
        &&& self.queue_pointer@.len() == 64
        &&& self.start_pointer < 64
        &&& self.end_pointer < 64
    }

    pub open spec fn remaining_len(self) -> int {
        self.remaining().len() as int
    }

    spec fn ring_len(self) -> int {
        if self.end_pointer >= self.start_pointer {
            self.end_pointer - self.start_pointer
        } else {
            self.end_pointer + 64 - self.start_pointer
        }
    }

    /// The lines not yet yielded, oldest first.
    pub closed spec fn remaining(self) -> Seq<Option<Seq<char>>> {
        Seq::new(
            self.ring_len() as nat,
            |k: int| line_view(self.queue_pointer@[slot_index(self.start_pointer as int, k)]),
        )
    }

    /// Yields the oldest line not yet yielded, or `None` once all lines have
    /// been walked.
    pub fn next(&mut self) -> (r: Option<&'a Option<String>>)
        requires
            old(self).wf(),
        ensures
            final(self).wf(),
            old(self).remaining_len() == 0 ==> r is None && *final(self) == *old(self),
            old(self).remaining_len() > 0 ==> {
                &&& r matches Some(line) && line_view(*line) == old(self).remaining()[0]
                &&& final(self).remaining() == old(self).remaining().drop_first()
            },
    {
        if self.start_pointer != self.end_pointer {
            let q = self.queue_pointer;
            let borrow = &q[self.start_pointer];
            self.start_pointer = if self.start_pointer + 1 < 64 {
                self.start_pointer + 1
            } else {
                0
            };
            proof {
                assert(final(self).remaining() =~= old(self).remaining().drop_first());
            }
            Some(borrow)
        } else {
            None
        }
    }
}

/// The open line after one `append` of `text`: the sanitized text extends
/// whatever the line already held.
pub open spec fn open_line_after_append(open: Option<Seq<char>>, text: Seq<char>) -> Option<
    Seq<char>,
> {
    Some(opened(open) + sanitize(text))
}

/// The open line after a run of `append` calls with `texts`, in order.
pub open spec fn open_line_after_appends(open: Option<Seq<char>>, texts: Seq<Seq<char>>) -> Option<
    Seq<char>,
>
    decreases texts.len(),
{
    if texts.len() == 0 {
        open
    } else {
        open_line_after_append(open_line_after_appends(open, texts.drop_last()), texts.last())
    }
}

/// The concatenation of the sanitized forms of `texts`, in order.
pub open spec fn concat_sanitized(texts: Seq<Seq<char>>) -> Seq<char>
    decreases texts.len(),
{
    if texts.len() == 0 {
        Seq::<char>::empty()
    } else {
        concat_sanitized(texts.drop_last()) + sanitize(texts.last())
    }
}

/// Between two flushes, a run of `append` calls composes one line: starting
/// from a fresh (unopened) line, the line after appending `texts` holds
/// exactly the concatenation of each call's sanitized text, in order. Each
/// call's sanitization drops newline and NUL, expands tabs, and lets a
/// carriage return discard what that same call had accumulated.
pub proof fn lemma_appends_concatenate(texts: Seq<Seq<char>>)
    ensures
        opened(open_line_after_appends(None, texts)) == concat_sanitized(texts),
    decreases texts.len(),
{
    if texts.len() > 0 {
        lemma_appends_concatenate(texts.drop_last());
    }
}

/// The stored lines after `k` cycles of appending `text` to a fresh line and
/// flushing, starting from an empty buffer.
pub open spec fn stored_after_cycles(k: nat, text: Seq<char>) -> Seq<Option<Seq<char>>>
    decreases k,
{
    if k == 0 {
        Seq::<Option<Seq<char>>>::empty()
    } else {
        let prev = stored_after_cycles((k - 1) as nat, text);
        let sealed = Some(Seq::<char>::empty() + sanitize(text));
        if prev.len() < 63 {
            prev.push(sealed)
        } else {
            prev.drop_first().push(sealed)
        }
    }
}

/// Repeated append-and-flush cycles saturate at the buffer's capacity of
/// `SLOTS - 1` stored lines: after `k` cycles the buffer holds `min(k, 63)`
/// lines, each equal to the sanitized input. Eviction is oldest-first, so the
/// cycles beyond the capacity drop the oldest line and keep the count at 63.
/// One cycle is exactly what the contracts of `append` (on a fresh line) and
/// `flush` together state, so this also gives the line count after `k <= 63`
/// flushes: exactly `k`, in chronological order.
pub proof fn lemma_cycles_saturate(k: nat, text: Seq<char>)
    ensures
        stored_after_cycles(k, text).len() == if k < 63 {
            k as int
        } else {
            63int
        },
        forall|i: int|
            0 <= i < stored_after_cycles(k, text).len() ==> stored_after_cycles(k, text)[i]
                == Some(Seq::<char>::empty() + sanitize(text)),
    decreases k,
{
    if k > 0 {
        lemma_cycles_saturate((k - 1) as nat, text);
    }
}

/// A well-formed buffer stores at most `SLOTS - 1` sealed lines.
pub proof fn lemma_stored_bound(b: Buffer)
    requires
        b.wf(),
    ensures
        0 <= b.stored_len() <= 63,
{
}

fn sanitize_chars(raw: &str) -> (out: Vec<char>)
    ensures
        out@ == sanitize(raw@),
{
    let cs = str_chars(raw);
    let mut out: Vec<char> = Vec::new();
    let mut i: usize = 0;
    while i < cs.len()
        invariant
            i <= cs@.len(),
            cs@ == raw@,
            out@ == sanitize(cs@.take(i as int)),
        decreases cs@.len() - i,
    {
        let ghost before = out@;
        let c = cs[i];
        if c == '\n' || c == '\0' {
        } else if c == '\t' {
            out.push(' ');
            out.push(' ');
            out.push(' ');
            out.push(' ');
            proof {
                assert(out@ =~= before + seq![' ', ' ', ' ', ' ']);
            }
        } else if c == '\r' {
            out.clear();
        } else {
            out.push(c);
        }
        proof {
            assert(cs@.take(i + 1 as int).drop_last() =~= cs@.take(i as int));
            assert(cs@.take(i + 1 as int).last() == c);
            assert(out@ =~= sanitize(cs@.take(i + 1 as int)));
        }
        i = i + 1;
    }
    proof {
        assert(cs@.take(cs@.len() as int) =~= cs@);
    }
    out
}

} // verus!
