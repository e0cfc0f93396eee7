//! A fixed-length window over an underlying stream.
//!
//! The window starts wherever the underlying stream stood when the window was
//! made; it never assumes that the stream's own start is offset zero. Every
//! decision (how much may be read, what a seek resolves to, by how much the
//! underlying stream must move) is made here over `cursor` and `len`; the
//! stream itself is driven by the caller through `reader_mut`.
use vstd::prelude::*;

use crate::min_int;

verus! {

/// Why an operation on a window was refused.
#[derive(Debug, Clone, Copy, PartialEq, Eq, Structural)]
pub enum WindowError {
    /// The underlying stream reported more bytes than the window had left.
    ReadOverflow,
    /// A seek resolved to a position before the start of the window.
    PastTheStart,
    /// The relative move of the underlying stream does not fit in an `i64`.
    DeltaOverflow,
}

/// Where a seek is measured from, in the window's own coordinates.
#[derive(Debug, Clone, Copy, PartialEq, Eq, Structural)]
pub enum SeekPos {
    Start(u64),
    Current(i64),
    End(i64),
}

/// A resolved seek: the new cursor, and the relative move that takes the
/// underlying stream there from where it stands.
#[derive(Debug, Clone, Copy, PartialEq, Eq, Structural)]
pub struct SeekPlan {
    pub target: u64,
    pub delta: i64,
}

/// The cursor that a seek resolves to in a window of length `len` whose
/// cursor stands at `cursor`; `None` when it lands before the start.
pub open spec fn seek_target_spec(len: int, cursor: int, pos: SeekPos) -> Option<int> {
    match pos {
        SeekPos::Start(p) => Some(min_int(p as int, len)),
        SeekPos::Current(d) => {
            if d > 0 {
                Some(min_int(cursor + d, len))
            } else if cursor + d < 0 {
                None
            } else {
                Some(cursor + d)
            }
        },
        SeekPos::End(p) => {
            if p > 0 {
                Some(len)
            } else if len + p < 0 {
                None
            } else {
                Some(len + p)
            }
        },
    }
}

/// `std::io::Take` that can also seek: a window `[0, len)` over `reader`.
pub struct MyTake<R> {
    reader: R,
    cursor: u64,
    len: u64,
}

impl<R> MyTake<R> {
    /// Bytes consumed so far within the window.
    pub closed spec fn cursor_spec(&self) -> u64 {
        self.cursor
    }

    /// The fixed length of the window.
    pub closed spec fn len_spec(&self) -> u64 {
        self.len
    }

    /// The stream the window is laid over.
    pub closed spec fn inner(&self) -> R {
        self.reader
    }

    pub open spec fn wf(&self) -> bool {
        self.cursor_spec() <= self.len_spec()
    }

    pub open spec fn remaining_spec(&self) -> int {
        self.len_spec() - self.cursor_spec()
    }

    /// A window of `len` bytes starting at the stream's current position.
    pub fn new(reader: R, len: u64) -> (r: Self)
        ensures
            r.wf(),
            r.len_spec() == len,
            r.cursor_spec() == 0,
            r.inner() == reader,
    {
        MyTake { reader, len, cursor: 0 }
    }

    pub fn remaining(&self) -> (r: u64)
        requires
            self.wf(),
        ensures
            r == self.remaining_spec(),
    {
        self.len - self.cursor
    }

    pub fn into_inner(self) -> (r: R)
        ensures
            r == self.inner(),
    {
        self.reader
    }

    pub fn cursor(&self) -> (r: u64)
        ensures
            r == self.cursor_spec(),
    {
        self.cursor
    }

    pub fn len(&self) -> (r: u64)
        ensures
            r == self.len_spec(),
    {
        self.len
    }

    /// The underlying stream, to be driven by the amounts this window decides.
    pub fn reader_mut(&mut self) -> (r: &mut R)
        ensures
            *r == old(self).inner(),
            final(self).inner() == *final(r),
            final(self).cursor_spec() == old(self).cursor_spec(),
            final(self).len_spec() == old(self).len_spec(),
    {
        &mut self.reader
    }

    /// How many of `requested` bytes may be read, or of `available` buffered
    /// bytes shown: never past the end of the window.
    pub fn clamp_len(&self, requested: usize) -> (r: usize)
        requires
            self.wf(),
        ensures
            r == min_int(requested as int, self.remaining_spec()),
    {
        let rem = self.len - self.cursor;
        if (requested as u64) <= rem {
            requested
        } else {
            rem as usize
        }
    }

    /// Records that the underlying stream delivered `num_read` bytes. A
    /// stream that reports more than the window had left is refused and the
    /// cursor is kept.
    pub fn advance_read(&mut self, num_read: usize) -> (r: Result<u64, WindowError>)
        requires
            old(self).wf(),
        ensures
            final(self).wf(),
            final(self).len_spec() == old(self).len_spec(),
            final(self).inner() == old(self).inner(),
            num_read <= old(self).remaining_spec() ==> r == Ok::<u64, WindowError>(
                final(self).cursor_spec(),
            ) && final(self).cursor_spec() == old(self).cursor_spec() + num_read,
            num_read > old(self).remaining_spec() ==> r == Err::<u64, WindowError>(
                WindowError::ReadOverflow,
            ) && final(self).cursor_spec() == old(self).cursor_spec(),
    {
        let rem = self.len - self.cursor;
        if (num_read as u64) <= rem {
            self.cursor = self.cursor + num_read as u64;
            Ok(self.cursor)
        } else {
            Err(WindowError::ReadOverflow)
        }
    }

    /// Consumes up to `amt` buffered bytes, never past the end of the window;
    /// returns how many the underlying stream must consume.
    pub fn consume(&mut self, amt: usize) -> (r: usize)
        requires
            old(self).wf(),
        ensures
            final(self).wf(),
            r == min_int(amt as int, old(self).remaining_spec()),
            final(self).cursor_spec() == old(self).cursor_spec() + r,
            final(self).len_spec() == old(self).len_spec(),
            final(self).inner() == old(self).inner(),
    {
        let trimmed = self.clamp_len(amt);
        self.cursor = self.cursor + trimmed as u64;
        trimmed
    }

    /// Resolves a seek in window coordinates and the relative move of the
    /// underlying stream that it takes. Nothing is moved.
    pub fn plan_seek(&self, pos: SeekPos) -> (r: Result<SeekPlan, WindowError>)
        requires
            self.wf(),
        ensures
            seek_target_spec(self.len_spec() as int, self.cursor_spec() as int, pos) is None
                <==> r == Err::<SeekPlan, WindowError>(WindowError::PastTheStart),
            r is Ok <==> seek_target_spec(self.len_spec() as int, self.cursor_spec() as int, pos)
                is Some && i64::MIN <= seek_target_spec(
                self.len_spec() as int,
                self.cursor_spec() as int,
                pos,
            )->Some_0 - self.cursor_spec() <= i64::MAX,
            r matches Ok(p) ==> p.target == seek_target_spec(
                self.len_spec() as int,
                self.cursor_spec() as int,
                pos,
            )->Some_0 && p.delta == p.target - self.cursor_spec() && p.target <= self.len_spec(),
            r matches Err(e) ==> e == WindowError::PastTheStart || e == WindowError::DeltaOverflow,
    {
        let target: u64 = match pos {
            SeekPos::Start(p) => {
                if p <= self.len {
                    p
                } else {
                    self.len
                }
            },
            SeekPos::Current(d) => {
                if d > 0 {
                    let rem = self.len - self.cursor;
                    if (d as u64) <= rem {
                        self.cursor + d as u64
                    } else {
                        self.len
                    }
                } else {
                    let back: u64 = if d == i64::MIN {
                        0x8000_0000_0000_0000u64
                    } else {
                        (-d) as u64
                    };
                    if back > self.cursor {
                        return Err(WindowError::PastTheStart);
                    }
                    self.cursor - back
                }
            },
            SeekPos::End(p) => {
                if p > 0 {
                    self.len
                } else {
                    let back: u64 = if p == i64::MIN {
                        0x8000_0000_0000_0000u64
                    } else {
                        (-p) as u64
                    };
                    if back > self.len {
                        return Err(WindowError::PastTheStart);
                    }
                    self.len - back
                }
            },
        };
        if target >= self.cursor {
            let up = target - self.cursor;
            if up > 0x7fff_ffff_ffff_ffffu64 {
                return Err(WindowError::DeltaOverflow);
            }
            Ok(SeekPlan { target, delta: up as i64 })
        } else {
            let down = self.cursor - target;
            if down > 0x8000_0000_0000_0000u64 {
                return Err(WindowError::DeltaOverflow);
            }
            let delta: i64 = if down == 0x8000_0000_0000_0000u64 {
                i64::MIN
            } else {
                -(down as i64)
            };
            Ok(SeekPlan { target, delta })
        }
    }

    /// Moves the cursor to where a seek resolved, once the underlying stream
    /// has made the move.
    pub fn set_cursor(&mut self, target: u64)
        requires
            target <= old(self).len_spec(),
        ensures
            final(self).wf(),
            final(self).cursor_spec() == target,
            final(self).len_spec() == old(self).len_spec(),
            final(self).inner() == old(self).inner(),
    {
        self.cursor = target;
    }
}

/// The sum of a run of read counts.
pub open spec fn total_read(gots: Seq<int>) -> int
    decreases gots.len(),
{
    if gots.len() == 0 {
        0
    } else {
        total_read(gots.drop_last()) + gots.last()
    }
}

/// Each read of the run delivered no more than the window granted it: the
/// smaller of what was asked and what was left after the reads before it.
pub open spec fn reads_within_window(len: int, asked: Seq<int>, gots: Seq<int>) -> bool {
    &&& asked.len() == gots.len()
    &&& forall|i: int|
        0 <= i < gots.len() ==> 0 <= #[trigger] gots[i] <= min_int(
            asked[i],
            len - total_read(gots.take(i)),
        )
}

/// Any run of reads through a window of length `len`, whatever was asked,
/// delivers at most `len` bytes in total; once the window is exhausted every
/// further read is granted zero bytes rather than failing.
pub proof fn lemma_reads_stay_in_window(len: nat, asked: Seq<int>, gots: Seq<int>)
    requires
        reads_within_window(len as int, asked, gots),
    ensures
        total_read(gots) <= len,
        total_read(gots) == len ==> forall|more: int|
            more >= 0 ==> #[trigger] min_int(more, len - total_read(gots)) == 0,
    decreases gots.len(),
{
    if gots.len() > 0 {
        let n = (gots.len() - 1) as int;
        assert(gots.drop_last() =~= gots.take(n));
        assert(asked.drop_last().len() == gots.drop_last().len());
        assert forall|i: int| 0 <= i < gots.drop_last().len() implies 0 <= #[trigger] gots.drop_last()[i]
            <= min_int(asked.drop_last()[i], len - total_read(gots.drop_last().take(i))) by {
            assert(gots.drop_last().take(i) =~= gots.take(i));
            assert(gots.drop_last()[i] == gots[i]);
        }
        lemma_reads_stay_in_window(len, asked.drop_last(), gots.drop_last());
        assert(gots[n] <= len - total_read(gots.take(n)));
    }
}

/// A seek forward past the end of the window lands exactly on its end.
pub proof fn lemma_forward_seek_clamps(len: u64, cursor: u64, pos: SeekPos)
    requires
        cursor <= len,
        match pos {
            SeekPos::Start(p) => p >= len,
            SeekPos::Current(d) => cursor + d >= len,
            SeekPos::End(p) => p >= 0,
        },
    ensures
        seek_target_spec(len as int, cursor as int, pos) == Some(len as int),
{
}

/// A seek backward past the start of the window fails rather than wrapping.
pub proof fn lemma_backward_seek_fails(len: u64, cursor: u64, pos: SeekPos)
    requires
        cursor <= len,
        match pos {
            SeekPos::Start(_) => false,
            SeekPos::Current(d) => cursor + d < 0,
            SeekPos::End(p) => len + p < 0,
        },
    ensures
        seek_target_spec(len as int, cursor as int, pos) is None,
{
}

} // verus!
