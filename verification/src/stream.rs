//! A byte stream that is read while it is still being fetched.
//!
//! A downloader appends what it receives to a buffer that never shrinks and
//! is never rewritten. A reader with a position of its own reads from the
//! buffer and may seek in it; where it needs bytes that have not arrived, it
//! is told to wait for the downloader.

use vstd::prelude::*;
use crate::units::min_int;

verus! {

/// Bytes that the downloader asks for at a time.
pub const CHUNK_SIZE: usize = 32_768;

/// Seconds after which the downloader gives up on the server.
pub const HTTP_TIMEOUT_SECS: u64 = 30;

/// What the downloader has fetched so far, and how it fares.
#[derive(Debug)]
pub struct SharedStreamData {
    /// All bytes received, in their order.
    pub buffer: Vec<u8>,
    /// Whether the last byte has been received.
    pub is_eof: bool,
    /// Whether the download has failed.
    pub has_error: bool,
}

/// A reader of what the downloader has fetched.
#[derive(Clone, Copy, Debug, PartialEq, Eq, Structural)]
pub struct ProgressiveStream {
    /// Offset of the next byte to be read.
    pub pos: u64,
    /// Length of the whole stream as the server stated it.
    pub content_length: Option<u64>,
}

/// Where to seek to.
#[derive(Clone, Copy, Debug, PartialEq, Eq, Structural)]
pub enum SeekTarget {
    /// This offset from the start.
    Start(u64),
    /// This far from the position.
    Current(i64),
    /// This far from the end.
    End(i64),
}

/// What came of a read.
#[derive(Clone, Copy, Debug, PartialEq, Eq, Structural)]
pub enum ReadStep {
    /// This many bytes were read.
    Data(usize),
    /// The download has failed.
    Failed,
    /// The stream has ended.
    End,
    /// Nothing can be said before the downloader has got further.
    Wait,
}

/// What came of a seek.
#[derive(Clone, Copy, Debug, PartialEq, Eq, Structural)]
pub enum SeekStep {
    /// The position is now this.
    Moved(u64),
    /// Nothing can be said before the downloader has got further.
    Wait,
    /// The download failed before the end of the stream was found.
    Failed,
    /// The target lies before the start of the stream, or further out than a
    /// position can be.
    Invalid,
}

/// What the downloader has received.
#[derive(Clone, Copy, Debug)]
pub enum Received<'a> {
    /// These bytes; none when the stream has ended.
    Bytes(&'a [u8]),
    /// An error.
    Error,
}

/// What comes of a read of up to `room` bytes at offset `pos`: as many bytes
/// as are there, if any are; else failure, if the download has failed; else
/// the end, if the stream has ended; else a wait.
pub open spec fn read_outcome(
    pos: int,
    fetched: int,
    is_eof: bool,
    has_error: bool,
    room: int,
) -> ReadStep {
    if pos < fetched {
        ReadStep::Data(min_int(room, fetched - pos) as usize)
    } else if has_error {
        ReadStep::Failed
    } else if is_eof {
        ReadStep::End
    } else {
        ReadStep::Wait
    }
}

/// What comes of moving to the offset `offset`.
pub open spec fn landing(offset: int) -> SeekStep {
    if 0 <= offset <= i64::MAX {
        SeekStep::Moved(offset as u64)
    } else {
        SeekStep::Invalid
    }
}

/// What comes of a seek. A seek from the start or from the position does not
/// wait, and may go past what has been fetched. A seek from the end waits
/// until the download has ended or failed, and fails if it has failed.
pub open spec fn seek_outcome(
    pos: int,
    fetched: int,
    is_eof: bool,
    has_error: bool,
    to: SeekTarget,
) -> SeekStep {
    match to {
        SeekTarget::Start(offset) => landing(offset as int),
        SeekTarget::Current(delta) => landing(pos + delta),
        SeekTarget::End(delta) => if !is_eof && !has_error {
            SeekStep::Wait
        } else if has_error {
            SeekStep::Failed
        } else {
            landing(fetched + delta)
        },
    }
}

impl SharedStreamData {
    /// Nothing fetched yet.
    pub fn new() -> (s: Self)
        ensures
            s.buffer@ == Seq::<u8>::empty(),
            !s.is_eof,
            !s.has_error,
    {
        SharedStreamData { buffer: Vec::new(), is_eof: false, has_error: false }
    }

    /// Takes note of what the downloader has received, and says whether it
    /// goes on. Bytes are appended; no bytes mean the end of the stream; an
    /// error means the download has failed. What was fetched before stays as
    /// it is in every case.
    pub fn record(&mut self, received: Received<'_>) -> (go_on: bool)
        ensures
            match received {
                Received::Bytes(chunk) => {
                    &&& final(self).buffer@ == old(self).buffer@ + chunk@
                    &&& final(self).is_eof == (old(self).is_eof || chunk@.len() == 0)
                    &&& final(self).has_error == old(self).has_error
                    &&& go_on == (chunk@.len() > 0)
                },
                Received::Error => {
                    &&& final(self).buffer@ == old(self).buffer@
                    &&& final(self).is_eof == old(self).is_eof
                    &&& final(self).has_error
                    &&& !go_on
                },
            },
            final(self).buffer@.len() >= old(self).buffer@.len(),
            final(self).buffer@.take(old(self).buffer@.len() as int) == old(self).buffer@,
    {
        match received {
            Received::Bytes(chunk) => {
                if chunk.len() == 0 {
                    self.is_eof = true;
                    false
                } else {
                    self.buffer.extend_from_slice(chunk);
                    assert(self.buffer@.take(old(self).buffer@.len() as int) =~= old(
                        self,
                    ).buffer@);
                    true
                }
            },
            Received::Error => {
                self.has_error = true;
                false
            },
        }
    }
}

impl ProgressiveStream {
    /// A reader at the start of a stream of the stated length.
    pub fn new(content_length: Option<u64>) -> (s: Self)
        ensures
            s == (ProgressiveStream { pos: 0, content_length }),
    {
        ProgressiveStream { pos: 0, content_length }
    }

    /// Reads into the front of `buf` what has been fetched from the position
    /// on, as much as fits, and moves the position past it. Without such
    /// bytes nothing is read: the download has failed, or the stream has
    /// ended, or the reader has to wait and ask again.
    pub fn read(&mut self, shared: &SharedStreamData, buf: &mut [u8]) -> (r: ReadStep)
        ensures
            r == read_outcome(
                old(self).pos as int,
                shared.buffer@.len() as int,
                shared.is_eof,
                shared.has_error,
                old(buf)@.len() as int,
            ),
            final(self).content_length == old(self).content_length,
            final(buf)@.len() == old(buf)@.len(),
            match r {
                ReadStep::Data(n) => {
                    &&& final(self).pos == old(self).pos + n
                    &&& final(buf)@ == shared.buffer@.subrange(
                        old(self).pos as int,
                        old(self).pos + n,
                    ) + old(buf)@.skip(n as int)
                },
                _ => final(self).pos == old(self).pos && final(buf)@ == old(buf)@,
            },
    {
        let fetched: usize = shared.buffer.len();
        if self.pos < fetched as u64 {
            let from: usize = self.pos as usize;
            let there: usize = fetched - from;
            let n: usize = if buf.len() < there {
                buf.len()
            } else {
                there
            };
            let mut k: usize = 0;
            while k < n
                invariant
                    k <= n,
                    from + n <= fetched,
                    fetched == shared.buffer@.len(),
                    n <= buf@.len(),
                    buf@.len() == old(buf)@.len(),
                    buf@ == shared.buffer@.subrange(from as int, from + k) + old(buf)@.skip(
                        k as int,
                    ),
                decreases n - k,
            {
                let ghost before = buf@;
                buf[k] = shared.buffer[from + k];
                assert(buf@ =~= shared.buffer@.subrange(from as int, from + k + 1) + old(
                    buf,
                )@.skip(k + 1));
                k += 1;
            }
            self.pos = self.pos + n as u64;
            ReadStep::Data(n)
        } else if shared.has_error {
            ReadStep::Failed
        } else if shared.is_eof {
            ReadStep::End
        } else {
            ReadStep::Wait
        }
    }

    /// Moves the position. A target before the start of the stream is
    /// refused, and so is one further out than a position can be. A seek
    /// from the end cannot be answered while the download goes on: the
    /// reader has to wait and ask again.
    pub fn seek(&mut self, shared: &SharedStreamData, to: SeekTarget) -> (r: SeekStep)
        ensures
            r == seek_outcome(
                old(self).pos as int,
                shared.buffer@.len() as int,
                shared.is_eof,
                shared.has_error,
                to,
            ),
            final(self).content_length == old(self).content_length,
            match r {
                SeekStep::Moved(p) => final(self).pos == p,
                _ => final(self).pos == old(self).pos,
            },
    {
        let wanted: i128 = match to {
            SeekTarget::Start(offset) => offset as i128,
            SeekTarget::Current(delta) => self.pos as i128 + delta as i128,
            SeekTarget::End(delta) => {
                if !shared.is_eof && !shared.has_error {
                    return SeekStep::Wait;
                }
                if shared.has_error {
                    return SeekStep::Failed;
                }
                shared.buffer.len() as i128 + delta as i128
            },
        };
        if wanted < 0 || wanted > i64::MAX as i128 {
            return SeekStep::Invalid;
        }
        self.pos = wanted as u64;
        SeekStep::Moved(self.pos)
    }

    /// Whether the stream can seek: it always can.
    pub fn is_seekable(&self) -> (r: bool)
        ensures
            r,
    {
        true
    }

    /// Length of the whole stream, if the server stated it.
    pub fn byte_len(&self) -> (r: Option<u64>)
        ensures
            r == self.content_length,
    {
        self.content_length
    }
}

/// A read at the end of what has been fetched waits while the download goes
/// on, and a read at a position past it waits too: only a download that has
/// ended ends the stream there.
pub proof fn law_read_waits(pos: int, fetched: int, is_eof: bool, has_error: bool, room: int)
    requires
        pos >= fetched,
    ensures
        read_outcome(pos, fetched, is_eof, has_error, room) is End <==> is_eof && !has_error,
        read_outcome(pos, fetched, is_eof, has_error, room) is Wait <==> !is_eof && !has_error,
        read_outcome(pos, fetched, is_eof, has_error, room) is Failed <==> has_error,
{
}

} // verus!
