//! An in-memory virtual file with the seek/read/write semantics the
//! emulator core expects of its file abstraction.
//!
//! The file is a byte buffer and a cursor.  Seeking past the end is legal;
//! reading there yields nothing, and writing there fills the gap with
//! zeroes.  `map` hands out a copy of a leading span and `unmap` writes one
//! back, both leaving the cursor where it was.

use vstd::prelude::*;

verus! {

/// Where a seek is measured from.
#[derive(Clone, Copy, Debug, PartialEq, Eq)]
pub enum SeekFrom {
    Start(u64),
    Current(i64),
    End(i64),
}

/// The seek target would be negative or would not fit the offset type.
#[derive(Clone, Copy, Debug, PartialEq, Eq)]
pub struct SeekError;

/// The target position of a seek, or `None` when it is out of range.
pub open spec fn spec_seek_pos(len: nat, pos: u64, from: SeekFrom) -> Option<u64> {
    let target: int = match from {
        SeekFrom::Start(o) => o as int,
        SeekFrom::Current(d) => pos + d,
        SeekFrom::End(d) => len + d,
    };
    if 0 <= target <= u64::MAX {
        Some(target as u64)
    } else {
        None
    }
}

/// The buffer after writing `buf` at `at`: zero-filled up to `at` if the
/// file was shorter, `buf` overlaid, and the rest kept.
pub open spec fn spec_overlay(data: Seq<u8>, at: nat, buf: Seq<u8>) -> Seq<u8> {
    let newlen: int = if data.len() >= at + buf.len() {
        data.len() as int
    } else {
        (at + buf.len()) as int
    };
    Seq::new(
        newlen as nat,
        |i: int|
            if at <= i < at + buf.len() {
                buf[i - at]
            } else if i < data.len() {
                data[i]
            } else {
                0u8
            },
    )
}

/// An in-memory file: contents plus cursor.
pub struct VFile {
    pub data: Vec<u8>,
    pub pos: u64,
}

impl VFile {
    /// A file over the given bytes, cursor at the start.
    pub fn from_vec(v: Vec<u8>) -> (r: VFile)
        ensures
            r.data@ == v@,
            r.pos == 0,
    {
        VFile { data: v, pos: 0 }
    }

    /// The file's length in bytes.
    pub fn size(&self) -> (r: u64)
        requires
            self.data@.len() <= u64::MAX,
        ensures
            r == self.data@.len(),
    {
        self.data.len() as u64
    }

    /// Move the cursor.  Returns the new position; a target before the
    /// start of the file (or beyond the offset type) is an error and moves
    /// nothing.
    pub fn seek(&mut self, from: SeekFrom) -> (r: Result<u64, SeekError>)
        ensures
            final(self).data@ == old(self).data@,
            match spec_seek_pos(old(self).data@.len(), old(self).pos, from) {
                Some(p) => r == Ok::<u64, SeekError>(p) && final(self).pos == p,
                None => r == Err::<u64, SeekError>(SeekError) && final(self).pos == old(self).pos,
            },
    {
        let len: u64 = self.data.len() as u64;
        let target: Option<u64> = match from {
            SeekFrom::Start(o) => Some(o),
            SeekFrom::Current(d) => {
                if d >= 0 {
                    self.pos.checked_add(d as u64)
                } else {
                    let mag: u64 = ((-(d as i128)) as u64);
                    if mag > self.pos {
                        None
                    } else {
                        Some(self.pos - mag)
                    }
                }
            },
            SeekFrom::End(d) => {
                if d >= 0 {
                    len.checked_add(d as u64)
                } else {
                    let mag: u64 = ((-(d as i128)) as u64);
                    if mag > len {
                        None
                    } else {
                        Some(len - mag)
                    }
                }
            },
        };
        match target {
            Some(p) => {
                self.pos = p;
                Ok(p)
            },
            None => Err(SeekError),
        }
    }

    /// Read up to `n` bytes at the cursor: exactly the bytes between the
    /// cursor and the end of the file, at most `n` of them.  The cursor
    /// advances past what was read.
    pub fn read(&mut self, n: usize) -> (r: Vec<u8>)
        ensures
            final(self).data@ == old(self).data@,
            r@ == ({
                let start: int = if old(self).pos <= old(self).data@.len() {
                    old(self).pos as int
                } else {
                    old(self).data@.len() as int
                };
                let end: int = if start + n <= old(self).data@.len() {
                    start + n
                } else {
                    old(self).data@.len() as int
                };
                old(self).data@.subrange(start, end)
            }),
            final(self).pos == old(self).pos + r@.len(),
    {
        let len = self.data.len();
        let start: usize = if self.pos <= (len as u64) {
            self.pos as usize
        } else {
            len
        };
        let avail: usize = len - start;
        let count: usize = if n <= avail {
            n
        } else {
            avail
        };
        let mut out: Vec<u8> = Vec::new();
        let mut i: usize = 0;
        while i < count
            invariant
                len == self.data@.len(),
                start + count <= self.data@.len(),
                0 <= i <= count,
                out@ == self.data@.subrange(start as int, start + i),
            decreases count - i,
        {
            out.push(self.data[start + i]);
            i = i + 1;
            assert(out@ =~= self.data@.subrange(start as int, start + i));
        }
        proof {
            // reading never carries the cursor past u64
            assert(self.pos + out@.len() <= u64::MAX);
        }
        self.pos = self.pos + (count as u64);
        out
    }

    /// Write `buf` at the cursor, zero-filling any gap between the old end
    /// of the file and the cursor.  The cursor advances past the written
    /// bytes.
    pub fn write(&mut self, buf: &[u8]) -> (r: usize)
        requires
            old(self).pos + buf@.len() <= usize::MAX,
        ensures
            r == buf@.len(),
            final(self).data@ == spec_overlay(old(self).data@, old(self).pos as nat, buf@),
            final(self).pos == old(self).pos + buf@.len(),
    {
        let at: usize = self.pos as usize;
        let m = buf.len();
        let oldlen = self.data.len();
        let newlen: usize = if oldlen >= at + m {
            oldlen
        } else {
            at + m
        };
        let mut out: Vec<u8> = Vec::new();
        let mut i: usize = 0;
        while i < newlen
            invariant
                at == old(self).pos,
                m == buf@.len(),
                oldlen == old(self).data@.len(),
                self.data@ == old(self).data@,
                newlen == spec_overlay(old(self).data@, at as nat, buf@).len(),
                at + m <= newlen,
                0 <= i <= newlen,
                out@ == spec_overlay(old(self).data@, at as nat, buf@).subrange(0, i as int),
            decreases newlen - i,
        {
            let b: u8 = if at <= i && i < at + m {
                buf[i - at]
            } else if i < oldlen {
                self.data[i]
            } else {
                0
            };
            out.push(b);
            i = i + 1;
            assert(out@ =~= spec_overlay(old(self).data@, at as nat, buf@).subrange(0, i as int));
        }
        proof {
            assert(out@ =~= spec_overlay(old(self).data@, at as nat, buf@));
        }
        self.data = out;
        self.pos = (at + m) as u64;
        m
    }

    /// Cut the file to `size` bytes, or pad it with zeroes up to `size`.
    /// The cursor does not move.
    pub fn resize(&mut self, size: usize)
        ensures
            final(self).pos == old(self).pos,
            final(self).data@ == Seq::new(
                size as nat,
                |i: int|
                    if i < old(self).data@.len() {
                        old(self).data@[i]
                    } else {
                        0u8
                    },
            ),
    {
        let oldlen = self.data.len();
        if size <= oldlen {
            self.data.truncate(size);
            proof {
                assert(self.data@ =~= Seq::new(
                    size as nat,
                    |i: int|
                        if i < old(self).data@.len() {
                            old(self).data@[i]
                        } else {
                            0u8
                        },
                ));
            }
        } else {
            let mut i: usize = oldlen;
            while i < size
                invariant
                    oldlen <= i <= size,
                    self.pos == old(self).pos,
                    self.data@.len() == i,
                    self.data@.subrange(0, oldlen as int) == old(self).data@,
                    forall|j: int| oldlen <= j < i ==> self.data@[j] == 0u8,
                decreases size - i,
            {
                self.data.push(0);
                i = i + 1;
                proof {
                    assert(self.data@.subrange(0, oldlen as int) =~= old(self).data@);
                }
            }
            proof {
                assert(self.data@ =~= Seq::new(
                    size as nat,
                    |i: int|
                        if i < old(self).data@.len() {
                            old(self).data@[i]
                        } else {
                            0u8
                        },
                ));
            }
        }
    }

    /// A copy of the file's first `size` bytes, or `None` when the file is
    /// shorter.  The cursor does not move.
    pub fn map(&self, size: usize) -> (r: Option<Vec<u8>>)
        ensures
            match r {
                Some(buf) => size <= self.data@.len() && buf@ == self.data@.subrange(
                    0,
                    size as int,
                ),
                None => size > self.data@.len(),
            },
    {
        if size > self.data.len() {
            return None;
        }
        let mut out: Vec<u8> = Vec::new();
        let mut i: usize = 0;
        while i < size
            invariant
                size <= self.data@.len(),
                0 <= i <= size,
                out@ == self.data@.subrange(0, i as int),
            decreases size - i,
        {
            out.push(self.data[i]);
            i = i + 1;
            assert(out@ =~= self.data@.subrange(0, i as int));
        }
        Some(out)
    }

    /// Write a mapped span back to the start of the file.  The cursor does
    /// not move.
    pub fn unmap(&mut self, buf: &[u8])
        requires
            buf@.len() <= usize::MAX,
        ensures
            final(self).pos == old(self).pos,
            final(self).data@ == spec_overlay(old(self).data@, 0, buf@),
    {
        let keep = self.pos;
        self.pos = 0;
        let _ = self.write(buf);
        self.pos = keep;
    }

    /// Flush: an in-memory file has nothing to sync, so this always
    /// succeeds.
    pub fn sync(&self) -> (r: bool)
        ensures
            r == true,
    {
        true
    }

    /// Give the contents back.
    pub fn into_vec(self) -> (r: Vec<u8>)
        ensures
            r@ == self.data@,
    {
        self.data
    }
}

} // verus!
