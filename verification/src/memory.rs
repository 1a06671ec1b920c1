//! A snapshot of the readable memory of a process: the bytes of its mapped
//! segments, each at its address.

use crate::bytes::{name_at, name_slice};
use crate::unixy::{ElfClass, Target};
use vstd::prelude::*;
use vstd::slice::slice_subrange;

verus! {

/// A run of bytes that starts at an address.
pub struct Segment {
    pub start: u64,
    pub bytes: Vec<u8>,
}

impl Segment {
    /// Whether the `len` bytes from `addr` on all lie in the segment.
    pub open spec fn covers(&self, addr: int, len: int) -> bool {
        self.start <= addr && addr + len <= self.start + self.bytes@.len()
    }

    /// The `len` bytes from `addr` on.
    pub open spec fn slice(&self, addr: int, len: int) -> Seq<u8> {
        self.bytes@.subrange(addr - self.start, addr - self.start + len)
    }
}

/// The memory of a process, as far as it was copied, with the word width and
/// the machine that its records are read by. Where segments overlap, the one
/// that comes first is read.
pub struct ProcessMemory {
    pub target: Target,
    pub segments: Vec<Segment>,
}

impl ProcessMemory {
    /// The first segment at or after `from` that holds all `len` bytes from
    /// `addr` on.
    pub open spec fn locate_from(&self, from: int, addr: int, len: int) -> Option<int>
        decreases self.segments@.len() - from,
    {
        if from < 0 || from >= self.segments@.len() {
            None
        } else if self.segments@[from].covers(addr, len) {
            Some(from)
        } else {
            self.locate_from(from + 1, addr, len)
        }
    }

    /// Whether the `len` bytes from `addr` on can be read: none are asked for,
    /// or one segment holds them all.
    pub open spec fn readable(&self, addr: int, len: int) -> bool {
        len == 0 || (len > 0 && self.locate_from(0, addr, len) is Some)
    }

    /// The `len` bytes from `addr` on, where they can be read.
    pub open spec fn bytes_at(&self, addr: int, len: int) -> Seq<u8> {
        if len > 0 && self.locate_from(0, addr, len) is Some {
            self.segments@[self.locate_from(0, addr, len).unwrap()].slice(addr, len)
        } else {
            Seq::empty()
        }
    }

    /// The bytes from `addr` to the end of the segment that holds it.
    pub open spec fn tail_at(&self, addr: int) -> Seq<u8> {
        let i = self.locate_from(0, addr, 1).unwrap();
        self.segments@[i].bytes@.subrange(
            addr - self.segments@[i].start,
            self.segments@[i].bytes@.len() as int,
        )
    }

    /// The NUL-terminated string that starts at `addr`, without its NUL. It
    /// ends at the end of the segment where no NUL comes before.
    pub open spec fn c_string_at(&self, addr: int) -> Option<Seq<u8>> {
        if self.readable(addr, 1) {
            Some(name_at(self.tail_at(addr), 0))
        } else {
            None
        }
    }

    /// What `locate_from` finds is the first segment that holds the bytes.
    pub proof fn lemma_locate(&self, from: int, addr: int, len: int)
        requires
            0 <= from,
        ensures
            match self.locate_from(from, addr, len) {
                Some(i) => from <= i < self.segments@.len() && self.segments@[i].covers(addr, len)
                    && forall|j: int| from <= j < i ==> !self.segments@[j].covers(addr, len),
                None => forall|j: int|
                    from <= j < self.segments@.len() ==> !self.segments@[j].covers(addr, len),
            },
        decreases self.segments@.len() - from,
    {
        if from < self.segments@.len() && !self.segments@[from].covers(addr, len) {
            self.lemma_locate(from + 1, addr, len);
        }
    }

    /// Bytes that can be read are as many as were asked for.
    pub proof fn lemma_bytes_len(&self, addr: int, len: int)
        requires
            0 <= len,
            self.readable(addr, len),
        ensures
            self.bytes_at(addr, len).len() == len,
    {
        if len > 0 {
            self.lemma_locate(0, addr, len);
        }
    }

    /// The word width of the process.
    pub fn class(&self) -> (r: ElfClass)
        ensures
            r == self.target.class,
    {
        self.target.class
    }

    /// The index of the first segment that holds the `len` bytes from `addr` on.
    fn locate(&self, addr: u64, len: u64) -> (r: Option<usize>)
        ensures
            match r {
                Some(i) => self.locate_from(0, addr as int, len as int) == Some(i as int)
                    && i < self.segments@.len() && self.segments@[i as int].covers(
                    addr as int,
                    len as int,
                ),
                None => self.locate_from(0, addr as int, len as int) is None,
            },
    {
        let mut i: usize = 0;
        while i < self.segments.len()
            invariant
                i <= self.segments@.len(),
                self.locate_from(0, addr as int, len as int) == self.locate_from(
                    i as int,
                    addr as int,
                    len as int,
                ),
            decreases self.segments@.len() - i,
        {
            let seg = &self.segments[i];
            if seg.start <= addr && (addr - seg.start) as u128 + len as u128 <= seg.bytes.len() as u128 {
                return Some(i);
            }
            i = i + 1;
        }
        None
    }

    /// Reads `len` bytes from `addr` on.
    pub fn read(&self, addr: u64, len: u64) -> (r: Option<&[u8]>)
        ensures
            r is Some == self.readable(addr as int, len as int),
            r matches Some(s) ==> s@ == self.bytes_at(addr as int, len as int),
    {
        if len == 0 {
            let empty: &[u8] = &[];
            assert(empty@ =~= Seq::<u8>::empty());
            return Some(empty);
        }
        match self.locate(addr, len) {
            None => None,
            Some(i) => {
                let seg = &self.segments[i];
                let n: usize = seg.bytes.len();
                assert(addr - seg.start + len <= n);
                let off: usize = (addr - seg.start) as usize;
                Some(slice_subrange(seg.bytes.as_slice(), off, off + len as usize))
            },
        }
    }

    /// Reads the NUL-terminated string that starts at `addr`.
    pub fn read_c_string(&self, addr: u64) -> (r: Option<&[u8]>)
        ensures
            r is Some == self.readable(addr as int, 1),
            match r {
                Some(s) => self.c_string_at(addr as int) == Some(s@),
                None => self.c_string_at(addr as int) is None,
            },
    {
        match self.locate(addr, 1) {
            None => None,
            Some(i) => {
                let seg = &self.segments[i];
                let n: usize = seg.bytes.len();
                assert(addr - seg.start + 1 <= n);
                let off: usize = (addr - seg.start) as usize;
                let tail = slice_subrange(seg.bytes.as_slice(), off, n);
                Some(name_slice(tail, 0))
            },
        }
    }
}

} // verus!
