//! A snapshot of the host module's memory and bounds-checked reads over it.
//!
//! All multi-byte scalars in the host are little-endian. A read returns
//! `None` instead of faulting when any part of the requested range lies
//! outside the snapshot.

use vstd::prelude::*;

verus! {

/// The bytes of the host module, starting at its load address `base`.
pub struct ForeignMemory {
    /// Load address of the first byte of `bytes`.
    pub base: usize,
    /// The observable bytes of the module.
    pub bytes: Vec<u8>,
}

impl ForeignMemory {
    /// The snapshot spans a real address range: it does not wrap around
    /// the top of the address space.
    pub open spec fn wf(self) -> bool {
        self.base + self.bytes@.len() <= usize::MAX
    }

    /// The `n` bytes starting at address `a` all lie inside the snapshot.
    pub open spec fn readable(self, a: int, n: int) -> bool {
        self.base <= a && a + n <= self.base + self.bytes@.len()
    }

    /// The `n` bytes of the snapshot starting at address `a`.
    pub open spec fn bytes_at(self, a: int, n: int) -> Seq<u8> {
        self.bytes@.subrange(a - self.base, a - self.base + n)
    }
}

/// Value of a two-byte little-endian scalar.
pub open spec fn le16(s: Seq<u8>) -> int
    recommends
        s.len() == 2,
{
    s[0] + 0x100 * s[1]
}

/// Value of a four-byte little-endian scalar.
pub open spec fn le32(s: Seq<u8>) -> int
    recommends
        s.len() == 4,
{
    s[0] + 0x100 * s[1] + 0x1_0000 * s[2] + 0x100_0000 * s[3]
}

/// Value of an eight-byte little-endian scalar.
pub open spec fn le64(s: Seq<u8>) -> int
    recommends
        s.len() == 8,
{
    s[0] + 0x100 * s[1] + 0x1_0000 * s[2] + 0x100_0000 * s[3] + 0x1_0000_0000 * s[4]
        + 0x100_0000_0000 * s[5] + 0x1_0000_0000_0000 * s[6] + 0x100_0000_0000_0000 * s[7]
}

impl ForeignMemory {
    /// Offset of address `a` within the snapshot, when `n` bytes starting
    /// there are all present.
    fn span(&self, a: usize, n: usize) -> (r: Option<usize>)
        requires
            self.wf(),
        ensures
            r is Some <==> self.readable(a as int, n as int),
            r is Some ==> r->Some_0 == a - self.base,
    {
        if a >= self.base {
            let off = a - self.base;
            if off <= self.bytes.len() && n <= self.bytes.len() - off {
                Some(off)
            } else {
                None
            }
        } else {
            None
        }
    }

    /// Whether this snapshot is well-formed: the one thing a caller must
    /// establish before handing it to the readers.
    pub fn wf_check(&self) -> (r: bool)
        ensures
            r == self.wf(),
    {
        self.base.checked_add(self.bytes.len()).is_some()
    }

    /// Whether the `n` bytes starting at address `a` are all present.
    pub fn window_readable(&self, a: usize, n: usize) -> (r: bool)
        requires
            self.wf(),
        ensures
            r <==> self.readable(a as int, n as int),
    {
        self.span(a, n).is_some()
    }

    /// Read one byte at address `a`.
    pub fn read_u8(&self, a: usize) -> (r: Option<u8>)
        requires
            self.wf(),
        ensures
            r is Some <==> self.readable(a as int, 1),
            r is Some ==> r->Some_0 == self.bytes_at(a as int, 1)[0],
    {
        match self.span(a, 1) {
            Some(off) => Some(self.bytes[off]),
            None => None,
        }
    }

    /// Read a little-endian `u16` at address `a`.
    pub fn read_u16(&self, a: usize) -> (r: Option<u16>)
        requires
            self.wf(),
        ensures
            r is Some <==> self.readable(a as int, 2),
            r is Some ==> r->Some_0 == le16(self.bytes_at(a as int, 2)),
    {
        match self.span(a, 2) {
            Some(off) => {
                let v: u16 = self.bytes[off] as u16 + 0x100 * (self.bytes[off + 1] as u16);
                proof {
                    let s = self.bytes_at(a as int, 2);
                    assert(s[0] == self.bytes@[off as int]);
                    assert(s[1] == self.bytes@[off + 1]);
                }
                Some(v)
            },
            None => None,
        }
    }

    /// Read a little-endian `u32` at address `a`.
    pub fn read_u32(&self, a: usize) -> (r: Option<u32>)
        requires
            self.wf(),
        ensures
            r is Some <==> self.readable(a as int, 4),
            r is Some ==> r->Some_0 == le32(self.bytes_at(a as int, 4)),
    {
        match self.span(a, 4) {
            Some(off) => {
                let v: u32 = self.bytes[off] as u32 + 0x100 * (self.bytes[off + 1] as u32)
                    + 0x1_0000 * (self.bytes[off + 2] as u32)
                    + 0x100_0000 * (self.bytes[off + 3] as u32);
                proof {
                    let s = self.bytes_at(a as int, 4);
                    assert(s[0] == self.bytes@[off as int]);
                    assert(s[1] == self.bytes@[off + 1]);
                    assert(s[2] == self.bytes@[off + 2]);
                    assert(s[3] == self.bytes@[off + 3]);
                }
                Some(v)
            },
            None => None,
        }
    }

    /// Read a little-endian `u64` at address `a`.
    pub fn read_u64(&self, a: usize) -> (r: Option<u64>)
        requires
            self.wf(),
        ensures
            r is Some <==> self.readable(a as int, 8),
            r is Some ==> r->Some_0 == le64(self.bytes_at(a as int, 8)),
    {
        match self.span(a, 8) {
            Some(off) => {
                let v: u64 = self.bytes[off] as u64 + 0x100 * (self.bytes[off + 1] as u64)
                    + 0x1_0000 * (self.bytes[off + 2] as u64)
                    + 0x100_0000 * (self.bytes[off + 3] as u64)
                    + 0x1_0000_0000 * (self.bytes[off + 4] as u64)
                    + 0x100_0000_0000 * (self.bytes[off + 5] as u64)
                    + 0x1_0000_0000_0000 * (self.bytes[off + 6] as u64)
                    + 0x100_0000_0000_0000 * (self.bytes[off + 7] as u64);
                proof {
                    let s = self.bytes_at(a as int, 8);
                    assert forall|i: int| 0 <= i < 8 implies s[i] == self.bytes@[off + i] by {}
                }
                Some(v)
            },
            None => None,
        }
    }

    /// Read a foreign pointer (a 32-bit little-endian address) at address `a`.
    pub fn read_ptr(&self, a: usize) -> (r: Option<usize>)
        requires
            self.wf(),
        ensures
            r is Some <==> self.readable(a as int, 4),
            r is Some ==> r->Some_0 == le32(self.bytes_at(a as int, 4)),
    {
        match self.read_u32(a) {
            Some(v) => Some(v as usize),
            None => None,
        }
    }
}

/// The pointer stored at address `a`, or 0 when the pointer cell itself is
/// not readable. The host encodes a missing object and an unreadable cell
/// the same way: there is nothing to look at.
pub open spec fn ptr_or_null(mem: ForeignMemory, a: int) -> int {
    if mem.readable(a, 4) {
        le32(mem.bytes_at(a, 4))
    } else {
        0
    }
}

impl ForeignMemory {
    /// Read the pointer stored at address `a`, folding an unreadable cell
    /// into a null pointer.
    pub fn read_ptr_or_null(&self, a: usize) -> (r: usize)
        requires
            self.wf(),
        ensures
            r == ptr_or_null(*self, a as int),
    {
        match self.read_ptr(a) {
            Some(p) => p,
            None => 0,
        }
    }

    /// Read the pointer stored `off` bytes into the object at `obj`,
    /// folding an unreadable or wrapped-around cell into null.
    pub fn field_ptr(&self, obj: usize, off: usize) -> (r: usize)
        requires
            self.wf(),
        ensures
            r == ptr_or_null(*self, obj + off),
    {
        match obj.checked_add(off) {
            Some(a) => self.read_ptr_or_null(a),
            None => {
                proof {
                    assert(!self.readable(obj + off, 4));
                }
                0
            },
        }
    }

    /// Read the `u8` field `off` bytes into the object at `obj`.
    pub fn field_u8(&self, obj: usize, off: usize) -> (r: Option<u8>)
        requires
            self.wf(),
        ensures
            r is Some <==> self.readable(obj + off, 1),
            r is Some ==> r->Some_0 == self.bytes_at(obj + off, 1)[0],
    {
        match obj.checked_add(off) {
            Some(a) => self.read_u8(a),
            None => {
                proof {
                    assert(!self.readable(obj + off, 1));
                }
                None
            },
        }
    }

    /// Read the little-endian `u16` field `off` bytes into the object at `obj`.
    pub fn field_u16(&self, obj: usize, off: usize) -> (r: Option<u16>)
        requires
            self.wf(),
        ensures
            r is Some <==> self.readable(obj + off, 2),
            r is Some ==> r->Some_0 == le16(self.bytes_at(obj + off, 2)),
    {
        match obj.checked_add(off) {
            Some(a) => self.read_u16(a),
            None => {
                proof {
                    assert(!self.readable(obj + off, 2));
                }
                None
            },
        }
    }

    /// Read the little-endian `u32` field `off` bytes into the object at `obj`.
    pub fn field_u32(&self, obj: usize, off: usize) -> (r: Option<u32>)
        requires
            self.wf(),
        ensures
            r is Some <==> self.readable(obj + off, 4),
            r is Some ==> r->Some_0 == le32(self.bytes_at(obj + off, 4)),
    {
        match obj.checked_add(off) {
            Some(a) => self.read_u32(a),
            None => {
                proof {
                    assert(!self.readable(obj + off, 4));
                }
                None
            },
        }
    }

    /// Read the little-endian `u64` field `off` bytes into the object at `obj`.
    pub fn field_u64(&self, obj: usize, off: usize) -> (r: Option<u64>)
        requires
            self.wf(),
        ensures
            r is Some <==> self.readable(obj + off, 8),
            r is Some ==> r->Some_0 == le64(self.bytes_at(obj + off, 8)),
    {
        match obj.checked_add(off) {
            Some(a) => self.read_u64(a),
            None => {
                proof {
                    assert(!self.readable(obj + off, 8));
                }
                None
            },
        }
    }
}

} // verus!
