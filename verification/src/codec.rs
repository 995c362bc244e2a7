//! The byte-stream reader and writer that every record of the protocol is
//! decoded with and encoded with, and the protocol's two string forms: the
//! length-prefixed string and the fixed-width, NUL-terminated UTF-16LE slot.
use vstd::prelude::*;

use crate::text::{
    has_no_nul, lemma_until_nul_at, lemma_utf16_no_nul, lemma_utf16_roundtrip,
    string_from_utf16_lossy, until_nul, utf16_encode, utf16_lossy, utf16_units,
};
use crate::wire::{
    get_u16_le, get_u32_le, get_u64_le, le_u16, le_u32, le_u64, push_bytes, push_u32_le, push_u64_le,
    lemma_u32_roundtrip, lemma_u64_roundtrip, u32_le_bytes, u64_le_bytes,
};

verus! {

/// The `count` UTF-16 units stored little-endian from `b[off]` on.
pub open spec fn units_at(b: Seq<u8>, off: int, count: int) -> Seq<u16> {
    Seq::new(count as nat, |k: int| le_u16(b, off + 2 * k) as u16)
}

/// The text of the fixed-width slot of `width` bytes at `b[off]`: its UTF-16
/// units up to the first NUL, decoded lossily.
pub open spec fn slot_text(b: Seq<u8>, off: int, width: int) -> Seq<char> {
    utf16_lossy(until_nul(units_at(b, off, width / 2)))
}

/// The text that starts at `b[off]` and runs to the first NUL unit or to the
/// end of `b` (empty when `off` is past the end).
pub open spec fn text_from(b: Seq<u8>, off: int) -> Seq<char> {
    if off < b.len() {
        utf16_lossy(until_nul(units_at(b, off, (b.len() - off) / 2)))
    } else {
        Seq::empty()
    }
}

/// The little-endian bytes of a sequence of UTF-16 units.
pub open spec fn units_le_bytes(u: Seq<u16>) -> Seq<u8> {
    Seq::new(
        (2 * u.len()) as nat,
        |k: int|
            if k % 2 == 0 {
                (u[k / 2] % 256) as u8
            } else {
                (u[k / 2] / 256) as u8
            },
    )
}

/// A length-prefixed protocol string: the number of UTF-16 units as a 32-bit
/// little-endian value, then the units little-endian.
pub open spec fn string_bytes(s: Seq<char>) -> Seq<u8> {
    let u = utf16_encode(s);
    u32_le_bytes((u.len() as u32) as int) + units_le_bytes(u)
}

/// How many units of `u` a slot of `width` bytes keeps: all but room for the
/// terminating NUL.
pub open spec fn slot_keep(u: Seq<u16>, width: int) -> int {
    if u.len() < width / 2 - 1 {
        u.len() as int
    } else {
        width / 2 - 1
    }
}

/// A fixed-width slot of `width` bytes holding the first `slot_keep` units of
/// `u` little-endian, padded with zero bytes.
pub open spec fn slot_image(u: Seq<u16>, width: int) -> Seq<u8> {
    Seq::new(
        width as nat,
        |k: int|
            if k / 2 < slot_keep(u, width) {
                if k % 2 == 0 {
                    (u[k / 2] % 256) as u8
                } else {
                    (u[k / 2] / 256) as u8
                }
            } else {
                0u8
            },
    )
}

/// A cursor that reads little-endian values from a byte slice. A read past
/// the end sets a sticky error flag and yields zero; every later read then
/// fails too.
pub struct Reader<'a> {
    data: &'a [u8],
    pos: usize,
    error: bool,
}

impl<'a> Reader<'a> {
    #[verifier::type_invariant]
    spec fn inv(self) -> bool {
        self.pos <= self.data@.len()
    }

    /// The bytes being read.
    pub closed spec fn bytes(&self) -> Seq<u8> {
        self.data@
    }

    /// The offset of the next read.
    pub closed spec fn position(&self) -> int {
        self.pos as int
    }

    /// Whether a read has run past the end.
    pub closed spec fn failed(&self) -> bool {
        self.error
    }

    /// Whether `n` more bytes can be read.
    pub open spec fn can_read(&self, n: int) -> bool {
        !self.failed() && self.position() + n <= self.bytes().len()
    }

    /// The state after reading `n` bytes: still readable, `n` bytes further on.
    pub open spec fn advanced(&self, old_reader: &Reader, n: int) -> bool {
        &&& self.bytes() == old_reader.bytes()
        &&& self.position() == old_reader.position() + n
        &&& !self.failed()
    }

    /// The state after a read past the end: failed, position unchanged.
    pub open spec fn stalled(&self, old_reader: &Reader) -> bool {
        &&& self.bytes() == old_reader.bytes()
        &&& self.position() == old_reader.position()
        &&& self.failed()
    }

    /// A reader at the start of `data`.
    pub fn new(data: &'a [u8]) -> (r: Self)
        ensures
            r.bytes() == data@,
            r.position() == 0,
            !r.failed(),
    {
        Reader { data, pos: 0, error: false }
    }

    /// Whether a read has run past the end.
    pub fn has_error(&self) -> (b: bool)
        ensures
            b == self.failed(),
    {
        self.error
    }

    /// How many bytes are left after the position.
    pub fn remaining(&self) -> (n: usize)
        ensures
            n == self.bytes().len() - self.position(),
    {
        proof {
            use_type_invariant(self);
        }
        self.data.len() - self.pos
    }

    /// Reads a little-endian `i64`.
    pub fn read_i64(&mut self) -> (v: i64)
        ensures
            old(self).can_read(8) ==> final(self).advanced(old(self), 8) && v == le_u64(
                old(self).bytes(),
                old(self).position(),
            ) as i64,
            !old(self).can_read(8) ==> final(self).stalled(old(self)) && v == 0,
    {
        let u = self.read_u64();
        u as i64
    }

    /// Reads a little-endian `u64`.
    pub fn read_u64(&mut self) -> (v: u64)
        ensures
            old(self).can_read(8) ==> final(self).advanced(old(self), 8) && v == le_u64(
                old(self).bytes(),
                old(self).position(),
            ),
            !old(self).can_read(8) ==> final(self).stalled(old(self)) && v == 0,
    {
        proof {
            use_type_invariant(&*self);
        }
        if self.error || self.data.len() - self.pos < 8 {
            self.error = true;
            return 0;
        }
        let v = get_u64_le(self.data, self.pos);
        self.pos = self.pos + 8;
        v
    }

    /// Reads a little-endian `i32`.
    pub fn read_i32(&mut self) -> (v: i32)
        ensures
            old(self).can_read(4) ==> final(self).advanced(old(self), 4) && v == le_u32(
                old(self).bytes(),
                old(self).position(),
            ) as i32,
            !old(self).can_read(4) ==> final(self).stalled(old(self)) && v == 0,
    {
        let u = self.read_u32();
        u as i32
    }

    /// Reads a little-endian `u32`.
    pub fn read_u32(&mut self) -> (v: u32)
        ensures
            old(self).can_read(4) ==> final(self).advanced(old(self), 4) && v == le_u32(
                old(self).bytes(),
                old(self).position(),
            ),
            !old(self).can_read(4) ==> final(self).stalled(old(self)) && v == 0,
    {
        proof {
            use_type_invariant(&*self);
        }
        if self.error || self.data.len() - self.pos < 4 {
            self.error = true;
            return 0;
        }
        let v = get_u32_le(self.data, self.pos);
        self.pos = self.pos + 4;
        v
    }

    /// Reads a one-byte flag: any non-zero byte is `true`.
    pub fn read_bool1(&mut self) -> (v: bool)
        ensures
            old(self).can_read(1) ==> final(self).advanced(old(self), 1) && v == (old(
                self,
            ).bytes()[old(self).position()] != 0),
            !old(self).can_read(1) ==> final(self).stalled(old(self)) && !v,
    {
        proof {
            use_type_invariant(&*self);
        }
        if self.error || self.data.len() - self.pos < 1 {
            self.error = true;
            return false;
        }
        let b = self.data[self.pos];
        self.pos = self.pos + 1;
        b != 0
    }

    /// Reads a fixed-width UTF-16LE slot of `slot_bytes` bytes: the text is
    /// the slot's units up to the first NUL; the position moves past the
    /// whole slot.
    pub fn read_fixed_string(&mut self, slot_bytes: usize) -> (s: String)
        ensures
            old(self).can_read(slot_bytes as int) ==> final(self).advanced(
                old(self),
                slot_bytes as int,
            ) && s@ == slot_text(old(self).bytes(), old(self).position(), slot_bytes as int),
            !old(self).can_read(slot_bytes as int) ==> final(self).stalled(old(self))
                && s@ == Seq::<char>::empty(),
    {
        proof {
            use_type_invariant(&*self);
        }
        if self.error || self.data.len() - self.pos < slot_bytes {
            self.error = true;
            return String::new();
        }
        let s = units_text(self.data, self.pos, slot_bytes / 2);
        self.pos = self.pos + slot_bytes;
        s
    }
}

/// A 32-bit value written by the [`Writer`] is read back by the [`Reader`]
/// at the same offset.
pub proof fn law_u32_reads_back(pre: Seq<u8>, v: u32)
    ensures
        le_u32(pre + u32_le_bytes(v as int), pre.len() as int) == v,
{
    lemma_u32_roundtrip(v as int);
    let b = pre + u32_le_bytes(v as int);
    assert(le_u32(b, pre.len() as int) == le_u32(u32_le_bytes(v as int), 0));
}

/// A 64-bit value written by the [`Writer`] is read back by the [`Reader`]
/// at the same offset.
pub proof fn law_u64_reads_back(pre: Seq<u8>, v: u64)
    ensures
        le_u64(pre + u64_le_bytes(v as int), pre.len() as int) == v,
{
    lemma_u64_roundtrip(v as int);
    let b = pre + u64_le_bytes(v as int);
    let n = pre.len() as int;
    assert(le_u32(b, n) == le_u32(u64_le_bytes(v as int), 0));
    assert(le_u32(b, n + 4) == le_u32(u64_le_bytes(v as int), 4));
}

/// A signed 64-bit value written by [`Writer::write_i64`] is read back by
/// [`Reader::read_i64`] at the same offset.
pub proof fn law_i64_reads_back(pre: Seq<u8>, v: i64)
    ensures
        le_u64(pre + u64_le_bytes((v as u64) as int), pre.len() as int) as i64 == v,
{
    law_u64_reads_back(pre, v as u64);
    assert(((v as u64) as i64) == v) by (bit_vector);
}

/// The units stored in a slot are the units written into it.
pub(crate) proof fn lemma_slot_units(pre: Seq<u8>, u: Seq<u16>, width: int, k: int)
    requires
        width > 0,
        width % 2 == 0,
        u.len() < width / 2,
        0 <= k < width / 2,
    ensures
        units_at(pre + slot_image(u, width), pre.len() as int, width / 2)[k] == (if k < u.len() {
            u[k]
        } else {
            0u16
        }),
{
    let b = pre + slot_image(u, width);
    let img = slot_image(u, width);
    let n = pre.len() as int;
    assert(slot_keep(u, width) == u.len());
    assert(b[n + 2 * k] == img[2 * k]);
    assert(b[n + 2 * k + 1] == img[2 * k + 1]);
    assert((2 * k) / 2 == k && (2 * k) % 2 == 0);
    assert((2 * k + 1) / 2 == k && (2 * k + 1) % 2 == 1);
    if k < u.len() {
        assert(u[k] % 256 + 256 * (u[k] / 256) == u[k]);
    }
}

/// A string of fewer UTF-16 units than the slot holds, and without NUL, is
/// read back from its fixed-width slot unchanged: [`Reader::read_fixed_string`]
/// undoes [`Writer::write_fixed_string`].
pub proof fn law_fixed_string_reads_back(pre: Seq<u8>, s: Seq<char>, width: int)
    requires
        width > 0,
        width % 2 == 0,
        has_no_nul(s),
        utf16_encode(s).len() < width / 2,
    ensures
        slot_text(pre + slot_image(utf16_encode(s), width), pre.len() as int, width) == s,
{
    let u = utf16_encode(s);
    let b = pre + slot_image(u, width);
    let all = units_at(b, pre.len() as int, width / 2);
    lemma_utf16_no_nul(s);
    assert forall|j: int| 0 <= j < u.len() implies all[j] != 0 && all[j] == u[j] by {
        lemma_slot_units(pre, u, width, j);
    }
    lemma_slot_units(pre, u, width, u.len() as int);
    lemma_until_nul_at(all, u.len() as int);
    assert(all.take(u.len() as int) =~= u);
    lemma_utf16_roundtrip(s);
}

/// Decodes the `count` UTF-16 units stored from `data[start]` on, up to the
/// first NUL.
pub(crate) fn units_text(data: &[u8], start: usize, count: usize) -> (s: String)
    requires
        start + 2 * count <= data@.len(),
    ensures
        s@ == utf16_lossy(until_nul(units_at(data@, start as int, count as int))),
{
    let ghost all = units_at(data@, start as int, count as int);
    let mut units: Vec<u16> = Vec::new();
    let len = data.len();
    let mut k: usize = 0;
    while k < count
        invariant
            k <= count,
            len == data@.len(),
            start + 2 * count <= len,
            all == units_at(data@, start as int, count as int),
            units@ == all.take(k as int),
            forall|j: int| 0 <= j < k ==> all[j] != 0,
        ensures
            k == count || all[k as int] == 0,
        decreases count - k,
    {
        let c = get_u16_le(data, start + 2 * k);
        if c == 0 {
            break;
        }
        units.push(c);
        k = k + 1;
        assert(units@ =~= all.take(k as int));
    }
    proof {
        lemma_until_nul_at(all, k as int);
    }
    string_from_utf16_lossy(units.as_slice())
}

/// Reads the text that starts at byte `offset` of `data` and runs to the first
/// NUL unit or to the end of the data; past the end it is empty.
pub fn read_string_at_offset(data: &[u8], offset: usize) -> (s: String)
    ensures
        s@ == text_from(data@, offset as int),
{
    if offset >= data.len() {
        return String::new();
    }
    units_text(data, offset, (data.len() - offset) / 2)
}

/// A growing byte buffer that values are appended to little-endian, the
/// mirror of [`Reader`].
pub struct Writer {
    data: Vec<u8>,
}

impl Writer {
    /// The bytes written so far.
    pub closed spec fn bytes(&self) -> Seq<u8> {
        self.data@
    }

    /// An empty writer.
    pub fn new() -> (w: Self)
        ensures
            w.bytes() == Seq::<u8>::empty(),
    {
        Writer { data: Vec::new() }
    }

    /// Appends a little-endian `u32`.
    pub fn write_u32(&mut self, v: u32)
        ensures
            final(self).bytes() == old(self).bytes() + u32_le_bytes(v as int),
    {
        push_u32_le(&mut self.data, v);
    }

    /// Appends a little-endian `u64`.
    pub fn write_u64(&mut self, v: u64)
        ensures
            final(self).bytes() == old(self).bytes() + u64_le_bytes(v as int),
    {
        push_u64_le(&mut self.data, v);
    }

    /// Appends a little-endian `i64` (its two's-complement bits).
    pub fn write_i64(&mut self, v: i64)
        ensures
            final(self).bytes() == old(self).bytes() + u64_le_bytes((v as u64) as int),
    {
        push_u64_le(&mut self.data, v as u64);
    }

    /// Appends a fixed-width slot of `slot_bytes` bytes: the UTF-16LE units of
    /// `s`, at most `slot_bytes / 2 - 1` of them so that a NUL always ends the
    /// slot, padded with zero bytes.
    pub fn write_fixed_string(&mut self, s: &str, slot_bytes: usize)
        requires
            slot_bytes > 0,
            slot_bytes % 2 == 0,
        ensures
            final(self).bytes() == old(self).bytes() + slot_image(
                utf16_encode(s@),
                slot_bytes as int,
            ),
    {
        let units = utf16_units(s);
        let ghost start = self.data@;
        let ghost want = slot_image(units@, slot_bytes as int);
        let max_chars = slot_bytes / 2 - 1;
        let n = if units.len() < max_chars {
            units.len()
        } else {
            max_chars
        };
        assert(n == slot_keep(units@, slot_bytes as int));
        let mut k: usize = 0;
        while k < slot_bytes
            invariant
                k <= slot_bytes,
                slot_bytes % 2 == 0,
                n == slot_keep(units@, slot_bytes as int),
                n <= units@.len(),
                2 * n <= slot_bytes,
                want == slot_image(units@, slot_bytes as int),
                self.data@ == start + want.take(k as int),
            decreases slot_bytes - k,
        {
            let b: u8 = if k / 2 < n {
                if k % 2 == 0 {
                    (units[k / 2] % 256) as u8
                } else {
                    (units[k / 2] / 256) as u8
                }
            } else {
                0
            };
            self.data.push(b);
            k = k + 1;
            assert(self.data@ =~= start + want.take(k as int));
        }
        assert(want.take(k as int) =~= want);
    }

    /// The bytes written.
    pub fn into_bytes(self) -> (v: Vec<u8>)
        ensures
            v@ == self.bytes(),
    {
        self.data
    }
}

/// Encodes `s` as a length-prefixed protocol string: its number of UTF-16
/// units as a 32-bit little-endian value, then the units little-endian.
pub fn encode_string(s: &str) -> (v: Vec<u8>)
    ensures
        v@ == string_bytes(s@),
{
    let chars = utf16_units(s);
    let mut data: Vec<u8> = Vec::new();
    push_u32_le(&mut data, chars.len() as u32);
    let bytes = units_le(chars.as_slice());
    push_bytes(&mut data, bytes.as_slice());
    data
}

/// The little-endian bytes of UTF-16 units, two per unit.
pub fn units_le(units: &[u16]) -> (v: Vec<u8>)
    ensures
        v@ == units_le_bytes(units@),
{
    let ghost want = units_le_bytes(units@);
    let mut data: Vec<u8> = Vec::new();
    let mut i: usize = 0;
    while i < units.len()
        invariant
            i <= units@.len(),
            want == units_le_bytes(units@),
            data@ == want.take(2 * i as int),
        decreases units@.len() - i,
    {
        let c = units[i];
        data.push((c % 256) as u8);
        data.push((c / 256) as u8);
        i = i + 1;
        assert(data@ =~= want.take(2 * i as int));
    }
    assert(want.take(2 * i as int) =~= want);
    data
}

} // verus!
