//! Reading the bits of a NAL unit's payload: removal of emulation
//! prevention bytes, fixed-length codes and Exp-Golomb codes.
//!
//! A cursor walks the payload bit by bit, the highest bit of each byte
//! first. A read that would run past the end, or a code that is too long,
//! marks the cursor as failed; from then on every read gives zero and leaves
//! the cursor where it is, so a parser reads on and looks at the cursor once
//! at the end.

use vstd::prelude::*;

verus! {

/// `data` from position `pos` on without its emulation prevention bytes: a
/// byte 3 that follows two zero bytes is dropped. `zeros` is the number of
/// zero bytes that stand right before `pos`.
pub open spec fn unescaped_from(data: Seq<u8>, pos: int, zeros: int) -> Seq<u8>
    decreases data.len() - pos,
{
    if pos < 0 || pos >= data.len() {
        Seq::empty()
    } else if zeros >= 2 && data[pos] == 3 {
        unescaped_from(data, pos + 1, 0)
    } else {
        seq![data[pos]] + unescaped_from(
            data,
            pos + 1,
            if data[pos] == 0 {
                zeros + 1
            } else {
                0
            },
        )
    }
}

/// The payload of a NAL unit: its bytes behind the two header bytes,
/// without emulation prevention bytes.
pub open spec fn payload_of(nal: Seq<u8>) -> Seq<u8> {
    unescaped_from(nal, 2, 0)
}

/// The payload of a NAL unit.
pub fn extract_payload(nal: &[u8]) -> (payload: Vec<u8>)
    ensures
        payload@ == payload_of(nal@),
        payload@.len() <= nal@.len(),
{
    let mut out: Vec<u8> = Vec::new();
    let mut zeros: usize = 0;
    let mut pos: usize = 2;
    if nal.len() < 2 {
        assert(out@ =~= payload_of(nal@));
        return out;
    }
    assert(out@ + unescaped_from(nal@, 2, 0) =~= payload_of(nal@));
    while pos < nal.len()
        invariant
            2 <= pos <= nal@.len(),
            0 <= zeros <= pos,
            out@.len() <= pos - 2,
            out@ + unescaped_from(nal@, pos as int, zeros as int) == payload_of(nal@),
        decreases nal@.len() - pos,
    {
        let byte: u8 = nal[pos];
        let ghost rest = unescaped_from(nal@, pos as int, zeros as int);
        if zeros >= 2 && byte == 3 {
            zeros = 0;
        } else {
            let ghost before = out@;
            out.push(byte);
            zeros = if byte == 0 {
                zeros + 1
            } else {
                0
            };
            assert(out@ + unescaped_from(nal@, pos + 1, zeros as int) =~= before + rest);
        }
        pos += 1;
    }
    assert(out@ + Seq::<u8>::empty() =~= out@);
    out
}

/// Where a reader stands: the position in bits, and whether every read so
/// far stayed inside the data.
pub struct Cursor {
    pub pos: int,
    pub ok: bool,
}

/// Bit `p` of `data`, the highest bit of each byte first.
pub open spec fn bit_at(data: Seq<u8>, p: int) -> int {
    ((data[p / 8] >> ((7 - p % 8) as u8)) & 1) as int
}

/// The number that the `n` bits from position `pos` on spell, the first bit
/// being the highest.
pub open spec fn bits_value(data: Seq<u8>, pos: int, n: int) -> int
    decreases n,
{
    if n <= 0 {
        0
    } else {
        2 * bits_value(data, pos, n - 1) + bit_at(data, pos + n - 1)
    }
}

/// Number of bits in `data`.
pub open spec fn bit_len(data: Seq<u8>) -> int {
    8 * (data.len() as int)
}

/// A read of `n` bits: their value and the cursor behind them; zero and a
/// failed cursor where they do not lie inside the data.
pub open spec fn read_bits(data: Seq<u8>, c: Cursor, n: int) -> (int, Cursor) {
    if !c.ok {
        (0, c)
    } else if c.pos + n > bit_len(data) {
        (0, Cursor { pos: c.pos, ok: false })
    } else {
        (bits_value(data, c.pos, n), Cursor { pos: c.pos + n, ok: true })
    }
}

/// A read of one bit as a flag.
pub open spec fn read_flag(data: Seq<u8>, c: Cursor) -> (bool, Cursor) {
    (read_bits(data, c, 1).0 == 1, read_bits(data, c, 1).1)
}

/// A cursor moved on by `n` bits without a look at them.
pub open spec fn skip_bits(data: Seq<u8>, c: Cursor, n: int) -> Cursor {
    if !c.ok {
        c
    } else if c.pos + n > bit_len(data) {
        Cursor { pos: c.pos, ok: false }
    } else {
        Cursor { pos: c.pos + n, ok: true }
    }
}

/// Number of zero bits from position `pos` on, up to the next one bit, the
/// end of the data or `limit` of them.
pub open spec fn leading_zeros(data: Seq<u8>, pos: int, limit: int) -> int
    decreases limit,
{
    if limit <= 0 || pos < 0 || pos >= bit_len(data) || bit_at(data, pos) == 1 {
        0
    } else {
        1 + leading_zeros(data, pos + 1, limit - 1)
    }
}

/// A read of an unsigned Exp-Golomb code: `z` zero bits, a one bit and `z`
/// more bits spell the number that the last `z + 1` bits give, less one.
/// Codes with more than 31 zero bits are not read.
pub open spec fn read_ue(data: Seq<u8>, c: Cursor) -> (int, Cursor) {
    let z = leading_zeros(data, c.pos, 32);
    if !c.ok {
        (0, c)
    } else if z > 31 || c.pos + 2 * z + 1 > bit_len(data) {
        (0, Cursor { pos: c.pos, ok: false })
    } else {
        (bits_value(data, c.pos + z, z + 1) - 1, Cursor { pos: c.pos + 2 * z + 1, ok: true })
    }
}

/// The signed number that an unsigned code number stands for: the odd ones
/// count up from one, the even ones down from zero.
pub open spec fn signed_of(code: int) -> int {
    if code % 2 == 1 {
        (code + 1) / 2
    } else {
        -(code / 2)
    }
}

/// A read of a signed Exp-Golomb code.
pub open spec fn read_se(data: Seq<u8>, c: Cursor) -> (int, Cursor) {
    (signed_of(read_ue(data, c).0), read_ue(data, c).1)
}

/// A cursor that has also failed where `holds` is false.
pub open spec fn checked(c: Cursor, holds: bool) -> Cursor {
    Cursor { pos: c.pos, ok: c.ok && holds }
}

/// A read of an unsigned Exp-Golomb code that fails on a number above
/// `limit`.
pub open spec fn read_ue_max(data: Seq<u8>, c: Cursor, limit: int) -> (int, Cursor) {
    let (value, after) = read_ue(data, c);
    if value <= limit {
        (value, after)
    } else {
        (0, checked(after, false))
    }
}

/// A read of a signed Exp-Golomb code that fails on a number outside
/// `low` to `high`.
pub open spec fn read_se_range(data: Seq<u8>, c: Cursor, low: int, high: int) -> (int, Cursor) {
    let (value, after) = read_se(data, c);
    if low <= value <= high {
        (value, after)
    } else {
        (0, checked(after, false))
    }
}

/// The largest number that `n` bits spell.
pub open spec fn max_of_bits(n: int) -> int
    decreases n,
{
    if n <= 0 {
        0
    } else {
        2 * max_of_bits(n - 1) + 1
    }
}

/// `n` bits spell a number from zero to the largest of that width.
pub proof fn lemma_bits_value_bounds(data: Seq<u8>, pos: int, n: int)
    ensures
        0 <= bits_value(data, pos, n) <= max_of_bits(n),
    decreases n,
{
    if n > 0 {
        lemma_bits_value_bounds(data, pos, n - 1);
        let byte = data[(pos + n - 1) / 8];
        let shift = (7 - (pos + n - 1) % 8) as u8;
        assert((byte >> shift) & 1 <= 1) by (bit_vector);
    }
}

/// Thirty-two bits spell at most the largest 32-bit number, and fewer bits
/// less.
pub proof fn lemma_max_of_bits(n: int)
    requires
        0 <= n <= 32,
    ensures
        max_of_bits(n) <= 0xFFFF_FFFF,
        n <= 16 ==> max_of_bits(n) <= 0xFFFF,
        n <= 8 ==> max_of_bits(n) <= 0xFF,
        n == 1 ==> max_of_bits(n) == 1,
        n == 2 ==> max_of_bits(n) == 3,
        n == 3 ==> max_of_bits(n) == 7,
        n == 4 ==> max_of_bits(n) == 15,
{
    reveal_with_fuel(max_of_bits, 34);
}

/// An unsigned code that was read lies below the largest 32-bit number.
pub proof fn lemma_read_ue_bounds(data: Seq<u8>, c: Cursor)
    requires
        c.pos >= 0,
    ensures
        0 <= read_ue(data, c).0 < 0xFFFF_FFFF,
        read_ue(data, c).1.ok ==> c.ok && c.pos < read_ue(data, c).1.pos <= bit_len(data),
        !read_ue(data, c).1.ok ==> read_ue(data, c).0 == 0 && read_ue(data, c).1.pos == c.pos,
{
    let z = leading_zeros(data, c.pos, 32);
    lemma_leading_zeros(data, c.pos, 32);
    if c.ok && z <= 31 && c.pos + 2 * z + 1 <= bit_len(data) {
        lemma_bits_value_bounds(data, c.pos + z, z + 1);
        lemma_max_of_bits(z + 1);
        // The code starts with its one bit, so it is not zero.
        lemma_bits_value_leading_one(data, c.pos + z, z + 1);
    }
}

/// The count of leading zeros stays within its limit, and behind it stands
/// a one bit, the end of the data or the limit.
pub proof fn lemma_leading_zeros(data: Seq<u8>, pos: int, limit: int)
    requires
        limit >= 0,
    ensures
        0 <= leading_zeros(data, pos, limit) <= limit,
        leading_zeros(data, pos, limit) < limit && 0 <= pos && pos + leading_zeros(
            data,
            pos,
            limit,
        ) < bit_len(data) ==> bit_at(data, pos + leading_zeros(data, pos, limit)) == 1,
    decreases limit,
{
    if limit <= 0 || pos < 0 || pos >= bit_len(data) || bit_at(data, pos) == 1 {
    } else {
        lemma_leading_zeros(data, pos + 1, limit - 1);
    }
}

/// Bits that start with a one bit spell a number that is not zero.
pub proof fn lemma_bits_value_leading_one(data: Seq<u8>, pos: int, n: int)
    requires
        n >= 1,
    ensures
        bit_at(data, pos) == 1 ==> bits_value(data, pos, n) >= 1,
    decreases n,
{
    if n > 1 {
        lemma_bits_value_leading_one(data, pos, n - 1);
        lemma_bits_value_bounds(data, pos, n - 1);
        let byte = data[(pos + n - 1) / 8];
        let shift = (7 - (pos + n - 1) % 8) as u8;
        assert((byte >> shift) & 1 <= 1) by (bit_vector);
    } else {
        assert(bits_value(data, pos, 0) == 0);
    }
}

/// Reader of the bits of a payload.
pub struct BitReader<'a> {
    data: &'a [u8],
    pos: usize,
    ok: bool,
}

impl<'a> BitReader<'a> {
    /// The bytes that are read.
    pub closed spec fn bytes(&self) -> Seq<u8> {
        self.data@
    }

    /// Where the reader stands.
    pub closed spec fn cursor(&self) -> Cursor {
        Cursor { pos: self.pos as int, ok: self.ok }
    }

    /// What every reader keeps true of itself: while no read has failed,
    /// it stands inside the data, and the data's bits can be counted.
    pub closed spec fn wf(&self) -> bool {
        self.ok ==> self.pos <= bit_len(self.data@) && bit_len(self.data@) <= usize::MAX
    }

    /// A reader at the start of `data`. Where the bits of the data are too
    /// many to count, the reader has failed from the start.
    pub fn new(data: &'a [u8]) -> (reader: Self)
        ensures
            reader.wf(),
            reader.bytes() == data@,
            reader.cursor() == (Cursor { pos: 0, ok: bit_len(data@) <= usize::MAX }),
    {
        BitReader { data, pos: 0, ok: data.len() <= usize::MAX / 8 }
    }

    /// Whether every read so far stayed inside the data.
    pub fn is_ok(&self) -> (ok: bool)
        ensures
            ok == self.cursor().ok,
    {
        self.ok
    }

    /// Bit `p` of the data.
    fn bit(&self, p: usize) -> (b: u32)
        requires
            p < bit_len(self.bytes()),
        ensures
            b == bit_at(self.bytes(), p as int),
            b <= 1,
    {
        let byte: u8 = self.data[p / 8];
        let shift: u8 = (7 - p % 8) as u8;
        assert((byte >> shift) & 1 <= 1) by (bit_vector);
        ((byte >> shift) & 1) as u32
    }

    /// Reads `n` bits, at most 32.
    pub fn read_bits(&mut self, n: u32) -> (value: u32)
        requires
            old(self).wf(),
            n <= 32,
        ensures
            final(self).wf(),
            final(self).bytes() == old(self).bytes(),
            (value as int, final(self).cursor()) == read_bits(
                old(self).bytes(),
                old(self).cursor(),
                n as int,
            ),
    {
        if !self.ok {
            return 0;
        }
        if n as usize > self.data.len() * 8 - self.pos {
            self.ok = false;
            return 0;
        }
        let start: usize = self.pos;
        let mut value: u64 = 0;
        let mut i: u32 = 0;
        while i < n
            invariant
                0 <= i <= n <= 32,
                self.wf(),
                self.bytes() == old(self).bytes(),
                self.ok,
                self.pos == start,
                start + n <= bit_len(self.bytes()),
                value == bits_value(self.bytes(), start as int, i as int),
                value <= max_of_bits(i as int),
            decreases n - i,
        {
            let b: u32 = self.bit(start + i as usize);
            proof {
                lemma_max_of_bits(i as int);
                lemma_max_of_bits(i + 1);
            }
            value = value * 2 + b as u64;
            i += 1;
        }
        proof {
            lemma_max_of_bits(n as int);
        }
        self.pos = start + n as usize;
        value as u32
    }

    /// Reads one bit as a flag.
    pub fn read_flag(&mut self) -> (flag: bool)
        requires
            old(self).wf(),
        ensures
            final(self).wf(),
            final(self).bytes() == old(self).bytes(),
            (flag, final(self).cursor()) == read_flag(old(self).bytes(), old(self).cursor()),
    {
        self.read_bits(1) == 1
    }

    /// Moves on by `n` bits.
    pub fn skip_bits(&mut self, n: u32)
        requires
            old(self).wf(),
        ensures
            final(self).wf(),
            final(self).bytes() == old(self).bytes(),
            final(self).cursor() == skip_bits(old(self).bytes(), old(self).cursor(), n as int),
    {
        if !self.ok {
            return ;
        }
        if n as usize > self.data.len() * 8 - self.pos {
            self.ok = false;
            return ;
        }
        self.pos = self.pos + n as usize;
    }

    /// Reads an unsigned Exp-Golomb code.
    pub fn read_ue(&mut self) -> (value: u32)
        requires
            old(self).wf(),
        ensures
            final(self).wf(),
            final(self).bytes() == old(self).bytes(),
            (value as int, final(self).cursor()) == read_ue(old(self).bytes(), old(self).cursor()),
            value < 0xFFFF_FFFF,
    {
        if !self.ok {
            return 0;
        }
        let start: usize = self.pos;
        let total: usize = self.data.len() * 8;
        let mut zeros: u32 = 0;
        while zeros < 32 && (zeros as usize) < total - start && self.bit(start + zeros as usize) == 0
            invariant
                0 <= zeros <= 32,
                start <= total,
                self.wf(),
                self.bytes() == old(self).bytes(),
                self.ok,
                self.pos == start,
                total == bit_len(self.bytes()),
                leading_zeros(self.bytes(), start as int, 32) == zeros + leading_zeros(
                    self.bytes(),
                    start + zeros,
                    32 - zeros,
                ),
            decreases 32 - zeros,
        {
            zeros += 1;
        }
        proof {
            lemma_read_ue_bounds(old(self).bytes(), old(self).cursor());
        }
        if zeros > 31 || 2 * (zeros as usize) + 1 > total - start {
            self.ok = false;
            return 0;
        }
        self.pos = start + zeros as usize;
        let code: u32 = self.read_bits(zeros + 1);
        code - 1
    }

    /// Marks the reader as failed where `holds` is false.
    pub fn check(&mut self, holds: bool)
        requires
            old(self).wf(),
        ensures
            final(self).wf(),
            final(self).bytes() == old(self).bytes(),
            final(self).cursor() == checked(old(self).cursor(), holds),
    {
        if !holds {
            self.ok = false;
        }
    }

    /// Reads an unsigned Exp-Golomb code and fails on a number above
    /// `limit`.
    pub fn read_ue_max(&mut self, limit: u32) -> (value: u32)
        requires
            old(self).wf(),
        ensures
            final(self).wf(),
            final(self).bytes() == old(self).bytes(),
            (value as int, final(self).cursor()) == read_ue_max(
                old(self).bytes(),
                old(self).cursor(),
                limit as int,
            ),
            value <= limit,
    {
        let value: u32 = self.read_ue();
        if value <= limit {
            value
        } else {
            self.ok = false;
            0
        }
    }

    /// Reads a signed Exp-Golomb code and fails on a number outside `low`
    /// to `high`.
    pub fn read_se_range(&mut self, low: i32, high: i32) -> (value: i32)
        requires
            old(self).wf(),
            low <= 0 <= high,
        ensures
            final(self).wf(),
            final(self).bytes() == old(self).bytes(),
            (value as int, final(self).cursor()) == read_se_range(
                old(self).bytes(),
                old(self).cursor(),
                low as int,
                high as int,
            ),
            low <= value <= high,
    {
        let value: i64 = self.read_se();
        if low as i64 <= value && value <= high as i64 {
            value as i32
        } else {
            self.ok = false;
            0
        }
    }

    /// Reads a signed Exp-Golomb code.
    pub fn read_se(&mut self) -> (value: i64)
        requires
            old(self).wf(),
        ensures
            final(self).wf(),
            final(self).bytes() == old(self).bytes(),
            (value as int, final(self).cursor()) == read_se(old(self).bytes(), old(self).cursor()),
            -0x8000_0000 <= value <= 0x8000_0000,
    {
        let code: u32 = self.read_ue();
        if code % 2 == 1 {
            (code as i64 + 1) / 2
        } else {
            -((code / 2) as i64)
        }
    }
}

} // verus!
