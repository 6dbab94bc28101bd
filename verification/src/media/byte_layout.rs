//! Little-endian byte layout of the integers that the accelerator's
//! structures are made of.

use vstd::prelude::*;

verus! {

/// The two bytes of `x`, low byte first.
pub open spec fn le16(x: u16) -> Seq<u8> {
    seq![(x % 256) as u8, (x / 256) as u8]
}

/// The four bytes of `x`, low byte first.
pub open spec fn le32(x: u32) -> Seq<u8> {
    seq![
        (x % 256) as u8,
        (x / 256 % 256) as u8,
        (x / 65536 % 256) as u8,
        (x / 16777216) as u8,
    ]
}

/// The byte that stands for `x` in two's complement.
pub open spec fn byte_of_i8(x: i8) -> u8 {
    if x >= 0 {
        x as u8
    } else {
        (x + 256) as u8
    }
}

/// The 32-bit word that stands for `x` in two's complement.
pub open spec fn word_of_i32(x: i32) -> u32 {
    if x >= 0 {
        x as u32
    } else {
        (x + 0x1_0000_0000) as u32
    }
}

/// The bytes of a run of 16-bit values, each low byte first.
pub open spec fn le16_run(values: Seq<u16>) -> Seq<u8>
    decreases values.len(),
{
    if values.len() == 0 {
        Seq::empty()
    } else {
        le16_run(values.drop_last()) + le16(values.last())
    }
}

/// The bytes of a run of signed 32-bit values, each low byte first.
pub open spec fn le32_run(values: Seq<i32>) -> Seq<u8>
    decreases values.len(),
{
    if values.len() == 0 {
        Seq::empty()
    } else {
        le32_run(values.drop_last()) + le32(word_of_i32(values.last()))
    }
}

/// A run of 16-bit values takes two bytes each.
pub proof fn lemma_le16_run_len(values: Seq<u16>)
    ensures
        le16_run(values).len() == 2 * values.len(),
    decreases values.len(),
{
    if values.len() > 0 {
        lemma_le16_run_len(values.drop_last());
    }
}

/// A run of 32-bit values takes four bytes each.
pub proof fn lemma_le32_run_len(values: Seq<i32>)
    ensures
        le32_run(values).len() == 4 * values.len(),
    decreases values.len(),
{
    if values.len() > 0 {
        lemma_le32_run_len(values.drop_last());
    }
}

/// The byte that stands for `x` in two's complement.
pub fn i8_to_byte(x: i8) -> (b: u8)
    ensures
        b == byte_of_i8(x),
{
    if x >= 0 {
        x as u8
    } else {
        (x as i16 + 256) as u8
    }
}

/// The 32-bit word that stands for `x` in two's complement.
pub fn i32_to_word(x: i32) -> (w: u32)
    ensures
        w == word_of_i32(x),
{
    if x >= 0 {
        x as u32
    } else {
        (x as i64 + 0x1_0000_0000) as u32
    }
}

/// Appends the two bytes of `x`.
pub fn put_u16(out: &mut Vec<u8>, x: u16)
    ensures
        final(out)@ == old(out)@ + le16(x),
{
    out.push((x % 256) as u8);
    out.push((x / 256) as u8);
    assert(out@ =~= old(out)@ + le16(x));
}

/// Appends the four bytes of `x`.
pub fn put_u32(out: &mut Vec<u8>, x: u32)
    ensures
        final(out)@ == old(out)@ + le32(x),
{
    out.push((x % 256) as u8);
    out.push((x / 256 % 256) as u8);
    out.push((x / 65536 % 256) as u8);
    out.push((x / 16777216) as u8);
    assert(out@ =~= old(out)@ + le32(x));
}

/// Appends a run of bytes.
pub fn put_bytes(out: &mut Vec<u8>, bytes: &[u8])
    ensures
        final(out)@ == old(out)@ + bytes@,
{
    let mut i: usize = 0;
    assert(bytes@.subrange(0, 0) =~= Seq::<u8>::empty());
    assert(out@ =~= old(out)@ + Seq::<u8>::empty());
    while i < bytes.len()
        invariant
            0 <= i <= bytes@.len(),
            out@ == old(out)@ + bytes@.subrange(0, i as int),
        decreases bytes@.len() - i,
    {
        out.push(bytes[i]);
        assert(out@ =~= old(out)@ + bytes@.subrange(0, i + 1));
        i += 1;
    }
    assert(bytes@.subrange(0, i as int) =~= bytes@);
}

/// Appends a run of 16-bit values.
pub fn put_u16_run(out: &mut Vec<u8>, values: &[u16])
    ensures
        final(out)@ == old(out)@ + le16_run(values@),
{
    let mut i: usize = 0;
    assert(values@.subrange(0, 0) =~= Seq::<u16>::empty());
    assert(out@ =~= old(out)@ + Seq::<u8>::empty());
    while i < values.len()
        invariant
            0 <= i <= values@.len(),
            out@ == old(out)@ + le16_run(values@.subrange(0, i as int)),
        decreases values@.len() - i,
    {
        let ghost before = out@;
        put_u16(out, values[i]);
        proof {
            let next = values@.subrange(0, i + 1);
            assert(next.drop_last() =~= values@.subrange(0, i as int));
            assert(next.last() == values@[i as int]);
            assert(out@ =~= old(out)@ + le16_run(next));
        }
        i += 1;
    }
    assert(values@.subrange(0, i as int) =~= values@);
}

/// Appends a run of signed 32-bit values.
pub fn put_i32_run(out: &mut Vec<u8>, values: &[i32])
    ensures
        final(out)@ == old(out)@ + le32_run(values@),
{
    let mut i: usize = 0;
    assert(values@.subrange(0, 0) =~= Seq::<i32>::empty());
    assert(out@ =~= old(out)@ + Seq::<u8>::empty());
    while i < values.len()
        invariant
            0 <= i <= values@.len(),
            out@ == old(out)@ + le32_run(values@.subrange(0, i as int)),
        decreases values@.len() - i,
    {
        put_u32(out, i32_to_word(values[i]));
        proof {
            let next = values@.subrange(0, i + 1);
            assert(next.drop_last() =~= values@.subrange(0, i as int));
            assert(next.last() == values@[i as int]);
            assert(out@ =~= old(out)@ + le32_run(next));
        }
        i += 1;
    }
    assert(values@.subrange(0, i as int) =~= values@);
}

/// A copy of the bytes of `data` from `from` up to `to`.
pub fn copy_range(data: &[u8], from: usize, to: usize) -> (out: Vec<u8>)
    requires
        from <= to <= data@.len(),
    ensures
        out@ == data@.subrange(from as int, to as int),
{
    let mut out: Vec<u8> = Vec::new();
    let mut i: usize = from;
    while i < to
        invariant
            from <= i <= to <= data@.len(),
            out@ == data@.subrange(from as int, i as int),
        decreases to - i,
    {
        out.push(data[i]);
        assert(out@ =~= data@.subrange(from as int, i + 1));
        i += 1;
    }
    out
}

} // verus!
