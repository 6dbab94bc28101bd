//! Bitstream framing for the accelerator: the slice NAL units of a frame in
//! one buffer, with or without start codes, padded to the accelerator's
//! alignment, and one short slice control per NAL unit.

use vstd::prelude::*;
use crate::media::byte_layout::{le16, le32, put_bytes, put_u16, put_u32};
use crate::media::hevc_parser::HevcNalUnit;

verus! {

/// Short slice control: where a slice NAL unit lies in the bitstream buffer.
/// Packed, the structure takes 10 bytes.
#[derive(Debug, Clone, Copy)]
pub struct DxvaHevcSliceShort {
    /// Position of the NAL unit data in the bitstream buffer
    pub bs_nal_unit_data_location: u32,
    /// Number of bytes in the bitstream buffer for this slice
    pub slice_bytes_in_buffer: u32,
    /// Bad slice chopping indicator (0 = no chopping)
    pub w_bad_slice_chopping: u16,
}

impl DxvaHevcSliceShort {
    /// The packed bytes of the structure.
    pub open spec fn packed(self) -> Seq<u8> {
        Seq::<u8>::empty() + le32(self.bs_nal_unit_data_location) + le32(self.slice_bytes_in_buffer)
            + le16(self.w_bad_slice_chopping)
    }

    /// The structure as the bytes that the accelerator reads.
    pub fn to_bytes(&self) -> (bytes: Vec<u8>)
        ensures
            bytes@ == self.packed(),
            bytes@.len() == 10,
    {
        let mut out: Vec<u8> = Vec::new();
        assert(out@ =~= Seq::<u8>::empty());
        put_u32(&mut out, self.bs_nal_unit_data_location);
        put_u32(&mut out, self.slice_bytes_in_buffer);
        put_u16(&mut out, self.w_bad_slice_chopping);
        out
    }
}

impl Default for DxvaHevcSliceShort {
    fn default() -> (slice: Self)
        ensures
            slice == (DxvaHevcSliceShort {
                bs_nal_unit_data_location: 0,
                slice_bytes_in_buffer: 0,
                w_bad_slice_chopping: 0,
            }),
    {
        DxvaHevcSliceShort {
            bs_nal_unit_data_location: 0,
            slice_bytes_in_buffer: 0,
            w_bad_slice_chopping: 0,
        }
    }
}

/// The packed bytes of a run of slice controls.
pub open spec fn packed_slices(slices: Seq<DxvaHevcSliceShort>) -> Seq<u8>
    decreases slices.len(),
{
    if slices.len() == 0 {
        Seq::empty()
    } else {
        packed_slices(slices.drop_last()) + slices.last().packed()
    }
}

/// A run of slice controls takes ten bytes each.
pub proof fn lemma_packed_slices_len(slices: Seq<DxvaHevcSliceShort>)
    ensures
        packed_slices(slices).len() == 10 * slices.len(),
    decreases slices.len(),
{
    if slices.len() > 0 {
        lemma_packed_slices_len(slices.drop_last());
    }
}

/// A run of slice controls as the bytes that the accelerator reads.
pub fn slices_to_bytes(slices: &Vec<DxvaHevcSliceShort>) -> (bytes: Vec<u8>)
    ensures
        bytes@ == packed_slices(slices@),
        bytes@.len() == 10 * slices@.len(),
{
    let mut out: Vec<u8> = Vec::new();
    let mut i: usize = 0;
    assert(slices@.subrange(0, 0) =~= Seq::<DxvaHevcSliceShort>::empty());
    while i < slices.len()
        invariant
            0 <= i <= slices@.len(),
            out@ == packed_slices(slices@.subrange(0, i as int)),
        decreases slices@.len() - i,
    {
        let one = slices[i].to_bytes();
        put_bytes(&mut out, one.as_slice());
        proof {
            let next = slices@.subrange(0, i + 1);
            assert(next.drop_last() =~= slices@.subrange(0, i as int));
            assert(next.last() == slices@[i as int]);
        }
        i += 1;
    }
    proof {
        assert(slices@.subrange(0, i as int) =~= slices@);
        lemma_packed_slices_len(slices@);
    }
    out
}

/// The start code that precedes a NAL unit in a byte stream.
pub open spec fn start_code() -> Seq<u8> {
    seq![0u8, 0u8, 1u8]
}

/// Whether the accelerator's configuration asks for start codes: raw
/// bitstream mode 2 (short slices) does not, every other mode does.
pub open spec fn wants_start_codes(config_bitstream_raw: int) -> bool {
    config_bitstream_raw != 2
}

/// One NAL unit as it stands in the buffer.
pub open spec fn framed(data: Seq<u8>, with_start_codes: bool) -> Seq<u8> {
    if with_start_codes {
        start_code() + data
    } else {
        data
    }
}

/// The NAL units of a frame one after the other, each framed.
pub open spec fn framed_stream(nals: Seq<Seq<u8>>, with_start_codes: bool) -> Seq<u8>
    decreases nals.len(),
{
    if nals.len() == 0 {
        Seq::empty()
    } else {
        framed_stream(nals.drop_last(), with_start_codes) + framed(nals.last(), with_start_codes)
    }
}

/// `len` rounded up to the next multiple of the alignment.
pub open spec fn padded_len(len: int) -> int {
    (len + 127) / 128 * 128
}

/// The bitstream buffer of a frame: its framed NAL units, then zero bytes
/// up to the alignment.
pub open spec fn padded_stream(nals: Seq<Seq<u8>>, with_start_codes: bool) -> Seq<u8> {
    let stream = framed_stream(nals, with_start_codes);
    stream + Seq::new((padded_len(stream.len() as int) - stream.len()) as nat, |i: int| 0u8)
}

/// The slice control of NAL unit `i`: it starts where the units before it
/// end and covers its framed bytes; the last one covers the padding too.
pub open spec fn slice_control(nals: Seq<Seq<u8>>, with_start_codes: bool, i: int)
    -> DxvaHevcSliceShort {
    let start = framed_stream(nals.subrange(0, i), with_start_codes).len();
    let own = framed(nals[i], with_start_codes).len();
    let total = framed_stream(nals, with_start_codes).len();
    DxvaHevcSliceShort {
        bs_nal_unit_data_location: start as u32,
        slice_bytes_in_buffer: if i == nals.len() - 1 {
            (own + padded_len(total as int) - total) as u32
        } else {
            own as u32
        },
        w_bad_slice_chopping: 0,
    }
}

/// The bytes of each NAL unit of a frame.
pub open spec fn nal_bytes(nals: Seq<&HevcNalUnit>) -> Seq<Seq<u8>> {
    Seq::new(nals.len(), |i: int| nals[i].data@)
}

/// Sum of the byte counts that a run of slice controls reports.
pub open spec fn reported_bytes(slices: Seq<DxvaHevcSliceShort>) -> int
    decreases slices.len(),
{
    if slices.len() == 0 {
        0
    } else {
        reported_bytes(slices.drop_last()) + slices.last().slice_bytes_in_buffer
    }
}

/// Rounding up gives the next multiple of the alignment.
pub proof fn lemma_padded_len(len: int)
    requires
        len >= 0,
    ensures
        padded_len(len) % 128 == 0,
        len <= padded_len(len) < len + 128,
{
}

/// The framed stream grows by each unit's framed length.
pub proof fn lemma_framed_stream_prefix(nals: Seq<Seq<u8>>, with_start_codes: bool, i: int)
    requires
        0 <= i < nals.len(),
    ensures
        framed_stream(nals.subrange(0, i + 1), with_start_codes) == framed_stream(
            nals.subrange(0, i),
            with_start_codes,
        ) + framed(nals[i], with_start_codes),
{
    let next = nals.subrange(0, i + 1);
    assert(next.drop_last() =~= nals.subrange(0, i));
    assert(next.last() == nals[i]);
}

/// Build the bitstream buffer and the slice controls for the slice NAL
/// units of a frame: without start codes where `config_bitstream_raw` is 2
/// (short slices), with them otherwise. The buffer is padded with zero bytes to a multiple
/// of 128 bytes, and the padding counts as part of the last slice. A frame
/// that does not fit the accelerator's 32-bit sizes gives `None`.
pub fn build_bitstream_and_slices(slice_nals: &Vec<&HevcNalUnit>, config_bitstream_raw: u32) -> (out:
    Option<(Vec<u8>, Vec<DxvaHevcSliceShort>)>)
    ensures
        out is Some <==> padded_len(
            framed_stream(nal_bytes(slice_nals@), wants_start_codes(config_bitstream_raw as int)).len() as int,
        ) <= u32::MAX,
        out matches Some((bitstream, slices)) ==> {
            let nals = nal_bytes(slice_nals@);
            let with_start_codes = wants_start_codes(config_bitstream_raw as int);
            &&& bitstream@ == padded_stream(nals, with_start_codes)
            &&& bitstream@.len() % 128 == 0
            &&& slices@.len() == nals.len()
            &&& forall|i: int|
                0 <= i < slices@.len() ==> slices@[i] == slice_control(nals, with_start_codes, i)
            &&& reported_bytes(slices@) == bitstream@.len()
        },
{
    let use_start_codes = config_bitstream_raw != 2;
    let ghost nals = nal_bytes(slice_nals@);
    let mut bitstream: Vec<u8> = Vec::new();
    let mut slice_controls: Vec<DxvaHevcSliceShort> = Vec::new();
    let mut i: usize = 0;
    assert(nals.subrange(0, 0) =~= Seq::<Seq<u8>>::empty());
    while i < slice_nals.len()
        invariant
            0 <= i <= slice_nals@.len(),
            nals == nal_bytes(slice_nals@),
            use_start_codes == wants_start_codes(config_bitstream_raw as int),
            bitstream@ == framed_stream(nals.subrange(0, i as int), use_start_codes),
            bitstream@.len() <= u32::MAX,
            slice_controls@.len() == i,
            forall|j: int|
                0 <= j < i ==> (#[trigger] slice_controls@[j]).bs_nal_unit_data_location
                    == framed_stream(nals.subrange(0, j), use_start_codes).len()
                    && slice_controls@[j].slice_bytes_in_buffer == framed(
                    nals[j],
                    use_start_codes,
                ).len() && slice_controls@[j].w_bad_slice_chopping == 0,
            reported_bytes(slice_controls@) == bitstream@.len(),
        decreases slice_nals@.len() - i,
    {
        let nal = slice_nals[i];
        let position: usize = bitstream.len();
        let start_code_len: usize = if use_start_codes {
            3
        } else {
            0
        };
        proof {
            lemma_framed_stream_prefix(nals, use_start_codes, i as int);
            lemma_framed_stream_grows(nals, use_start_codes, i as int + 1);
        }
        let fits = nal.data.len() <= 0xFFFF_FFFF - 3 && position as u64 + start_code_len as u64
            + nal.data.len() as u64 <= 0xFFFF_FFFF;
        if !fits {
            proof {
                lemma_padded_len(framed_stream(nals, use_start_codes).len() as int);
            }
            return None;
        }
        if use_start_codes {
            bitstream.push(0x00);
            bitstream.push(0x00);
            bitstream.push(0x01);
        }
        put_bytes(&mut bitstream, nal.data.as_slice());
        assert(bitstream@ =~= framed_stream(nals.subrange(0, i as int), use_start_codes) + framed(
            nals[i as int],
            use_start_codes,
        ));
        let ghost before = slice_controls@;
        slice_controls.push(
            DxvaHevcSliceShort {
                bs_nal_unit_data_location: position as u32,
                slice_bytes_in_buffer: (start_code_len + nal.data.len()) as u32,
                w_bad_slice_chopping: 0,
            },
        );
        assert(slice_controls@.drop_last() =~= before);
        i += 1;
    }
    assert(nals.subrange(0, i as int) =~= nals);
    let total_size: usize = bitstream.len();
    let ghost stream = bitstream@;
    proof {
        lemma_padded_len(total_size as int);
    }
    if total_size > 0xFFFF_FFFF - 127 {
        // The only multiple of 128 from here on lies beyond 32 bits.
        assert(padded_len(total_size as int) > u32::MAX);
        return None;
    }
    let padded_size: usize = (total_size + 127) / 128 * 128;
    let padding: usize = padded_size - total_size;
    let mut k: usize = 0;
    while k < padding
        invariant
            0 <= k <= padding,
            padding == padded_size - total_size,
            total_size == stream.len(),
            padded_size <= u32::MAX,
            bitstream@ == stream + Seq::new(k as nat, |i: int| 0u8),
        decreases padding - k,
    {
        bitstream.push(0);
        assert(bitstream@ =~= stream + Seq::new((k + 1) as nat, |i: int| 0u8));
        k += 1;
    }
    let count: usize = slice_controls.len();
    if count > 0 {
        let last = slice_controls[count - 1];
        let ghost before = slice_controls@;
        proof {
            // The last slice ends where the stream ends, so its count and
            // the padding stay within the padded size.
            lemma_framed_stream_prefix(nals, use_start_codes, count - 1);
            assert(nals.subrange(0, count as int) =~= nals);
            assert(before.drop_last().len() == count - 1);
            lemma_reported_bytes_bounds(before);
        }
        slice_controls.set(
            count - 1,
            DxvaHevcSliceShort {
                bs_nal_unit_data_location: last.bs_nal_unit_data_location,
                slice_bytes_in_buffer: last.slice_bytes_in_buffer + padding as u32,
                w_bad_slice_chopping: last.w_bad_slice_chopping,
            },
        );
        proof {
            assert(slice_controls@.drop_last() =~= before.drop_last());
            assert forall|j: int| 0 <= j < slice_controls@.len() implies slice_controls@[j]
                == slice_control(nals, use_start_codes, j) by {
                if j < count - 1 {
                    assert(slice_controls@[j] == before[j]);
                }
            }
        }
    } else {
        assert(stream =~= Seq::<u8>::empty());
    }
    Some((bitstream, slice_controls))
}

/// A prefix of the frame's NAL units is framed into no more bytes than the
/// whole frame.
pub proof fn lemma_framed_stream_grows(nals: Seq<Seq<u8>>, with_start_codes: bool, i: int)
    requires
        0 <= i <= nals.len(),
    ensures
        framed_stream(nals.subrange(0, i), with_start_codes).len() <= framed_stream(
            nals,
            with_start_codes,
        ).len(),
    decreases nals.len() - i,
{
    if i < nals.len() {
        lemma_framed_stream_prefix(nals, with_start_codes, i);
        lemma_framed_stream_grows(nals, with_start_codes, i + 1);
    } else {
        assert(nals.subrange(0, i) =~= nals);
    }
}

/// No slice reports more bytes than all of them together.
pub proof fn lemma_reported_bytes_bounds(slices: Seq<DxvaHevcSliceShort>)
    ensures
        reported_bytes(slices) >= 0,
        slices.len() > 0 ==> slices.last().slice_bytes_in_buffer <= reported_bytes(slices),
    decreases slices.len(),
{
    if slices.len() > 0 {
        lemma_reported_bytes_bounds(slices.drop_last());
    }
}

} // verus!
