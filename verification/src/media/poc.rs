//! Picture order count derivation (ITU-T H.265, section 8.3.1).
//!
//! A slice carries only the low bits of its picture order count. The decoder
//! keeps the low and high part of the previous picture and rebuilds the full
//! count from them.

use vstd::prelude::*;

verus! {

/// What the derivation remembers of the previous picture.
pub struct PocHistory {
    pub prev_lsb: int,
    pub prev_msb: int,
}

/// High part of the count of a picture with low bits `poc_lsb`, after a
/// picture with low bits `prev_lsb` and high part `prev_msb`.
pub open spec fn next_poc_msb(poc_lsb: int, prev_lsb: int, prev_msb: int, max_poc_lsb: int) -> int {
    let half = max_poc_lsb / 2;
    if poc_lsb < prev_lsb && prev_lsb - poc_lsb >= half {
        prev_msb + max_poc_lsb
    } else if poc_lsb > prev_lsb && poc_lsb - prev_lsb > half {
        prev_msb - max_poc_lsb
    } else {
        prev_msb
    }
}

/// Full count of one picture: zero for an IDR picture, else the derived high
/// part plus the low bits.
pub open spec fn full_poc(h: PocHistory, poc_lsb: int, is_idr: bool, max_poc_lsb: int) -> int {
    if is_idr {
        0
    } else {
        next_poc_msb(poc_lsb, h.prev_lsb, h.prev_msb, max_poc_lsb) + poc_lsb
    }
}

/// History after one picture: cleared by an IDR picture, else the low bits
/// and the derived high part of that picture.
pub open spec fn history_after(h: PocHistory, poc_lsb: int, is_idr: bool, max_poc_lsb: int)
    -> PocHistory {
    if is_idr {
        PocHistory { prev_lsb: 0, prev_msb: 0 }
    } else {
        PocHistory {
            prev_lsb: poc_lsb,
            prev_msb: next_poc_msb(poc_lsb, h.prev_lsb, h.prev_msb, max_poc_lsb),
        }
    }
}

/// Whether the derivation for this picture stays inside `i32`.
pub open spec fn poc_in_range(h: PocHistory, poc_lsb: int, is_idr: bool, max_poc_lsb: int) -> bool {
    is_idr || {
        let msb = next_poc_msb(poc_lsb, h.prev_lsb, h.prev_msb, max_poc_lsb);
        &&& i32::MIN <= msb <= i32::MAX
        &&& i32::MIN <= msb + poc_lsb <= i32::MAX
    }
}

/// Full counts of a run of pictures, each given by its low bits and whether
/// it is an IDR picture, decoded one after the other from history `h`.
pub open spec fn poc_run(h: PocHistory, pics: Seq<(int, bool)>, max_poc_lsb: int) -> Seq<int>
    decreases pics.len(),
{
    if pics.len() == 0 {
        Seq::empty()
    } else {
        let (lsb, idr) = pics[0];
        seq![full_poc(h, lsb, idr, max_poc_lsb)] + poc_run(
            history_after(h, lsb, idr, max_poc_lsb),
            pics.subrange(1, pics.len() as int),
            max_poc_lsb,
        )
    }
}

/// The pictures of a stream whose true counts are `pocs`: the first is an
/// IDR picture, and each carries its count reduced modulo `max_poc_lsb`.
pub open spec fn pics_of(pocs: Seq<int>, max_poc_lsb: int) -> Seq<(int, bool)> {
    Seq::new(pocs.len(), |i: int| (pocs[i] % max_poc_lsb, i == 0))
}

/// Whether each count of `pocs` lies within half the range of the low bits
/// of the one before it: more than `-max_poc_lsb / 2` and at most
/// `max_poc_lsb / 2` away.
pub open spec fn steps_within_half_range(pocs: Seq<int>, max_poc_lsb: int) -> bool {
    forall|i: int|
        0 <= i < pocs.len() - 1 ==> -(max_poc_lsb / 2) < #[trigger] pocs[i + 1] - pocs[i]
            <= max_poc_lsb / 2
}

/// One step of the derivation recovers the true count: where the history
/// holds a picture with count `prev` and the next count `poc` is within half
/// the range of it, the derivation from the low bits of `poc` gives `poc`.
pub proof fn lemma_poc_step_unwraps(prev: int, poc: int, max_poc_lsb: int)
    requires
        max_poc_lsb > 0,
        -(max_poc_lsb / 2) < poc - prev <= max_poc_lsb / 2,
    ensures
        full_poc(
            PocHistory { prev_lsb: prev % max_poc_lsb, prev_msb: prev - prev % max_poc_lsb },
            poc % max_poc_lsb,
            false,
            max_poc_lsb,
        ) == poc,
        history_after(
            PocHistory { prev_lsb: prev % max_poc_lsb, prev_msb: prev - prev % max_poc_lsb },
            poc % max_poc_lsb,
            false,
            max_poc_lsb,
        ) == (PocHistory { prev_lsb: poc % max_poc_lsb, prev_msb: poc - poc % max_poc_lsb }),
{
    let m = max_poc_lsb;
    let d = poc - prev;
    let pl = prev % m;
    let pm = prev - pl;
    let l = poc % m;
    assert(0 <= pl < m && 0 <= l < m);
    assert(pm % m == 0) by (nonlinear_arith)
        requires
            m > 0,
            pl == prev % m,
            pm == prev - pl,
    ;
    // The low bits of `poc` are those of `pl + d`, moved by at most one range.
    assert(l == if pl + d >= m {
        pl + d - m
    } else if pl + d < 0 {
        pl + d + m
    } else {
        pl + d
    }) by (nonlinear_arith)
        requires
            m > 0,
            pl == prev % m,
            l == poc % m,
            d == poc - prev,
            -m < d < m + 1,
            0 <= pl < m,
    ;
}

/// The derivation reproduces the unwrapped counts of a whole stream: where a
/// stream starts with an IDR picture of count zero and each count is within
/// half the range of the one before, decoding its pictures in order gives
/// back `pocs`, whatever the history was before.
pub proof fn lemma_poc_run_unwraps(h: PocHistory, pocs: Seq<int>, max_poc_lsb: int)
    requires
        max_poc_lsb > 0,
        pocs.len() > 0,
        pocs[0] == 0,
        steps_within_half_range(pocs, max_poc_lsb),
    ensures
        poc_run(h, pics_of(pocs, max_poc_lsb), max_poc_lsb) == pocs,
{
    let pics = pics_of(pocs, max_poc_lsb);
    let rest = pics.subrange(1, pics.len() as int);
    let h0 = history_after(h, pics[0].0, true, max_poc_lsb);
    assert(h0 == PocHistory { prev_lsb: 0, prev_msb: 0 });
    assert(0int % max_poc_lsb == 0) by (nonlinear_arith)
        requires
            max_poc_lsb > 0,
    ;
    lemma_poc_tail_unwraps(pocs, 1, max_poc_lsb);
    assert(pics_tail(pocs, 1, max_poc_lsb) =~= rest);
    assert(pocs =~= seq![0int] + pocs.subrange(1, pocs.len() as int));
}

/// The pictures of `pocs` from index `from` on, none of them an IDR picture.
pub open spec fn pics_tail(pocs: Seq<int>, from: int, max_poc_lsb: int) -> Seq<(int, bool)> {
    Seq::new((pocs.len() - from) as nat, |i: int| (pocs[from + i] % max_poc_lsb, false))
}

proof fn lemma_poc_tail_unwraps(pocs: Seq<int>, from: int, max_poc_lsb: int)
    requires
        max_poc_lsb > 0,
        1 <= from <= pocs.len(),
        steps_within_half_range(pocs, max_poc_lsb),
    ensures
        poc_run(
            PocHistory {
                prev_lsb: pocs[from - 1] % max_poc_lsb,
                prev_msb: pocs[from - 1] - pocs[from - 1] % max_poc_lsb,
            },
            pics_tail(pocs, from, max_poc_lsb),
            max_poc_lsb,
        ) == pocs.subrange(from, pocs.len() as int),
    decreases pocs.len() - from,
{
    let pics = pics_tail(pocs, from, max_poc_lsb);
    if from < pocs.len() {
        let prev = pocs[from - 1];
        let poc = pocs[from];
        assert(-(max_poc_lsb / 2) < pocs[(from - 1) + 1] - pocs[from - 1] <= max_poc_lsb / 2);
        lemma_poc_step_unwraps(prev, poc, max_poc_lsb);
        lemma_poc_tail_unwraps(pocs, from + 1, max_poc_lsb);
        assert(pics.subrange(1, pics.len() as int) =~= pics_tail(pocs, from + 1, max_poc_lsb));
        assert(pocs.subrange(from, pocs.len() as int) =~= seq![poc] + pocs.subrange(
            from + 1,
            pocs.len() as int,
        ));
    } else {
        assert(pocs.subrange(from, pocs.len() as int) =~= Seq::<int>::empty());
    }
}

} // verus!
