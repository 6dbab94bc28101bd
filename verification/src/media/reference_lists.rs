//! Reference picture lists: which entries of the decoded picture buffer a
//! picture may refer to, and in what order the accelerator is told of them.
//!
//! Short-term references with a smaller picture order count come first,
//! nearest first; then those with a larger count, nearest first; then the
//! long-term references in buffer order.

use vstd::prelude::*;
use crate::media::dpb::DpbEntry;

verus! {

/// Number of entries of the accelerator's reference picture list.
pub const REF_LIST_LEN: usize = 15;

/// Short-term reference that precedes the picture with count `poc`.
pub open spec fn is_short_term_before(e: DpbEntry, poc: i32) -> bool {
    e.is_reference && !e.is_long_term && e.poc < poc
}

/// Short-term reference that follows the picture with count `poc`.
pub open spec fn is_short_term_after(e: DpbEntry, poc: i32) -> bool {
    e.is_reference && !e.is_long_term && e.poc > poc
}

/// Long-term reference.
pub open spec fn is_long_term_ref(e: DpbEntry) -> bool {
    e.is_reference && e.is_long_term
}

/// Whether an entry with count `placed` stays in front of a new entry with
/// count `poc`: in a descending list the larger count leads, in an ascending
/// list the smaller; of two equal counts the one placed first leads.
pub open spec fn stays_in_front(placed: i32, poc: i32, descending: bool) -> bool {
    if descending {
        placed >= poc
    } else {
        placed <= poc
    }
}

/// Number of leading entries of `sorted` that stay in front of a new entry
/// with count `poc`.
pub open spec fn insert_position(sorted: Seq<DpbEntry>, poc: i32, descending: bool) -> int
    decreases sorted.len(),
{
    if sorted.len() > 0 && stays_in_front(sorted[0].poc, poc, descending) {
        1 + insert_position(sorted.drop_first(), poc, descending)
    } else {
        0
    }
}

/// `entries` ordered by picture order count, descending or ascending, with
/// entries of equal count in their old order.
pub open spec fn ordered_by_poc(entries: Seq<DpbEntry>, descending: bool) -> Seq<DpbEntry>
    decreases entries.len(),
{
    if entries.len() == 0 {
        Seq::empty()
    } else {
        let sorted = ordered_by_poc(entries.drop_last(), descending);
        sorted.insert(insert_position(sorted, entries.last().poc, descending), entries.last())
    }
}

/// Short-term references before the picture with count `poc`, nearest first.
pub open spec fn refs_before(dpb: Seq<DpbEntry>, poc: i32) -> Seq<DpbEntry> {
    ordered_by_poc(dpb.filter(|e: DpbEntry| is_short_term_before(e, poc)), true)
}

/// Short-term references after the picture with count `poc`, nearest first.
pub open spec fn refs_after(dpb: Seq<DpbEntry>, poc: i32) -> Seq<DpbEntry> {
    ordered_by_poc(dpb.filter(|e: DpbEntry| is_short_term_after(e, poc)), false)
}

/// Long-term references, in buffer order.
pub open spec fn refs_long_term(dpb: Seq<DpbEntry>) -> Seq<DpbEntry> {
    dpb.filter(|e: DpbEntry| is_long_term_ref(e))
}

/// The first `limit` entries of `s`, or all of them.
pub open spec fn at_most(s: Seq<DpbEntry>, limit: int) -> Seq<DpbEntry> {
    if s.len() <= limit {
        s
    } else {
        s.subrange(0, limit)
    }
}

/// The reference picture list of a picture with count `poc`: nothing for an
/// IDR picture, else the three groups one after the other, cut at the
/// list's capacity.
pub open spec fn reference_list(dpb: Seq<DpbEntry>, poc: i32, is_idr: bool) -> Seq<DpbEntry> {
    if is_idr {
        Seq::empty()
    } else {
        at_most(
            refs_before(dpb, poc) + refs_after(dpb, poc) + refs_long_term(dpb),
            REF_LIST_LEN as int,
        )
    }
}

/// Number of entries of the first group in the reference list.
pub open spec fn listed_before(dpb: Seq<DpbEntry>, poc: i32, is_idr: bool) -> int {
    if is_idr {
        0
    } else {
        at_most(refs_before(dpb, poc), REF_LIST_LEN as int).len() as int
    }
}

/// Number of entries of the first two groups in the reference list.
pub open spec fn listed_short_term(dpb: Seq<DpbEntry>, poc: i32, is_idr: bool) -> int {
    if is_idr {
        0
    } else {
        at_most(refs_before(dpb, poc) + refs_after(dpb, poc), REF_LIST_LEN as int).len() as int
    }
}

/// Slot `slot` of a reference picture set whose group stands in the
/// reference list from position `first` up to `end`: the position of the
/// group's entry number `slot`, or the invalid marker.
pub open spec fn set_slot(first: int, end: int, slot: int) -> u8 {
    if first + slot < end {
        (first + slot) as u8
    } else {
        0xFF
    }
}

/// Insertion keeps an ordered list ordered.
pub proof fn lemma_insert_position(sorted: Seq<DpbEntry>, poc: i32, descending: bool)
    ensures
        0 <= insert_position(sorted, poc, descending) <= sorted.len(),
        forall|i: int|
            0 <= i < insert_position(sorted, poc, descending) ==> stays_in_front(
                (#[trigger] sorted[i]).poc,
                poc,
                descending,
            ),
        insert_position(sorted, poc, descending) < sorted.len() ==> !stays_in_front(
            sorted[insert_position(sorted, poc, descending)].poc,
            poc,
            descending,
        ),
    decreases sorted.len(),
{
    if sorted.len() > 0 && stays_in_front(sorted[0].poc, poc, descending) {
        let rest = sorted.drop_first();
        lemma_insert_position(rest, poc, descending);
        let p = insert_position(rest, poc, descending);
        assert forall|i: int| 0 <= i < p + 1 implies stays_in_front(
            (#[trigger] sorted[i]).poc,
            poc,
            descending,
        ) by {
            if i > 0 {
                assert(sorted[i] == rest[i - 1]);
            }
        }
        if p + 1 < sorted.len() {
            assert(sorted[p + 1] == rest[p]);
        }
    }
}

/// Whether the counts of `s` never rise (descending) or never fall.
pub open spec fn in_poc_order(s: Seq<DpbEntry>, descending: bool) -> bool {
    forall|i: int, j: int|
        0 <= i < j < s.len() ==> stays_in_front(
            (#[trigger] s[i]).poc,
            (#[trigger] s[j]).poc,
            descending,
        )
}

/// Ordering keeps the entries and puts their counts in order: the result
/// has as many entries as the input, each one an entry of the input, and
/// the counts never rise in a descending list and never fall in an
/// ascending one.
pub proof fn lemma_ordered_by_poc(entries: Seq<DpbEntry>, descending: bool)
    ensures
        ordered_by_poc(entries, descending).len() == entries.len(),
        in_poc_order(ordered_by_poc(entries, descending), descending),
        forall|i: int|
            0 <= i < entries.len() ==> entries.contains(
                #[trigger] ordered_by_poc(entries, descending)[i],
            ),
        forall|i: int|
            0 <= i < entries.len() ==> ordered_by_poc(entries, descending).contains(
                #[trigger] entries[i],
            ),
    decreases entries.len(),
{
    let out = ordered_by_poc(entries, descending);
    if entries.len() > 0 {
        let front = entries.drop_last();
        let last = entries.last();
        let sorted = ordered_by_poc(front, descending);
        lemma_ordered_by_poc(front, descending);
        lemma_insert_position(sorted, last.poc, descending);
        let p = insert_position(sorted, last.poc, descending);
        assert(out == sorted.insert(p, last));
        assert(out[p] == last);
        assert(forall|i: int| 0 <= i < p ==> out[i] == sorted[i]);
        assert(forall|i: int| p < i < out.len() ==> out[i] == sorted[i - 1]);
        assert forall|i: int, j: int| 0 <= i < j < out.len() implies stays_in_front(
            (#[trigger] out[i]).poc,
            (#[trigger] out[j]).poc,
            descending,
        ) by {
            if j < p {
                assert(stays_in_front(sorted[i].poc, sorted[j].poc, descending));
            } else if j == p {
                assert(stays_in_front(sorted[i].poc, last.poc, descending));
            } else if i < p {
                assert(stays_in_front(sorted[i].poc, sorted[j - 1].poc, descending));
            } else if i == p {
                // Entries behind the insertion point are behind its first one.
                if p < j - 1 {
                    assert(stays_in_front(sorted[p].poc, sorted[j - 1].poc, descending));
                }
                assert(!stays_in_front(sorted[p].poc, last.poc, descending));
            } else {
                assert(stays_in_front(sorted[i - 1].poc, sorted[j - 1].poc, descending));
            }
        }
        assert forall|i: int| 0 <= i < entries.len() implies entries.contains(#[trigger] out[i]) by {
            if i == p {
                assert(entries[entries.len() - 1] == last);
            } else {
                let k = if i < p { i } else { i - 1 };
                assert(front.contains(sorted[k]));
                let a = choose|a: int| 0 <= a < front.len() && front[a] == sorted[k];
                assert(entries[a] == out[i]);
            }
        }
        assert forall|i: int| 0 <= i < entries.len() implies out.contains(#[trigger] entries[i]) by {
            if i == entries.len() - 1 {
                assert(out[p] == entries[i]);
            } else {
                assert(front[i] == entries[i]);
                assert(sorted.contains(front[i]));
                let a = choose|a: int| 0 <= a < sorted.len() && sorted[a] == front[i];
                let b = if a < p { a } else { a + 1 };
                assert(out[b] == entries[i]);
            }
        }
    }
}

/// Order of the reference list's short-term groups: the references before
/// the picture have smaller counts, the nearest first, and those after it
/// larger counts, the nearest first.
pub proof fn lemma_reference_order(dpb: Seq<DpbEntry>, poc: i32)
    ensures
        forall|i: int|
            0 <= i < refs_before(dpb, poc).len() ==> is_short_term_before(
                #[trigger] refs_before(dpb, poc)[i],
                poc,
            ),
        forall|i: int, j: int|
            0 <= i < j < refs_before(dpb, poc).len() ==> (#[trigger] refs_before(dpb, poc)[i]).poc >= (
            #[trigger] refs_before(dpb, poc)[j]).poc,
        forall|i: int|
            0 <= i < refs_after(dpb, poc).len() ==> is_short_term_after(
                #[trigger] refs_after(dpb, poc)[i],
                poc,
            ),
        forall|i: int, j: int|
            0 <= i < j < refs_after(dpb, poc).len() ==> (#[trigger] refs_after(dpb, poc)[i]).poc <= (
            #[trigger] refs_after(dpb, poc)[j]).poc,
{
    let before_pred = |e: DpbEntry| is_short_term_before(e, poc);
    let after_pred = |e: DpbEntry| is_short_term_after(e, poc);
    let before = dpb.filter(before_pred);
    let after = dpb.filter(after_pred);
    broadcast use Seq::lemma_filter_pred;

    lemma_ordered_by_poc(before, true);
    lemma_ordered_by_poc(after, false);
    let rb = refs_before(dpb, poc);
    let ra = refs_after(dpb, poc);
    assert forall|i: int| 0 <= i < rb.len() implies is_short_term_before(#[trigger] rb[i], poc) by {
        assert(before.contains(rb[i]));
        let a = choose|a: int| 0 <= a < before.len() && before[a] == rb[i];
        assert(before_pred(before[a]));
    }
    assert forall|i: int| 0 <= i < ra.len() implies is_short_term_after(#[trigger] ra[i], poc) by {
        assert(after.contains(ra[i]));
        let a = choose|a: int| 0 <= a < after.len() && after[a] == ra[i];
        assert(after_pred(after[a]));
    }
    assert forall|i: int, j: int| 0 <= i < j < rb.len() implies (#[trigger] rb[i]).poc >= (
    #[trigger] rb[j]).poc by {
        assert(stays_in_front(rb[i].poc, rb[j].poc, true));
    }
    assert forall|i: int, j: int| 0 <= i < j < ra.len() implies (#[trigger] ra[i]).poc <= (
    #[trigger] ra[j]).poc by {
        assert(stays_in_front(ra[i].poc, ra[j].poc, false));
    }
}

/// Whether an entry with count `placed` stays in front of a new entry with
/// count `poc`.
fn leads(placed: i32, poc: i32, descending: bool) -> (yes: bool)
    ensures
        yes == stays_in_front(placed, poc, descending),
{
    if descending {
        placed >= poc
    } else {
        placed <= poc
    }
}

/// Where a new entry with this count goes in an ordered list.
fn find_insert_position(sorted: &Vec<DpbEntry>, poc: i32, descending: bool) -> (at: usize)
    ensures
        at as int == insert_position(sorted@, poc, descending),
        at <= sorted@.len(),
{
    let mut at: usize = 0;
    assert(sorted@.subrange(0, sorted@.len() as int) =~= sorted@);
    while at < sorted.len() && leads(sorted[at].poc, poc, descending)
        invariant
            0 <= at <= sorted@.len(),
            insert_position(sorted@, poc, descending) == at + insert_position(
                sorted@.subrange(at as int, sorted@.len() as int),
                poc,
                descending,
            ),
        decreases sorted@.len() - at,
    {
        proof {
            let rest = sorted@.subrange(at as int, sorted@.len() as int);
            assert(rest[0] == sorted@[at as int]);
            assert(rest.drop_first() =~= sorted@.subrange(at + 1, sorted@.len() as int));
        }
        at += 1;
    }
    proof {
        let rest = sorted@.subrange(at as int, sorted@.len() as int);
        if at < sorted@.len() {
            assert(rest[0] == sorted@[at as int]);
        }
        lemma_insert_position(sorted@, poc, descending);
    }
    at
}

/// Short-term references before (`before` set) or after the picture with
/// count `poc`, nearest first.
pub fn collect_short_term(dpb: &Vec<DpbEntry>, poc: i32, before: bool) -> (refs: Vec<DpbEntry>)
    ensures
        refs@ == if before {
            refs_before(dpb@, poc)
        } else {
            refs_after(dpb@, poc)
        },
        refs@.len() <= dpb@.len(),
{
    let ghost pred = if before {
        |e: DpbEntry| is_short_term_before(e, poc)
    } else {
        |e: DpbEntry| is_short_term_after(e, poc)
    };
    let mut refs: Vec<DpbEntry> = Vec::new();
    let mut i: usize = 0;
    proof {
        reveal(Seq::filter);
        assert(dpb@.subrange(0, 0) =~= Seq::<DpbEntry>::empty());
    }
    while i < dpb.len()
        invariant
            0 <= i <= dpb@.len(),
            pred == if before {
                |e: DpbEntry| is_short_term_before(e, poc)
            } else {
                |e: DpbEntry| is_short_term_after(e, poc)
            },
            refs@ == ordered_by_poc(dpb@.subrange(0, i as int).filter(pred), before),
            refs@.len() <= i,
        decreases dpb@.len() - i,
    {
        let entry = dpb[i];
        proof {
            reveal(Seq::filter);
            let next = dpb@.subrange(0, i + 1);
            assert(next.drop_last() =~= dpb@.subrange(0, i as int));
            assert(next.last() == entry);
            let kept = next.filter(pred);
            if pred(entry) {
                assert(kept.drop_last() =~= dpb@.subrange(0, i as int).filter(pred));
                assert(kept.last() == entry);
            }
        }
        let wanted = entry.is_reference && !entry.is_long_term && (if before {
            entry.poc < poc
        } else {
            entry.poc > poc
        });
        if wanted {
            let at = find_insert_position(&refs, entry.poc, before);
            refs.insert(at, entry);
        }
        i += 1;
    }
    assert(dpb@.subrange(0, i as int) =~= dpb@);
    refs
}

/// Long-term references, in buffer order.
pub fn collect_long_term(dpb: &Vec<DpbEntry>) -> (refs: Vec<DpbEntry>)
    ensures
        refs@ == refs_long_term(dpb@),
        refs@.len() <= dpb@.len(),
{
    let mut refs: Vec<DpbEntry> = Vec::new();
    let mut i: usize = 0;
    proof {
        reveal(Seq::filter);
        assert(dpb@.subrange(0, 0) =~= Seq::<DpbEntry>::empty());
    }
    while i < dpb.len()
        invariant
            0 <= i <= dpb@.len(),
            refs@ == refs_long_term(dpb@.subrange(0, i as int)),
            refs@.len() <= i,
        decreases dpb@.len() - i,
    {
        let entry = dpb[i];
        proof {
            reveal(Seq::filter);
            let next = dpb@.subrange(0, i + 1);
            assert(next.drop_last() =~= dpb@.subrange(0, i as int));
            assert(next.last() == entry);
        }
        if entry.is_reference && entry.is_long_term {
            refs.push(entry);
        }
        i += 1;
    }
    assert(dpb@.subrange(0, i as int) =~= dpb@);
    refs
}

} // verus!
