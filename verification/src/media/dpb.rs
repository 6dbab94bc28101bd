//! The decoded picture buffer as a sequence of entries, and what the decoder
//! does to it: dropping a surface, evicting the oldest picture, adding one.

use vstd::prelude::*;

verus! {

/// Reference picture entry in the decoded picture buffer.
#[derive(Debug, Clone, Copy)]
pub struct DpbEntry {
    /// Surface index in the texture array
    pub surface_index: u8,
    /// Picture order count (the full count, not just its low bits)
    pub poc: i32,
    /// Is this a reference frame
    pub is_reference: bool,
    /// Is this a long-term reference
    pub is_long_term: bool,
    /// Frame number: the decode order of the picture
    pub frame_num: u64,
}

impl Default for DpbEntry {
    fn default() -> (entry: Self)
        ensures
            entry == (DpbEntry {
                surface_index: 0,
                poc: 0,
                is_reference: false,
                is_long_term: false,
                frame_num: 0,
            }),
    {
        DpbEntry { surface_index: 0, poc: 0, is_reference: false, is_long_term: false, frame_num: 0 }
    }
}

/// The tag under which the buffer tracks surface `index`: its low eight bits.
pub open spec fn surface_tag(index: int) -> u8 {
    (index % 256) as u8
}

/// Whether some entry of `dpb` holds the surface with this tag.
pub open spec fn holds_surface(dpb: Seq<DpbEntry>, tag: u8) -> bool {
    exists|i: int| 0 <= i < dpb.len() && #[trigger] dpb[i].surface_index == tag
}

/// No two entries share a surface.
pub open spec fn unique_surfaces(dpb: Seq<DpbEntry>) -> bool {
    forall|i: int, j: int|
        0 <= i < j < dpb.len() ==> #[trigger] dpb[i].surface_index != #[trigger] dpb[j].surface_index
}

/// Every entry names a surface of a pool of `surface_count` surfaces.
pub open spec fn surfaces_in_pool(dpb: Seq<DpbEntry>, surface_count: int) -> bool {
    forall|i: int| 0 <= i < dpb.len() ==> (#[trigger] dpb[i]).surface_index < surface_count
}

/// The entries stand in decode order: the frame numbers grow along the
/// buffer, and none lies beyond `frame_count`.
pub open spec fn in_decode_order(dpb: Seq<DpbEntry>, frame_count: int) -> bool {
    &&& forall|i: int, j: int|
        0 <= i < j < dpb.len() ==> (#[trigger] dpb[i]).frame_num < (#[trigger] dpb[j]).frame_num
    &&& forall|i: int| 0 <= i < dpb.len() ==> (#[trigger] dpb[i]).frame_num <= frame_count
}

/// `dpb` without the entries that hold the surface with this tag.
pub open spec fn without_surface(dpb: Seq<DpbEntry>, tag: u8) -> Seq<DpbEntry> {
    dpb.filter(|e: DpbEntry| e.surface_index != tag)
}

/// Whether `k` is the position of the oldest entry: the first one whose
/// frame number is the smallest.
pub open spec fn is_oldest(dpb: Seq<DpbEntry>, k: int) -> bool {
    &&& 0 <= k < dpb.len()
    &&& forall|j: int| 0 <= j < dpb.len() ==> dpb[k].frame_num <= (#[trigger] dpb[j]).frame_num
    &&& forall|j: int| 0 <= j < k ==> dpb[k].frame_num < (#[trigger] dpb[j]).frame_num
}

/// Position of the oldest entry of a buffer that is not empty.
pub open spec fn oldest_position(dpb: Seq<DpbEntry>) -> int {
    choose|k: int| is_oldest(dpb, k)
}

/// `dpb` after its oldest entry was evicted `count` times over, or until it
/// was empty.
pub open spec fn evict_count(dpb: Seq<DpbEntry>, count: int) -> Seq<DpbEntry>
    decreases count,
{
    if count <= 0 || dpb.len() == 0 {
        dpb
    } else {
        evict_count(dpb.remove(oldest_position(dpb)), count - 1)
    }
}

/// `dpb` after oldest entries were evicted, one at a time, until fewer than
/// `limit` are left.
pub open spec fn evict_to(dpb: Seq<DpbEntry>, limit: int) -> Seq<DpbEntry> {
    evict_count(dpb, dpb.len() - limit + 1)
}

/// The entry that a decoded reference picture gets.
pub open spec fn reference_entry(surface_idx: int, poc: i32, frame_num: u64) -> DpbEntry {
    DpbEntry {
        surface_index: surface_tag(surface_idx),
        poc,
        is_reference: true,
        is_long_term: false,
        frame_num,
    }
}

/// The buffer after a picture was decoded into surface `surface_idx`: an IDR
/// picture empties it first; entries that held the surface go; the oldest
/// entries go until there is room; a reference picture is added at the end.
pub open spec fn dpb_after_picture(
    dpb: Seq<DpbEntry>,
    surface_idx: int,
    poc: i32,
    is_reference: bool,
    is_idr: bool,
    frame_num: u64,
    limit: int,
) -> Seq<DpbEntry> {
    let start = if is_idr {
        Seq::<DpbEntry>::empty()
    } else {
        dpb
    };
    let kept = evict_to(without_surface(start, surface_tag(surface_idx)), limit);
    if is_reference {
        kept.push(reference_entry(surface_idx, poc, frame_num))
    } else {
        kept
    }
}

/// A buffer that is not empty has exactly one oldest position.
pub proof fn lemma_oldest_unique(dpb: Seq<DpbEntry>, k: int)
    requires
        is_oldest(dpb, k),
    ensures
        oldest_position(dpb) == k,
{
    let c = oldest_position(dpb);
    assert(is_oldest(dpb, c));
    if c < k {
        assert(dpb[k].frame_num < dpb[c].frame_num);
        assert(dpb[c].frame_num <= dpb[k].frame_num);
    } else if k < c {
        assert(dpb[c].frame_num < dpb[k].frame_num);
        assert(dpb[k].frame_num <= dpb[c].frame_num);
    }
}

/// Every entry left by `without_surface` is an entry of `dpb` with another
/// tag, and what was true of the surfaces of `dpb` is still true.
pub proof fn lemma_without_surface(dpb: Seq<DpbEntry>, tag: u8, surface_count: int)
    ensures
        !holds_surface(without_surface(dpb, tag), tag),
        forall|i: int|
            0 <= i < without_surface(dpb, tag).len() ==> dpb.contains(
                #[trigger] without_surface(dpb, tag)[i],
            ),
        without_surface(dpb, tag).len() <= dpb.len(),
        unique_surfaces(dpb) ==> unique_surfaces(without_surface(dpb, tag)),
        surfaces_in_pool(dpb, surface_count) ==> surfaces_in_pool(
            without_surface(dpb, tag),
            surface_count,
        ),
        !holds_surface(dpb, tag) ==> without_surface(dpb, tag) == dpb,
    decreases dpb.len(),
{
    reveal(Seq::filter);
    let out = without_surface(dpb, tag);
    if dpb.len() > 0 {
        let front = dpb.drop_last();
        let last = dpb.last();
        let sub = without_surface(front, tag);
        lemma_without_surface(front, tag, surface_count);
        assert(forall|i: int| 0 <= i < front.len() ==> front[i] == dpb[i]);
        assert(out == if last.surface_index != tag {
            sub.push(last)
        } else {
            sub
        });
        assert forall|i: int| 0 <= i < out.len() implies dpb.contains(#[trigger] out[i]) by {
            if i < sub.len() {
                assert(front.contains(sub[i]));
                let j = choose|j: int| 0 <= j < front.len() && front[j] == sub[i];
                assert(dpb[j] == out[i]);
            } else {
                assert(dpb[dpb.len() - 1] == out[i]);
            }
        }
        if unique_surfaces(dpb) {
            assert(unique_surfaces(front));
            assert forall|i: int, j: int| 0 <= i < j < out.len() implies #[trigger] out[i].surface_index
                != #[trigger] out[j].surface_index by {
                if j == sub.len() {
                    assert(front.contains(sub[i]));
                    let a = choose|a: int| 0 <= a < front.len() && front[a] == sub[i];
                    assert(dpb[a].surface_index != dpb[dpb.len() - 1].surface_index);
                }
            }
        }
        if surfaces_in_pool(dpb, surface_count) {
            assert(surfaces_in_pool(front, surface_count));
        }
        if !holds_surface(dpb, tag) {
            assert(dpb[dpb.len() - 1].surface_index != tag);
            assert(!holds_surface(front, tag)) by {
                if holds_surface(front, tag) {
                    let a = choose|a: int| 0 <= a < front.len() && front[a].surface_index == tag;
                    assert(dpb[a].surface_index == tag);
                }
            }
            assert(out =~= dpb);
        }
    }
}

/// Dropping a surface keeps the entries in decode order.
pub proof fn lemma_without_surface_keeps_order(dpb: Seq<DpbEntry>, tag: u8, frame_count: int)
    requires
        in_decode_order(dpb, frame_count),
    ensures
        in_decode_order(without_surface(dpb, tag), frame_count),
    decreases dpb.len(),
{
    reveal(Seq::filter);
    let out = without_surface(dpb, tag);
    if dpb.len() > 0 {
        let n = dpb.len() - 1;
        let front = dpb.drop_last();
        let last = dpb.last();
        let sub = without_surface(front, tag);
        assert(forall|i: int| 0 <= i < front.len() ==> front[i] == dpb[i]);
        lemma_without_surface_keeps_order(front, tag, frame_count);
        lemma_without_surface(front, tag, 256);
        assert(out == if last.surface_index != tag {
            sub.push(last)
        } else {
            sub
        });
        assert forall|i: int, j: int| 0 <= i < j < out.len() implies (#[trigger] out[i]).frame_num < (
        #[trigger] out[j]).frame_num by {
            if j == sub.len() {
                assert(front.contains(sub[i]));
                let a = choose|a: int| 0 <= a < front.len() && front[a] == sub[i];
                assert(dpb[a].frame_num < dpb[n].frame_num);
            } else {
                assert(sub[i].frame_num < sub[j].frame_num);
            }
        }
        assert forall|i: int| 0 <= i < out.len() implies (#[trigger] out[i]).frame_num
            <= frame_count by {
            if i < sub.len() {
                assert(sub[i].frame_num <= frame_count);
            } else {
                assert(dpb[n].frame_num <= frame_count);
            }
        }
    }
}

/// Removing one entry keeps the others in decode order.
pub proof fn lemma_remove_keeps_order(dpb: Seq<DpbEntry>, k: int, frame_count: int)
    requires
        0 <= k < dpb.len(),
        in_decode_order(dpb, frame_count),
    ensures
        in_decode_order(dpb.remove(k), frame_count),
{
    let out = dpb.remove(k);
    assert forall|i: int, j: int| 0 <= i < j < out.len() implies (#[trigger] out[i]).frame_num < (
    #[trigger] out[j]).frame_num by {
        let a = if i < k { i } else { i + 1 };
        let b = if j < k { j } else { j + 1 };
        assert(dpb[a].frame_num < dpb[b].frame_num);
    }
    assert forall|i: int| 0 <= i < out.len() implies (#[trigger] out[i]).frame_num
        <= frame_count by {
        let a = if i < k { i } else { i + 1 };
        assert(dpb[a].frame_num <= frame_count);
    }
}

/// In a buffer in decode order the first entry is the oldest, so evicting
/// the first entry and evicting the oldest one are the same.
pub proof fn lemma_first_is_oldest(dpb: Seq<DpbEntry>, frame_count: int)
    requires
        dpb.len() > 0,
        in_decode_order(dpb, frame_count),
    ensures
        is_oldest(dpb, 0),
        oldest_position(dpb) == 0,
{
    assert forall|j: int| 0 <= j < dpb.len() implies dpb[0].frame_num <= (#[trigger] dpb[j]).frame_num by {
        if j > 0 {
            assert(dpb[0].frame_num < dpb[j].frame_num);
        }
    }
    assert(is_oldest(dpb, 0));
    lemma_oldest_unique(dpb, 0);
}

/// Evicting oldest entries keeps the others in decode order.
pub proof fn lemma_evict_keeps_order(dpb: Seq<DpbEntry>, count: int, frame_count: int)
    requires
        in_decode_order(dpb, frame_count),
    ensures
        in_decode_order(evict_count(dpb, count), frame_count),
    decreases count,
{
    if count > 0 && dpb.len() > 0 {
        lemma_oldest_exists(dpb);
        let k = oldest_position(dpb);
        lemma_remove_keeps_order(dpb, k, frame_count);
        lemma_evict_keeps_order(dpb.remove(k), count - 1, frame_count);
    }
}

/// A picture that was decoded leaves the buffer in decode order, under the
/// frame number that it got.
pub proof fn lemma_picture_keeps_order(
    dpb: Seq<DpbEntry>,
    surface_idx: int,
    poc: i32,
    is_reference: bool,
    is_idr: bool,
    frame_count: int,
    limit: int,
)
    requires
        in_decode_order(dpb, frame_count),
        0 <= frame_count < u64::MAX,
    ensures
        in_decode_order(
            dpb_after_picture(
                dpb,
                surface_idx,
                poc,
                is_reference,
                is_idr,
                (frame_count + 1) as u64,
                limit,
            ),
            frame_count + 1,
        ),
{
    let start = if is_idr {
        Seq::<DpbEntry>::empty()
    } else {
        dpb
    };
    let tag = surface_tag(surface_idx);
    let cut = without_surface(start, tag);
    lemma_without_surface_keeps_order(start, tag, frame_count);
    lemma_evict_keeps_order(cut, cut.len() - limit + 1, frame_count);
    let kept = evict_to(cut, limit);
    if is_reference {
        let entry = reference_entry(surface_idx, poc, (frame_count + 1) as u64);
        let out = kept.push(entry);
        assert forall|i: int, j: int| 0 <= i < j < out.len() implies (#[trigger] out[i]).frame_num < (
        #[trigger] out[j]).frame_num by {
            if j == kept.len() {
                assert(kept[i].frame_num <= frame_count);
            } else {
                assert(kept[i].frame_num < kept[j].frame_num);
            }
        }
        assert forall|i: int| 0 <= i < out.len() implies (#[trigger] out[i]).frame_num <= frame_count
            + 1 by {
            if i < kept.len() {
                assert(kept[i].frame_num <= frame_count);
            }
        }
    } else {
        assert forall|i: int| 0 <= i < kept.len() implies (#[trigger] kept[i]).frame_num
            <= frame_count + 1 by {
            assert(kept[i].frame_num <= frame_count);
        }
    }
}

/// Removing one entry keeps what was true of the surfaces.
pub proof fn lemma_remove_entry(dpb: Seq<DpbEntry>, k: int, surface_count: int)
    requires
        0 <= k < dpb.len(),
    ensures
        dpb.remove(k).len() == dpb.len() - 1,
        unique_surfaces(dpb) ==> unique_surfaces(dpb.remove(k)),
        unique_surfaces(dpb) ==> !holds_surface(dpb.remove(k), dpb[k].surface_index),
        surfaces_in_pool(dpb, surface_count) ==> surfaces_in_pool(dpb.remove(k), surface_count),
        forall|tag: u8| !holds_surface(dpb, tag) ==> !holds_surface(dpb.remove(k), tag),
{
    let out = dpb.remove(k);
    assert(forall|i: int| 0 <= i < k ==> out[i] == dpb[i]);
    assert(forall|i: int| k <= i < out.len() ==> out[i] == dpb[i + 1]);
    if unique_surfaces(dpb) {
        assert forall|i: int, j: int| 0 <= i < j < out.len() implies #[trigger] out[i].surface_index
            != #[trigger] out[j].surface_index by {
            let a = if i < k { i } else { i + 1 };
            let b = if j < k { j } else { j + 1 };
            assert(dpb[a].surface_index != dpb[b].surface_index);
        }
        assert forall|i: int| 0 <= i < out.len() implies #[trigger] out[i].surface_index
            != dpb[k].surface_index by {
            let a = if i < k { i } else { i + 1 };
            if a < k {
                assert(dpb[a].surface_index != dpb[k].surface_index);
            } else {
                assert(dpb[k].surface_index != dpb[a].surface_index);
            }
        }
    }
    if surfaces_in_pool(dpb, surface_count) {
        assert forall|i: int| 0 <= i < out.len() implies (#[trigger] out[i]).surface_index
            < surface_count by {
            let a = if i < k { i } else { i + 1 };
            assert(dpb[a].surface_index < surface_count);
        }
    }
    assert forall|tag: u8| !holds_surface(dpb, tag) implies !holds_surface(out, tag) by {
        if holds_surface(out, tag) {
            let i = choose|i: int| 0 <= i < out.len() && out[i].surface_index == tag;
            let a = if i < k { i } else { i + 1 };
            assert(dpb[a].surface_index == tag);
        }
    }
}

/// Evicting a number of oldest entries keeps what was true of the surfaces.
pub proof fn lemma_evict_count(dpb: Seq<DpbEntry>, count: int, surface_count: int)
    ensures
        evict_count(dpb, count).len() == if count <= 0 {
            dpb.len() as int
        } else if count >= dpb.len() {
            0
        } else {
            dpb.len() - count
        },
        unique_surfaces(dpb) ==> unique_surfaces(evict_count(dpb, count)),
        surfaces_in_pool(dpb, surface_count) ==> surfaces_in_pool(
            evict_count(dpb, count),
            surface_count,
        ),
        forall|tag: u8| !holds_surface(dpb, tag) ==> !holds_surface(evict_count(dpb, count), tag),
    decreases count,
{
    if count > 0 && dpb.len() > 0 {
        lemma_oldest_exists(dpb);
        let k = oldest_position(dpb);
        lemma_remove_entry(dpb, k, surface_count);
        lemma_evict_count(dpb.remove(k), count - 1, surface_count);
    }
}

/// Eviction leaves fewer than `limit` entries and keeps what was true of the
/// surfaces.
pub proof fn lemma_evict_to(dpb: Seq<DpbEntry>, limit: int, surface_count: int)
    requires
        limit >= 1,
    ensures
        evict_to(dpb, limit).len() < limit,
        evict_to(dpb, limit).len() <= dpb.len(),
        dpb.len() < limit ==> evict_to(dpb, limit) == dpb,
        unique_surfaces(dpb) ==> unique_surfaces(evict_to(dpb, limit)),
        surfaces_in_pool(dpb, surface_count) ==> surfaces_in_pool(
            evict_to(dpb, limit),
            surface_count,
        ),
        forall|tag: u8| !holds_surface(dpb, tag) ==> !holds_surface(evict_to(dpb, limit), tag),
{
    lemma_evict_count(dpb, dpb.len() - limit + 1, surface_count);
}

/// A buffer that is not empty has an oldest entry.
pub proof fn lemma_oldest_exists(dpb: Seq<DpbEntry>)
    requires
        dpb.len() > 0,
    ensures
        is_oldest(dpb, oldest_position(dpb)),
    decreases dpb.len(),
{
    if dpb.len() == 1 {
        assert(is_oldest(dpb, 0));
    } else {
        let front = dpb.drop_last();
        lemma_oldest_exists(front);
        let k = oldest_position(front);
        let n = dpb.len() - 1;
        assert(forall|j: int| 0 <= j < front.len() ==> front[j] == dpb[j]);
        if dpb[n].frame_num < dpb[k].frame_num {
            assert forall|j: int| 0 <= j < dpb.len() implies dpb[n].frame_num <= (
            #[trigger] dpb[j]).frame_num by {
                if j < n {
                    assert(front[k].frame_num <= front[j].frame_num);
                }
            }
            assert forall|j: int| 0 <= j < n implies dpb[n].frame_num < (#[trigger] dpb[j]).frame_num by {
                assert(front[k].frame_num <= front[j].frame_num);
            }
            assert(is_oldest(dpb, n));
        } else {
            assert forall|j: int| 0 <= j < dpb.len() implies dpb[k].frame_num <= (
            #[trigger] dpb[j]).frame_num by {
                if j < n {
                    assert(front[k].frame_num <= front[j].frame_num);
                }
            }
            assert forall|j: int| 0 <= j < k implies dpb[k].frame_num < (#[trigger] dpb[j]).frame_num by {
                assert(front[k].frame_num < front[j].frame_num);
            }
            assert(is_oldest(dpb, k));
        }
    }
}

/// Position of the oldest entry.
pub fn find_oldest(dpb: &Vec<DpbEntry>) -> (k: usize)
    requires
        dpb@.len() > 0,
    ensures
        is_oldest(dpb@, k as int),
        k as int == oldest_position(dpb@),
{
    let mut best: usize = 0;
    let mut i: usize = 1;
    while i < dpb.len()
        invariant
            1 <= i <= dpb@.len(),
            0 <= best < i,
            forall|j: int| 0 <= j < i ==> dpb@[best as int].frame_num <= (#[trigger] dpb@[j]).frame_num,
            forall|j: int|
                0 <= j < best ==> dpb@[best as int].frame_num < (#[trigger] dpb@[j]).frame_num,
        decreases dpb@.len() - i,
    {
        if dpb[i].frame_num < dpb[best].frame_num {
            best = i;
        }
        i += 1;
    }
    proof {
        lemma_oldest_unique(dpb@, best as int);
    }
    best
}

/// Drops the entries that hold the surface with this tag.
pub fn remove_surface(dpb: &Vec<DpbEntry>, tag: u8) -> (kept: Vec<DpbEntry>)
    ensures
        kept@ == without_surface(dpb@, tag),
{
    let mut kept: Vec<DpbEntry> = Vec::new();
    let mut i: usize = 0;
    proof {
        reveal(Seq::filter);
        assert(dpb@.subrange(0, 0) =~= Seq::<DpbEntry>::empty());
    }
    while i < dpb.len()
        invariant
            0 <= i <= dpb@.len(),
            kept@ == without_surface(dpb@.subrange(0, i as int), tag),
        decreases dpb@.len() - i,
    {
        let entry = dpb[i];
        proof {
            reveal(Seq::filter);
            let next = dpb@.subrange(0, i + 1);
            assert(next.drop_last() =~= dpb@.subrange(0, i as int));
            assert(next.last() == entry);
        }
        if entry.surface_index != tag {
            kept.push(entry);
        }
        i += 1;
    }
    assert(dpb@.subrange(0, i as int) =~= dpb@);
    kept
}

/// Evicts oldest entries until fewer than `limit` are left.
pub fn evict_oldest(dpb: &mut Vec<DpbEntry>, limit: usize)
    requires
        limit >= 1,
    ensures
        final(dpb)@ == evict_to(old(dpb)@, limit as int),
{
    while dpb.len() >= limit
        invariant
            limit >= 1,
            evict_count(dpb@, dpb@.len() - limit + 1) == evict_to(old(dpb)@, limit as int),
        decreases dpb@.len(),
    {
        let k = find_oldest(dpb);
        dpb.remove(k);
    }
}

/// Whether some entry holds the surface with this tag.
pub fn contains_surface(dpb: &Vec<DpbEntry>, tag: u8) -> (found: bool)
    ensures
        found == holds_surface(dpb@, tag),
{
    let mut i: usize = 0;
    while i < dpb.len()
        invariant
            0 <= i <= dpb@.len(),
            forall|j: int| 0 <= j < i ==> (#[trigger] dpb@[j]).surface_index != tag,
        decreases dpb@.len() - i,
    {
        if dpb[i].surface_index == tag {
            return true;
        }
        i += 1;
    }
    false
}

} // verus!
