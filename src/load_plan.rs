//! The load plan of an image: the lowest virtual address of its loadable
//! segments and the number of pages that cover all of them from there.
use vstd::prelude::*;

use crate::elf::{ProgramHeader, PT_LOAD};

verus! {

/// Size in bytes of one page.
pub const PAGE_SIZE: u64 = 4096;

pub open spec fn is_loadable(p: ProgramHeader) -> bool {
    p.p_type == PT_LOAD
}

/// First address past the memory image of `p`.
pub open spec fn segment_end(p: ProgramHeader) -> int {
    p.p_vaddr + p.p_memsz
}

pub open spec fn has_loadable(segs: Seq<ProgramHeader>) -> bool {
    exists|i: int| 0 <= i < segs.len() && is_loadable(#[trigger] segs[i])
}

/// The lowest virtual address of a loadable segment, or `u64::MAX` when there
/// is none.
pub open spec fn lowest_vaddr(segs: Seq<ProgramHeader>) -> int
    decreases segs.len(),
{
    if segs.len() == 0 {
        u64::MAX as int
    } else {
        let rest = lowest_vaddr(segs.drop_last());
        let p = segs.last();
        if is_loadable(p) && p.p_vaddr < rest {
            p.p_vaddr as int
        } else {
            rest
        }
    }
}

/// The highest end address of a loadable segment, or 0 when there is none.
pub open spec fn highest_end(segs: Seq<ProgramHeader>) -> int
    decreases segs.len(),
{
    if segs.len() == 0 {
        0
    } else {
        let rest = highest_end(segs.drop_last());
        let p = segs.last();
        if is_loadable(p) && segment_end(p) > rest {
            segment_end(p)
        } else {
            rest
        }
    }
}

/// Whole pages from the lowest address to the highest end of the loadable
/// segments; none when there is no loadable segment.
pub open spec fn page_count_of(segs: Seq<ProgramHeader>) -> int {
    if has_loadable(segs) {
        (highest_end(segs) - lowest_vaddr(segs) + (PAGE_SIZE - 1)) / PAGE_SIZE as int
    } else {
        0
    }
}

/// Where the image goes: `page_count` pages from `base_address`.
#[derive(Clone, Copy, PartialEq, Eq, Debug, Structural)]
pub struct LoadPlan {
    pub base_address: u64,
    pub page_count: u64,
}

/// `lowest_vaddr` is the minimum of the loadable segments' virtual
/// addresses, and `highest_end` the maximum of their end addresses.
pub proof fn lemma_extremes(segs: Seq<ProgramHeader>)
    ensures
        forall|i: int|
            0 <= i < segs.len() && is_loadable(#[trigger] segs[i]) ==> lowest_vaddr(segs)
                <= segs[i].p_vaddr && segment_end(segs[i]) <= highest_end(segs),
        has_loadable(segs) ==> exists|i: int|
            0 <= i < segs.len() && is_loadable(#[trigger] segs[i]) && lowest_vaddr(segs)
                == segs[i].p_vaddr,
        has_loadable(segs) ==> exists|i: int|
            0 <= i < segs.len() && is_loadable(#[trigger] segs[i]) && highest_end(segs)
                == segment_end(segs[i]),
        !has_loadable(segs) ==> lowest_vaddr(segs) == u64::MAX && highest_end(segs) == 0,
        0 <= highest_end(segs) <= 2 * (u64::MAX as int),
        0 <= lowest_vaddr(segs) <= u64::MAX,
    decreases segs.len(),
{
    if segs.len() > 0 {
        let rest = segs.drop_last();
        lemma_extremes(rest);
        let n = segs.len() - 1;
        assert forall|i: int|
            0 <= i < segs.len() && is_loadable(#[trigger] segs[i]) implies lowest_vaddr(segs)
                <= segs[i].p_vaddr && segment_end(segs[i]) <= highest_end(segs) by {
            if i < n {
                assert(rest[i] == segs[i]);
            }
        }
        if has_loadable(rest) {
            let j = choose|j: int| 0 <= j < rest.len() && is_loadable(#[trigger] rest[j]);
            assert(is_loadable(segs[j]));
        }
        if has_loadable(segs) && !has_loadable(rest) {
            let j = choose|j: int| 0 <= j < segs.len() && is_loadable(#[trigger] segs[j]);
            if j < n {
                assert(is_loadable(rest[j]));
            }
            assert(is_loadable(segs[n]));
        }
        if !has_loadable(segs) {
            assert(!is_loadable(segs[n]));
            if has_loadable(rest) {
                let j = choose|j: int| 0 <= j < rest.len() && is_loadable(#[trigger] rest[j]);
                assert(is_loadable(segs[j]));
            }
        }
    }
}

/// For every image, the plan's base is the minimum of the loadable segments'
/// virtual addresses `v_i`, and its page count is
/// `ceil((max(v_i + m_i) - base) / PAGE_SIZE)` with `m_i` the in-memory sizes.
pub proof fn lemma_load_plan_extremal(segs: Seq<ProgramHeader>)
    requires
        has_loadable(segs),
    ensures
        forall|i: int|
            0 <= i < segs.len() && is_loadable(#[trigger] segs[i]) ==> lowest_vaddr(segs)
                <= segs[i].p_vaddr,
        exists|i: int|
            0 <= i < segs.len() && is_loadable(#[trigger] segs[i]) && lowest_vaddr(segs)
                == segs[i].p_vaddr,
        forall|i: int|
            0 <= i < segs.len() && is_loadable(#[trigger] segs[i]) ==> segment_end(segs[i])
                <= highest_end(segs),
        exists|i: int|
            0 <= i < segs.len() && is_loadable(#[trigger] segs[i]) && highest_end(segs)
                == segment_end(segs[i]),
        lowest_vaddr(segs) <= highest_end(segs),
        page_count_of(segs) * PAGE_SIZE >= highest_end(segs) - lowest_vaddr(segs),
        (page_count_of(segs) - 1) * PAGE_SIZE < highest_end(segs) - lowest_vaddr(segs)
            || page_count_of(segs) == 0,
{
    lemma_extremes(segs);
    let j = choose|j: int|
        0 <= j < segs.len() && is_loadable(#[trigger] segs[j]) && lowest_vaddr(segs)
            == segs[j].p_vaddr;
    assert(segment_end(segs[j]) <= highest_end(segs));
    let span = highest_end(segs) - lowest_vaddr(segs);
    let n = page_count_of(segs);
    assert(n == (span + 4095) / 4096);
    assert(n * 4096 >= span && ((n - 1) * 4096 < span || n == 0)) by (nonlinear_arith)
        requires
            n == (span + 4095) / 4096,
            span >= 0,
    ;
}

/// The plan does not depend on the order of the program header table: two
/// tables that hold the same entries give the same base and page count.
pub proof fn lemma_load_plan_order_independent(a: Seq<ProgramHeader>, b: Seq<ProgramHeader>)
    requires
        a.to_multiset() == b.to_multiset(),
    ensures
        has_loadable(a) == has_loadable(b),
        lowest_vaddr(a) == lowest_vaddr(b),
        highest_end(a) == highest_end(b),
        page_count_of(a) == page_count_of(b),
{
    lemma_extremes(a);
    lemma_extremes(b);
    assert(forall|p: ProgramHeader| a.contains(p) <==> b.contains(p)) by {
        assert forall|p: ProgramHeader| a.contains(p) <==> b.contains(p) by {
            vstd::seq_lib::to_multiset_contains(a, p);
            vstd::seq_lib::to_multiset_contains(b, p);
        }
    }
    if has_loadable(a) {
        let j = choose|j: int| 0 <= j < a.len() && is_loadable(#[trigger] a[j]);
        assert(a.contains(a[j]));
        let k = choose|k: int| 0 <= k < b.len() && b[k] == a[j];
        assert(is_loadable(b[k]));
    }
    if has_loadable(b) {
        let j = choose|j: int| 0 <= j < b.len() && is_loadable(#[trigger] b[j]);
        assert(b.contains(b[j]));
        let k = choose|k: int| 0 <= k < a.len() && a[k] == b[j];
        assert(is_loadable(a[k]));
    }
    if has_loadable(a) {
        let ia = choose|i: int|
            0 <= i < a.len() && is_loadable(#[trigger] a[i]) && lowest_vaddr(a) == a[i].p_vaddr;
        assert(a.contains(a[ia]));
        let kb = choose|k: int| 0 <= k < b.len() && b[k] == a[ia];
        assert(is_loadable(b[kb]));
        let ib = choose|i: int|
            0 <= i < b.len() && is_loadable(#[trigger] b[i]) && lowest_vaddr(b) == b[i].p_vaddr;
        assert(b.contains(b[ib]));
        let ka = choose|k: int| 0 <= k < a.len() && a[k] == b[ib];
        assert(is_loadable(a[ka]));
        let ea = choose|i: int|
            0 <= i < a.len() && is_loadable(#[trigger] a[i]) && highest_end(a) == segment_end(
                a[i],
            );
        assert(a.contains(a[ea]));
        let fb = choose|k: int| 0 <= k < b.len() && b[k] == a[ea];
        assert(is_loadable(b[fb]));
        let eb = choose|i: int|
            0 <= i < b.len() && is_loadable(#[trigger] b[i]) && highest_end(b) == segment_end(
                b[i],
            );
        assert(b.contains(b[eb]));
        let fa = choose|k: int| 0 <= k < a.len() && a[k] == b[eb];
        assert(is_loadable(a[fa]));
    }
}

/// Computing the plan again on the same table gives the same plan.
pub proof fn lemma_load_plan_idempotent(a: Seq<ProgramHeader>, b: Seq<ProgramHeader>)
    requires
        a == b,
    ensures
        lowest_vaddr(a) == lowest_vaddr(b),
        page_count_of(a) == page_count_of(b),
{
}

} // verus!
