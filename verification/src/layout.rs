use vstd::prelude::*;
use vstd::arithmetic::mul::{lemma_mul_inequality, lemma_mul_is_distributive_add, lemma_mul_nonnegative};
use crate::platform::{Family, Platform, spec_family};

verus! {

/// What the front end must emit for one collection on one platform so that
/// the merged section survives linking with correct boundaries.
pub struct EmissionPlan {
    /// The section (or each of its fragments) must carry the toolchain's
    /// "keep even if unreferenced" annotation; dead-section elimination
    /// would otherwise strip it, even for zero-element collections.
    pub retain: bool,
    /// A zero-sized, always-present placeholder element must be emitted:
    /// the link editor would drop an entirely empty named section before
    /// the boundary symbols can bind to it.
    pub empty_placeholder: bool,
    /// Zero-sized markers must be emitted into the leading and trailing
    /// sub-sections of the group; their addresses are the boundaries.
    pub subsection_markers: bool,
}

/// The emission rules for platform `p`, for a collection that may turn out
/// empty when `may_be_empty` holds.
pub fn emission_plan(p: Platform, may_be_empty: bool) -> (r: EmissionPlan)
    ensures
        r.retain,
        r.empty_placeholder == (spec_family(p) == Family::MachO && may_be_empty),
        r.subsection_markers == (spec_family(p) == Family::CoffSubsections),
{
    let f = crate::platform::family(p);
    EmissionPlan {
        retain: true,
        empty_placeholder: f == Family::MachO && may_be_empty,
        subsection_markers: f == Family::CoffSubsections,
    }
}

/// The sub-section a fragment is emitted into, on the family without native
/// boundary symbols. The link editor lays same-named sub-sections out in
/// ascending suffix order, so everything in `Lead` precedes everything in
/// `Body`, which precedes everything in `Trail`.
#[derive(Clone, Copy, PartialEq, Eq, Structural, Debug)]
pub enum Partition {
    /// The leading sub-section; holds the zero-sized start marker.
    Lead,
    /// The data sub-section; holds every contributed element.
    Body,
    /// The trailing sub-section; holds the zero-sized stop marker.
    Trail,
}

/// One compilation unit's contribution to one partition of a section,
/// in the order the unit emitted it.
pub struct Fragment<T> {
    pub partition: Partition,
    pub elements: Vec<T>,
}

/// The elements of every fragment of `frags` emitted into `part`, in link
/// order.
pub open spec fn payloads_of<T>(frags: Seq<Fragment<T>>, part: Partition) -> Seq<T>
    decreases frags.len(),
{
    if frags.len() == 0 {
        Seq::empty()
    } else {
        payloads_of(frags.drop_last(), part) + (if frags.last().partition == part {
            frags.last().elements@
        } else {
            Seq::<T>::empty()
        })
    }
}

/// The merged section contents after linking: the lead block, then every
/// body contribution in link order, then the trail block.
pub open spec fn spec_merge<T>(frags: Seq<Fragment<T>>) -> Seq<T> {
    payloads_of(frags, Partition::Lead) + payloads_of(frags, Partition::Body) + payloads_of(
        frags,
        Partition::Trail,
    )
}

/// The total number of elements contributed by `frags`, over all partitions.
pub open spec fn total_len<T>(frags: Seq<Fragment<T>>) -> nat
    decreases frags.len(),
{
    if frags.len() == 0 {
        0
    } else {
        total_len(frags.drop_last()) + frags.last().elements@.len()
    }
}

/// Appends every element of `frags[i].elements`, for fragments of partition
/// `part`, onto `out`, in link order.
fn append_partition<T: Copy>(out: &mut Vec<T>, frags: &Vec<Fragment<T>>, part: Partition)
    ensures
        final(out)@ == old(out)@ + payloads_of(frags@, part),
{
    let mut i: usize = 0;
    while i < frags.len()
        invariant
            i <= frags@.len(),
            out@ == old(out)@ + payloads_of(frags@.take(i as int), part),
        decreases frags@.len() - i,
    {
        let frag = &frags[i];
        if frag.partition == part {
            let mut j: usize = 0;
            while j < frag.elements.len()
                invariant
                    j <= frag.elements@.len(),
                    frags@[i as int] == *frag,
                    out@ == old(out)@ + payloads_of(frags@.take(i as int), part)
                        + frag.elements@.take(j as int),
                decreases frag.elements@.len() - j,
            {
                let e = frag.elements[j];
                out.push(e);
                proof {
                    assert(frag.elements@.take(j as int).push(frag.elements@[j as int])
                        =~= frag.elements@.take(j as int + 1));
                }
                j += 1;
            }
            proof {
                assert(frag.elements@.take(frag.elements@.len() as int) =~= frag.elements@);
            }
        }
        proof {
            let pre = frags@.take(i as int);
            let ext = frags@.take(i as int + 1);
            assert(ext.drop_last() =~= pre);
            assert(ext.last() == frags@[i as int]);
            if frags@[i as int].partition == part {
                assert(out@ =~= old(out)@ + payloads_of(ext, part));
            } else {
                assert(payloads_of(ext, part) =~= payloads_of(pre, part));
                assert(out@ =~= old(out)@ + payloads_of(ext, part));
            }
        }
        i += 1;
    }
    proof {
        assert(frags@.take(frags@.len() as int) =~= frags@);
    }
}

/// The link editor's merge of the fragments of one named section group:
/// ascending partition suffix first, link order within each partition. The
/// result is exactly the lead block, then every body contribution in link
/// order, then the trail block — the ordering the boundary addresses rely
/// on.
pub fn merge_fragments<T: Copy>(frags: &Vec<Fragment<T>>) -> (r: Vec<T>)
    ensures
        r@ == spec_merge(frags@),
{
    let mut out: Vec<T> = Vec::new();
    append_partition(&mut out, frags, Partition::Lead);
    append_partition(&mut out, frags, Partition::Body);
    append_partition(&mut out, frags, Partition::Trail);
    out
}

/// Count correctness of the merge: every contributed element lands in the
/// merged section exactly once, so the merged length is the total number of
/// elements, however many compilation units contributed them.
pub proof fn lemma_merge_count<T>(frags: Seq<Fragment<T>>)
    ensures
        spec_merge(frags).len() == total_len(frags),
    decreases frags.len(),
{
    if frags.len() > 0 {
        lemma_merge_count(frags.drop_last());
    }
}

/// Fragments of `part` contribute nothing when each of them is empty.
proof fn lemma_empty_partition<T>(frags: Seq<Fragment<T>>, part: Partition)
    requires
        forall|i: int|
            0 <= i < frags.len() && frags[i].partition == part ==> frags[i].elements@.len() == 0,
    ensures
        payloads_of(frags, part).len() == 0,
    decreases frags.len(),
{
    if frags.len() > 0 {
        assert(forall|i: int|
            0 <= i < frags.drop_last().len() && frags.drop_last()[i].partition == part
                ==> frags.drop_last()[i].elements@.len() == 0);
        lemma_empty_partition(frags.drop_last(), part);
    }
}

/// The boundary markers are zero-sized, so they contribute no elements: when
/// every lead and trail fragment is empty — as the protocol's markers are —
/// the merged section contents are exactly the body contributions, in link
/// order. The markers only pin the boundary addresses.
pub proof fn lemma_markers_contribute_nothing<T>(frags: Seq<Fragment<T>>)
    requires
        forall|i: int|
            0 <= i < frags.len() && frags[i].partition != Partition::Body ==> frags[i].elements@.len()
                == 0,
    ensures
        spec_merge(frags) == payloads_of(frags, Partition::Body),
{
    lemma_empty_partition(frags, Partition::Lead);
    lemma_empty_partition(frags, Partition::Trail);
    assert(spec_merge(frags) =~= payloads_of(frags, Partition::Body));
}

/// Stability under rebuild: the merged contents are a pure function of the
/// fragment list, so rebuilding from unchanged fragments in the same link
/// order yields the same element order.
pub proof fn lemma_merge_stable<T>(a: Seq<Fragment<T>>, b: Seq<Fragment<T>>)
    requires
        a == b,
    ensures
        spec_merge(a) == spec_merge(b),
{
}

/// A collection's backing memory as the link editor laid it out: a run of
/// equally sized elements starting at the start boundary's address, with no
/// padding between adjacent elements.
pub struct LinkedSection<T> {
    /// Address of the start boundary, which is also the first element's
    /// address.
    pub start: usize,
    /// Size in bytes of the element type; every element occupies exactly
    /// this much, so the run is gap-free.
    pub elem_size: usize,
    /// The elements in their physical order in the image.
    pub elements: Vec<T>,
}

impl<T> LinkedSection<T> {
    /// Layout-protocol invariant: elements have positive size and the whole
    /// run fits in the address space.
    pub open spec fn wf(self) -> bool {
        self.elem_size >= 1 && self.start + self.elements@.len() * self.elem_size <= usize::MAX
    }

    /// Address of element `i`: the start address plus `i` element sizes.
    pub open spec fn spec_elem_addr(self, i: int) -> int {
        self.start + i * self.elem_size
    }

    /// Address of the stop boundary: one past the last element.
    pub open spec fn spec_stop(self) -> int {
        self.start + self.elements@.len() * self.elem_size
    }

    /// The stop boundary's address.
    pub fn stop_addr(&self) -> (r: usize)
        requires
            self.wf(),
        ensures
            r == self.spec_stop(),
    {
        proof {
            lemma_mul_nonnegative(self.elements@.len() as int, self.elem_size as int);
        }
        self.start + self.elements.len() * self.elem_size
    }

    /// The memory-safety heart of the layout: every element lies entirely
    /// between the two boundary addresses, and adjacent elements are exactly
    /// one element size apart — no gaps, no overlap with the boundaries.
    pub proof fn lemma_element_addresses(self, i: int)
        requires
            self.wf(),
            0 <= i < self.elements@.len(),
        ensures
            self.start <= self.spec_elem_addr(i),
            self.spec_elem_addr(i) + self.elem_size <= self.spec_stop(),
            self.spec_elem_addr(i + 1) == self.spec_elem_addr(i) + self.elem_size,
    {
        lemma_mul_nonnegative(i, self.elem_size as int);
        lemma_mul_inequality(i + 1, self.elements@.len() as int, self.elem_size as int);
        lemma_mul_is_distributive_add(self.elem_size as int, i, 1);
    }
}

/// Places a gap-free run of `elements` of size `elem_size` at address
/// `start`, as the link editor does when it assigns the merged section its
/// base address. Succeeds exactly when the element size is positive and the
/// whole run fits in the address space.
pub fn place_section<T>(start: usize, elem_size: usize, elements: Vec<T>) -> (r: Option<
    LinkedSection<T>,
>)
    ensures
        r is Some <==> elem_size >= 1 && start + elements@.len() * elem_size <= usize::MAX,
        r matches Some(s) ==> s.start == start && s.elem_size == elem_size && s.elements@
            == elements@ && s.wf(),
{
    if elem_size == 0 {
        return None;
    }
    let span = match elements.len().checked_mul(elem_size) {
        Some(b) => b,
        None => {
            proof {
                lemma_mul_nonnegative(elements@.len() as int, elem_size as int);
            }
            return None;
        },
    };
    if span > usize::MAX - start {
        return None;
    }
    Some(LinkedSection { start, elem_size, elements })
}

} // verus!
