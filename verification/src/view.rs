use vstd::prelude::*;
use vstd::arithmetic::div_mod::{
    lemma_div_by_multiple, lemma_fundamental_div_mod, lemma_mod_multiples_basic,
};
use vstd::arithmetic::mul::{
    lemma_mul_inequality, lemma_mul_is_commutative, lemma_mul_is_distributive_add,
    lemma_mul_nonnegative,
};
use vstd::pervasive::unreached;
use crate::layout::{lemma_merge_count, spec_merge, total_len, Fragment, LinkedSection};

verus! {

/// A violation of the section layout protocol, detected when the boundary
/// addresses are turned into a view. Every variant is process-fatal by
/// design: a corrupted linker-level layout has no recovered state.
#[derive(Clone, Copy, PartialEq, Eq, Structural, Debug)]
pub enum LayoutError {
    /// The element type has size zero, so no length can be derived from the
    /// boundary addresses.
    ZeroElementSize,
    /// The stop boundary's address lies below the start boundary's.
    InvertedBounds,
    /// The span between the boundaries is not a whole number of elements —
    /// e.g. contributors disagreed on the element size, or the toolchain did
    /// not honor the documented section-merging order.
    UnevenSpan,
    /// The length derived from the boundaries differs from the number of
    /// elements the section actually holds.
    CountMismatch,
}

/// An ordinary out-of-range failure on a view of length `len`, reported for
/// an access at `index`. Recoverable by the caller, unlike a layout
/// violation.
#[derive(Clone, Copy, PartialEq, Eq, Structural, Debug)]
pub struct OutOfRange {
    pub index: usize,
    pub len: usize,
}

/// The length derived from the two boundary addresses:
/// `(stop - start) / elem_size`, valid only when that division is exact.
/// Fails on any layout-protocol violation.
pub fn boundary_len(start: usize, stop: usize, elem_size: usize) -> (r: Result<
    usize,
    LayoutError,
>)
    ensures
        r is Ok <==> elem_size >= 1 && start <= stop && (stop - start) % (elem_size as int) == 0,
        r matches Ok(n) ==> n == (stop - start) / (elem_size as int),
        r == Err::<usize, LayoutError>(LayoutError::ZeroElementSize) <==> elem_size == 0,
        r == Err::<usize, LayoutError>(LayoutError::InvertedBounds) <==> elem_size >= 1 && stop
            < start,
        r == Err::<usize, LayoutError>(LayoutError::UnevenSpan) <==> elem_size >= 1 && start
            <= stop && (stop - start) % (elem_size as int) != 0,
{
    if elem_size == 0 {
        return Err(LayoutError::ZeroElementSize);
    }
    if stop < start {
        return Err(LayoutError::InvertedBounds);
    }
    let span = stop - start;
    if span % elem_size != 0 {
        return Err(LayoutError::UnevenSpan);
    }
    Ok(span / elem_size)
}

/// The program-lifetime view of one collection: the start boundary's
/// address, the element size, and the elements lying between the
/// boundaries. Immutable once constructed; no mutation operation exists.
#[derive(Debug)]
pub struct CollectionView<T> {
    start: usize,
    elem_size: usize,
    elements: Vec<T>,
}

impl<T> View for CollectionView<T> {
    type V = Seq<T>;

    closed spec fn view(&self) -> Seq<T> {
        self.elements@
    }
}

impl<T> CollectionView<T> {
    /// The start boundary's address: the pointer half of the pointer/length
    /// pair. Never dereferenced by this layer when the view is empty.
    pub closed spec fn spec_ptr(self) -> usize {
        self.start
    }

    /// Size in bytes of one element.
    pub closed spec fn spec_elem_size(self) -> usize {
        self.elem_size
    }

    /// The stop boundary's address: one past the last element.
    pub closed spec fn spec_stop(self) -> int {
        self.start + self@.len() * self.elem_size
    }

    /// Validity: elements have positive size and the whole run fits in the
    /// address space. Every constructor establishes this.
    pub closed spec fn wf(self) -> bool {
        self.elem_size >= 1 && self.start + self@.len() * self.elem_size <= usize::MAX
    }

    /// Number of elements between the boundaries.
    pub fn len(&self) -> (r: usize)
        ensures
            r == self@.len(),
    {
        self.elements.len()
    }

    /// Whether the view holds no elements.
    pub fn is_empty(&self) -> (r: bool)
        ensures
            r == (self@.len() == 0),
    {
        self.elements.len() == 0
    }

    /// The start boundary's address.
    pub fn ptr(&self) -> (r: usize)
        ensures
            r == self.spec_ptr(),
    {
        self.start
    }

    /// Size in bytes of one element.
    pub fn element_size(&self) -> (r: usize)
        ensures
            r == self.spec_elem_size(),
    {
        self.elem_size
    }

    /// The stop boundary's address.
    pub fn stop(&self) -> (r: usize)
        requires
            self.wf(),
        ensures
            r == self.spec_stop(),
    {
        proof {
            lemma_mul_nonnegative(self@.len() as int, self.elem_size as int);
        }
        self.start + self.elements.len() * self.elem_size
    }

    /// The elements as an ordinary read-only slice, for forward iteration.
    pub fn as_slice(&self) -> (r: &[T])
        ensures
            r@ == self@,
    {
        self.elements.as_slice()
    }

    /// Bounds-checked indexed access: the element at `i` for `i` within
    /// `[0, len)`, an out-of-range error at `len` or beyond.
    pub fn get(&self, i: usize) -> (r: Result<&T, OutOfRange>)
        ensures
            i < self@.len() ==> (r matches Ok(e) && *e == self@[i as int]),
            i >= self@.len() ==> (r matches Err(e) && e.index == i && e.len == self@.len()),
    {
        if i < self.elements.len() {
            Ok(&self.elements[i])
        } else {
            Err(OutOfRange { index: i, len: self.elements.len() })
        }
    }

    /// The address of element `i`: the start address plus `i` element
    /// sizes. In range it lies entirely between the boundaries; at `len` or
    /// beyond the access fails as any out-of-range access does.
    pub fn element_addr(&self, i: usize) -> (r: Result<usize, OutOfRange>)
        requires
            self.wf(),
        ensures
            i < self@.len() ==> (r matches Ok(a) && a == self.spec_ptr() + i
                * self.spec_elem_size() && self.spec_ptr() <= a && a + self.spec_elem_size()
                <= self.spec_stop()),
            i >= self@.len() ==> (r matches Err(e) && e.index == i && e.len == self@.len()),
    {
        if i < self.elements.len() {
            proof {
                lemma_mul_nonnegative(i as int, self.elem_size as int);
                lemma_mul_inequality(i as int + 1, self@.len() as int, self.elem_size as int);
                lemma_mul_is_distributive_add(self.elem_size as int, i as int, 1);
            }
            Ok(self.start + i * self.elem_size)
        } else {
            Err(OutOfRange { index: i, len: self.elements.len() })
        }
    }

}

impl<T: Copy> CollectionView<T> {
    /// The sub-range view `[i..]`: the start address advanced by `i`
    /// elements, the first `i` elements dropped, everything else unchanged.
    /// Slicing at `len` yields the empty view whose start is the stop
    /// boundary; beyond `len` the access fails as any out-of-range access
    /// does.
    pub fn slice_from(&self, i: usize) -> (r: Result<CollectionView<T>, OutOfRange>)
        requires
            self.wf(),
        ensures
            i <= self@.len() ==> (r matches Ok(v) && v@ == self@.skip(i as int) && v.spec_ptr()
                == self.spec_ptr() + i * self.spec_elem_size() && v.spec_elem_size()
                == self.spec_elem_size() && v.spec_stop() == self.spec_stop() && v.wf()),
            i > self@.len() ==> (r matches Err(e) && e.index == i && e.len == self@.len()),
    {
        if i > self.elements.len() {
            return Err(OutOfRange { index: i, len: self.elements.len() });
        }
        proof {
            lemma_mul_nonnegative(i as int, self.elem_size as int);
            lemma_mul_inequality(i as int, self@.len() as int, self.elem_size as int);
        }
        let start = self.start + i * self.elem_size;
        let elements = copy_suffix(&self.elements, i);
        let v = CollectionView { start, elem_size: self.elem_size, elements };
        proof {
            assert(i as int * self.elem_size as int + (self@.len() - i) * self.elem_size as int
                == self@.len() as int * self.elem_size as int) by (nonlinear_arith);
        }
        Ok(v)
    }
}

/// A fresh vector holding `v[i..]`, in order.
fn copy_suffix<T: Copy>(v: &Vec<T>, i: usize) -> (r: Vec<T>)
    requires
        i <= v@.len(),
    ensures
        r@ == v@.skip(i as int),
{
    let mut out: Vec<T> = Vec::new();
    let mut j: usize = i;
    while j < v.len()
        invariant
            i <= j <= v@.len(),
            out@ == v@.subrange(i as int, j as int),
        decreases v@.len() - j,
    {
        let e = v[j];
        out.push(e);
        proof {
            assert(v@.subrange(i as int, j as int).push(v@[j as int]) =~= v@.subrange(
                i as int,
                j as int + 1,
            ));
        }
        j += 1;
    }
    proof {
        assert(v@.subrange(i as int, v@.len() as int) =~= v@.skip(i as int));
    }
    out
}

/// Turns the two boundary addresses and the section's contents into a view.
/// Succeeds exactly when the boundaries are ordered, the span between them
/// is a whole number of elements, and that number is the number of elements
/// the section holds; any other combination is a layout-protocol violation.
pub fn try_view<T>(start: usize, stop: usize, elem_size: usize, elements: Vec<T>) -> (r: Result<
    CollectionView<T>,
    LayoutError,
>)
    ensures
        r is Ok <==> elem_size >= 1 && start <= stop && elements@.len() * elem_size == stop
            - start,
        r matches Ok(v) ==> v.spec_ptr() == start && v.spec_elem_size() == elem_size && v@
            == elements@ && v.spec_stop() == stop && v.wf(),
        r == Err::<CollectionView<T>, LayoutError>(LayoutError::ZeroElementSize) <==> elem_size
            == 0,
        r == Err::<CollectionView<T>, LayoutError>(LayoutError::InvertedBounds) <==> elem_size
            >= 1 && stop < start,
        r == Err::<CollectionView<T>, LayoutError>(LayoutError::UnevenSpan) <==> elem_size >= 1
            && start <= stop && (stop - start) % (elem_size as int) != 0,
        r == Err::<CollectionView<T>, LayoutError>(LayoutError::CountMismatch) <==> elem_size >= 1
            && start <= stop && (stop - start) % (elem_size as int) == 0 && elements@.len()
            * elem_size != stop - start,
{
    let n = match boundary_len(start, stop, elem_size) {
        Ok(n) => n,
        Err(e) => {
            proof {
                if elem_size >= 1 && start <= stop {
                    lemma_mod_multiples_basic(elements@.len() as int, elem_size as int);
                }
            }
            return Err(e);
        },
    };
    if n != elements.len() {
        proof {
            lemma_fundamental_div_mod(stop - start, elem_size as int);
            if elements@.len() * elem_size == stop - start {
                lemma_div_by_multiple(elements@.len() as int, elem_size as int);
            }
        }
        return Err(LayoutError::CountMismatch);
    }
    proof {
        lemma_fundamental_div_mod(stop - start, elem_size as int);
        lemma_mul_is_commutative(elem_size as int, elements@.len() as int);
    }
    Ok(CollectionView { start, elem_size, elements })
}

/// A section laid out per the protocol always yields a view: its boundary
/// arithmetic cannot fail. The view's pointer is the start boundary's
/// address and its length is exactly the number of elements the section
/// holds.
pub fn view_of_section<T>(section: LinkedSection<T>) -> (r: CollectionView<T>)
    requires
        section.wf(),
    ensures
        r.spec_ptr() == section.start,
        r.spec_elem_size() == section.elem_size,
        r@ == section.elements@,
        r.spec_stop() == section.spec_stop(),
        r.wf(),
{
    let start = section.start;
    let elem_size = section.elem_size;
    let stop = section.stop_addr();
    match try_view(start, stop, elem_size, section.elements) {
        Ok(v) => v,
        Err(_) => unreached(),
    }
}

/// The compute-once gate for a collection's view: the first successful call
/// caches the constructed view; every later call returns the cached one
/// unchanged, whatever arguments it is given, so all callers observe one
/// identical pointer/length pair.
pub struct ViewOnce<T> {
    slot: Option<CollectionView<T>>,
}

impl<T> ViewOnce<T> {
    /// The cached view, if construction has already happened.
    pub closed spec fn spec_cached(self) -> Option<CollectionView<T>> {
        self.slot
    }

    /// An empty gate: no view has been constructed yet.
    pub fn new() -> (r: Self)
        ensures
            r.spec_cached() is None,
    {
        ViewOnce { slot: None }
    }

    /// One-shot initialization. On the first call this constructs the view
    /// from the boundary addresses and caches it; once a view is cached the
    /// call changes nothing and succeeds, so construction is idempotent.
    pub fn init(&mut self, start: usize, stop: usize, elem_size: usize, elements: Vec<T>) -> (r:
        Result<(), LayoutError>)
        ensures
            old(self).spec_cached() is Some ==> *final(self) == *old(self) && r is Ok,
            old(self).spec_cached() is None && r is Ok ==> (final(self).spec_cached()
                matches Some(v) && v.spec_ptr() == start && v.spec_elem_size() == elem_size && v@
                == elements@ && v.spec_stop() == stop && v.wf()),
            old(self).spec_cached() is None ==> (r is Ok <==> elem_size >= 1 && start <= stop
                && elements@.len() * elem_size == stop - start),
            old(self).spec_cached() is None && r is Err ==> *final(self) == *old(self),
            old(self).spec_cached() is None ==> (r matches Err(e) ==> try_view_err(
                start,
                stop,
                elem_size,
                elements@,
                e,
            )),
    {
        match self.slot {
            Some(_) => Ok(()),
            None => {
                match try_view(start, stop, elem_size, elements) {
                    Ok(v) => {
                        self.slot = Some(v);
                        Ok(())
                    },
                    Err(e) => Err(e),
                }
            },
        }
    }

    /// The cached view, if any.
    pub fn get(&self) -> (r: Option<&CollectionView<T>>)
        ensures
            match r {
                Some(v) => self.spec_cached() matches Some(c) && *v == c,
                None => self.spec_cached() is None,
            },
    {
        self.slot.as_ref()
    }
}

/// Which layout-protocol violation `try_view` reports for these inputs.
pub open spec fn try_view_err<T>(
    start: usize,
    stop: usize,
    elem_size: usize,
    elements: Seq<T>,
    e: LayoutError,
) -> bool {
    match e {
        LayoutError::ZeroElementSize => elem_size == 0,
        LayoutError::InvertedBounds => elem_size >= 1 && stop < start,
        LayoutError::UnevenSpan => elem_size >= 1 && start <= stop && (stop - start) % (
        elem_size as int) != 0,
        LayoutError::CountMismatch => elem_size >= 1 && start <= stop && (stop - start) % (
        elem_size as int) == 0 && elements.len() * elem_size != stop - start,
    }
}

/// An empty collection still yields a valid view: zero elements, and a
/// start address equal to the stop address. The pointer is well defined and
/// never dereferenced.
pub proof fn lemma_empty_view<T>(v: CollectionView<T>)
    requires
        v@.len() == 0,
    ensures
        v.spec_stop() == v.spec_ptr(),
{
}

/// Idempotent construction: two views built from the same boundary
/// addresses, element size and backing elements — by concurrent first-time
/// callers, by a rebuild, by anyone — are indistinguishable: same pointer,
/// same length, same elements.
pub proof fn lemma_view_construction_agrees<T>(
    start: usize,
    elem_size: usize,
    elements: Seq<T>,
    v1: CollectionView<T>,
    v2: CollectionView<T>,
)
    requires
        v1.spec_ptr() == start && v1.spec_elem_size() == elem_size && v1@ == elements,
        v2.spec_ptr() == start && v2.spec_elem_size() == elem_size && v2@ == elements,
    ensures
        v1.spec_ptr() == v2.spec_ptr(),
        v1@.len() == v2@.len(),
        v1@ == v2@,
        v1.spec_elem_size() == v2.spec_elem_size(),
        v1.spec_stop() == v2.spec_stop(),
{
}

/// Count correctness, end to end: a view over the merged section of any
/// number of fragments has length exactly the number of contributed
/// elements, however many compilation units contributed them.
pub proof fn lemma_view_count<T>(frags: Seq<Fragment<T>>, v: CollectionView<T>)
    requires
        v@ == spec_merge(frags),
    ensures
        v@.len() == total_len(frags),
{
    lemma_merge_count(frags);
}

/// Sub-range slicing, stated over sequences: dropping the first element of
/// a sequence of length `n` leaves `n - 1` elements, each equal to the
/// original element one position later.
pub proof fn lemma_slice_tail<T>(s: Seq<T>)
    requires
        s.len() >= 1,
    ensures
        s.skip(1).len() == s.len() - 1,
        forall|j: int| 0 <= j < s.len() - 1 ==> s.skip(1)[j] == s[j + 1],
{
}

} // verus!
