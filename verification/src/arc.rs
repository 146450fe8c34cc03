//! Group constructors built around `Arc::new_cyclic`.
//!
//! `new_cyclic_2` and `new_cyclic_3` build two or three mutually referencing
//! heap objects at once: a single callback receives one non-owning reference
//! per member of the group, before any owning handle exists, and returns the
//! values to store.  The contracts pin the returned handles to hold exactly
//! the values the callback produced, in the same positions, and pin each
//! reference handed to the callback to resolve to the value produced for its
//! position.

use vstd::prelude::*;
use vstd::pervasive::arbitrary;
use std::sync::Arc;
use std::sync::Weak;

verus! {

/// `std::sync::Weak` held opaquely; the verifier sees nothing inside.
///
/// std's `Weak` itself cannot be declared to the verifier: its allocator
/// parameter is bounded by an unstable trait.
#[verifier::external_body]
#[verifier::reject_recursive_types(T)]
struct RawWeak<T> {
    w: Weak<T>,
}

/// A non-owning reference to one cell of a construction group, handed to the
/// initializer callback before any owning handle for the group exists.
///
/// Beside the raw reference it carries, as ghost state, the value its cell
/// holds once the group's construction completes: `value()` names that
/// value, the group constructors relate it to the callback's output, and
/// `upgrade` yields it whenever it yields anything.
#[verifier::reject_recursive_types(T)]
pub struct WeakRef<T> {
    raw: RawWeak<T>,
    cell: Ghost<T>,
}

impl<T> WeakRef<T> {
    /// The value stored into the cell this reference points at, once the
    /// construction of its group completes.
    pub closed spec fn value(&self) -> T {
        self.cell@
    }

    /// Attempts to turn this non-owning reference into an owning handle.
    ///
    /// Relies on `Weak::upgrade`: it returns an owning handle to the cell's
    /// stored value while at least one other owning handle exists, and
    /// `None` otherwise; in particular it returns `None` for the whole run
    /// of the callback that received this reference.  Which case holds
    /// depends on the state of the cell at the moment of the call, so only
    /// the success case is described.
    #[verifier::external_body]
    pub fn upgrade(&self) -> (r: Option<Arc<T>>)
        ensures
            r matches Some(a) ==> a == self.value(),
    {
        self.raw.w.upgrade()
    }
}

impl<T> Clone for WeakRef<T> {
    /// Relies on `Weak::clone`: the copy refers to the same cell, so it
    /// resolves to the same value.
    #[verifier::external_body]
    fn clone(&self) -> (r: WeakRef<T>)
        ensures
            r.value() == self.value(),
    {
        WeakRef { raw: RawWeak { w: self.raw.w.clone() }, cell: self.cell }
    }
}

/// Relies on `Arc::new_cyclic`: the returned `Arc` holds exactly the first
/// component of the value produced by `f`, which is run exactly once on a
/// non-owning reference to the cell under construction — so that reference
/// resolves to the stored component — and the second component is handed
/// back unchanged beside the handle.
#[verifier::external_body]
fn new_cyclic_extra<A, T, F: FnOnce(&WeakRef<A>) -> (A, T)>(f: F) -> (r: (Arc<A>, T))
    requires
        forall|w: &WeakRef<A>| call_requires(f, (w,)),
    ensures
        exists|w: &WeakRef<A>, v: A| call_ensures(f, (w,), (v, r.1)) && r.0 == v && w.value() == r.0,
{
    let mut extra: Option<T> = None;
    let a = Arc::new_cyclic(|w| {
        // the ghost cell value is erased at run time; the `ensures` above is
        // what ties it to the component stored by this closure
        let wr = WeakRef { raw: RawWeak { w: w.clone() }, cell: Ghost(arbitrary()) };
        let (v, t) = f(&wr);
        extra = Some(t);
        v
    });
    (a, extra.unwrap())
}

/// Builds two mutually referencing owned objects from one callback.
///
/// `data_fn` is run exactly once, on non-owning references to the two cells,
/// before either owning handle exists; the pair it returns is stored, the
/// returned handles dereference to exactly those values, in the same order,
/// and each reference the callback received resolves to the value produced
/// for its position.
pub fn new_cyclic_2<A, B, F: FnOnce(&WeakRef<A>, &WeakRef<B>) -> (A, B)>(data_fn: F) -> (r: (
    Arc<A>,
    Arc<B>,
))
    requires
        forall|wa: &WeakRef<A>, wb: &WeakRef<B>| call_requires(data_fn, (wa, wb)),
    ensures
        exists|wa: &WeakRef<A>, wb: &WeakRef<B>, va: A, vb: B|
            call_ensures(data_fn, (wa, wb), (va, vb)) && r.0 == va && r.1 == vb && wa.value() == va && wb.value() == vb,
{
    let (a, b) = new_cyclic_extra(
        |wa: &WeakRef<A>| -> (out: (A, Arc<B>))
            ensures
                exists|wb: &WeakRef<B>, va: A, vb: B| call_ensures(data_fn, (wa, wb), (va, vb)) && out.0 == va && out.1 == vb && wb.value() == vb
            {
                let (b_arc, a_val) = new_cyclic_extra(
                    |wb: &WeakRef<B>| -> (inner: (B, A))
                        ensures
                            exists|va: A, vb: B| call_ensures(data_fn, (wa, wb), (va, vb)) && inner.0 == vb && inner.1 == va
                        {
                            let (va, vb) = data_fn(wa, wb);
                            (vb, va)
                        },
                );
                (a_val, b_arc)
            },
    );
    (a, b)
}

/// Builds three mutually referencing owned objects from one callback.
///
/// `data_fn` is run exactly once, on non-owning references to the three
/// cells, before any owning handle exists; the triple it returns is stored,
/// the returned handles dereference to exactly those values, in the same
/// order, and each reference the callback received resolves to the value
/// produced for its position.
pub fn new_cyclic_3<
    A,
    B,
    C,
    F: FnOnce(&WeakRef<A>, &WeakRef<B>, &WeakRef<C>) -> (A, B, C),
>(data_fn: F) -> (r: (Arc<A>, Arc<B>, Arc<C>))
    requires
        forall|wa: &WeakRef<A>, wb: &WeakRef<B>, wc: &WeakRef<C>|
            call_requires(data_fn, (wa, wb, wc)),
    ensures
        exists|wa: &WeakRef<A>, wb: &WeakRef<B>, wc: &WeakRef<C>, va: A, vb: B, vc: C|
            call_ensures(data_fn, (wa, wb, wc), (va, vb, vc)) && r.0 == va && r.1 == vb && r.2 == vc && wa.value() == va && wb.value() == vb && wc.value() == vc,
{
    let (a, rest) = new_cyclic_extra(
        |wa: &WeakRef<A>| -> (out: (A, (Arc<B>, Arc<C>)))
            ensures
                exists|wb: &WeakRef<B>, wc: &WeakRef<C>, va: A, vb: B, vc: C| call_ensures(data_fn, (wa, wb, wc), (va, vb, vc)) && out.0 == va && out.1.0 == vb && out.1.1 == vc && wb.value() == vb && wc.value() == vc
            {
                let (b_arc, mid_rest) = new_cyclic_extra(
                    |wb: &WeakRef<B>| -> (mid: (B, (A, Arc<C>)))
                        ensures
                            exists|wc: &WeakRef<C>, va: A, vb: B, vc: C| call_ensures(data_fn, (wa, wb, wc), (va, vb, vc)) && mid.0 == vb && mid.1.0 == va && mid.1.1 == vc && wc.value() == vc
                        {
                            let (c_arc, inner_rest) = new_cyclic_extra(
                                |wc: &WeakRef<C>| -> (inner: (C, (A, B)))
                                    ensures
                                        exists|va: A, vb: B, vc: C| call_ensures(data_fn, (wa, wb, wc), (va, vb, vc)) && inner.0 == vc && inner.1.0 == va && inner.1.1 == vb
                                    {
                                        let (va, vb, vc) = data_fn(wa, wb, wc);
                                        (vc, (va, vb))
                                    },
                            );
                            let (a_val, b_val) = inner_rest;
                            (b_val, (a_val, c_arc))
                        },
                );
                let (a_val, c_arc) = mid_rest;
                (a_val, (b_arc, c_arc))
            },
    );
    let (b, c) = rest;
    (a, b, c)
}

} // verus!
