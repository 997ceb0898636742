use vstd::prelude::*;

use crate::meta::IntegrationTestMeta;

verus! {

/// The collection of test descriptors a run enumerates. It is append-only:
/// descriptors accumulate through `register` and are never removed or
/// deduplicated; duplicate names are permitted and independently executed.
/// Enumeration yields the descriptors in registration order, and that order
/// is stable within one run.
pub struct Registry<S, A> {
    entries: Vec<IntegrationTestMeta<S, A>>,
}

impl<S, A> View for Registry<S, A> {
    type V = Seq<IntegrationTestMeta<S, A>>;

    closed spec fn view(&self) -> Seq<IntegrationTestMeta<S, A>> {
        self.entries@
    }
}

impl<S, A> Registry<S, A> {
    /// Every registered descriptor is well-formed.
    pub open spec fn wf(&self) -> bool {
        forall|i: int| 0 <= i < self@.len() ==> (#[trigger] self@[i]).wf()
    }

    /// An empty registry.
    pub fn new() -> (r: Registry<S, A>)
        ensures
            r@ == Seq::<IntegrationTestMeta<S, A>>::empty(),
            r.wf(),
    {
        Registry { entries: Vec::new() }
    }

    /// Append one descriptor. No ordering is promised relative to other
    /// registration sites beyond the order of the `register` calls themselves.
    pub fn register(&mut self, descriptor: IntegrationTestMeta<S, A>)
        requires
            descriptor.wf(),
        ensures
            final(self)@ == old(self)@.push(descriptor),
            old(self).wf() ==> final(self).wf(),
    {
        self.entries.push(descriptor);
        proof {
            if old(self).wf() {
                assert forall|i: int| 0 <= i < self@.len() implies (#[trigger] self@[i]).wf() by {
                    if i < old(self)@.len() {
                        assert(self@[i] == old(self)@[i]);
                    } else {
                        assert(self@[i] == descriptor);
                    }
                }
            }
        }
    }

    /// Enumerate every registered descriptor, in registration order. Valid
    /// once all registration has occurred; there is no removal operation.
    pub fn all(&self) -> (r: &Vec<IntegrationTestMeta<S, A>>)
        ensures
            r@ == self@,
    {
        &self.entries
    }

    /// How many descriptors are registered.
    pub fn len(&self) -> (n: usize)
        ensures
            n == self@.len(),
    {
        self.entries.len()
    }
}

} // verus!
