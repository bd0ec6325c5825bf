//! The windows that the toolkit knows, by label.
//!
//! The toolkit owns its windows. The core only asks whether a label is there,
//! so what it is handed is the list of labels, each at most once.

use crate::text::same_text;
use vstd::prelude::*;

verus! {

/// The label of the one window with the hide-on-close policy.
pub const MAIN_LABEL: &'static str = "main";

/// The labels of the windows that exist.
pub struct WindowRegistry {
    labels: Vec<String>,
}

impl WindowRegistry {
    /// The registered labels, in the order they were registered.
    pub closed spec fn labels(&self) -> Seq<Seq<char>> {
        Seq::new(self.labels@.len(), |i: int| self.labels@[i]@)
    }

    /// Whether a window labelled `label` exists.
    pub open spec fn has(&self, label: Seq<char>) -> bool {
        self.labels().contains(label)
    }

    /// No label is registered twice.
    pub open spec fn wf(&self) -> bool {
        self.labels().no_duplicates()
    }

    /// A registry without windows.
    pub fn new() -> (registry: WindowRegistry)
        ensures
            registry.wf(),
            registry.labels() == Seq::<Seq<char>>::empty(),
    {
        WindowRegistry { labels: Vec::new() }
    }

    /// Looks a window up by its label.
    pub fn contains(&self, label: &str) -> (found: bool)
        ensures
            found == self.has(label@),
    {
        let mut i: usize = 0;
        while i < self.labels.len()
            invariant
                i <= self.labels@.len(),
                forall|k: int| 0 <= k < i ==> self.labels()[k] != label@,
            decreases self.labels@.len() - i,
        {
            if same_text(self.labels[i].as_str(), label) {
                assert(self.labels()[i as int] == label@);
                return true;
            }
            i += 1;
        }
        false
    }

    /// Registers a window. A label that is already there is not added again.
    ///
    /// Returns whether the label was added.
    pub fn register(&mut self, label: &str) -> (added: bool)
        requires
            old(self).wf(),
        ensures
            final(self).wf(),
            added == !old(self).has(label@),
            added ==> final(self).labels() == old(self).labels().push(label@),
            !added ==> final(self).labels() == old(self).labels(),
            forall|other: Seq<char>|
                final(self).has(other) <==> old(self).has(other) || other == label@,
    {
        if self.contains(label) {
            return false;
        }
        let ghost before = self.labels();
        self.labels.push(label.to_owned());
        proof {
            assert(self.labels() =~= before.push(label@));
            assert(self.labels()[before.len() as int] == label@);
            assert forall|other: Seq<char>| before.contains(other) implies self.has(other) by {
                let k = choose|k: int| 0 <= k < before.len() && before[k] == other;
                assert(self.labels()[k] == other);
            }
        }
        true
    }
}

} // verus!
