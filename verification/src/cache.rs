//! A cache from asset labels to handles.
//!
//! A handle is the position at which its label was registered, so handles
//! are stable for the whole load and each label has exactly one.

use vstd::prelude::*;
use vstd::string::*;

verus! {

/// The labels registered so far, in registration order, none of them twice.
#[derive(Debug)]
pub struct LabelCache {
    labels: Vec<String>,
}

impl View for LabelCache {
    type V = Seq<Seq<char>>;

    /// The registered labels; the label of handle `h` stands at index `h`.
    closed spec fn view(&self) -> Seq<Seq<char>> {
        texts(self.labels@)
    }
}

/// The views of a sequence of strings.
pub open spec fn texts(strings: Seq<String>) -> Seq<Seq<char>> {
    Seq::new(strings.len(), |i: int| strings[i]@)
}

/// No label stands at two indices.
pub open spec fn distinct_labels(labels: Seq<Seq<char>>) -> bool {
    forall|i: int, j: int| 0 <= i < j < labels.len() ==> labels[i] != labels[j]
}

/// `longer` holds the labels of `cache` under the same handles, and maybe
/// more behind them.
pub open spec fn extends(cache: Seq<Seq<char>>, longer: Seq<Seq<char>>) -> bool {
    cache.len() <= longer.len() && forall|i: int| 0 <= i < cache.len() ==> cache[i] == longer[i]
}

/// The cache after `label` has been registered: as it was where it holds
/// the label already, else with the label behind all others.
pub open spec fn inserted(cache: Seq<Seq<char>>, label: Seq<char>) -> Seq<Seq<char>> {
    if cache.contains(label) {
        cache
    } else {
        cache.push(label)
    }
}

/// One label, one handle. Where a label was registered under the handle
/// `first` and a cache that has grown since holds it under `again`, the two
/// handles are the same: looking a label up a second time gives the very
/// asset that was registered the first time.
pub proof fn lemma_one_handle_per_label(
    cache: Seq<Seq<char>>,
    later: Seq<Seq<char>>,
    first: int,
    again: int,
)
    requires
        distinct_labels(later),
        extends(cache, later),
        0 <= first < cache.len(),
        0 <= again < later.len(),
        cache[first] == later[again],
    ensures
        first == again,
{
    assert(later[first] == cache[first]);
}

impl Clone for LabelCache {
    /// A copy with the same labels under the same handles.
    fn clone(&self) -> (copy: Self)
        ensures
            copy@ == self@,
    {
        proof {
            use_type_invariant(self);
        }
        let mut labels: Vec<String> = Vec::new();
        let mut i: usize = 0;
        while i < self.labels.len()
            invariant
                i <= self.labels@.len(),
                labels@.len() == i,
                forall|j: int| 0 <= j < i ==> labels@[j]@ == self.labels@[j]@,
            decreases self.labels@.len() - i,
        {
            labels.push(self.labels[i].clone());
            i = i + 1;
        }
        assert(texts(labels@) =~= self@);
        LabelCache { labels }
    }
}

impl LabelCache {
    #[verifier::type_invariant]
    spec fn well_formed(&self) -> bool {
        distinct_labels(self@)
    }

    /// An empty cache.
    pub fn new() -> (cache: Self)
        ensures
            cache@ == Seq::<Seq<char>>::empty(),
    {
        let labels: Vec<String> = Vec::new();
        assert(texts(labels@) =~= Seq::<Seq<char>>::empty());
        LabelCache { labels }
    }

    /// The number of registered labels, which is also the next fresh handle.
    pub fn len(&self) -> (n: usize)
        ensures
            n == self@.len(),
    {
        self.labels.len()
    }

    /// The handle registered for `label`, if there is one. There is never
    /// more than one: the cache holds no label twice.
    pub fn get(&self, label: &str) -> (found: Option<usize>)
        ensures
            distinct_labels(self@),
            match found {
                Some(h) => h < self@.len() && self@[h as int] == label@,
                None => !self@.contains(label@),
            },
    {
        proof {
            use_type_invariant(self);
        }
        let wanted = String::from_str(label);
        let mut i: usize = 0;
        while i < self.labels.len()
            invariant
                i <= self.labels@.len(),
                wanted@ == label@,
                distinct_labels(self@),
                forall|j: int| 0 <= j < i ==> self@[j] != label@,
            decreases self.labels@.len() - i,
        {
            if self.labels[i] == wanted {
                return Some(i);
            }
            i = i + 1;
        }
        None
    }

    /// The label registered under `handle`.
    pub fn label(&self, handle: usize) -> (label: &String)
        requires
            handle < self@.len(),
        ensures
            label@ == self@[handle as int],
    {
        &self.labels[handle]
    }

    /// Returns the handle of `label`, registering the label under the next
    /// fresh handle if the cache does not hold it yet.
    pub fn insert(&mut self, label: String) -> (handle: usize)
        ensures
            handle < final(self)@.len(),
            final(self)@[handle as int] == label@,
            final(self)@ == inserted(old(self)@, label@),
            distinct_labels(final(self)@),
            extends(old(self)@, final(self)@),
            !old(self)@.contains(label@) ==> handle == old(self)@.len(),
    {
        match self.get(label.as_str()) {
            Some(h) => h,
            None => {
                let h = self.labels.len();
                let ghost before = self@;
                let mut labels: Vec<String> = Vec::new();
                assert(texts(labels@) =~= Seq::<Seq<char>>::empty());
                std::mem::swap(&mut self.labels, &mut labels);
                labels.push(label);
                proof {
                    let after = texts(labels@);
                    assert(after =~= before.push(label@));
                    assert forall|i: int, j: int| 0 <= i < j < after.len() implies after[i]
                        != after[j] by {
                        if j == before.len() {
                            assert(before.contains(before[i]));
                        }
                    }
                }
                std::mem::swap(&mut self.labels, &mut labels);
                h
            },
        }
    }
}

} // verus!
