//! Key-to-sample bindings of the drum machine.
//!
//! The library holds which key plays which sample path and decides what to
//! play; decoding and playback stay with the application's audio backend.

use vstd::prelude::*;

verus! {

/// The path bound to `key` in a binding list: the first binding wins.
pub open spec fn spec_lookup(entries: Seq<(char, String)>, key: char) -> Option<Seq<char>>
    decreases entries.len(),
{
    if entries.len() == 0 {
        Option::None
    } else if entries[0].0 == key {
        Option::Some(entries[0].1@)
    } else {
        spec_lookup(entries.drop_first(), key)
    }
}

/// Removing a binding of another key leaves a lookup unchanged.
proof fn lemma_lookup_remove(entries: Seq<(char, String)>, i: int, key: char)
    requires
        0 <= i < entries.len(),
        entries[i].0 != key,
    ensures
        spec_lookup(entries.remove(i), key) == spec_lookup(entries, key),
    decreases entries.len(),
{
    if i == 0 {
        assert(entries.remove(0) =~= entries.drop_first());
    } else {
        assert(entries.remove(i).drop_first() =~= entries.drop_first().remove(i - 1));
        lemma_lookup_remove(entries.drop_first(), i - 1, key);
    }
}

/// The drum machine's bindings: which key plays which sample path.
#[derive(Debug)]
pub struct DrumMachine {
    sources: Vec<(char, String)>,
}

impl DrumMachine {
    /// The path that pressing `key` plays, if one is bound.
    pub closed spec fn source_spec(&self, key: char) -> Option<Seq<char>> {
        spec_lookup(self.sources@, key)
    }

    /// A drum machine with no bindings.
    pub fn new() -> (r: DrumMachine)
        ensures
            forall|k: char| r.source_spec(k) is None,
    {
        DrumMachine { sources: Vec::new() }
    }

    /// Binds `key` to a sample path, replacing any previous binding of the
    /// same key and leaving every other binding as it was.
    #[verifier::loop_isolation(false)]
    pub fn add_source(&mut self, key: char, path: String)
        ensures
            final(self).source_spec(key) == Option::Some(path@),
            forall|k: char|
                k != key ==> #[trigger] final(self).source_spec(k) == old(self).source_spec(k),
    {
        let mut i: usize = 0;
        while i < self.sources.len()
            invariant
                i <= self.sources@.len(),
                self.sources == old(self).sources,
                forall|j: int| 0 <= j < i ==> (#[trigger] self.sources@[j]).0 != key,
            decreases self.sources@.len() - i,
        {
            if self.sources[i].0 == key {
                self.sources.remove(i);
                proof {
                    assert forall|k: char|
                        k != key implies spec_lookup(self.sources@, k) == spec_lookup(
                        old(self).sources@,
                        k,
                    ) by {
                        lemma_lookup_remove(old(self).sources@, i as int, k);
                    }
                }
                self.sources.insert(0, (key, path));
                proof {
                    assert(self.sources@.drop_first() =~= old(self).sources@.remove(i as int));
                }
                return ;
            }
            i = i + 1;
        }
        self.sources.insert(0, (key, path));
        proof {
            assert(self.sources@.drop_first() =~= old(self).sources@);
        }
    }

    /// The sample path bound to `key`: what `key` plays, or nothing.
    #[verifier::loop_isolation(false)]
    pub fn source_for(&self, key: char) -> (r: Option<&String>)
        ensures
            match r {
                Some(p) => self.source_spec(key) == Option::Some(p@),
                None => self.source_spec(key) is None,
            },
    {
        proof {
            assert(self.sources@.subrange(0, self.sources@.len() as int) =~= self.sources@);
        }
        let mut i: usize = 0;
        while i < self.sources.len()
            invariant
                i <= self.sources@.len(),
                spec_lookup(self.sources@, key) == spec_lookup(
                    self.sources@.subrange(i as int, self.sources@.len() as int),
                    key,
                ),
            decreases self.sources@.len() - i,
        {
            if self.sources[i].0 == key {
                proof {
                    assert(self.sources@.subrange(i as int, self.sources@.len() as int)[0]
                        == self.sources@[i as int]);
                }
                return Some(&self.sources[i].1);
            }
            proof {
                assert(self.sources@.subrange(i as int, self.sources@.len() as int).drop_first()
                    =~= self.sources@.subrange(i + 1, self.sources@.len() as int));
            }
            i = i + 1;
        }
        None
    }

    /// All bindings, in lookup order: looking a key up in the returned list
    /// gives exactly what the drum machine would play for it.
    pub fn bindings(&self) -> (r: &Vec<(char, String)>)
        ensures
            forall|k: char| #[trigger] spec_lookup(r@, k) == self.source_spec(k),
    {
        &self.sources
    }
}

} // verus!
