//! The record of which versions of a tool are installed.

use crate::version::{Version, VersionView};
use vstd::prelude::*;

verus! {

/// The installs that a list of records stands for.
spec fn installs<V>(records: Seq<(Version, V)>) -> Map<VersionView, V>
    decreases records.len(),
{
    if records.len() == 0 {
        Map::empty()
    } else {
        installs(records.drop_last()).insert(records.last().0@, records.last().1)
    }
}

/// No version is recorded twice.
spec fn distinct<V>(records: Seq<(Version, V)>) -> bool {
    forall|i: int, j: int| 0 <= i < j < records.len() ==> records[i].0@ != records[j].0@
}

/// A version that no record names is not installed.
proof fn lemma_absent<V>(records: Seq<(Version, V)>, version: VersionView)
    requires
        forall|i: int| 0 <= i < records.len() ==> records[i].0@ != version,
    ensures
        !installs(records).contains_key(version),
    decreases records.len(),
{
    if records.len() > 0 {
        lemma_absent(records.drop_last(), version);
    }
}

/// The version of each record is installed, with that record's details.
proof fn lemma_present<V>(records: Seq<(Version, V)>, i: int)
    requires
        distinct(records),
        0 <= i < records.len(),
    ensures
        installs(records).contains_key(records[i].0@),
        installs(records)[records[i].0@] == records[i].1,
    decreases records.len(),
{
    if i < records.len() - 1 {
        lemma_present(records.drop_last(), i);
    }
}

/// Taking one record out uninstalls its version and nothing else.
proof fn lemma_taken_out<V>(records: Seq<(Version, V)>, i: int)
    requires
        distinct(records),
        0 <= i < records.len(),
    ensures
        distinct(records.remove(i)),
        installs(records.remove(i)) == installs(records).remove(records[i].0@),
    decreases records.len(),
{
    let rest = records.drop_last();
    if i == records.len() - 1 {
        lemma_absent(rest, records[i].0@);
    } else {
        lemma_taken_out(rest, i);
        assert(records.remove(i).drop_last() == rest.remove(i));
    }
}

/// The installed versions of one tool, each with the details of its install.
///
/// A version is recorded at most once.
pub struct Collection<V> {
    records: Vec<(Version, V)>,
}

impl<V> View for Collection<V> {
    type V = Map<VersionView, V>;

    closed spec fn view(&self) -> Map<VersionView, V> {
        installs(self.records@)
    }
}

impl<V> Collection<V> {
    #[verifier::type_invariant]
    spec fn recorded_once(self) -> bool {
        distinct(self.records@)
    }

    /// Where `version` is recorded, if it is.
    fn position(&self, version: &Version) -> (found: Option<usize>)
        ensures
            match found {
                Some(i) => i < self.records.len() && self.records[i as int].0@ == version@,
                None => forall|i: int|
                    0 <= i < self.records.len() ==> self.records[i].0@ != version@,
            },
    {
        let mut i: usize = 0;
        while i < self.records.len()
            invariant
                i <= self.records.len(),
                forall|j: int| 0 <= j < i ==> self.records[j].0@ != version@,
            decreases self.records.len() - i,
        {
            if self.records[i].0.same_as(version) {
                return Some(i);
            }
            i += 1;
        }
        None
    }

    /// The inventory with nothing installed.
    pub fn new() -> (collection: Self)
        ensures
            collection@ == Map::<VersionView, V>::empty(),
    {
        Collection { records: Vec::new() }
    }

    /// Whether `version` is installed.
    pub fn contains(&self, version: &Version) -> (installed: bool)
        ensures
            installed == self@.contains_key(version@),
    {
        self.get(version).is_some()
    }

    /// The details of the install of `version`, if it is installed.
    pub fn get(&self, version: &Version) -> (found: Option<&V>)
        ensures
            found == (if self@.contains_key(version@) {
                Some(&self@[version@])
            } else {
                None
            }),
    {
        proof {
            use_type_invariant(self);
        }
        match self.position(version) {
            Some(i) => {
                proof {
                    lemma_present(self.records@, i as int);
                }
                Some(&self.records[i].1)
            },
            None => {
                proof {
                    lemma_absent(self.records@, version@);
                }
                None
            },
        }
    }

    /// Takes the install of `version` out of the inventory and hands back its
    /// details, if it was installed.
    pub fn remove(&mut self, version: &Version) -> (removed: Option<V>)
        ensures
            final(self)@ == old(self)@.remove(version@),
            removed == (if old(self)@.contains_key(version@) {
                Some(old(self)@[version@])
            } else {
                None
            }),
    {
        proof {
            use_type_invariant(&*self);
        }
        match self.position(version) {
            Some(i) => {
                proof {
                    lemma_present(self.records@, i as int);
                    lemma_taken_out(self.records@, i as int);
                }
                let mut records = Vec::new();
                std::mem::swap(&mut records, &mut self.records);
                let record = records.remove(i);
                self.records = records;
                Some(record.1)
            },
            None => {
                proof {
                    lemma_absent(self.records@, version@);
                }
                None
            },
        }
    }

    /// Records `version` as installed with `details`, in place of what was
    /// recorded for it before, and hands that back.
    pub fn record(&mut self, version: Version, details: V) -> (previous: Option<V>)
        ensures
            final(self)@ == old(self)@.insert(version@, details),
            previous == (if old(self)@.contains_key(version@) {
                Some(old(self)@[version@])
            } else {
                None
            }),
    {
        let previous = self.remove(&version);
        proof {
            use_type_invariant(&*self);
            let rest = self.records@;
            assert forall|i: int| 0 <= i < rest.len() implies rest[i].0@ != version@ by {
                lemma_present(rest, i);
            }
            assert(rest.push((version, details)).drop_last() == rest);
        }
        let mut records = Vec::new();
        std::mem::swap(&mut records, &mut self.records);
        records.push((version, details));
        self.records = records;
        previous
    }
}

} // verus!
