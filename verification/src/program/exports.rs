use vstd::prelude::*;

verus! {

/// The mathematical content of an association list: later entries win,
/// as with repeated map insertion.
pub open spec fn spec_map_of(entries: Seq<(String, u64)>) -> Map<Seq<char>, u64>
    decreases entries.len(),
{
    if entries.len() == 0 {
        Map::empty()
    } else {
        spec_map_of(entries.drop_last()).insert(entries.last().0@, entries.last().1)
    }
}

/// The export map: symbol name to address.  Backed by an association
/// list in insertion order; its view is the map where the latest
/// insertion of a name wins.
#[derive(Debug, Clone, PartialEq, Eq)]
pub struct ExportMap {
    entries: Vec<(String, u64)>,
}

impl View for ExportMap {
    type V = Map<Seq<char>, u64>;

    closed spec fn view(&self) -> Map<Seq<char>, u64> {
        spec_map_of(self.entries@)
    }
}

/// Relies on `str`'s `==`: character-for-character comparison of the two
/// strings.
#[verifier::external_body]
fn str_eq(a: &str, b: &str) -> (r: bool)
    ensures
        r == (a@ == b@),
{
    a == b
}

impl ExportMap {
    /// An empty map.
    pub fn new() -> (r: ExportMap)
        ensures
            r@ == Map::<Seq<char>, u64>::empty(),
    {
        ExportMap { entries: Vec::new() }
    }

    /// Binds `name` to `address`, replacing any earlier binding.
    pub fn insert(&mut self, name: String, address: u64)
        ensures
            final(self)@ == old(self)@.insert(name@, address),
    {
        self.entries.push((name, address));
        proof {
            assert(self.entries@.drop_last() =~= old(self).entries@);
        }
    }

    /// Looks `name` up: its bound address, or `None` where the map does
    /// not know the name.
    pub fn get(&self, name: &str) -> (r: Option<u64>)
        ensures
            self@.contains_key(name@) ==> r == Some(self@[name@]),
            !self@.contains_key(name@) ==> r is None,
    {
        let mut i: usize = self.entries.len();
        proof {
            assert(self.entries@.take(i as int) =~= self.entries@);
        }
        while i > 0
            invariant
                i <= self.entries@.len(),
                spec_map_of(self.entries@).contains_key(name@) == spec_map_of(
                    self.entries@.take(i as int),
                ).contains_key(name@),
                spec_map_of(self.entries@).contains_key(name@)
                    ==> spec_map_of(self.entries@)[name@] == spec_map_of(
                    self.entries@.take(i as int),
                )[name@],
            decreases i,
        {
            i = i - 1;
            proof {
                assert(self.entries@.take((i + 1) as int).drop_last() =~= self.entries@.take(
                    i as int,
                ));
            }
            let entry = &self.entries[i];
            if str_eq(entry.0.as_str(), name) {
                return Some(entry.1);
            }
        }
        proof {
            assert(self.entries@.take(0) =~= Seq::<(String, u64)>::empty());
        }
        None
    }

    /// Whether the map binds no name at all.
    pub fn is_empty(&self) -> (r: bool)
        ensures
            r == (self@ == Map::<Seq<char>, u64>::empty()),
    {
        proof {
            if self.entries@.len() > 0 {
                assert(self@.contains_key(self.entries@.last().0@));
            }
        }
        self.entries.is_empty()
    }
}

impl Default for ExportMap {
    /// Same as `new`: the empty map.
    fn default() -> (r: ExportMap)
        ensures
            r@ == Map::<Seq<char>, u64>::empty(),
    {
        ExportMap::new()
    }
}

} // verus!
