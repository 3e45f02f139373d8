//! Named bindings: an ordered table from variable names to values, read
//! through its map view.  A later entry for a name shadows an earlier one.

use vstd::prelude::*;

verus! {

/// The mapping that a sequence of named entries denotes: later entries
/// shadow earlier ones of the same name.
pub open spec fn entries_map<V: View>(s: Seq<(String, V)>) -> Map<Seq<char>, V::V>
    decreases s.len(),
{
    if s.len() == 0 {
        Map::empty()
    } else {
        entries_map(s.drop_last()).insert(s.last().0@, s.last().1@)
    }
}

pub proof fn lemma_entries_map_absent<V: View>(s: Seq<(String, V)>, k: Seq<char>)
    requires
        forall|j: int| 0 <= j < s.len() ==> s[j].0@ != k,
    ensures
        !entries_map(s).contains_key(k),
    decreases s.len(),
{
    if s.len() > 0 {
        assert(s.drop_last() =~= s.subrange(0, s.len() - 1));
        lemma_entries_map_absent(s.drop_last(), k);
    }
}

pub proof fn lemma_entries_map_found<V: View>(s: Seq<(String, V)>, i: int, k: Seq<char>)
    requires
        0 <= i < s.len(),
        s[i].0@ == k,
        forall|j: int| i < j < s.len() ==> s[j].0@ != k,
    ensures
        entries_map(s).contains_key(k),
        entries_map(s)[k] == s[i].1@,
    decreases s.len(),
{
    if i < s.len() - 1 {
        assert(s.drop_last() =~= s.subrange(0, s.len() - 1));
        lemma_entries_map_found(s.drop_last(), i, k);
    }
}

/// A table of named values.  Contracts read it through its view, the map
/// from a name to the value its latest entry holds.
pub struct Bindings<V> {
    pub entries: Vec<(String, V)>,
}

impl<V: View> View for Bindings<V> {
    type V = Map<Seq<char>, V::V>;

    open spec fn view(&self) -> Map<Seq<char>, V::V> {
        entries_map(self.entries@)
    }
}

impl<V: View> Bindings<V> {
    /// An empty table.
    pub fn new() -> (r: Self)
        ensures
            r@ == Map::<Seq<char>, V::V>::empty(),
            r.entries@.len() == 0,
    {
        Bindings { entries: Vec::new() }
    }

    /// Binds `name` to `value`, shadowing any earlier binding of `name`.
    pub fn insert(&mut self, name: String, value: V)
        ensures
            final(self)@ == old(self)@.insert(name@, value@),
    {
        let ghost before = self.entries@;
        let ghost key = name@;
        let ghost v = value@;
        self.entries.push((name, value));
        proof {
            assert(self.entries@.drop_last() =~= before);
            assert(self.entries@.last().0@ == key);
            assert(self.entries@.last().1@ == v);
        }
    }

    /// Looks the latest binding of `name` up.
    pub fn get_value(&self, name: &str) -> (r: Option<&V>)
        ensures
            match r {
                Some(v) => self@.contains_key(name@) && v@ == self@[name@],
                None => !self@.contains_key(name@),
            },
    {
        let key: String = name.to_owned();
        let mut i: usize = self.entries.len();
        while i > 0
            invariant
                i <= self.entries@.len(),
                key@ == name@,
                forall|j: int| i <= j < self.entries@.len() ==> self.entries@[j].0@ != name@,
            decreases i,
        {
            i = i - 1;
            if self.entries[i].0 == key {
                proof {
                    lemma_entries_map_found(self.entries@, i as int, name@);
                }
                return Some(&self.entries[i].1);
            }
        }
        proof {
            lemma_entries_map_absent(self.entries@, name@);
        }
        None
    }
}

} // verus!
