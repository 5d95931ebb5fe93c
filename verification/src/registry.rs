//! The connection registry: a keyed store of live backend handles, modeled
//! as a map from identifier to handle. Registration is last-writer-wins; a
//! lookup never takes ownership of the handle.

use vstd::prelude::*;

verus! {

/// One registered connection: a caller-chosen identifier and its handle.
pub struct RegEntry<T> {
    pub id: String,
    pub handle: T,
}

/// The map an entry list denotes, later entries winning.
pub open spec fn entries_map<T>(s: Seq<RegEntry<T>>) -> Map<Seq<char>, T>
    decreases s.len(),
{
    if s.len() == 0 {
        Map::empty()
    } else {
        entries_map(s.drop_last()).insert(s.last().id@, s.last().handle)
    }
}

/// No identifier occurs twice in the list.
pub open spec fn unique_ids<T>(s: Seq<RegEntry<T>>) -> bool {
    forall|i: int, j: int|
        0 <= i < j < s.len() ==> (#[trigger] s[i]).id@ != (#[trigger] s[j]).id@
}

proof fn lemma_entries_map_absent<T>(s: Seq<RegEntry<T>>, k: Seq<char>)
    requires
        forall|i: int| 0 <= i < s.len() ==> (#[trigger] s[i]).id@ != k,
    ensures
        !entries_map(s).contains_key(k),
    decreases s.len(),
{
    if s.len() > 0 {
        lemma_entries_map_absent(s.drop_last(), k);
    }
}

proof fn lemma_entries_map_get<T>(s: Seq<RegEntry<T>>, i: int)
    requires
        0 <= i < s.len(),
        forall|j: int| i < j < s.len() ==> (#[trigger] s[j]).id@ != s[i].id@,
    ensures
        entries_map(s).contains_key(s[i].id@),
        entries_map(s)[s[i].id@] == s[i].handle,
    decreases s.len(),
{
    if i < s.len() - 1 {
        lemma_entries_map_get(s.drop_last(), i);
    }
}

proof fn lemma_entries_map_update<T>(s: Seq<RegEntry<T>>, i: int, e: RegEntry<T>)
    requires
        unique_ids(s),
        0 <= i < s.len(),
        s[i].id@ == e.id@,
    ensures
        entries_map(s.update(i, e)) == entries_map(s).insert(e.id@, e.handle),
    decreases s.len(),
{
    if i == s.len() - 1 {
        assert(s.update(i, e).drop_last() =~= s.drop_last());
        assert(entries_map(s.update(i, e)) =~= entries_map(s).insert(e.id@, e.handle));
    } else {
        assert(s.update(i, e).drop_last() =~= s.drop_last().update(i, e));
        assert(unique_ids(s.drop_last()));
        lemma_entries_map_update(s.drop_last(), i, e);
        assert(s.last().id@ != e.id@);
        assert(entries_map(s.update(i, e)) =~= entries_map(s).insert(e.id@, e.handle));
    }
}

proof fn lemma_entries_map_dom_len<T>(s: Seq<RegEntry<T>>)
    requires
        unique_ids(s),
    ensures
        entries_map(s).dom().len() == s.len(),
        entries_map(s).dom().finite(),
    decreases s.len(),
{
    if s.len() > 0 {
        assert(unique_ids(s.drop_last()));
        lemma_entries_map_dom_len(s.drop_last());
        lemma_entries_map_absent(s.drop_last(), s.last().id@);
        assert(entries_map(s).dom() =~= entries_map(s.drop_last()).dom().insert(s.last().id@));
    }
}

/// A keyed store of live handles for one backend kind.
pub struct Registry<T> {
    pub entries: Vec<RegEntry<T>>,
}

impl<T> View for Registry<T> {
    type V = Map<Seq<char>, T>;

    open spec fn view(&self) -> Map<Seq<char>, T> {
        entries_map(self.entries@)
    }
}

impl<T> Registry<T> {
    /// Each identifier names at most one live handle.
    pub open spec fn wf(&self) -> bool {
        unique_ids(self.entries@)
    }

    /// An empty registry.
    pub fn new() -> (r: Registry<T>)
        ensures
            r.wf(),
            r@ == Map::<Seq<char>, T>::empty(),
    {
        Registry { entries: Vec::new() }
    }

    fn find(&self, id: &String) -> (r: Option<usize>)
        ensures
            r matches Some(i) ==> i < self.entries@.len() && self.entries@[i as int].id@ == id@,
            r is None ==> forall|i: int|
                0 <= i < self.entries@.len() ==> (#[trigger] self.entries@[i]).id@ != id@,
    {
        let mut i: usize = 0;
        while i < self.entries.len()
            invariant
                i <= self.entries@.len(),
                forall|j: int| 0 <= j < i ==> (#[trigger] self.entries@[j]).id@ != id@,
            decreases self.entries@.len() - i,
        {
            if self.entries[i].id == *id {
                return Some(i);
            }
            i = i + 1;
        }
        None
    }

    /// Inserts the handle under `id`, superseding any earlier registration
    /// under the same identifier: registration is last-writer-wins.
    pub fn register(&mut self, id: String, handle: T)
        requires
            old(self).wf(),
        ensures
            final(self).wf(),
            final(self)@ == old(self)@.insert(id@, handle),
    {
        let found = self.find(&id);
        match found {
            Some(i) => {
                let ghost s = self.entries@;
                self.entries[i] = RegEntry { id, handle };
                proof {
                    lemma_entries_map_update(s, i as int, self.entries@[i as int]);
                }
            },
            None => {
                let ghost s = self.entries@;
                self.entries.push(RegEntry { id, handle });
                proof {
                    assert(self.entries@.drop_last() =~= s);
                }
            },
        }
    }

    /// Fetches the handle registered under `id`, if any, without taking it
    /// out of the registry.
    pub fn lookup(&self, id: &String) -> (r: Option<&T>)
        requires
            self.wf(),
        ensures
            match r {
                Some(h) => self@.contains_key(id@) && *h == self@[id@],
                None => !self@.contains_key(id@),
            },
    {
        let found = self.find(id);
        match found {
            Some(i) => {
                proof {
                    lemma_entries_map_get(self.entries@, i as int);
                }
                Some(&self.entries[i].handle)
            },
            None => {
                proof {
                    lemma_entries_map_absent(self.entries@, id@);
                }
                None
            },
        }
    }

    /// Whether any handle is registered under `id`.
    pub fn contains(&self, id: &String) -> (r: bool)
        requires
            self.wf(),
        ensures
            r == self@.contains_key(id@),
    {
        self.lookup(id).is_some()
    }

    /// How many identifiers are registered.
    pub fn len(&self) -> (r: usize)
        requires
            self.wf(),
        ensures
            r == self@.dom().len(),
    {
        proof {
            lemma_entries_map_dom_len(self.entries@);
        }
        self.entries.len()
    }
}

/// Reconnecting under the same identifier is idempotent: the second
/// registration fully supersedes the first, and the registry is as if only
/// the second had happened.
pub proof fn lemma_reconnect_supersedes<T>(m: Map<Seq<char>, T>, id: Seq<char>, h1: T, h2: T)
    ensures
        m.insert(id, h1).insert(id, h2) == m.insert(id, h2),
{
    assert(m.insert(id, h1).insert(id, h2) =~= m.insert(id, h2));
}

} // verus!
