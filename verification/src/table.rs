//! Reference counts of the native objects of one kind.

use vstd::prelude::*;
use crate::native::Name;

verus! {

/// One native object and the number of handles that refer to it.
#[derive(Clone, Copy, Debug, PartialEq, Eq, Structural)]
pub struct Entry {
    pub name: Name,
    pub refs: usize,
}

/// Whether an entry for `name` is among `s`.
pub open spec fn tracks(s: Seq<Entry>, name: Name) -> bool {
    exists|i: int| 0 <= i < s.len() && (#[trigger] s[i]).name == name
}

/// The count held for `name`: that of its entry, and zero without one.
pub open spec fn refs_of(s: Seq<Entry>, name: Name) -> nat
    decreases s.len(),
{
    if s.len() == 0 {
        0
    } else if s.last().name == name {
        s.last().refs as nat
    } else {
        refs_of(s.drop_last(), name)
    }
}

/// No name has two entries.
pub open spec fn distinct(s: Seq<Entry>) -> bool {
    forall|i: int, j: int| 0 <= i < j < s.len() ==> (#[trigger] s[i]).name != (#[trigger] s[j]).name
}

/// The entry with one more handle. A count that has reached the machine's
/// limit stays there for good: how many handles there are is no longer
/// known, so the object is never taken for unused.
pub open spec fn one_more(e: Entry) -> Entry {
    Entry {
        name: e.name,
        refs: if e.refs < usize::MAX {
            (e.refs + 1) as usize
        } else {
            e.refs
        },
    }
}

/// The entry with one handle less, and unchanged where it has none or its
/// count is at the machine's limit.
pub open spec fn one_less(e: Entry) -> Entry {
    Entry {
        name: e.name,
        refs: if 0 < e.refs < usize::MAX {
            (e.refs - 1) as usize
        } else {
            e.refs
        },
    }
}

/// The entries after a handle to `name` is given out: a first handle makes a
/// new entry at the end, and leaves every other entry as it is.
pub open spec fn acquired(s: Seq<Entry>, name: Name) -> Seq<Entry> {
    if tracks(s, name) {
        s.map_values(
            |e: Entry|
                if e.name == name {
                    one_more(e)
                } else {
                    e
                },
        )
    } else {
        s.push(Entry { name, refs: 1 })
    }
}

/// The entries after a handle to `name` is dropped. The entry stays, also at
/// zero.
pub open spec fn released(s: Seq<Entry>, name: Name) -> Seq<Entry> {
    s.map_values(
        |e: Entry|
            if e.name == name {
                one_less(e)
            } else {
                e
            },
    )
}

/// The entries after `name` is looked up: one that no handle is counted
/// for is added if there is none yet, and no count changes.
pub open spec fn recorded(s: Seq<Entry>, name: Name) -> Seq<Entry> {
    if tracks(s, name) {
        s
    } else {
        s.push(Entry { name, refs: 0 })
    }
}

/// The entries that a handle refers to.
pub open spec fn referenced() -> spec_fn(Entry) -> bool {
    |e: Entry| e.refs > 0
}

/// The entries that no handle refers to.
pub open spec fn unreferenced() -> spec_fn(Entry) -> bool {
    |e: Entry| e.refs == 0
}

/// The entry's name.
pub open spec fn name_of() -> spec_fn(Entry) -> Name {
    |e: Entry| e.name
}

/// The names that no handle refers to, in the order of their entries.
pub open spec fn dead(s: Seq<Entry>) -> Seq<Name> {
    s.filter(unreferenced()).map_values(name_of())
}

/// The entries that some handle refers to, in order.
pub open spec fn live(s: Seq<Entry>) -> Seq<Entry> {
    s.filter(referenced())
}

pub proof fn lemma_dead_push(s: Seq<Entry>, e: Entry)
    ensures
        dead(s.push(e)) == if e.refs == 0 {
            dead(s).push(e.name)
        } else {
            dead(s)
        },
        live(s.push(e)) == if e.refs > 0 {
            live(s).push(e)
        } else {
            live(s)
        },
{
    s.lemma_filter_push(e, unreferenced());
    s.lemma_filter_push(e, referenced());
    if e.refs == 0 {
        assert(s.filter(unreferenced()).push(e).map_values(name_of()) =~= s.filter(
            unreferenced(),
        ).map_values(name_of()).push(e.name));
    }
}

pub proof fn lemma_dead_empty()
    ensures
        dead(Seq::<Entry>::empty()) == Seq::<Name>::empty(),
        live(Seq::<Entry>::empty()) == Seq::<Entry>::empty(),
{
    reveal(Seq::filter);
    assert(Seq::<Entry>::empty().filter(unreferenced()) =~= Seq::<Entry>::empty());
    assert(Seq::<Entry>::empty().filter(referenced()) =~= Seq::<Entry>::empty());
    assert(Seq::<Entry>::empty().map_values(name_of()) =~= Seq::<Name>::empty());
}

/// The counts of the objects of one kind, one entry for each name.
pub struct Table {
    entries: Vec<Entry>,
}

impl View for Table {
    type V = Seq<Entry>;

    closed spec fn view(&self) -> Seq<Entry> {
        self.entries@
    }
}

impl Table {
    pub fn new() -> (table: Table)
        ensures
            table@ == Seq::<Entry>::empty(),
    {
        Table { entries: Vec::new() }
    }

    pub fn len(&self) -> (n: usize)
        ensures
            n == self@.len(),
    {
        self.entries.len()
    }

    pub fn contains(&self, name: Name) -> (found: bool)
        ensures
            found == tracks(self@, name),
    {
        let mut i: usize = 0;
        while i < self.entries.len()
            invariant
                i <= self.entries.len(),
                forall|k: int| 0 <= k < i ==> (#[trigger] self.entries@[k]).name != name,
            decreases self.entries.len() - i,
        {
            if self.entries[i].name == name {
                return true;
            }
            i += 1;
        }
        false
    }

    /// The count held for `name`.
    pub fn refs(&self, name: Name) -> (n: usize)
        ensures
            n == refs_of(self@, name),
    {
        let mut n: usize = 0;
        let mut i: usize = 0;
        while i < self.entries.len()
            invariant
                i <= self.entries.len(),
                n == refs_of(self.entries@.take(i as int), name),
            decreases self.entries.len() - i,
        {
            proof {
                assert(self.entries@.take(i + 1).drop_last() =~= self.entries@.take(i as int));
            }
            if self.entries[i].name == name {
                n = self.entries[i].refs;
            }
            i += 1;
        }
        proof {
            assert(self.entries@.take(i as int) =~= self.entries@);
        }
        n
    }

    /// Counts one more handle to `name`.
    pub fn acquire(&mut self, name: Name)
        ensures
            final(self)@ == acquired(old(self)@, name),
    {
        let mut found = false;
        let mut i: usize = 0;
        while i < self.entries.len()
            invariant
                i <= self.entries.len(),
                self.entries@.len() == old(self).entries@.len(),
                forall|k: int|
                    0 <= k < i ==> self.entries@[k] == if (#[trigger] old(self).entries@[k]).name
                        == name {
                        one_more(old(self).entries@[k])
                    } else {
                        old(self).entries@[k]
                    },
                forall|k: int|
                    i <= k < self.entries@.len() ==> self.entries@[k] == #[trigger] old(
                        self,
                    ).entries@[k],
                found <==> exists|k: int|
                    0 <= k < i && (#[trigger] old(self).entries@[k]).name == name,
            decreases self.entries.len() - i,
        {
            let e = self.entries[i];
            assert(old(self).entries@[i as int] == e);
            if e.name == name {
                found = true;
                let refs = if e.refs < usize::MAX {
                    e.refs + 1
                } else {
                    e.refs
                };
                self.entries.set(i, Entry { name: e.name, refs });
            }
            i += 1;
        }
        if found {
            assert(self.entries@ =~= acquired(old(self)@, name));
        } else {
            assert(self.entries@ =~= old(self).entries@);
            self.entries.push(Entry { name, refs: 1 });
        }
    }

    /// Counts one handle to `name` less.
    pub fn release(&mut self, name: Name)
        ensures
            final(self)@ == released(old(self)@, name),
    {
        let mut i: usize = 0;
        while i < self.entries.len()
            invariant
                i <= self.entries.len(),
                self.entries@.len() == old(self).entries@.len(),
                forall|k: int|
                    0 <= k < i ==> self.entries@[k] == if (#[trigger] old(self).entries@[k]).name
                        == name {
                        one_less(old(self).entries@[k])
                    } else {
                        old(self).entries@[k]
                    },
                forall|k: int|
                    i <= k < self.entries@.len() ==> self.entries@[k] == #[trigger] old(
                        self,
                    ).entries@[k],
            decreases self.entries.len() - i,
        {
            let e = self.entries[i];
            if e.name == name && 0 < e.refs && e.refs < usize::MAX {
                self.entries.set(i, Entry { name: e.name, refs: e.refs - 1 });
            }
            i += 1;
        }
        assert(self.entries@ =~= released(old(self)@, name));
    }

    /// Notes that `name` was looked up.
    pub fn record(&mut self, name: Name)
        ensures
            final(self)@ == recorded(old(self)@, name),
    {
        if !self.contains(name) {
            self.entries.push(Entry { name, refs: 0 });
        }
    }

    /// Takes out the entries that no handle refers to, and gives their names.
    pub fn sweep(&mut self) -> (gone: Vec<Name>)
        ensures
            gone@ == dead(old(self)@),
            final(self)@ == live(old(self)@),
    {
        let mut kept: Vec<Entry> = Vec::new();
        let mut gone: Vec<Name> = Vec::new();
        let mut i: usize = 0;
        proof {
            lemma_dead_empty();
            assert(self.entries@.take(0) =~= Seq::<Entry>::empty());
        }
        while i < self.entries.len()
            invariant
                i <= self.entries.len(),
                gone@ == dead(self.entries@.take(i as int)),
                kept@ == live(self.entries@.take(i as int)),
            decreases self.entries.len() - i,
        {
            let e = self.entries[i];
            proof {
                assert(self.entries@.take(i + 1) =~= self.entries@.take(i as int).push(e));
                lemma_dead_push(self.entries@.take(i as int), e);
            }
            if e.refs == 0 {
                gone.push(e.name);
            } else {
                kept.push(e);
            }
            i += 1;
        }
        proof {
            assert(self.entries@.take(i as int) =~= self.entries@);
        }
        self.entries = kept;
        gone
    }

    /// Forgets every entry.
    pub fn clear(&mut self)
        ensures
            final(self)@ == Seq::<Entry>::empty(),
    {
        self.entries = Vec::new();
    }
}

} // verus!
