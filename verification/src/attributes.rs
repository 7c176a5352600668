//! The attributes that travel with a message, by name.

use vstd::prelude::*;
use crate::mode::{MessageAttribute, MessageAttributeView};
use crate::text::same_text;

verus! {

/// No name stands twice in `entries`.
pub open spec fn names_distinct(entries: Seq<(String, MessageAttribute)>) -> bool {
    forall|i: int, j: int|
        0 <= i < j < entries.len() ==> (#[trigger] entries[i]).0@ != (#[trigger] entries[j]).0@
}

/// Some entry has the name `name`.
pub open spec fn has_name(entries: Seq<(String, MessageAttribute)>, name: Seq<char>) -> bool {
    exists|i: int| 0 <= i < entries.len() && (#[trigger] entries[i]).0@ == name
}

/// The position of an entry named `name`.
pub open spec fn position_of(entries: Seq<(String, MessageAttribute)>, name: Seq<char>) -> int {
    choose|i: int| 0 <= i < entries.len() && (#[trigger] entries[i]).0@ == name
}

/// The map from each name in `entries` to the attribute that stands with it.
pub open spec fn map_of(entries: Seq<(String, MessageAttribute)>) -> Map<
    Seq<char>,
    MessageAttributeView,
> {
    Map::new(
        |name: Seq<char>| has_name(entries, name),
        |name: Seq<char>| entries[position_of(entries, name)].1@,
    )
}

/// Where names are distinct, each entry is what the map holds under its name.
pub proof fn lemma_map_of_entry(entries: Seq<(String, MessageAttribute)>, i: int)
    requires
        names_distinct(entries),
        0 <= i < entries.len(),
    ensures
        map_of(entries).contains_key(entries[i].0@),
        map_of(entries)[entries[i].0@] == entries[i].1@,
        position_of(entries, entries[i].0@) == i,
{
    let name = entries[i].0@;
    assert(has_name(entries, name));
    let at = position_of(entries, name);
    assert(0 <= at < entries.len() && entries[at].0@ == name);
    if at < i {
        assert(entries[at].0@ != entries[i].0@);
    } else if i < at {
        assert(entries[i].0@ != entries[at].0@);
    }
}

/// Adding an entry under a new name adds it to the map.
pub proof fn lemma_map_of_push(
    entries: Seq<(String, MessageAttribute)>,
    entry: (String, MessageAttribute),
)
    requires
        names_distinct(entries),
        !has_name(entries, entry.0@),
    ensures
        names_distinct(entries.push(entry)),
        map_of(entries.push(entry)) == map_of(entries).insert(entry.0@, entry.1@),
{
    let longer = entries.push(entry);
    assert forall|i: int, j: int| 0 <= i < j < longer.len() implies (#[trigger] longer[i]).0@ != (
    #[trigger] longer[j]).0@ by {
        if j == entries.len() {
            assert(longer[i] == entries[i]);
            if longer[i].0@ == entry.0@ {
                assert(has_name(entries, entry.0@));
            }
        } else {
            assert(longer[i] == entries[i]);
            assert(longer[j] == entries[j]);
        }
    }
    let expected = map_of(entries).insert(entry.0@, entry.1@);
    assert forall|name: Seq<char>| map_of(longer).contains_key(name) <==> expected.contains_key(
        name,
    ) by {
        if has_name(longer, name) {
            let at = position_of(longer, name);
            if at < entries.len() {
                assert(entries[at] == longer[at]);
                assert(has_name(entries, name));
            }
        }
        if has_name(entries, name) {
            let at = position_of(entries, name);
            assert(longer[at] == entries[at]);
            assert(has_name(longer, name));
        }
        if name == entry.0@ {
            assert(longer[entries.len() as int] == entry);
            assert(has_name(longer, name));
        }
    }
    assert forall|name: Seq<char>| map_of(longer).contains_key(name) implies map_of(longer)[name]
        == expected[name] by {
        let at = position_of(longer, name);
        lemma_map_of_entry(longer, at);
        if at < entries.len() {
            assert(longer[at] == entries[at]);
            lemma_map_of_entry(entries, at);
        }
    }
    assert(map_of(longer) =~= expected);
}

/// Taking an entry out takes its name out of the map.
pub proof fn lemma_map_of_remove(entries: Seq<(String, MessageAttribute)>, i: int)
    requires
        names_distinct(entries),
        0 <= i < entries.len(),
    ensures
        names_distinct(entries.remove(i)),
        !has_name(entries.remove(i), entries[i].0@),
        map_of(entries.remove(i)) == map_of(entries).remove(entries[i].0@),
{
    let shorter = entries.remove(i);
    assert forall|a: int| 0 <= a < shorter.len() implies #[trigger] shorter[a] == entries[if a
        < i {
        a
    } else {
        a + 1
    }] by {}
    assert forall|a: int, b: int| 0 <= a < b < shorter.len() implies (#[trigger] shorter[a]).0@
        != (#[trigger] shorter[b]).0@ by {
        let a0 = if a < i {
            a
        } else {
            a + 1
        };
        let b0 = if b < i {
            b
        } else {
            b + 1
        };
        assert(shorter[a] == entries[a0]);
        assert(shorter[b] == entries[b0]);
        assert(entries[a0].0@ != entries[b0].0@);
    }
    if has_name(shorter, entries[i].0@) {
        let a = position_of(shorter, entries[i].0@);
        let a0 = if a < i {
            a
        } else {
            a + 1
        };
        assert(shorter[a] == entries[a0]);
        if a0 < i {
            assert(entries[a0].0@ != entries[i].0@);
        } else {
            assert(entries[i].0@ != entries[a0].0@);
        }
    }
    let expected = map_of(entries).remove(entries[i].0@);
    assert forall|name: Seq<char>| map_of(shorter).contains_key(name) <==> expected.contains_key(
        name,
    ) by {
        if has_name(shorter, name) {
            let a = position_of(shorter, name);
            let a0 = if a < i {
                a
            } else {
                a + 1
            };
            assert(shorter[a] == entries[a0]);
            assert(has_name(entries, name));
        }
        if has_name(entries, name) && name != entries[i].0@ {
            let a0 = position_of(entries, name);
            let a = if a0 < i {
                a0
            } else {
                a0 - 1
            };
            assert(shorter[a] == entries[a0]);
            assert(has_name(shorter, name));
        }
    }
    assert forall|name: Seq<char>| map_of(shorter).contains_key(name) implies map_of(
        shorter,
    )[name] == expected[name] by {
        let a = position_of(shorter, name);
        let a0 = if a < i {
            a
        } else {
            a + 1
        };
        assert(shorter[a] == entries[a0]);
        lemma_map_of_entry(shorter, a);
        lemma_map_of_entry(entries, a0);
    }
    assert(map_of(shorter) =~= expected);
}

/// Where names are distinct, the map has one name for each entry.
pub proof fn lemma_map_of_len(entries: Seq<(String, MessageAttribute)>)
    requires
        names_distinct(entries),
    ensures
        map_of(entries).dom().finite(),
        map_of(entries).len() == entries.len(),
    decreases entries.len(),
{
    if entries.len() == 0 {
        assert(map_of(entries) =~= Map::empty());
    } else {
        let shorter = entries.drop_last();
        let last = entries.last();
        assert forall|i: int, j: int| 0 <= i < j < shorter.len() implies (#[trigger] shorter[i]).0@
            != (#[trigger] shorter[j]).0@ by {
            assert(shorter[i] == entries[i]);
            assert(shorter[j] == entries[j]);
        }
        if has_name(shorter, last.0@) {
            let at = position_of(shorter, last.0@);
            assert(shorter[at] == entries[at]);
            assert(entries[at].0@ != entries[entries.len() - 1].0@);
        }
        lemma_map_of_len(shorter);
        lemma_map_of_push(shorter, last);
        assert(shorter.push(last) =~= entries);
    }
}

/// Message attributes by name. Each name stands once.
#[derive(Debug)]
pub struct MessageAttributes {
    entries: Vec<(String, MessageAttribute)>,
}

impl View for MessageAttributes {
    type V = Map<Seq<char>, MessageAttributeView>;

    closed spec fn view(&self) -> Map<Seq<char>, MessageAttributeView> {
        map_of(self.entries@)
    }
}

impl MessageAttributes {
    #[verifier::type_invariant]
    spec fn well_formed(&self) -> bool {
        names_distinct(self.entries@)
    }

    /// No attributes.
    pub fn new() -> (r: Self)
        ensures
            r@ == Map::<Seq<char>, MessageAttributeView>::empty(),
    {
        let r = MessageAttributes { entries: Vec::new() };
        proof {
            assert(map_of(r.entries@) =~= Map::empty());
        }
        r
    }

    /// Puts `attribute` under `name`, and hands back what stood there before.
    pub fn insert(&mut self, name: String, attribute: MessageAttribute) -> (previous: Option<
        MessageAttribute,
    >)
        ensures
            final(self)@ == old(self)@.insert(name@, attribute@),
            match previous {
                Some(p) => old(self)@.contains_key(name@) && p@ == old(self)@[name@],
                None => !old(self)@.contains_key(name@),
            },
    {
        proof {
            use_type_invariant(&*self);
        }
        let mut entries: Vec<(String, MessageAttribute)> = Vec::new();
        std::mem::swap(&mut self.entries, &mut entries);
        let mut i: usize = 0;
        while i < entries.len()
            invariant
                i <= entries@.len(),
                entries@ == old(self).entries@,
                names_distinct(entries@),
                forall|j: int| 0 <= j < i ==> (#[trigger] entries@[j]).0@ != name@,
            decreases entries@.len() - i,
        {
            if same_text(entries[i].0.as_str(), name.as_str()) {
                proof {
                    lemma_map_of_entry(entries@, i as int);
                    lemma_map_of_remove(entries@, i as int);
                    lemma_map_of_push(entries@.remove(i as int), (name, attribute));
                    assert(map_of(entries@).remove(name@).insert(name@, attribute@) =~= map_of(
                        entries@,
                    ).insert(name@, attribute@));
                }
                let previous = entries.remove(i);
                entries.push((name, attribute));
                self.entries = entries;
                return Some(previous.1);
            }
            i += 1;
        }
        proof {
            if has_name(entries@, name@) {
                let at = position_of(entries@, name@);
                assert(entries@[at].0@ != name@);
            }
            lemma_map_of_push(entries@, (name, attribute));
        }
        entries.push((name, attribute));
        self.entries = entries;
        None
    }

    /// The attribute that stands under `name`.
    pub fn get(&self, name: &str) -> (r: Option<&MessageAttribute>)
        ensures
            match r {
                Some(attribute) => self@.contains_key(name@) && attribute@ == self@[name@],
                None => !self@.contains_key(name@),
            },
    {
        proof {
            use_type_invariant(self);
        }
        let mut i: usize = 0;
        while i < self.entries.len()
            invariant
                i <= self.entries@.len(),
                names_distinct(self.entries@),
                forall|j: int| 0 <= j < i ==> (#[trigger] self.entries@[j]).0@ != name@,
            decreases self.entries@.len() - i,
        {
            if same_text(self.entries[i].0.as_str(), name) {
                proof {
                    lemma_map_of_entry(self.entries@, i as int);
                }
                return Some(&self.entries[i].1);
            }
            i += 1;
        }
        proof {
            if has_name(self.entries@, name@) {
                let at = position_of(self.entries@, name@);
                assert(self.entries@[at].0@ != name@);
            }
        }
        None
    }

    /// How many names there are.
    pub fn len(&self) -> (r: usize)
        ensures
            self@.dom().finite(),
            r == self@.len(),
    {
        proof {
            use_type_invariant(self);
            lemma_map_of_len(self.entries@);
        }
        self.entries.len()
    }

    /// Whether there is no attribute at all.
    pub fn is_empty(&self) -> (r: bool)
        ensures
            r == (self@ == Map::<Seq<char>, MessageAttributeView>::empty()),
    {
        proof {
            use_type_invariant(self);
            lemma_map_of_len(self.entries@);
            if self.entries@.len() == 0 {
                assert(map_of(self.entries@) =~= Map::empty());
            }
        }
        self.entries.len() == 0
    }

    /// The names with their attributes, each name once.
    pub fn entries(&self) -> (r: &Vec<(String, MessageAttribute)>)
        ensures
            names_distinct(r@),
            map_of(r@) == self@,
    {
        proof {
            use_type_invariant(self);
        }
        &self.entries
    }
}

} // verus!
