//! Values under names, each name at most once.
use vstd::prelude::*;
use crate::json::{copy_value, is_null, value_tree};

verus! {

/// Values under names.
pub struct Table<V> {
    entries: Vec<(String, V)>,
}

/// The fields of a message, each a JSON value under its name.
pub type Fields = Table<serde_json::Value>;

/// No name occurs twice.
spec fn distinct<V>(entries: Seq<(String, V)>) -> bool {
    forall|i: int, j: int|
        0 <= i < j < entries.len() ==> (#[trigger] entries[i]).0@ != (#[trigger] entries[j]).0@
}

/// The values under their names.
spec fn as_map<V>(entries: Seq<(String, V)>) -> Map<Seq<char>, V>
    decreases entries.len(),
{
    if entries.len() == 0 {
        Map::empty()
    } else {
        as_map(entries.drop_last()).insert(entries.last().0@, entries.last().1)
    }
}

/// A list of entries gives each of its names its value, and no other name any.
proof fn lemma_as_map<V>(entries: Seq<(String, V)>)
    requires
        distinct(entries),
    ensures
        forall|i: int|
            0 <= i < entries.len() ==> as_map(entries).contains_key((#[trigger] entries[i]).0@)
                && as_map(entries)[entries[i].0@] == entries[i].1,
        forall|k: Seq<char>| #[trigger]
            as_map(entries).contains_key(k) ==> exists|i: int|
                0 <= i < entries.len() && (#[trigger] entries[i]).0@ == k,
    decreases entries.len(),
{
    if entries.len() > 0 {
        let front = entries.drop_last();
        lemma_as_map(front);
        assert forall|i: int| 0 <= i < entries.len() implies as_map(entries).contains_key(
            (#[trigger] entries[i]).0@,
        ) && as_map(entries)[entries[i].0@] == entries[i].1 by {
            if i < front.len() {
                assert(front[i] == entries[i]);
            }
        }
        assert forall|k: Seq<char>| #[trigger] as_map(entries).contains_key(k) implies exists|
            i: int,
        | 0 <= i < entries.len() && (#[trigger] entries[i]).0@ == k by {
            if k != entries.last().0@ {
                assert(as_map(front).contains_key(k));
                let i = choose|i: int| 0 <= i < front.len() && (#[trigger] front[i]).0@ == k;
                assert(entries[i].0@ == k);
            } else {
                assert(entries[entries.len() - 1].0@ == k);
            }
        }
    }
}

/// A new name behind the others is added to them.
proof fn lemma_push<V>(entries: Seq<(String, V)>, entry: (String, V))
    requires
        distinct(entries),
        !as_map(entries).contains_key(entry.0@),
    ensures
        distinct(entries.push(entry)),
        as_map(entries.push(entry)) == as_map(entries).insert(entry.0@, entry.1),
{
    lemma_as_map(entries);
    assert(entries.push(entry).drop_last() =~= entries);
}

/// A new value under an old name takes the place of the old one.
proof fn lemma_update<V>(entries: Seq<(String, V)>, at: int, entry: (String, V))
    requires
        distinct(entries),
        0 <= at < entries.len(),
        entries[at].0@ == entry.0@,
    ensures
        distinct(entries.update(at, entry)),
        as_map(entries.update(at, entry)) == as_map(entries).insert(entry.0@, entry.1),
{
    let updated = entries.update(at, entry);
    lemma_as_map(entries);
    lemma_as_map(updated);
    let (left, right) = (as_map(updated), as_map(entries).insert(entry.0@, entry.1));
    assert forall|k: Seq<char>| #[trigger] left.contains_key(k) <==> right.contains_key(k) by {
        if right.contains_key(k) && k != entry.0@ {
            let i = choose|i: int| 0 <= i < entries.len() && (#[trigger] entries[i]).0@ == k;
            assert(updated[i] == entries[i]);
        }
        assert(updated[at] == entry);
        if left.contains_key(k) {
            let i = choose|i: int| 0 <= i < updated.len() && (#[trigger] updated[i]).0@ == k;
            assert(entries[i].0@ == k);
        }
    }
    assert forall|k: Seq<char>| #[trigger] left.contains_key(k) implies left[k] == right[k] by {
        let i = choose|i: int| 0 <= i < updated.len() && (#[trigger] updated[i]).0@ == k;
        assert(entries[i].0@ == k);
    }
    assert(left =~= right);
}

/// The entries from `n` on are the entry at `n` and those from the next on.
proof fn lemma_skip<V>(entries: Seq<(String, V)>, n: int)
    requires
        distinct(entries),
        0 <= n < entries.len(),
    ensures
        as_map(entries.skip(n)) == as_map(entries.skip(n + 1)).insert(entries[n].0@, entries[n].1),
{
    let (left, right) = (entries.skip(n), entries.skip(n + 1));
    lemma_as_map(left);
    lemma_as_map(right);
    let (a, b) = (as_map(left), as_map(right).insert(entries[n].0@, entries[n].1));
    assert forall|k: Seq<char>| #[trigger] a.contains_key(k) <==> b.contains_key(k) by {
        if a.contains_key(k) {
            let i = choose|i: int| 0 <= i < left.len() && (#[trigger] left[i]).0@ == k;
            if i > 0 {
                assert(right[i - 1].0@ == k);
            }
        }
        if b.contains_key(k) {
            assert(left[0].0@ == entries[n].0@);
            if k != entries[n].0@ {
                let i = choose|i: int| 0 <= i < right.len() && (#[trigger] right[i]).0@ == k;
                assert(left[i + 1].0@ == k);
            }
        }
    }
    assert forall|k: Seq<char>| #[trigger] a.contains_key(k) implies a[k] == b[k] by {
        let i = choose|i: int| 0 <= i < left.len() && (#[trigger] left[i]).0@ == k;
        if i > 0 {
            assert(right[i - 1].0@ == k);
            assert(entries[n + i].0@ != entries[n].0@);
        }
    }
    assert(a =~= b);
}

impl<V> View for Table<V> {
    type V = Map<Seq<char>, V>;

    closed spec fn view(&self) -> Map<Seq<char>, V> {
        as_map(self.entries@)
    }
}

impl<V> Table<V> {
    /// No name occurs twice.
    #[verifier::type_invariant]
    spec fn wf(&self) -> bool {
        distinct(self.entries@)
    }

    /// A table without entries.
    pub fn new() -> (table: Self)
        ensures
            table@ == Map::<Seq<char>, V>::empty(),
    {
        Table { entries: Vec::new() }
    }

    /// Where the entry of the name `key` stands.
    fn position(&self, key: &String) -> (at: Option<usize>)
        ensures
            match at {
                Some(i) => i < self.entries.len() && self.entries[i as int].0@ == key@,
                None => !self@.contains_key(key@),
            },
    {
        for i in 0..self.entries.len()
            invariant
                forall|j: int| 0 <= j < i ==> (#[trigger] self.entries[j]).0@ != key@,
        {
            if self.entries[i].0 == *key {
                return Some(i);
            }
        }
        proof {
            use_type_invariant(self);
            lemma_as_map(self.entries@);
        }
        None
    }

    /// The value under the name `key`.
    pub fn get(&self, key: &String) -> (value: Option<&V>)
        ensures
            match value {
                Some(v) => self@.contains_key(key@) && *v == self@[key@],
                None => !self@.contains_key(key@),
            },
    {
        match self.position(key) {
            Some(i) => {
                proof {
                    use_type_invariant(self);
                    lemma_as_map(self.entries@);
                }
                Some(&self.entries[i].1)
            },
            None => None,
        }
    }

    /// Puts `value` under the name `key`, in place of what was there.
    pub fn insert(&mut self, key: String, value: V)
        ensures
            final(self)@ == old(self)@.insert(key@, value),
    {
        let at = self.position(&key);
        proof {
            use_type_invariant(&*self);
        }
        let mut entries: Vec<(String, V)> = Vec::new();
        std::mem::swap(&mut entries, &mut self.entries);
        match at {
            Some(i) => {
                proof {
                    lemma_update(entries@, i as int, (key, value));
                }
                entries.set(i, (key, value));
            },
            None => {
                proof {
                    lemma_push(entries@, (key, value));
                }
                entries.push((key, value));
            },
        }
        self.entries = entries;
    }

    /// Puts each value of `changes` under its name, in place of what was there.
    pub fn overlay(&mut self, changes: Table<V>)
        ensures
            final(self)@ == old(self)@.union_prefer_right(changes@),
    {
        proof {
            use_type_invariant(&changes);
        }
        let mut rest = changes.entries;
        let ghost base = self@;
        let ghost all = rest@;
        assert(all.skip(all.len() as int) =~= Seq::empty());
        assert(base.union_prefer_right(as_map(all.skip(all.len() as int))) =~= base);
        while rest.len() > 0
            invariant
                distinct(all),
                rest@ =~= all.take(rest.len() as int),
                rest.len() <= all.len(),
                self@ == base.union_prefer_right(as_map(all.skip(rest.len() as int))),
            decreases rest.len(),
        {
            let (key, value) = rest.pop().unwrap();
            proof {
                let n = rest.len() as int;
                lemma_skip(all, n);
                assert(self@.insert(key@, value) =~= base.union_prefer_right(as_map(all.skip(n))));
            }
            self.insert(key, value);
        }
        assert(all.skip(0) =~= all);
    }
}

/// The entries under their names, save for those that hold a null; of entries with the same name
/// the last one counts.
pub open spec fn present_fields(entries: Seq<(String, serde_json::Value)>) -> Map<
    Seq<char>,
    serde_json::Value,
>
    decreases entries.len(),
{
    if entries.len() == 0 {
        Map::empty()
    } else {
        let before = present_fields(entries.drop_last());
        let (name, value) = entries.last();
        if value_tree(value) is Null {
            before
        } else {
            before.insert(name@, value)
        }
    }
}

impl Table<serde_json::Value> {
    /// The fields of a message as it arrived. One that holds a null is as good as absent.
    pub fn present(entries: Vec<(String, serde_json::Value)>) -> (fields: Self)
        ensures
            fields@ == present_fields(entries@),
    {
        let mut fields = Table::new();
        let ghost all = entries@;
        for (name, value) in iter: entries
            invariant
                iter.seq() == all,
                fields@ == present_fields(all.take(iter.index() as int)),
        {
            assert(all.take(iter.index() + 1).drop_last() =~= all.take(iter.index() as int));
            if !is_null(&value) {
                fields.insert(name, value);
            }
        }
        assert(all.take(all.len() as int) =~= all);
        fields
    }

    /// A table with the same entries.
    pub fn copy(&self) -> (table: Self)
        ensures
            table@ == self@,
    {
        let mut entries: Vec<(String, serde_json::Value)> = Vec::new();
        for i in 0..self.entries.len()
            invariant
                entries.len() == i,
                forall|j: int| 0 <= j < i ==> #[trigger] entries[j] == self.entries[j],
        {
            let (key, value) = &self.entries[i];
            entries.push((key.clone(), copy_value(value)));
        }
        assert(entries@ =~= self.entries@);
        proof {
            use_type_invariant(self);
        }
        Table { entries }
    }
}

/// What was put under a name is what is read under it, and every other name reads as it did before.
pub proof fn law_table_reads_what_was_put<V>(
    table: &mut Table<V>,
    key: String,
    value: V,
    name: String,
    before: Option<&V>,
    after: Option<&V>,
)
    requires
        call_ensures(Table::<V>::get, (&*table, &name), before),
        call_ensures(Table::<V>::insert, (table, key, value), ()),
        call_ensures(Table::<V>::get, (&*final(table), &name), after),
    ensures
        name@ == key@ ==> (after matches Some(found) && *found == value),
        name@ != key@ ==> after == before,
{
}

/// A field is present just where an entry of its name holds no null, and then it holds the value of
/// the last such entry.
pub proof fn law_present_fields(
    entries: Vec<(String, serde_json::Value)>,
    fields: Fields,
    name: Seq<char>,
)
    requires
        call_ensures(Fields::present, (entries,), fields),
    ensures
        fields@.contains_key(name) <==> exists|i: int|
            0 <= i < entries@.len() && (#[trigger] entries@[i]).0@ == name && !(value_tree(
                entries@[i].1,
            ) is Null),
        fields@.contains_key(name) ==> exists|i: int|
            {
                &&& 0 <= i < entries@.len() && (#[trigger] entries@[i]).0@ == name
                &&& fields@[name] == entries@[i].1
                &&& forall|j: int|
                    i < j < entries@.len() && (#[trigger] entries@[j]).0@ == name ==> value_tree(
                        entries@[j].1,
                    ) is Null
            },
{
    lemma_present_fields(entries@, name);
}

/// Which entry a present field comes of.
proof fn lemma_present_fields(entries: Seq<(String, serde_json::Value)>, name: Seq<char>)
    ensures
        present_fields(entries).contains_key(name) <==> exists|i: int|
            0 <= i < entries.len() && (#[trigger] entries[i]).0@ == name && !(value_tree(
                entries[i].1,
            ) is Null),
        present_fields(entries).contains_key(name) ==> exists|i: int|
            {
                &&& 0 <= i < entries.len() && (#[trigger] entries[i]).0@ == name
                &&& present_fields(entries)[name] == entries[i].1
                &&& forall|j: int|
                    i < j < entries.len() && (#[trigger] entries[j]).0@ == name ==> value_tree(
                        entries[j].1,
                    ) is Null
            },
    decreases entries.len(),
{
    if entries.len() > 0 {
        let before = entries.drop_last();
        let last = entries.last();
        let at = entries.len() - 1;
        lemma_present_fields(before, name);
        assert(entries[at] == last);
        if last.0@ == name && !(value_tree(last.1) is Null) {
            assert(present_fields(entries)[name] == entries[at].1);
        } else {
            if present_fields(before).contains_key(name) {
                let i = choose|i: int|
                    {
                        &&& 0 <= i < before.len() && (#[trigger] before[i]).0@ == name
                        &&& present_fields(before)[name] == before[i].1
                        &&& forall|j: int|
                            i < j < before.len() && (#[trigger] before[j]).0@ == name ==> value_tree(
                                before[j].1,
                            ) is Null
                    };
                assert(entries[i] == before[i]);
                assert forall|j: int|
                    i < j < entries.len() && (#[trigger] entries[j]).0@ == name implies value_tree(
                    entries[j].1,
                ) is Null by {
                    if j < at {
                        assert(before[j] == entries[j]);
                    }
                }
                let k = choose|k: int|
                    0 <= k < before.len() && (#[trigger] before[k]).0@ == name && !(value_tree(
                        before[k].1,
                    ) is Null);
                assert(entries[k] == before[k]);
            } else {
                assert forall|i: int|
                    0 <= i < entries.len() && (#[trigger] entries[i]).0@ == name implies value_tree(
                    entries[i].1,
                ) is Null by {
                    if i < at {
                        assert(before[i] == entries[i]);
                    }
                }
            }
        }
    }
}

} // verus!
