//! The header multimap: an ordered mapping from header name to a
//! non-empty sequence of values. Inserting appends, never overwrites;
//! names iterate in their lexicographic order, not insertion order,
//! while the values of one name keep their insertion order. The values
//! of a name are stored in smallvec's small-size-optimized vector,
//! with room for one value inline.

use vstd::prelude::*;

use crate::text::lemma_lex_lt_transitive;
use crate::text::lemma_lex_lt_trichotomy;
use crate::text::lex_lt;
use crate::text::text_eq;
use crate::text::text_lt;
use smallvec::SmallVec;

verus! {

/// The storage for the values of one header name: smallvec's
/// small-size-optimized vector, with room for one value inline and
/// more on the heap. The vector itself is opaque to verification; its
/// contents are visible only through `list_values`.
#[verifier::external_body]
#[derive(Debug)]
pub struct ValueList {
    items: SmallVec<[String; 1]>,
}

/// The values a `ValueList` holds, in order.
pub uninterp spec fn list_values(v: ValueList) -> Seq<Seq<char>>;

/// Relies on smallvec's `SmallVec::new`: constructs an empty vector.
#[verifier::external_body]
fn value_list_new() -> (r: ValueList)
    ensures
        list_values(r) == Seq::<Seq<char>>::empty(),
{
    ValueList { items: SmallVec::new() }
}

/// Relies on smallvec's `SmallVec::push`: appends an item at the end.
#[verifier::external_body]
fn value_list_push(v: &mut ValueList, s: String)
    ensures
        list_values(*final(v)) == list_values(*old(v)).push(s@),
{
    v.items.push(s)
}

impl ValueList {
    /// Relies on smallvec's `SmallVec::len`: the number of items held.
    #[verifier::external_body]
    pub fn len(&self) -> (r: usize)
        ensures
            r == list_values(*self).len(),
    {
        self.items.len()
    }

    /// Relies on smallvec's `SmallVec::as_slice`: all items, in order.
    #[verifier::external_body]
    pub fn get(&self, i: usize) -> (r: &String)
        requires
            i < list_values(*self).len(),
        ensures
            r@ == list_values(*self)[i as int],
    {
        &self.items.as_slice()[i]
    }

    /// The values as a plain vector, in order.
    pub fn to_vec(&self) -> (r: Vec<String>)
        ensures
            r@.map_values(|s: String| s@) == list_values(*self),
    {
        let n = self.len();
        let mut r: Vec<String> = Vec::new();
        let mut i: usize = 0;
        while i < n
            invariant
                n == list_values(*self).len(),
                i <= n,
                r@.len() == i,
                forall|j: int| 0 <= j < i ==> (#[trigger] r@[j])@ == list_values(*self)[j],
            decreases n - i,
        {
            r.push(self.get(i).clone());
            i += 1;
        }
        proof {
            assert(r@.map_values(|s: String| s@) =~= list_values(*self));
        }
        r
    }
}

impl Clone for ValueList {
    /// Relies on smallvec's `Clone`: the clone holds clones of the
    /// items, in order, and a `String` clone keeps its characters.
    #[verifier::external_body]
    fn clone(&self) -> (r: Self)
        ensures
            list_values(r) == list_values(*self),
    {
        ValueList { items: self.items.clone() }
    }
}

/// One entry of the map's view: a name and its values.
pub type EntryView = (Seq<char>, Seq<Seq<char>>);

/// Whether entry names are strictly increasing in lexicographic order.
pub open spec fn sorted_by_name(s: Seq<EntryView>) -> bool {
    forall|i: int, j: int| 0 <= i < j < s.len() ==> lex_lt(s[i].0, s[j].0)
}

/// Whether a name is present among the entries.
pub open spec fn has_name(s: Seq<EntryView>, name: Seq<char>) -> bool {
    exists|i: int| 0 <= i < s.len() && s[i].0 == name
}

/// The index of a name among the entries (meaningful when present).
pub open spec fn name_index(s: Seq<EntryView>, name: Seq<char>) -> int {
    choose|i: int| 0 <= i < s.len() && s[i].0 == name
}

/// The values of a name among the entries, or `None` if absent.
pub open spec fn lookup(s: Seq<EntryView>, name: Seq<char>) -> Option<Seq<Seq<char>>> {
    if has_name(s, name) {
        Some(s[name_index(s, name)].1)
    } else {
        None
    }
}

/// In a sorted sequence of entries no name repeats, so an entry's
/// index is determined by its name.
proof fn lemma_sorted_name_unique(s: Seq<EntryView>, i: int, j: int)
    requires
        sorted_by_name(s),
        0 <= i < s.len(),
        0 <= j < s.len(),
        s[i].0 == s[j].0,
    ensures
        i == j,
{
    if i < j {
        lemma_lex_lt_trichotomy(s[i].0, s[j].0);
    }
    if j < i {
        lemma_lex_lt_trichotomy(s[j].0, s[i].0);
    }
}

/// In a sorted sequence of entries, looking up the name of entry `i`
/// finds exactly that entry.
proof fn lemma_lookup_at(s: Seq<EntryView>, i: int)
    requires
        sorted_by_name(s),
        0 <= i < s.len(),
    ensures
        lookup(s, s[i].0) == Some(s[i].1),
{
    assert(has_name(s, s[i].0));
    lemma_sorted_name_unique(s, i, name_index(s, s[i].0));
}

/// An ordered multimap from header name to one-or-more values.
///
/// The entries are kept sorted by name; the values of one name keep
/// the order in which they were inserted.
#[derive(Debug)]
pub struct HeaderMap {
    entries: Vec<(String, ValueList)>,
}

impl View for HeaderMap {
    type V = Seq<EntryView>;

    /// The entries in iteration order: names ascending, each with its
    /// values in insertion order.
    closed spec fn view(&self) -> Seq<EntryView> {
        self.entries@.map_values(|e: (String, ValueList)| (e.0@, list_values(e.1)))
    }
}

impl HeaderMap {
    /// The map's invariant: names strictly ascending, every entry
    /// holding at least one value.
    pub open spec fn wf(&self) -> bool {
        &&& sorted_by_name(self@)
        &&& forall|i: int| 0 <= i < self@.len() ==> self@[i].1.len() > 0
    }

    /// Constructs an empty map.
    pub fn new() -> (r: HeaderMap)
        ensures
            r@ == Seq::<EntryView>::empty(),
            r.wf(),
    {
        let r = HeaderMap { entries: Vec::new() };
        proof {
            assert(r@ =~= Seq::<EntryView>::empty());
        }
        r
    }

    /// The number of distinct names present.
    pub fn len(&self) -> (r: usize)
        ensures
            r == self@.len(),
    {
        self.entries.len()
    }

    /// The name of the entry at position `i` of the iteration order.
    pub fn name_at(&self, i: usize) -> (r: &String)
        requires
            i < self@.len(),
        ensures
            r@ == self@[i as int].0,
    {
        &self.entries[i].0
    }

    /// The values of the entry at position `i` of the iteration order.
    pub fn values_at(&self, i: usize) -> (r: &ValueList)
        requires
            i < self@.len(),
        ensures
            list_values(*r) == self@[i as int].1,
    {
        &self.entries[i].1
    }

    /// The full ordered value sequence of a name, or `None` if the
    /// name is absent: absence is distinguishable from presence with
    /// one value.
    pub fn get_all(&self, name: &str) -> (r: Option<&ValueList>)
        requires
            self.wf(),
        ensures
            match r {
                Some(v) => lookup(self@, name@) == Some(list_values(*v)) && list_values(*v).len()
                    > 0,
                None => lookup(self@, name@) is None,
            },
    {
        let n = self.entries.len();
        let mut i: usize = 0;
        while i < n
            invariant
                self.wf(),
                n == self@.len(),
                i <= n,
                forall|j: int| 0 <= j < i ==> self@[j].0 != name@,
            decreases n - i,
        {
            if text_eq(self.entries[i].0.as_str(), name) {
                proof {
                    lemma_lookup_at(self@, i as int);
                }
                return Some(&self.entries[i].1);
            }
            i += 1;
        }
        proof {
            assert(!has_name(self@, name@));
        }
        None
    }

    /// Appends `value` to the values of `name`, creating the entry at
    /// its sorted position if the name is absent; values already
    /// present for the name are never overwritten.
    pub fn insert(&mut self, name: String, value: String)
        requires
            old(self).wf(),
        ensures
            final(self).wf(),
            lookup(final(self)@, name@) == match lookup(old(self)@, name@) {
                Option::None => Some(seq![value@]),
                Option::Some(vs) => Some(vs.push(value@)),
            },
            forall|k: Seq<char>| k != name@ ==> lookup(final(self)@, k) == lookup(old(self)@, k),
            final(self)@.len() == old(self)@.len() + (if has_name(old(self)@, name@) {
                0int
            } else {
                1int
            }),
    {
        let ghost s0 = self@;
        let ghost es0 = self.entries@;
        let n = self.entries.len();
        let mut i: usize = 0;
        while i < n && text_lt(self.entries[i].0.as_str(), name.as_str())
            invariant
                self.wf(),
                self@ == s0,
                self.entries@ == es0,
                n == self@.len(),
                i <= n,
                forall|j: int| 0 <= j < i ==> lex_lt(self@[j].0, name@),
            decreases n - i,
        {
            i += 1;
        }
        // names before position i are smaller than `name`; from i on they are not
        if i < n && text_eq(self.entries[i].0.as_str(), name.as_str()) {
            let (nm, mut vs) = self.entries.remove(i);
            value_list_push(&mut vs, value);
            let ghost e = (nm, vs);
            self.entries.insert(i, (nm, vs));
            proof {
                let s1 = self@;
                let es1 = self.entries@;
                let er = es0.remove(i as int);
                es0.remove_ensures(i as int);
                er.insert_ensures(i as int, e);
                assert(e.0@ == s0[i as int].0 && list_values(e.1) == s0[i as int].1.push(value@));
                assert(s0[i as int].0 == name@);
                assert forall|j: int| 0 <= j < s1.len() && j != i implies s1[j] == s0[j] by {
                    if j < i {
                        assert(es1[j] == es0[j]);
                    } else {
                        assert(er[j - 1] == es0[j]);
                        assert(es1[j] == er[j - 1]);
                    }
                }
                assert(s1[i as int] == (name@, s0[i as int].1.push(value@)));
                assert(sorted_by_name(s1));
                lemma_lookup_at(s0, i as int);
                lemma_lookup_at(s1, i as int);
                assert forall|k: Seq<char>| k != name@ implies lookup(s1, k) == lookup(
                    s0,
                    k,
                ) by {
                    Self::lemma_lookup_same_names(s0, s1, k);
                }
            }
        } else {
            let mut vs = value_list_new();
            value_list_push(&mut vs, value);
            let ghost e = (name, vs);
            self.entries.insert(i, (name, vs));
            proof {
                let s1 = self@;
                let es1 = self.entries@;
                es0.insert_ensures(i as int, e);
                assert(Seq::<Seq<char>>::empty().push(value@) =~= seq![value@]);
                assert forall|j: int| 0 <= j < i implies s1[j] == s0[j] by {
                    assert(es1[j] == es0[j]);
                }
                assert forall|j: int| i < j < s1.len() implies s1[j] == s0[j - 1] by {
                    assert(es1[j] == es0[j - 1]);
                }
                assert(es1[i as int] == e);
                assert(s1[i as int] == (name@, seq![value@]));
                // from position i on, every existing name exceeds `name`
                if i < n {
                    lemma_lex_lt_trichotomy(s0[i as int].0, name@);
                }
                assert forall|j: int| i <= j < s0.len() implies lex_lt(name@, s0[j].0) by {
                    if i < j {
                        lemma_lex_lt_transitive(name@, s0[i as int].0, s0[j].0);
                    }
                }
                assert forall|j: int| 0 <= j < s0.len() implies s0[j].0 != name@ by {
                    if j < i {
                        lemma_lex_lt_trichotomy(s0[j].0, name@);
                    } else {
                        lemma_lex_lt_trichotomy(name@, s0[j].0);
                    }
                }
                assert(!has_name(s0, name@));
                assert forall|a: int, b: int| 0 <= a < b < s1.len() implies lex_lt(
                    s1[a].0,
                    s1[b].0,
                ) by {
                    if b < i {
                        assert(s1[a] == s0[a] && s1[b] == s0[b]);
                    } else if b == i {
                        assert(s1[a] == s0[a]);
                    } else if a < i {
                        assert(s1[a] == s0[a] && s1[b] == s0[b - 1]);
                    } else if a == i {
                        assert(s1[b] == s0[b - 1]);
                    } else {
                        assert(s1[a] == s0[a - 1] && s1[b] == s0[b - 1]);
                    }
                }
                lemma_lookup_at(s1, i as int);
                assert(lookup(s1, name@) == Some(seq![value@]));
                assert forall|k: Seq<char>| k != name@ implies lookup(s1, k) == lookup(
                    s0,
                    k,
                ) by {
                    Self::lemma_lookup_insert_other(s0, s1, i as int, k);
                }
            }
        }
    }

    /// Unchanged names look up unchanged values: `s1` has the same
    /// names at the same positions as `s0`, with position `i` the only
    /// one whose values may differ.
    proof fn lemma_lookup_same_names(s0: Seq<EntryView>, s1: Seq<EntryView>, k: Seq<char>)
        requires
            sorted_by_name(s0),
            s0.len() == s1.len(),
            forall|j: int| 0 <= j < s1.len() ==> s1[j].0 == s0[j].0,
            forall|j: int|
                0 <= j < s1.len() && s1[j] != s0[j] ==> s0[j].0 != k,
        ensures
            lookup(s1, k) == lookup(s0, k),
    {
        assert(sorted_by_name(s1));
        if has_name(s0, k) {
            let j = name_index(s0, k);
            assert(s1[j].0 == k);
            assert(has_name(s1, k));
            lemma_sorted_name_unique(s1, j, name_index(s1, k));
            assert(s1[j] == s0[j]);
        } else {
            assert(!has_name(s1, k));
        }
    }

    /// Names other than the one inserted at position `i` look up the
    /// same values in `s1 == s0.insert(i, entry)` as in `s0`.
    proof fn lemma_lookup_insert_other(s0: Seq<EntryView>, s1: Seq<EntryView>, i: int, k: Seq<char>)
        requires
            sorted_by_name(s0),
            sorted_by_name(s1),
            0 <= i <= s0.len(),
            s1.len() == s0.len() + 1,
            forall|j: int| 0 <= j < i ==> s1[j] == s0[j],
            forall|j: int| i < j < s1.len() ==> s1[j] == s0[j - 1],
            s1[i].0 != k,
        ensures
            lookup(s1, k) == lookup(s0, k),
    {
        if has_name(s0, k) {
            let j = name_index(s0, k);
            let j1: int = if j < i {
                j
            } else {
                j + 1
            };
            assert(s1[j1].0 == k && s1[j1].1 == s0[j].1);
            assert(has_name(s1, k));
            lemma_sorted_name_unique(s1, j1, name_index(s1, k));
        } else {
            if has_name(s1, k) {
                let j1 = name_index(s1, k);
                assert(j1 != i);
                let j: int = if j1 < i {
                    j1
                } else {
                    j1 - 1
                };
                assert(s0[j].0 == k);
                assert(has_name(s0, k));
            }
        }
    }

    /// Removes the whole entry of `name`, returning its values, or
    /// `None` (and changing nothing) if the name is absent.
    pub fn remove(&mut self, name: &str) -> (r: Option<ValueList>)
        requires
            old(self).wf(),
        ensures
            final(self).wf(),
            lookup(final(self)@, name@) is None,
            r matches Some(v) ==> lookup(old(self)@, name@) == Some(list_values(v)),
            r is None ==> lookup(old(self)@, name@) is None && final(self)@ == old(self)@,
            forall|k: Seq<char>| k != name@ ==> lookup(final(self)@, k) == lookup(old(self)@, k),
    {
        let ghost s0 = self@;
        let ghost es0 = self.entries@;
        let n = self.entries.len();
        let mut i: usize = 0;
        while i < n
            invariant
                self.wf(),
                self@ == s0,
                s0 == old(self)@,
                self.entries@ == es0,
                n == self@.len(),
                i <= n,
                forall|j: int| 0 <= j < i ==> self@[j].0 != name@,
            decreases n - i,
        {
            if text_eq(self.entries[i].0.as_str(), name) {
                proof {
                    lemma_lookup_at(s0, i as int);
                }
                let (_, vs) = self.entries.remove(i);
                proof {
                    let s1 = self@;
                    let es1 = self.entries@;
                    es0.remove_ensures(i as int);
                    assert(list_values(vs) == s0[i as int].1);
                    assert forall|j: int| 0 <= j < i implies s1[j] == s0[j] by {
                        assert(es1[j] == es0[j]);
                    }
                    assert forall|j: int| i <= j < s1.len() implies s1[j] == s0[j + 1] by {
                        assert(es1[j] == es0[j + 1]);
                    }
                    assert forall|a: int, b: int| 0 <= a < b < s1.len() implies lex_lt(
                        s1[a].0,
                        s1[b].0,
                    ) by {
                        if b < i {
                            assert(s1[a] == s0[a] && s1[b] == s0[b]);
                        } else if a < i {
                            assert(s1[a] == s0[a] && s1[b] == s0[b + 1]);
                        } else {
                            assert(s1[a] == s0[a + 1] && s1[b] == s0[b + 1]);
                        }
                    }
                    assert forall|k: Seq<char>| k != name@ implies lookup(s1, k) == lookup(
                        s0,
                        k,
                    ) by {
                        Self::lemma_lookup_insert_other(s1, s0, i as int, k);
                    }
                    assert forall|j: int| 0 <= j < s1.len() implies s1[j].0 != name@ by {
                        if j >= i && s1[j].0 == name@ {
                            lemma_sorted_name_unique(s0, i as int, j + 1);
                        }
                    }
                    assert(!has_name(s1, name@));
                }
                return Some(vs);
            }
            i += 1;
        }
        proof {
            assert(!has_name(s0, name@));
        }
        None
    }
}

impl Clone for HeaderMap {
    /// The clone holds the same entries: same names, same values, in
    /// the same order.
    fn clone(&self) -> (r: Self)
        ensures
            r@ == self@,
    {
        let n = self.entries.len();
        let mut entries: Vec<(String, ValueList)> = Vec::new();
        let mut i: usize = 0;
        while i < n
            invariant
                n == self.entries@.len(),
                i <= n,
                entries@.len() == i,
                forall|j: int|
                    0 <= j < i ==> (#[trigger] entries@[j]).0@ == self.entries@[j].0@ && list_values(
                        entries@[j].1,
                    ) == list_values(self.entries@[j].1),
            decreases n - i,
        {
            let nm = self.entries[i].0.clone();
            let vs = self.entries[i].1.clone();
            entries.push((nm, vs));
            i += 1;
        }
        let r = HeaderMap { entries };
        proof {
            assert(r@ =~= self@);
        }
        r
    }
}

} // verus!
