//! Ignore directives: which checks may fail without blocking an operation.
//! An `IgnoreMap` maps a group id to the check ids suppressed in that group,
//! where an empty list means every check of the group (a wildcard). An
//! `IgnoreStore` keeps one such map per target attribute.

use crate::strutil::{split_first_of, str_eq};
use vstd::assert_sets_equal;
use vstd::map::*;
use vstd::prelude::*;
use vstd::string::StringExecFns;

verus! {

broadcast use vstd::string::group_string_axioms;

/// A key occurs in an association list.
pub open spec fn assoc_contains<V>(entries: Seq<(String, V)>, k: Seq<char>) -> bool {
    exists|i: int| 0 <= i < entries.len() && (#[trigger] entries[i]).0@ == k
}

/// The index at which a key occurs.
pub open spec fn assoc_index<V>(entries: Seq<(String, V)>, k: Seq<char>) -> int {
    choose|i: int| 0 <= i < entries.len() && (#[trigger] entries[i]).0@ == k
}

/// The mapping an association list denotes.
pub open spec fn assoc_map<V: DeepView>(entries: Seq<(String, V)>) -> Map<
    Seq<char>,
    <V as DeepView>::V,
> {
    Map::new(
        |k: Seq<char>| assoc_contains(entries, k),
        |k: Seq<char>| entries[assoc_index(entries, k)].1.deep_view(),
    )
}

/// No key occurs twice.
pub open spec fn assoc_wf<V>(entries: Seq<(String, V)>) -> bool {
    forall|i: int, j: int|
        0 <= i < j < entries.len() ==> (#[trigger] entries[i]).0@ != (#[trigger] entries[j]).0@
}

pub proof fn lemma_assoc_at<V: DeepView>(entries: Seq<(String, V)>, i: int)
    requires
        assoc_wf(entries),
        0 <= i < entries.len(),
    ensures
        assoc_map(entries).contains_key(entries[i].0@),
        assoc_map(entries)[entries[i].0@] == entries[i].1.deep_view(),
{
    let k = entries[i].0@;
    assert(assoc_contains(entries, k));
    let j = assoc_index(entries, k);
    assert(0 <= j < entries.len() && entries[j].0@ == k);
    assert(j == i);
}

pub proof fn lemma_assoc_push<V: DeepView>(entries: Seq<(String, V)>, key: String, val: V)
    requires
        assoc_wf(entries),
        !assoc_contains(entries, key@),
    ensures
        assoc_wf(entries.push((key, val))),
        assoc_map(entries.push((key, val))) == assoc_map(entries).insert(key@, val.deep_view()),
{
    let e2 = entries.push((key, val));
    let n = entries.len() as int;
    assert forall|i: int, j: int| 0 <= i < j < e2.len() implies (#[trigger] e2[i]).0@
        != (#[trigger] e2[j]).0@ by {
        if j == n {
            assert(e2[i] == entries[i]);
            assert(e2[j].0@ == key@);
        } else {
            assert(e2[i] == entries[i]);
            assert(e2[j] == entries[j]);
        }
    }
    assert_maps_equal!(
        assoc_map(e2),
        assoc_map(entries).insert(key@, val.deep_view()),
        k => {
            if k == key@ {
                assert(e2[n].0@ == k);
                assert(assoc_contains(e2, k));
                let j = assoc_index(e2, k);
                assert(0 <= j < e2.len() && e2[j].0@ == k);
                assert(j == n);
            } else {
                if assoc_contains(e2, k) {
                    let j = assoc_index(e2, k);
                    assert(0 <= j < e2.len() && e2[j].0@ == k);
                    assert(j < n);
                    assert(entries[j] == e2[j]);
                    lemma_assoc_at(entries, j);
                }
                if assoc_contains(entries, k) {
                    let j = assoc_index(entries, k);
                    assert(0 <= j < entries.len() && entries[j].0@ == k);
                    assert(e2[j] == entries[j]);
                    assert(assoc_contains(e2, k));
                }
            }
        }
    );
}

pub proof fn lemma_assoc_remove<V: DeepView>(entries: Seq<(String, V)>, i: int)
    requires
        assoc_wf(entries),
        0 <= i < entries.len(),
    ensures
        assoc_wf(entries.remove(i)),
        !assoc_contains(entries.remove(i), entries[i].0@),
        assoc_map(entries.remove(i)) == assoc_map(entries).remove(entries[i].0@),
{
    let e2 = entries.remove(i);
    let n = entries.len() as int;
    assert forall|a: int| 0 <= a < e2.len() implies #[trigger] e2[a] == (if a < i {
        entries[a]
    } else {
        entries[a + 1]
    }) by {
        assert(e2 == entries.subrange(0, i) + entries.subrange(i + 1, n));
    }
    assert forall|a: int, b: int| 0 <= a < b < e2.len() implies (#[trigger] e2[a]).0@
        != (#[trigger] e2[b]).0@ by {}
    assert forall|a: int| 0 <= a < e2.len() implies (#[trigger] e2[a]).0@ != entries[i].0@ by {}
    assert_maps_equal!(
        assoc_map(e2),
        assoc_map(entries).remove(entries[i].0@),
        k => {
            if assoc_contains(e2, k) {
                let j = assoc_index(e2, k);
                assert(0 <= j < e2.len() && e2[j].0@ == k);
                let j0: int = if j < i { j } else { j + 1 };
                assert(entries[j0].0@ == k);
                assert(assoc_contains(entries, k));
                lemma_assoc_at(entries, j0);
            }
            if k != entries[i].0@ && assoc_contains(entries, k) {
                let j = assoc_index(entries, k);
                assert(0 <= j < entries.len() && entries[j].0@ == k);
                assert(j != i);
                let j2: int = if j < i { j } else { j - 1 };
                assert(e2[j2] == entries[j]);
                assert(assoc_contains(e2, k));
            }
        }
    );
}

/// The set of keys of an association list.
pub open spec fn assoc_keys<V>(entries: Seq<(String, V)>) -> Set<Seq<char>>
    decreases entries.len(),
{
    if entries.len() == 0 {
        Set::empty()
    } else {
        assoc_keys(entries.drop_last()).insert(entries.last().0@)
    }
}

pub proof fn lemma_assoc_dom<V: DeepView>(entries: Seq<(String, V)>)
    requires
        assoc_wf(entries),
    ensures
        assoc_map(entries).dom() == assoc_keys(entries),
        assoc_keys(entries).finite(),
        assoc_keys(entries).len() == entries.len(),
    decreases entries.len(),
{
    let n = entries.len() as int;
    if entries.len() == 0 {
        assert_sets_equal!(assoc_map(entries).dom(), assoc_keys(entries), k => {
            if assoc_contains(entries, k) {
                let j = assoc_index(entries, k);
                assert(0 <= j < entries.len());
            }
        });
    } else {
        let prefix = entries.drop_last();
        assert forall|a: int, b: int| 0 <= a < b < prefix.len() implies (#[trigger] prefix[a]).0@
            != (#[trigger] prefix[b]).0@ by {
            assert(prefix[a] == entries[a]);
            assert(prefix[b] == entries[b]);
        }
        lemma_assoc_dom(prefix);
        // the last key is new, by well-formedness
        if assoc_contains(prefix, entries.last().0@) {
            let j = assoc_index(prefix, entries.last().0@);
            assert(0 <= j < prefix.len() && prefix[j].0@ == entries.last().0@);
            assert(entries[j].0@ == entries[n - 1].0@);
        }
        assert(!assoc_keys(prefix).contains(entries.last().0@));
        assert_sets_equal!(assoc_map(entries).dom(), assoc_keys(entries), k => {
            if assoc_contains(entries, k) {
                let j = assoc_index(entries, k);
                assert(0 <= j < entries.len() && entries[j].0@ == k);
                if j < n - 1 {
                    assert(prefix[j].0@ == k);
                    assert(assoc_contains(prefix, k));
                }
            }
            if assoc_keys(entries).contains(k) {
                if k == entries.last().0@ {
                    assert(entries[n - 1].0@ == k);
                    assert(assoc_contains(entries, k));
                } else {
                    assert(assoc_keys(prefix).contains(k));
                    assert(assoc_contains(prefix, k));
                    let j = assoc_index(prefix, k);
                    assert(0 <= j < prefix.len() && prefix[j].0@ == k);
                    assert(entries[j].0@ == k);
                    assert(assoc_contains(entries, k));
                }
            }
        });
    }
}

/// Suppression directives for one target: group id to suppressed check ids,
/// an empty list standing for the whole group.
#[derive(Debug)]
pub struct IgnoreMap {
    entries: Vec<(String, Vec<String>)>,
}

impl View for IgnoreMap {
    type V = Map<Seq<char>, Seq<Seq<char>>>;

    closed spec fn view(&self) -> Map<Seq<char>, Seq<Seq<char>>> {
        assoc_map(self.entries@)
    }
}

impl DeepView for IgnoreMap {
    type V = Map<Seq<char>, Seq<Seq<char>>>;

    open spec fn deep_view(&self) -> Map<Seq<char>, Seq<Seq<char>>> {
        self.view()
    }
}

impl IgnoreMap {
    /// Keys are unique, so lookups are unambiguous.
    pub closed spec fn wf(&self) -> bool {
        assoc_wf(self.entries@)
    }

    pub fn new() -> (r: Self)
        ensures
            r@ == Map::<Seq<char>, Seq<Seq<char>>>::empty(),
            r.wf(),
    {
        let r = IgnoreMap { entries: Vec::new() };
        proof {
            assert_maps_equal!(
                assoc_map(r.entries@),
                Map::<Seq<char>, Seq<Seq<char>>>::empty(),
                k => {
                    if assoc_contains(r.entries@, k) {
                        let j = assoc_index(r.entries@, k);
                        assert(0 <= j < r.entries@.len());
                    }
                }
            );
        }
        r
    }

    fn find_index(&self, key: &str) -> (r: Option<usize>)
        ensures
            match r {
                Some(i) => i < self.entries@.len() && self.entries@[i as int].0@ == key@,
                None => !assoc_contains(self.entries@, key@),
            },
    {
        let mut i: usize = 0;
        while i < self.entries.len()
            invariant
                i <= self.entries@.len(),
                forall|j: int| 0 <= j < i ==> (#[trigger] self.entries@[j]).0@ != key@,
            decreases self.entries@.len() - i,
        {
            if str_eq(self.entries[i].0.as_str(), key) {
                return Some(i);
            }
            i += 1;
        }
        None
    }

    /// Maps `key` to `value`, handing back what it replaced.
    pub fn insert(&mut self, key: String, value: Vec<String>) -> (r: Option<Vec<String>>)
        requires
            old(self).wf(),
        ensures
            final(self).wf(),
            final(self)@ == old(self)@.insert(key@, value.deep_view()),
            match r {
                Some(v) => old(self)@.contains_key(key@) && v.deep_view() == old(self)@[key@],
                None => !old(self)@.contains_key(key@),
            },
    {
        match self.find_index(key.as_str()) {
            Some(i) => {
                proof {
                    lemma_assoc_at(self.entries@, i as int);
                    lemma_assoc_remove(self.entries@, i as int);
                }
                let ghost entries0 = self.entries@;
                let (_, old_val) = self.entries.remove(i);
                proof {
                    lemma_assoc_push(self.entries@, key, value);
                    assert(assoc_map(entries0).remove(key@).insert(key@, value.deep_view())
                        =~= assoc_map(entries0).insert(key@, value.deep_view()));
                }
                self.entries.push((key, value));
                Some(old_val)
            },
            None => {
                proof {
                    lemma_assoc_push(self.entries@, key, value);
                }
                self.entries.push((key, value));
                None
            },
        }
    }

    /// The suppressed check ids of `key`, if the group has an entry.
    pub fn get(&self, key: &str) -> (r: Option<&Vec<String>>)
        requires
            self.wf(),
        ensures
            match r {
                Some(v) => self@.contains_key(key@) && v.deep_view() == self@[key@],
                None => !self@.contains_key(key@),
            },
    {
        match self.find_index(key) {
            Some(i) => {
                proof {
                    lemma_assoc_at(self.entries@, i as int);
                }
                Some(&self.entries[i].1)
            },
            None => None,
        }
    }

    pub fn contains_key(&self, key: &str) -> (r: bool)
        requires
            self.wf(),
        ensures
            r == self@.contains_key(key@),
    {
        match self.find_index(key) {
            Some(i) => {
                proof {
                    lemma_assoc_at(self.entries@, i as int);
                }
                true
            },
            None => false,
        }
    }

    /// How many groups have an entry.
    pub fn len(&self) -> (r: usize)
        requires
            self.wf(),
        ensures
            r == self@.dom().len(),
    {
        proof {
            lemma_assoc_dom(self.entries@);
        }
        self.entries.len()
    }

    pub fn is_empty(&self) -> (r: bool)
        requires
            self.wf(),
        ensures
            r == (self@.dom().len() == 0),
    {
        proof {
            lemma_assoc_dom(self.entries@);
        }
        self.entries.len() == 0
    }

    /// The group ids that have an entry, in insertion order.
    pub fn group_ids(&self) -> (r: Vec<String>)
        requires
            self.wf(),
        ensures
            r@.len() == self@.dom().len(),
            forall|i: int| 0 <= i < r@.len() ==> self@.contains_key((#[trigger] r@[i])@),
            forall|i: int, j: int| 0 <= i < j < r@.len() ==> (#[trigger] r@[i])@ != (#[trigger] r@[j])@,
    {
        proof {
            lemma_assoc_dom(self.entries@);
        }
        let mut out: Vec<String> = Vec::new();
        let mut i: usize = 0;
        while i < self.entries.len()
            invariant
                self.wf(),
                i <= self.entries@.len(),
                out@.len() == i,
                forall|j: int| 0 <= j < i ==> (#[trigger] out@[j])@ == self.entries@[j].0@,
            decreases self.entries@.len() - i,
        {
            out.push(self.entries[i].0.clone());
            i += 1;
        }
        proof {
            assert forall|j: int| 0 <= j < out@.len() implies self@.contains_key(
                (#[trigger] out@[j])@,
            ) by {
                lemma_assoc_at(self.entries@, j);
            }
        }
        out
    }

    /// An equal, independently owned map.
    pub fn duplicate(&self) -> (r: Self)
        requires
            self.wf(),
        ensures
            r.wf(),
            r@ == self@,
    {
        let mut entries: Vec<(String, Vec<String>)> = Vec::new();
        let mut i: usize = 0;
        while i < self.entries.len()
            invariant
                i <= self.entries@.len(),
                entries@.len() == i,
                forall|j: int|
                    0 <= j < i ==> (#[trigger] entries@[j]).0@ == self.entries@[j].0@
                        && entries@[j].1.deep_view() == self.entries@[j].1.deep_view(),
            decreases self.entries@.len() - i,
        {
            let key = self.entries[i].0.clone();
            let value = copy_strings(&self.entries[i].1);
            entries.push((key, value));
            i += 1;
        }
        proof {
            assert forall|a: int, b: int| 0 <= a < b < entries@.len() implies (
            #[trigger] entries@[a]).0@ != (#[trigger] entries@[b]).0@ by {
                assert(self.entries@[a].0@ != self.entries@[b].0@);
            }
            assert_maps_equal!(
                assoc_map(entries@),
                assoc_map(self.entries@),
                k => {
                    if assoc_contains(entries@, k) {
                        let j = assoc_index(entries@, k);
                        assert(0 <= j < entries@.len() && entries@[j].0@ == k);
                        assert(self.entries@[j].0@ == k);
                        assert(assoc_contains(self.entries@, k));
                        lemma_assoc_at(entries@, j);
                        lemma_assoc_at(self.entries@, j);
                    }
                    if assoc_contains(self.entries@, k) {
                        let j = assoc_index(self.entries@, k);
                        assert(0 <= j < self.entries@.len() && self.entries@[j].0@ == k);
                        assert(entries@[j].0@ == k);
                        assert(assoc_contains(entries@, k));
                    }
                }
            );
        }
        IgnoreMap { entries }
    }
}

impl Clone for IgnoreMap {
    fn clone(&self) -> Self {
        let mut entries: Vec<(String, Vec<String>)> = Vec::new();
        let mut i: usize = 0;
        while i < self.entries.len()
            decreases self.entries@.len() - i,
        {
            let key = self.entries[i].0.clone();
            let value = copy_strings(&self.entries[i].1);
            entries.push((key, value));
            i += 1;
        }
        IgnoreMap { entries }
    }
}

/// An element-for-element copy of a list of strings.
pub fn copy_strings(v: &Vec<String>) -> (r: Vec<String>)
    ensures
        r@ =~= v@,
{
    let mut out: Vec<String> = Vec::new();
    let mut i: usize = 0;
    while i < v.len()
        invariant
            i <= v@.len(),
            out@ =~= v@.take(i as int),
        decreases v@.len() - i,
    {
        let s = v[i].clone();
        out.push(s);
        proof {
            assert(v@.take(i + 1) =~= v@.take(i as int).push(v@[i as int]));
        }
        i += 1;
    }
    proof {
        assert(v@.take(v@.len() as int) =~= v@);
    }
    out
}


/// Why an ignore string does not parse; each variant carries the offending
/// item, trimmed.
#[derive(Debug)]
pub enum ParseIgnoreError {
    /// No `.` separator in the item.
    NoGroup(String),
    /// Empty group name before the `.`.
    EmptyGroup(String),
    /// Empty check name after the `.`.
    EmptyCheck(String),
}

/// What parsing a list of ignore items yields: the finished map, or the
/// first offending item.
pub enum ParseOutcome {
    Done(Map<Seq<char>, Seq<Seq<char>>>),
    NoGroup(Seq<char>),
    EmptyGroup(Seq<char>),
    EmptyCheck(Seq<char>),
}

/// Folds the comma-separated items into a map: empty items are skipped,
/// `group.*` makes the group's entry the wildcard (empty list), and
/// `group.check` appends to the group's list unless the group already holds
/// the wildcard, which suppresses everything and is never weakened. The
/// first malformed item decides the error.
pub open spec fn parse_items(items: Seq<Seq<char>>, acc: Map<Seq<char>, Seq<Seq<char>>>) -> ParseOutcome
    decreases items.len(),
{
    if items.len() == 0 {
        ParseOutcome::Done(acc)
    } else {
        let it = crate::strutil::trim_spec(items[0]);
        if it.len() == 0 {
            parse_items(items.drop_first(), acc)
        } else {
            let parts = crate::strutil::split_first_of_spec(it, seq!['.']);
            if parts.len() != 2 {
                ParseOutcome::NoGroup(it)
            } else {
                let g = crate::strutil::trim_spec(parts[0]);
                let c = crate::strutil::trim_spec(parts[1]);
                if g.len() == 0 {
                    ParseOutcome::EmptyGroup(it)
                } else if c.len() == 0 {
                    ParseOutcome::EmptyCheck(it)
                } else if c == "*"@ {
                    parse_items(items.drop_first(), acc.insert(g, Seq::empty()))
                } else if acc.contains_key(g) && acc[g].len() == 0 {
                    // the group is already wholly suppressed: an explicit
                    // item never weakens a wildcard
                    parse_items(items.drop_first(), acc)
                } else {
                    parse_items(
                        items.drop_first(),
                        acc.insert(
                            g,
                            (if acc.contains_key(g) {
                                acc[g]
                            } else {
                                Seq::empty()
                            }).push(c),
                        ),
                    )
                }
            }
        }
    }
}

/// The outcome of parsing a whole ignore string.
pub open spec fn parse_ignore_spec(s: Seq<char>) -> ParseOutcome {
    parse_items(
        crate::strutil::split_first_of_spec(s, seq![',']),
        Map::<Seq<char>, Seq<Seq<char>>>::empty(),
    )
}

/// Parses a comma-separated list of `group.check` and `group.*` items.
pub fn parse_ignore_string(s: &str) -> (r: Result<IgnoreMap, ParseIgnoreError>)
    ensures
        match r {
            Ok(m) => m.wf() && parse_ignore_spec(s@) == ParseOutcome::Done(m@),
            Err(e) => match e {
                ParseIgnoreError::NoGroup(it) => parse_ignore_spec(s@) == ParseOutcome::NoGroup(
                    it@,
                ),
                ParseIgnoreError::EmptyGroup(it) => parse_ignore_spec(s@)
                    == ParseOutcome::EmptyGroup(it@),
                ParseIgnoreError::EmptyCheck(it) => parse_ignore_spec(s@)
                    == ParseOutcome::EmptyCheck(it@),
            },
        },
{
    let mut commasep: Vec<char> = Vec::new();
    commasep.push(',');
    proof {
        assert(commasep@ =~= seq![',']);
    }
    let mut dotsep: Vec<char> = Vec::new();
    dotsep.push('.');
    proof {
        assert(dotsep@ =~= seq!['.']);
    }
    let items = split_first_of(s, &commasep);
    let ghost itemsv = items.deep_view();
    let mut m = IgnoreMap::new();
    let mut err: Option<ParseIgnoreError> = None;
    let mut i: usize = 0;
    proof {
        assert(itemsv.skip(0) =~= itemsv);
    }
    while i < items.len() && err.is_none()
        invariant
            itemsv == items.deep_view(),
            itemsv.len() == items@.len(),
            i <= items@.len(),
            dotsep@ == seq!['.'],
            m.wf(),
            match err {
                None => parse_items(itemsv, Map::<Seq<char>, Seq<Seq<char>>>::empty())
                    == parse_items(itemsv.skip(i as int), m@),
                Some(e) => match e {
                    ParseIgnoreError::NoGroup(it) => parse_items(
                        itemsv,
                        Map::<Seq<char>, Seq<Seq<char>>>::empty(),
                    ) == ParseOutcome::NoGroup(it@),
                    ParseIgnoreError::EmptyGroup(it) => parse_items(
                        itemsv,
                        Map::<Seq<char>, Seq<Seq<char>>>::empty(),
                    ) == ParseOutcome::EmptyGroup(it@),
                    ParseIgnoreError::EmptyCheck(it) => parse_items(
                        itemsv,
                        Map::<Seq<char>, Seq<Seq<char>>>::empty(),
                    ) == ParseOutcome::EmptyCheck(it@),
                },
            },
        decreases items@.len() - i, (if err is Some {
            0int
        } else {
            1int
        }),
    {
        proof {
            assert(itemsv.skip(i as int)[0] == itemsv[i as int]);
            assert(itemsv.skip(i as int).drop_first() =~= itemsv.skip(i + 1));
            assert(itemsv[i as int] == items@[i as int]@);
        }
        let it = crate::strutil::trim(items[i].as_str());
        if it.is_empty() {
            i += 1;
        } else {
            let parts = split_first_of(it, &dotsep);
            if parts.len() != 2 {
                err = Some(ParseIgnoreError::NoGroup(it.to_owned()));
            } else {
                proof {
                    assert(parts.deep_view()[0] == parts@[0]@);
                    assert(parts.deep_view()[1] == parts@[1]@);
                }
                let g = crate::strutil::trim(parts[0].as_str());
                let c = crate::strutil::trim(parts[1].as_str());
                if g.is_empty() {
                    err = Some(ParseIgnoreError::EmptyGroup(it.to_owned()));
                } else if c.is_empty() {
                    err = Some(ParseIgnoreError::EmptyCheck(it.to_owned()));
                } else if str_eq(c, "*") {
                    let empty_checks: Vec<String> = Vec::new();
                    proof {
                        assert(empty_checks.deep_view() =~~= Seq::<Seq<char>>::empty());
                    }
                    let _ = m.insert(g.to_owned(), empty_checks);
                    i += 1;
                } else {
                    let wildcard_present = match m.get(g) {
                        Some(v) => v.len() == 0,
                        None => false,
                    };
                    if wildcard_present {
                        i += 1;
                    } else {
                        let ghost prev_val: Seq<Seq<char>> = if m@.contains_key(g@) {
                            m@[g@]
                        } else {
                            Seq::empty()
                        };
                        let mut val: Vec<String> = match m.get(g) {
                            Some(v) => copy_strings(v),
                            None => Vec::new(),
                        };
                        proof {
                            assert(val.deep_view() =~~= prev_val);
                        }
                        val.push(c.to_owned());
                        proof {
                            assert(val.deep_view() =~~= prev_val.push(c@));
                        }
                        let _ = m.insert(g.to_owned(), val);
                        i += 1;
                    }
                }
            }
        }
    }
    match err {
        Some(e) => Err(e),
        None => {
            proof {
                assert(itemsv.skip(itemsv.len() as int) =~= Seq::<Seq<char>>::empty());
            }
            Ok(m)
        },
    }
}


/// Appends to `a` each element of `b` not already present, left to right.
pub open spec fn merge_checks(a: Seq<Seq<char>>, b: Seq<Seq<char>>) -> Seq<Seq<char>>
    decreases b.len(),
{
    if b.len() == 0 {
        a
    } else if a.contains(b[0]) {
        merge_checks(a, b.drop_first())
    } else {
        merge_checks(a.push(b[0]), b.drop_first())
    }
}

/// The merged suppression lists of one group present in both maps: a
/// wildcard on either side wins, otherwise the deduplicated union.
pub open spec fn merge_entry(a: Seq<Seq<char>>, b: Seq<Seq<char>>) -> Seq<Seq<char>> {
    if a.len() == 0 || b.len() == 0 {
        Seq::empty()
    } else {
        merge_checks(a, b)
    }
}

/// The merge of two ignore maps: groups of either side pass through, and
/// groups of both sides combine by `merge_entry`.
pub open spec fn merge_spec(
    a: Map<Seq<char>, Seq<Seq<char>>>,
    b: Map<Seq<char>, Seq<Seq<char>>>,
) -> Map<Seq<char>, Seq<Seq<char>>> {
    Map::new(
        |k: Seq<char>| a.contains_key(k) || b.contains_key(k),
        |k: Seq<char>|
            if a.contains_key(k) && b.contains_key(k) {
                merge_entry(a[k], b[k])
            } else if a.contains_key(k) {
                a[k]
            } else {
                b[k]
            },
    )
}

/// Merges two ignore maps; `merge_spec` fixes the result exactly.
#[verifier::rlimit(100)]
pub fn merge_ignore_maps(map1: &IgnoreMap, map2: &IgnoreMap) -> (r: IgnoreMap)
    requires
        map1.wf(),
        map2.wf(),
    ensures
        r.wf(),
        r@ == merge_spec(map1@, map2@),
{
    let ghost a = map1@;
    let ghost b = map2@;
    let n1 = map1.entries.len();
    let mut out: Vec<(String, Vec<String>)> = Vec::new();
    let mut i: usize = 0;
    while i < n1
        invariant
            map1.wf(),
            map2.wf(),
            a == map1@,
            b == map2@,
            n1 == map1.entries@.len(),
            i <= n1,
            out@.len() == i,
            forall|j: int|
                0 <= j < i ==> (#[trigger] out@[j]).0@ == map1.entries@[j].0@
                    && out@[j].1.deep_view() == merge_spec(a, b)[map1.entries@[j].0@],
        decreases n1 - i,
    {
        proof {
            lemma_assoc_at(map1.entries@, i as int);
        }
        let key = entry_key(map1, i);
        let merged_val: Vec<String> = merged_value(map2, key.as_str(), &map1.entries[i].1);
        proof {
            assert(merged_val.deep_view() == merge_spec(a, b)[map1.entries@[i as int].0@]);
        }
        out.push((key, merged_val));
        i += 1;
    }
    proof {
        assert forall|p: int, q: int| 0 <= p < q < out@.len() implies (#[trigger] out@[p]).0@ != (
        #[trigger] out@[q]).0@ by {
            assert(map1.entries@[p].0@ != map1.entries@[q].0@);
        }
    }
    let n2 = map2.entries.len();
    let mut i2: usize = 0;
    while i2 < n2
        invariant
            map1.wf(),
            map2.wf(),
            a == map1@,
            b == map2@,
            n1 == map1.entries@.len(),
            n2 == map2.entries@.len(),
            i2 <= n2,
            out@.len() >= n1,
            assoc_wf(out@),
            forall|j: int|
                0 <= j < n1 ==> (#[trigger] out@[j]).0@ == map1.entries@[j].0@
                    && out@[j].1.deep_view() == merge_spec(a, b)[map1.entries@[j].0@],
            forall|l: int|
                n1 <= l < out@.len() ==> !a.contains_key((#[trigger] out@[l]).0@) && exists|j: int|
                    0 <= j < i2 && out@[l].0@ == (#[trigger] map2.entries@[j]).0@
                        && out@[l].1.deep_view() == map2.entries@[j].1.deep_view(),
            forall|j: int|
                0 <= j < i2 && !a.contains_key((#[trigger] map2.entries@[j]).0@) ==> exists|l: int|
                    n1 <= l < out@.len() && (#[trigger] out@[l]).0@ == map2.entries@[j].0@,
        decreases n2 - i2,
    {
        let key2 = entry_key(map2, i2);
        if !map1.contains_key(key2.as_str()) {
            let val2 = copy_strings(&map2.entries[i2].1);
            let ghost prev = out@;
            proof {
                assert(val2.deep_view() =~~= map2.entries@[i2 as int].1.deep_view());
                assert forall|l: int| 0 <= l < prev.len() implies (#[trigger] prev[l]).0@
                    != key2@ by {
                    if l < n1 {
                        lemma_assoc_at(map1.entries@, l);
                        assert(a.contains_key(prev[l].0@));
                    } else {
                        let j = choose|j: int|
                            0 <= j < i2 && prev[l].0@ == (#[trigger] map2.entries@[j]).0@
                                && prev[l].1.deep_view() == map2.entries@[j].1.deep_view();
                        assert(map2.entries@[j].0@ != map2.entries@[i2 as int].0@);
                    }
                }
            }
            out.push((key2, val2));
            proof {
                let outp = out@;
                let m = outp.len() - 1;
                assert(outp[m].0@ == map2.entries@[i2 as int].0@);
                assert(outp[m].1.deep_view() == map2.entries@[i2 as int].1.deep_view());
                assert forall|l: int| n1 <= l < outp.len() implies !a.contains_key(
                    (#[trigger] outp[l]).0@,
                ) && exists|j: int|
                    0 <= j < i2 + 1 && outp[l].0@ == (#[trigger] map2.entries@[j]).0@
                        && outp[l].1.deep_view() == map2.entries@[j].1.deep_view() by {
                    if l < m {
                        assert(outp[l] == prev[l]);
                        let j0 = choose|j: int|
                            0 <= j < i2 && prev[l].0@ == (#[trigger] map2.entries@[j]).0@
                                && prev[l].1.deep_view() == map2.entries@[j].1.deep_view();
                        assert(outp[l].0@ == map2.entries@[j0].0@ && outp[l].1.deep_view()
                            == map2.entries@[j0].1.deep_view());
                    } else {
                        assert(outp[l].0@ == map2.entries@[i2 as int].0@ && outp[l].1.deep_view()
                            == map2.entries@[i2 as int].1.deep_view());
                    }
                }
                assert forall|j: int|
                    0 <= j < i2 + 1 && !a.contains_key(
                        (#[trigger] map2.entries@[j]).0@,
                    ) implies exists|l: int|
                    n1 <= l < outp.len() && (#[trigger] outp[l]).0@ == map2.entries@[j].0@ by {
                    if j == i2 {
                        assert(outp[m].0@ == map2.entries@[j].0@);
                    } else {
                        let l0 = choose|l: int|
                            n1 <= l < prev.len() && (#[trigger] prev[l]).0@ == map2.entries@[j].0@;
                        assert(outp[l0].0@ == map2.entries@[j].0@);
                    }
                }
            }
        } else {
            proof {
                lemma_assoc_at(map2.entries@, i2 as int);
                assert forall|j: int|
                    0 <= j < i2 + 1 && !a.contains_key(
                        (#[trigger] map2.entries@[j]).0@,
                    ) implies exists|l: int|
                    n1 <= l < out@.len() && (#[trigger] out@[l]).0@ == map2.entries@[j].0@ by {
                    let l0 = choose|l: int|
                        n1 <= l < out@.len() && (#[trigger] out@[l]).0@ == map2.entries@[j].0@;
                    assert(out@[l0].0@ == map2.entries@[j].0@);
                }
            }
        }
        i2 += 1;
    }
    proof {
        assert_maps_equal!(
            assoc_map(out@),
            merge_spec(a, b),
            k => {
                if assoc_contains(out@, k) {
                    let l = assoc_index(out@, k);
                    assert(0 <= l < out@.len() && out@[l].0@ == k);
                    lemma_assoc_at(out@, l);
                    if l < n1 {
                        lemma_assoc_at(map1.entries@, l);
                        assert(a.contains_key(k));
                    } else {
                        let j = choose|j: int|
                            0 <= j < i2 && out@[l].0@ == (#[trigger] map2.entries@[j]).0@
                                && out@[l].1.deep_view() == map2.entries@[j].1.deep_view();
                        lemma_assoc_at(map2.entries@, j);
                        assert(b.contains_key(k));
                        assert(b[k] == map2.entries@[j].1.deep_view());
                    }
                }
                if a.contains_key(k) {
                    let j = assoc_index(map1.entries@, k);
                    assert(0 <= j < map1.entries@.len() && map1.entries@[j].0@ == k);
                    assert(out@[j].0@ == k);
                    assert(assoc_contains(out@, k));
                    lemma_assoc_at(out@, j);
                } else if b.contains_key(k) {
                    let j = assoc_index(map2.entries@, k);
                    assert(0 <= j < map2.entries@.len() && map2.entries@[j].0@ == k);
                    let l = choose|l: int|
                        n1 <= l < out@.len() && (#[trigger] out@[l]).0@ == map2.entries@[j].0@;
                    assert(out@[l].0@ == k);
                    assert(assoc_contains(out@, k));
                }
            }
        );
    }
    IgnoreMap { entries: out }
}

/// The merged suppression list of one group of the first map, against
/// whatever the second map holds for it.
fn merged_value(map2: &IgnoreMap, key: &str, checks: &Vec<String>) -> (r: Vec<String>)
    requires
        map2.wf(),
    ensures
        r.deep_view() == if map2@.contains_key(key@) {
            merge_entry(checks.deep_view(), map2@[key@])
        } else {
            checks.deep_view()
        },
{
    if checks.len() == 0 {
        let r: Vec<String> = Vec::new();
        proof {
            assert(checks.deep_view() =~~= Seq::<Seq<char>>::empty());
            assert(r.deep_view() =~~= Seq::<Seq<char>>::empty());
        }
        return r;
    }
    match map2.get(key) {
        Some(other) => {
            if other.len() == 0 {
                let r: Vec<String> = Vec::new();
                proof {
                    assert(r.deep_view() =~~= Seq::<Seq<char>>::empty());
                }
                r
            } else {
                let mut mv = copy_strings(checks);
                let ghost bk = map2@[key@];
                let mut j: usize = 0;
                proof {
                    assert(bk.skip(0) =~= bk);
                    assert(mv.deep_view() =~~= checks.deep_view());
                }
                while j < other.len()
                    invariant
                        j <= other@.len(),
                        bk == other.deep_view(),
                        bk.len() == other@.len(),
                        merge_checks(checks.deep_view(), bk) == merge_checks(
                            mv.deep_view(),
                            bk.skip(j as int),
                        ),
                    decreases other@.len() - j,
                {
                    proof {
                        assert(bk.skip(j as int)[0] == bk[j as int]);
                        assert(bk.skip(j as int).drop_first() =~= bk.skip(j + 1));
                        assert(bk[j as int] == other@[j as int]@);
                    }
                    let ghost prev = mv.deep_view();
                    if !crate::strutil::contains_string(&mv, other[j].as_str()) {
                        mv.push(other[j].clone());
                        proof {
                            assert(mv.deep_view() =~~= prev.push(bk[j as int]));
                        }
                    }
                    j += 1;
                }
                proof {
                    assert(bk.skip(bk.len() as int) =~= Seq::<Seq<char>>::empty());
                }
                mv
            }
        },
        None => copy_strings(checks),
    }
}

fn entry_key(m: &IgnoreMap, i: usize) -> (r: String)
    requires
        i < m.entries@.len(),
    ensures
        r@ == m.entries@[i as int].0@,
{
    m.entries[i].0.clone()
}


/// The suppression a list denotes: its check ids as a set. Order and
/// repetition do not matter; the empty set is the wildcard.
pub open spec fn entry_set(v: Seq<Seq<char>>) -> Set<Seq<char>> {
    v.to_set()
}

/// An ignore map up to order and repetition of its lists.
pub open spec fn abs_map(m: Map<Seq<char>, Seq<Seq<char>>>) -> Map<Seq<char>, Set<Seq<char>>> {
    Map::new(|k: Seq<char>| m.contains_key(k), |k: Seq<char>| entry_set(m[k]))
}

proof fn lemma_merge_checks_contains(a: Seq<Seq<char>>, b: Seq<Seq<char>>, x: Seq<char>)
    ensures
        merge_checks(a, b).contains(x) == (a.contains(x) || b.contains(x)),
    decreases b.len(),
{
    if b.len() == 0 {
    } else {
        let rest = b.drop_first();
        assert(b.contains(x) == (b[0] == x || rest.contains(x))) by {
            if b.contains(x) {
                let i = choose|i: int| 0 <= i < b.len() && b[i] == x;
                if i > 0 {
                    assert(rest[i - 1] == x);
                }
            }
            if rest.contains(x) {
                let i = choose|i: int| 0 <= i < rest.len() && rest[i] == x;
                assert(b[i + 1] == x);
            }
            if b[0] == x {
                assert(b.contains(x));
            }
        }
        if a.contains(b[0]) {
            lemma_merge_checks_contains(a, rest, x);
        } else {
            lemma_merge_checks_contains(a.push(b[0]), rest, x);
            assert(a.push(b[0]).contains(x) == (a.contains(x) || b[0] == x)) by {
                if a.push(b[0]).contains(x) {
                    let i = choose|i: int| 0 <= i < a.push(b[0]).len() && a.push(b[0])[i] == x;
                    if i < a.len() {
                        assert(a[i] == x);
                    }
                }
                if a.contains(x) {
                    let i = choose|i: int| 0 <= i < a.len() && a[i] == x;
                    assert(a.push(b[0])[i] == x);
                }
                if b[0] == x {
                    assert(a.push(b[0])[a.len() as int] == x);
                }
            }
        }
    }
}

proof fn lemma_merge_checks_len(a: Seq<Seq<char>>, b: Seq<Seq<char>>)
    ensures
        merge_checks(a, b).len() >= a.len(),
    decreases b.len(),
{
    if b.len() > 0 {
        if a.contains(b[0]) {
            lemma_merge_checks_len(a, b.drop_first());
        } else {
            lemma_merge_checks_len(a.push(b[0]), b.drop_first());
        }
    }
}

proof fn lemma_merge_entry_set(a: Seq<Seq<char>>, b: Seq<Seq<char>>)
    ensures
        entry_set(merge_entry(a, b)) == if a.len() == 0 || b.len() == 0 {
            Set::<Seq<char>>::empty()
        } else {
            entry_set(a).union(entry_set(b))
        },
{
    if a.len() == 0 || b.len() == 0 {
        assert_sets_equal!(entry_set(merge_entry(a, b)), Set::<Seq<char>>::empty(), x => {
            if merge_entry(a, b).contains(x) {
                let i = choose|i: int| 0 <= i < merge_entry(a, b).len() && merge_entry(a, b)[i] == x;
            }
        });
    } else {
        assert_sets_equal!(entry_set(merge_entry(a, b)), entry_set(a).union(entry_set(b)), x => {
            lemma_merge_checks_contains(a, b, x);
        });
    }
}

/// Merging is commutative: either order of the two sources suppresses the
/// same checks in the same groups.
pub proof fn lemma_merge_commutative(a: IgnoreMap, b: IgnoreMap)
    ensures
        abs_map(merge_spec(a@, b@)) == abs_map(merge_spec(b@, a@)),
{
    assert_maps_equal!(abs_map(merge_spec(a@, b@)), abs_map(merge_spec(b@, a@)), k => {
        if a@.contains_key(k) && b@.contains_key(k) {
            lemma_merge_entry_set(a@[k], b@[k]);
            lemma_merge_entry_set(b@[k], a@[k]);
            if a@[k].len() != 0 && b@[k].len() != 0 {
                assert(entry_set(a@[k]).union(entry_set(b@[k])) =~= entry_set(b@[k]).union(
                    entry_set(a@[k]),
                ));
            }
        }
    });
}

/// Merging a map with itself changes nothing.
pub proof fn lemma_merge_idempotent(a: IgnoreMap)
    ensures
        abs_map(merge_spec(a@, a@)) == abs_map(a@),
{
    assert_maps_equal!(abs_map(merge_spec(a@, a@)), abs_map(a@), k => {
        if a@.contains_key(k) {
            lemma_merge_entry_set(a@[k], a@[k]);
            if a@[k].len() != 0 {
                assert(entry_set(a@[k]).union(entry_set(a@[k])) =~= entry_set(a@[k]));
            } else {
                assert(entry_set(a@[k]) =~= Set::<Seq<char>>::empty()) by {
                    assert forall|x: Seq<char>| !(#[trigger] a@[k].contains(x)) by {
                        if a@[k].contains(x) {
                            let i = choose|i: int| 0 <= i < a@[k].len() && a@[k][i] == x;
                        }
                    }
                }
            }
        }
    });
}

proof fn lemma_entry_assoc(x: Seq<Seq<char>>, y: Seq<Seq<char>>, z: Seq<Seq<char>>)
    ensures
        entry_set(merge_entry(merge_entry(x, y), z)) == entry_set(
            merge_entry(x, merge_entry(y, z)),
        ),
{
    if x.len() == 0 || y.len() == 0 || z.len() == 0 {
        lemma_merge_entry_set(x, y);
        lemma_merge_entry_set(merge_entry(x, y), z);
        lemma_merge_entry_set(y, z);
        lemma_merge_entry_set(x, merge_entry(y, z));
        if x.len() != 0 && y.len() != 0 {
            lemma_merge_checks_len(x, y);
        }
        if y.len() != 0 && z.len() != 0 {
            lemma_merge_checks_len(y, z);
        }
        assert(entry_set(merge_entry(merge_entry(x, y), z)) =~= entry_set(
            merge_entry(x, merge_entry(y, z)),
        ));
    } else {
        lemma_merge_checks_len(x, y);
        lemma_merge_checks_len(y, z);
        assert_sets_equal!(
            entry_set(merge_entry(merge_entry(x, y), z)),
            entry_set(merge_entry(x, merge_entry(y, z))),
            e => {
                lemma_merge_checks_contains(x, y, e);
                lemma_merge_checks_contains(y, z, e);
                lemma_merge_checks_contains(merge_checks(x, y), z, e);
                lemma_merge_checks_contains(x, merge_checks(y, z), e);
            }
        );
    }
}

/// Merging is associative: combining three sources in either grouping
/// suppresses the same checks.
pub proof fn lemma_merge_associative(a: IgnoreMap, b: IgnoreMap, c: IgnoreMap)
    ensures
        abs_map(merge_spec(merge_spec(a@, b@), c@)) == abs_map(merge_spec(a@, merge_spec(b@, c@))),
{
    assert_maps_equal!(
        abs_map(merge_spec(merge_spec(a@, b@), c@)),
        abs_map(merge_spec(a@, merge_spec(b@, c@))),
        k => {
            if a@.contains_key(k) && b@.contains_key(k) && c@.contains_key(k) {
                lemma_entry_assoc(a@[k], b@[k], c@[k]);
            }
        }
    );
}

/// A wildcard wins: when one side suppresses a whole group, so does the
/// merge, whatever the other side lists for that group.
pub proof fn lemma_merge_wildcard(a: IgnoreMap, b: IgnoreMap, g: Seq<char>)
    requires
        a@.contains_key(g),
        a@[g].len() == 0,
        b@.contains_key(g),
    ensures
        merge_spec(a@, b@).contains_key(g),
        merge_spec(a@, b@)[g].len() == 0,
{
}


/// The ids of the checks of one group's report that did not pass, in order.
pub open spec fn failed_ids(cs: Seq<crate::configcheck::CheckResult>) -> Seq<Seq<char>>
    decreases cs.len(),
{
    if cs.len() == 0 {
        Seq::empty()
    } else {
        failed_ids(cs.drop_last()) + (if !cs.last().passed {
            seq![cs.last().id@]
        } else {
            Seq::empty()
        })
    }
}

/// The currently-failing checks of a report, grouped by group id; groups
/// with nothing failing have no entry.
pub open spec fn failed_map(groups: Seq<crate::configcheck::CheckGroupResult>) -> Map<
    Seq<char>,
    Seq<Seq<char>>,
>
    decreases groups.len(),
{
    if groups.len() == 0 {
        Map::empty()
    } else {
        let m = failed_map(groups.drop_last());
        let f = failed_ids(groups.last().checks@);
        if f.len() > 0 {
            m.insert(groups.last().id@, f)
        } else {
            m
        }
    }
}

/// What recording one target's report does to the store: failures replace
/// the target's entry, no failures remove it.
pub open spec fn record_one(
    st: Map<Seq<char>, Map<Seq<char>, Seq<Seq<char>>>>,
    attr: Seq<char>,
    groups: Seq<crate::configcheck::CheckGroupResult>,
) -> Map<Seq<char>, Map<Seq<char>, Seq<Seq<char>>>> {
    if failed_map(groups).dom().len() == 0 {
        st.remove(attr)
    } else {
        st.insert(attr, failed_map(groups))
    }
}

/// Recording a batch applies `record_one` for each target, in order.
pub open spec fn record_spec(
    st: Map<Seq<char>, Map<Seq<char>, Seq<Seq<char>>>>,
    rs: Seq<(crate::flakeref::FlakeReference, Vec<crate::configcheck::CheckGroupResult>)>,
) -> Map<Seq<char>, Map<Seq<char>, Seq<Seq<char>>>>
    decreases rs.len(),
{
    if rs.len() == 0 {
        st
    } else {
        record_one(record_spec(st, rs.drop_last()), rs.last().0.attribute@, rs.last().1@)
    }
}

/// The persisted suppression rules, one ignore map per target attribute.
#[derive(Debug)]
pub struct IgnoreStore {
    entries: Vec<(String, IgnoreMap)>,
}

impl View for IgnoreStore {
    type V = Map<Seq<char>, Map<Seq<char>, Seq<Seq<char>>>>;

    closed spec fn view(&self) -> Map<Seq<char>, Map<Seq<char>, Seq<Seq<char>>>> {
        assoc_map(self.entries@)
    }
}

impl IgnoreStore {
    /// Keys are unique and every held map is itself well-formed.
    pub closed spec fn wf(&self) -> bool {
        &&& assoc_wf(self.entries@)
        &&& forall|i: int| 0 <= i < self.entries@.len() ==> (#[trigger] self.entries@[i]).1.wf()
    }

    pub fn new() -> (r: Self)
        ensures
            r@ == Map::<Seq<char>, Map<Seq<char>, Seq<Seq<char>>>>::empty(),
            r.wf(),
    {
        let r = IgnoreStore { entries: Vec::new() };
        proof {
            assert_maps_equal!(
                assoc_map(r.entries@),
                Map::<Seq<char>, Map<Seq<char>, Seq<Seq<char>>>>::empty(),
                k => {
                    if assoc_contains(r.entries@, k) {
                        let j = assoc_index(r.entries@, k);
                        assert(0 <= j < r.entries@.len());
                    }
                }
            );
        }
        r
    }

    fn find_index(&self, key: &str) -> (r: Option<usize>)
        ensures
            match r {
                Some(i) => i < self.entries@.len() && self.entries@[i as int].0@ == key@,
                None => !assoc_contains(self.entries@, key@),
            },
    {
        let mut i: usize = 0;
        while i < self.entries.len()
            invariant
                i <= self.entries@.len(),
                forall|j: int| 0 <= j < i ==> (#[trigger] self.entries@[j]).0@ != key@,
            decreases self.entries@.len() - i,
        {
            if str_eq(self.entries[i].0.as_str(), key) {
                return Some(i);
            }
            i += 1;
        }
        None
    }

    /// The stored ignore map of one target, if any.
    pub fn get(&self, attribute: &str) -> (r: Option<&IgnoreMap>)
        requires
            self.wf(),
        ensures
            match r {
                Some(m) => self@.contains_key(attribute@) && m@ == self@[attribute@] && m.wf(),
                None => !self@.contains_key(attribute@),
            },
    {
        match self.find_index(attribute) {
            Some(i) => {
                proof {
                    lemma_assoc_at(self.entries@, i as int);
                }
                Some(&self.entries[i].1)
            },
            None => None,
        }
    }

    /// Replaces one target's entry.
    pub fn insert(&mut self, attribute: String, map: IgnoreMap)
        requires
            old(self).wf(),
            map.wf(),
        ensures
            final(self).wf(),
            final(self)@ == old(self)@.insert(attribute@, map@),
    {
        match self.find_index(attribute.as_str()) {
            Some(i) => {
                proof {
                    lemma_assoc_at(self.entries@, i as int);
                    lemma_assoc_remove(self.entries@, i as int);
                }
                let ghost entries0 = self.entries@;
                let _ = self.entries.remove(i);
                proof {
                    lemma_assoc_push(self.entries@, attribute, map);
                    assert(assoc_map(entries0).remove(attribute@).insert(attribute@, map@)
                        =~= assoc_map(entries0).insert(attribute@, map@));
                }
                self.entries.push((attribute, map));
            },
            None => {
                proof {
                    lemma_assoc_push(self.entries@, attribute, map);
                }
                self.entries.push((attribute, map));
            },
        }
    }

    /// Removes one target's entry, if present.
    pub fn remove(&mut self, attribute: &str)
        requires
            old(self).wf(),
        ensures
            final(self).wf(),
            final(self)@ == old(self)@.remove(attribute@),
    {
        match self.find_index(attribute) {
            Some(i) => {
                proof {
                    lemma_assoc_at(self.entries@, i as int);
                    lemma_assoc_remove(self.entries@, i as int);
                }
                let _ = self.entries.remove(i);
            },
            None => {
                proof {
                    assert_maps_equal!(
                        assoc_map(self.entries@),
                        assoc_map(self.entries@).remove(attribute@),
                        k => {}
                    );
                }
            },
        }
    }

    /// The target attributes that have an entry, in insertion order.
    pub fn attributes(&self) -> (r: Vec<String>)
        requires
            self.wf(),
        ensures
            r@.len() == self@.dom().len(),
            forall|i: int| 0 <= i < r@.len() ==> self@.contains_key((#[trigger] r@[i])@),
            forall|i: int, j: int| 0 <= i < j < r@.len() ==> (#[trigger] r@[i])@ != (#[trigger] r@[j])@,
    {
        proof {
            lemma_assoc_dom(self.entries@);
        }
        let mut out: Vec<String> = Vec::new();
        let mut i: usize = 0;
        while i < self.entries.len()
            invariant
                self.wf(),
                i <= self.entries@.len(),
                out@.len() == i,
                forall|j: int| 0 <= j < i ==> (#[trigger] out@[j])@ == self.entries@[j].0@,
            decreases self.entries@.len() - i,
        {
            out.push(self.entries[i].0.clone());
            i += 1;
        }
        proof {
            assert forall|j: int| 0 <= j < out@.len() implies self@.contains_key(
                (#[trigger] out@[j])@,
            ) by {
                lemma_assoc_at(self.entries@, j);
            }
        }
        out
    }

    /// Records a batch of reports: for each target, its entry becomes
    /// exactly the currently failing checks, or disappears when nothing
    /// fails. Other targets' entries stay as they were.
    pub fn record_failed_checks(
        &mut self,
        system_results: &Vec<
            (crate::flakeref::FlakeReference, Vec<crate::configcheck::CheckGroupResult>),
        >,
    )
        requires
            old(self).wf(),
        ensures
            final(self).wf(),
            final(self)@ == record_spec(old(self)@, system_results@),
    {
        let ghost st0 = self@;
        let n = system_results.len();
        let mut i: usize = 0;
        proof {
            assert(system_results@.take(0) =~= Seq::<
                (crate::flakeref::FlakeReference, Vec<crate::configcheck::CheckGroupResult>),
            >::empty());
        }
        while i < n
            invariant
                n == system_results@.len(),
                i <= n,
                self.wf(),
                self@ == record_spec(st0, system_results@.take(i as int)),
            decreases n - i,
        {
            proof {
                assert(system_results@.take(i + 1).drop_last() =~= system_results@.take(i as int));
                assert(system_results@.take(i + 1).last() == system_results@[i as int]);
            }
            let fm = failed_ignore_map(&system_results[i].1);
            if fm.is_empty() {
                self.remove(system_results[i].0.attribute.as_str());
            } else {
                self.insert(system_results[i].0.attribute.clone(), fm);
            }
            i += 1;
        }
        proof {
            assert(system_results@.take(n as int) =~= system_results@);
        }
    }
}

/// The failing checks of one report as an ignore map: exactly `failed_map`.
pub fn failed_ignore_map(groups: &Vec<crate::configcheck::CheckGroupResult>) -> (r: IgnoreMap)
    ensures
        r.wf(),
        r@ == failed_map(groups@),
{
    let n = groups.len();
    let mut m = IgnoreMap::new();
    let mut i: usize = 0;
    proof {
        assert(groups@.take(0) =~= Seq::<crate::configcheck::CheckGroupResult>::empty());
    }
    while i < n
        invariant
            n == groups@.len(),
            i <= n,
            m.wf(),
            m@ == failed_map(groups@.take(i as int)),
        decreases n - i,
    {
        proof {
            assert(groups@.take(i + 1).drop_last() =~= groups@.take(i as int));
            assert(groups@.take(i + 1).last() == groups@[i as int]);
        }
        let gr = &groups[i];
        let cn = gr.checks.len();
        let mut f: Vec<String> = Vec::new();
        let mut j: usize = 0;
        proof {
            assert(gr.checks@.take(0) =~= Seq::<crate::configcheck::CheckResult>::empty());
        }
        while j < cn
            invariant
                gr == groups@[i as int],
                cn == gr.checks@.len(),
                j <= cn,
                f.deep_view() == failed_ids(gr.checks@.take(j as int)),
            decreases cn - j,
        {
            proof {
                assert(gr.checks@.take(j + 1).drop_last() =~= gr.checks@.take(j as int));
                assert(gr.checks@.take(j + 1).last() == gr.checks@[j as int]);
            }
            let ghost prev = f.deep_view();
            if !gr.checks[j].passed {
                f.push(gr.checks[j].id.clone());
                proof {
                    assert(f.deep_view() =~~= prev.push(gr.checks@[j as int].id@));
                    assert(f.deep_view() =~~= failed_ids(gr.checks@.take(j + 1)));
                }
            } else {
                proof {
                    assert(f.deep_view() =~~= failed_ids(gr.checks@.take(j + 1)));
                }
            }
            j += 1;
        }
        proof {
            assert(gr.checks@.take(cn as int) =~= gr.checks@);
        }
        if f.len() > 0 {
            let _ = m.insert(gr.id.clone(), f);
        }
        i += 1;
    }
    proof {
        assert(groups@.take(n as int) =~= groups@);
    }
    m
}

} // verus!
