//! Small insertion-ordered collections: a map keyed by binding identity, a
//! set of strings and a map from strings to strings. Each is a vector in
//! which no key occurs twice; what it holds is stated as a sequence, so
//! that the order in which things were first recorded is part of every
//! contract.
use crate::ast::{Id, IdV, Span};
use vstd::prelude::*;

verus! {

/// The position of the first entry at or after `from` whose key is `k`,
/// or -1 where there is none.
pub open spec fn find_key<K, V>(s: Seq<(K, V)>, k: K, from: int) -> int
    decreases s.len() - from,
{
    if from < 0 || from >= s.len() {
        -1
    } else if s[from].0 == k {
        from
    } else {
        find_key(s, k, from + 1)
    }
}

pub open spec fn has_key<K, V>(s: Seq<(K, V)>, k: K) -> bool {
    find_key(s, k, 0) >= 0
}

pub open spec fn lookup<K, V>(s: Seq<(K, V)>, k: K) -> Option<V> {
    let i = find_key(s, k, 0);
    if i < 0 {
        None
    } else {
        Some(s[i].1)
    }
}

/// `s` with `k` bound to `v`: in place where `k` was bound, else at the end.
pub open spec fn put<K, V>(s: Seq<(K, V)>, k: K, v: V) -> Seq<(K, V)> {
    let i = find_key(s, k, 0);
    if i < 0 {
        s.push((k, v))
    } else {
        s.update(i, (k, v))
    }
}

/// `s` with `k` bound to `v` unless `k` was bound already.
pub open spec fn put_if_absent<K, V>(s: Seq<(K, V)>, k: K, v: V) -> Seq<(K, V)> {
    if has_key(s, k) {
        s
    } else {
        s.push((k, v))
    }
}

/// `s` with `x` added to the list bound to `k`, which starts empty.
pub open spec fn append_at<K, X>(s: Seq<(K, Seq<X>)>, k: K, x: X) -> Seq<(K, Seq<X>)> {
    let i = find_key(s, k, 0);
    if i < 0 {
        s.push((k, seq![x]))
    } else {
        s.update(i, (k, s[i].1.push(x)))
    }
}

pub open spec fn distinct_keys<K, V>(s: Seq<(K, V)>) -> bool {
    forall|i: int, j: int| 0 <= i < j < s.len() ==> s[i].0 != s[j].0
}

/// `s` with `x` added at the end unless it is there already.
pub open spec fn with_item<X>(s: Seq<X>, x: X) -> Seq<X> {
    if s.contains(x) {
        s
    } else {
        s.push(x)
    }
}

pub proof fn lemma_find_key<K, V>(s: Seq<(K, V)>, k: K, from: int)
    requires
        0 <= from,
    ensures
        find_key(s, k, from) == -1 || (from <= find_key(s, k, from) < s.len() && s[find_key(
            s,
            k,
            from,
        )].0 == k),
        find_key(s, k, from) == -1 ==> forall|j: int| from <= j < s.len() ==> s[j].0 != k,
        forall|j: int| from <= j < find_key(s, k, from) ==> s[j].0 != k,
    decreases s.len() - from,
{
    if from < s.len() && s[from].0 != k {
        lemma_find_key(s, k, from + 1);
    }
}

pub fn same_id(a: &Id, b: &Id) -> (r: bool)
    ensures
        r == (a@ == b@),
{
    a.ctxt == b.ctxt && a.sym == b.sym
}

pub open spec fn ids_view(s: Seq<Id>) -> Seq<IdV> {
    Seq::new(s.len(), |i: int| s[i]@)
}

/// Whether `k` is among `ids`.
pub fn id_in(ids: &Vec<Id>, k: &Id) -> (r: bool)
    ensures
        r == ids_view(ids@).contains(k@),
{
    let mut i: usize = 0;
    while i < ids.len()
        invariant
            i <= ids.len(),
            forall|j: int| 0 <= j < i ==> ids_view(ids@)[j] != k@,
        decreases ids.len() - i,
    {
        if same_id(&ids[i], k) {
            assert(ids_view(ids@)[i as int] == k@);
            return true;
        }
        i += 1;
    }
    false
}

/// Whether `x` is among `xs`.
pub fn u32_in(xs: &Vec<u32>, x: u32) -> (r: bool)
    ensures
        r == xs@.contains(x),
{
    let mut i: usize = 0;
    while i < xs.len()
        invariant
            i <= xs.len(),
            forall|j: int| 0 <= j < i ==> xs@[j] != x,
        decreases xs.len() - i,
    {
        if xs[i] == x {
            return true;
        }
        i += 1;
    }
    false
}

pub open spec fn entries_view<V: View>(s: Seq<(Id, V)>) -> Seq<(IdV, V::V)> {
    Seq::new(s.len(), |i: int| (s[i].0@, s[i].1@))
}

/// A map from binding identities to values, in order of first insertion.
#[derive(Debug)]
pub struct Table<V: View> {
    entries: Vec<(Id, V)>,
}

impl<V: View> View for Table<V> {
    type V = Seq<(IdV, V::V)>;

    closed spec fn view(&self) -> Seq<(IdV, V::V)> {
        entries_view(self.entries@)
    }
}

impl<V: View> Table<V> {
    #[verifier::type_invariant]
    spec fn inv(self) -> bool {
        distinct_keys(entries_view(self.entries@))
    }

    pub fn new() -> (r: Self)
        ensures
            r@ == Seq::<(IdV, V::V)>::empty(),
    {
        let r = Table { entries: Vec::new() };
        assert(r@ =~= Seq::<(IdV, V::V)>::empty());
        r
    }

    /// The number of keys, no two of which are equal.
    pub fn len(&self) -> (n: usize)
        ensures
            n == self@.len(),
            distinct_keys(self@),
    {
        proof {
            use_type_invariant(self);
        }
        self.entries.len()
    }

    pub fn key(&self, i: usize) -> (k: &Id)
        requires
            i < self@.len(),
        ensures
            k@ == self@[i as int].0,
    {
        &self.entries[i].0
    }

    pub fn value(&self, i: usize) -> (v: &V)
        requires
            i < self@.len(),
        ensures
            v@ == self@[i as int].1,
    {
        &self.entries[i].1
    }

    fn position(&self, k: &Id) -> (r: Option<usize>)
        ensures
            match r {
                Some(i) => find_key(self@, k@, 0) == i && i < self.entries@.len(),
                None => find_key(self@, k@, 0) == -1,
            },
    {
        let mut i: usize = 0;
        while i < self.entries.len()
            invariant
                i <= self.entries.len(),
                find_key(self@, k@, 0) == find_key(self@, k@, i as int),
            decreases self.entries.len() - i,
        {
            if same_id(&self.entries[i].0, k) {
                return Some(i);
            }
            i += 1;
        }
        None
    }

    pub fn contains_key(&self, k: &Id) -> (r: bool)
        ensures
            r == has_key(self@, k@),
    {
        self.position(k).is_some()
    }

    pub fn get(&self, k: &Id) -> (r: Option<&V>)
        ensures
            match r {
                Some(v) => lookup(self@, k@) == Some(v@),
                None => lookup(self@, k@).is_none(),
            },
    {
        match self.position(k) {
            Some(i) => Some(&self.entries[i].1),
            None => None,
        }
    }

    /// Puts `v` at position `at`, or at the end where `at` is `None`.
    fn store(&mut self, at: Option<usize>, k: Id, v: V)
        requires
            match at {
                Some(i) => find_key(old(self)@, k@, 0) == i && i < old(self)@.len(),
                None => find_key(old(self)@, k@, 0) == -1,
            },
        ensures
            final(self)@ == match at {
                Some(i) => old(self)@.update(i as int, (k@, v@)),
                None => old(self)@.push((k@, v@)),
            },
    {
        proof {
            use_type_invariant(&*self);
            lemma_find_key(self@, k@, 0);
        }
        let mut entries: Vec<(Id, V)> = Vec::new();
        assert(entries_view(entries@) =~= Seq::<(IdV, V::V)>::empty());
        core::mem::swap(&mut self.entries, &mut entries);
        match at {
            Some(i) => {
                entries[i] = (k, v);
                assert(entries_view(entries@) =~= old(self)@.update(i as int, (k@, v@)));
            },
            None => {
                entries.push((k, v));
                assert(entries_view(entries@) =~= old(self)@.push((k@, v@)));
            },
        }
        core::mem::swap(&mut self.entries, &mut entries);
    }

    /// Binds `k` to `v`, in place of what `k` was bound to.
    pub fn insert(&mut self, k: Id, v: V)
        ensures
            final(self)@ == put(old(self)@, k@, v@),
    {
        let at = self.position(&k);
        self.store(at, k, v);
    }

    /// Binds `k` to `v` unless `k` is bound already.
    pub fn insert_if_absent(&mut self, k: Id, v: V)
        ensures
            final(self)@ == put_if_absent(old(self)@, k@, v@),
    {
        if self.position(&k).is_none() {
            self.store(None, k, v);
        }
    }
}

impl Table<Vec<Span>> {
    /// Adds `x` to the list that `k` is bound to, binding `k` first where
    /// it was not.
    pub fn append(&mut self, k: Id, x: Span)
        ensures
            final(self)@ == append_at(old(self)@, k@, x),
    {
        let at = self.position(&k);
        let mut spans: Vec<Span> = Vec::new();
        match at {
            Some(i) => {
                let old_spans = &self.entries[i].1;
                let mut j: usize = 0;
                while j < old_spans.len()
                    invariant
                        j <= old_spans.len(),
                        spans@ == old_spans@.take(j as int),
                    decreases old_spans.len() - j,
                {
                    spans.push(old_spans[j]);
                    assert(spans@ =~= old_spans@.take(j + 1));
                    j += 1;
                }
                assert(old_spans@.take(old_spans@.len() as int) =~= old_spans@);
                spans.push(x);
                assert(spans@ == self@[i as int].1.push(x));
            },
            None => {
                spans.push(x);
                assert(spans@ =~= seq![x]);
            },
        }
        self.store(at, k, spans);
    }
}

pub open spec fn strs_view(s: Seq<String>) -> Seq<Seq<char>> {
    Seq::new(s.len(), |i: int| s[i]@)
}

/// A copy of a list of strings.
pub fn clone_strings(v: &Vec<String>) -> (r: Vec<String>)
    ensures
        strs_view(r@) == strs_view(v@),
{
    let mut r: Vec<String> = Vec::new();
    let mut i: usize = 0;
    while i < v.len()
        invariant
            i <= v.len(),
            r@.len() == i,
            forall|j: int| 0 <= j < i ==> r@[j]@ == v@[j]@,
        decreases v.len() - i,
    {
        r.push(v[i].clone());
        i += 1;
    }
    assert(strs_view(r@) =~= strs_view(v@));
    r
}

/// A set of strings, in order of first insertion.
#[derive(Debug)]
pub struct StrSet {
    items: Vec<String>,
}

impl View for StrSet {
    type V = Seq<Seq<char>>;

    closed spec fn view(&self) -> Seq<Seq<char>> {
        strs_view(self.items@)
    }
}

impl StrSet {
    #[verifier::type_invariant]
    spec fn inv(self) -> bool {
        strs_view(self.items@).no_duplicates()
    }

    pub fn new() -> (r: Self)
        ensures
            r@ == Seq::<Seq<char>>::empty(),
    {
        let r = StrSet { items: Vec::new() };
        assert(r@ =~= Seq::<Seq<char>>::empty());
        r
    }

    /// The number of strings, no two of which are equal.
    pub fn len(&self) -> (n: usize)
        ensures
            n == self@.len(),
            self@.no_duplicates(),
    {
        proof {
            use_type_invariant(self);
        }
        self.items.len()
    }

    pub fn item(&self, i: usize) -> (s: &String)
        requires
            i < self@.len(),
        ensures
            s@ == self@[i as int],
    {
        &self.items[i]
    }

    pub fn contains(&self, x: &String) -> (r: bool)
        ensures
            r == self@.contains(x@),
    {
        let mut i: usize = 0;
        while i < self.items.len()
            invariant
                i <= self.items.len(),
                forall|j: int| 0 <= j < i ==> self@[j] != x@,
            decreases self.items.len() - i,
        {
            if self.items[i] == *x {
                assert(self@[i as int] == x@);
                return true;
            }
            i += 1;
        }
        false
    }

    pub fn insert(&mut self, x: String)
        ensures
            final(self)@ == with_item(old(self)@, x@),
    {
        proof {
            use_type_invariant(&*self);
        }
        if !self.contains(&x) {
            let mut items: Vec<String> = Vec::new();
            assert(strs_view(items@) =~= Seq::<Seq<char>>::empty());
            core::mem::swap(&mut self.items, &mut items);
            items.push(x);
            assert(strs_view(items@) =~= old(self)@.push(x@));
            core::mem::swap(&mut self.items, &mut items);
        }
    }

    pub fn duplicate(&self) -> (r: StrSet)
        ensures
            r@ == self@,
    {
        proof {
            use_type_invariant(self);
        }
        StrSet { items: clone_strings(&self.items) }
    }
}

pub open spec fn pairs_view(s: Seq<(String, String)>) -> Seq<(Seq<char>, Seq<char>)> {
    Seq::new(s.len(), |i: int| (s[i].0@, s[i].1@))
}

/// A map from strings to strings, in order of first insertion.
#[derive(Debug)]
pub struct StrMap {
    entries: Vec<(String, String)>,
}

impl View for StrMap {
    type V = Seq<(Seq<char>, Seq<char>)>;

    closed spec fn view(&self) -> Seq<(Seq<char>, Seq<char>)> {
        pairs_view(self.entries@)
    }
}

impl StrMap {
    #[verifier::type_invariant]
    spec fn inv(self) -> bool {
        distinct_keys(pairs_view(self.entries@))
    }

    pub fn new() -> (r: Self)
        ensures
            r@ == Seq::<(Seq<char>, Seq<char>)>::empty(),
    {
        let r = StrMap { entries: Vec::new() };
        assert(r@ =~= Seq::<(Seq<char>, Seq<char>)>::empty());
        r
    }

    /// The number of keys, no two of which are equal.
    pub fn len(&self) -> (n: usize)
        ensures
            n == self@.len(),
            distinct_keys(self@),
    {
        proof {
            use_type_invariant(self);
        }
        self.entries.len()
    }

    pub fn key(&self, i: usize) -> (k: &String)
        requires
            i < self@.len(),
        ensures
            k@ == self@[i as int].0,
    {
        &self.entries[i].0
    }

    pub fn value(&self, i: usize) -> (v: &String)
        requires
            i < self@.len(),
        ensures
            v@ == self@[i as int].1,
    {
        &self.entries[i].1
    }

    fn position(&self, k: &String) -> (r: Option<usize>)
        ensures
            match r {
                Some(i) => find_key(self@, k@, 0) == i && i < self.entries@.len(),
                None => find_key(self@, k@, 0) == -1,
            },
    {
        let mut i: usize = 0;
        while i < self.entries.len()
            invariant
                i <= self.entries.len(),
                find_key(self@, k@, 0) == find_key(self@, k@, i as int),
            decreases self.entries.len() - i,
        {
            if self.entries[i].0 == *k {
                return Some(i);
            }
            i += 1;
        }
        None
    }

    /// Binds `k` to `v`, in place of what `k` was bound to.
    pub fn insert(&mut self, k: String, v: String)
        ensures
            final(self)@ == put(old(self)@, k@, v@),
    {
        proof {
            use_type_invariant(&*self);
            lemma_find_key(self@, k@, 0);
        }
        let at = self.position(&k);
        let mut entries: Vec<(String, String)> = Vec::new();
        assert(pairs_view(entries@) =~= Seq::<(Seq<char>, Seq<char>)>::empty());
        core::mem::swap(&mut self.entries, &mut entries);
        match at {
            Some(i) => {
                entries[i] = (k, v);
                assert(pairs_view(entries@) =~= old(self)@.update(i as int, (k@, v@)));
            },
            None => {
                entries.push((k, v));
                assert(pairs_view(entries@) =~= old(self)@.push((k@, v@)));
            },
        }
        core::mem::swap(&mut self.entries, &mut entries);
    }
}

} // verus!
