use vstd::prelude::*;
use crate::account::ObjectID;
use vstd::std_specs::iter::IteratorSpec;

verus! {

/// Keys with a strict total order, decided by their views.
pub trait MapKey: View + Sized {
    /// Whether `a` comes strictly before `b`.
    spec fn spec_lt(a: Self::V, b: Self::V) -> bool;

    proof fn lemma_lt_irreflexive(a: Self::V)
        ensures
            !Self::spec_lt(a, a),
    ;

    proof fn lemma_lt_transitive(a: Self::V, b: Self::V, c: Self::V)
        requires
            Self::spec_lt(a, b),
            Self::spec_lt(b, c),
        ensures
            Self::spec_lt(a, c),
    ;

    proof fn lemma_lt_total(a: Self::V, b: Self::V)
        ensures
            a == b || Self::spec_lt(a, b) || Self::spec_lt(b, a),
    ;

    fn key_eq(&self, other: &Self) -> (r: bool)
        ensures
            r == (self@ == other@),
    ;

    fn key_lt(&self, other: &Self) -> (r: bool)
        ensures
            r == Self::spec_lt(self@, other@),
    ;
}

impl View for ObjectID {
    type V = ObjectID;

    open spec fn view(&self) -> ObjectID {
        *self
    }
}

/// Object ids are ordered by their address bytes.
impl MapKey for ObjectID {
    open spec fn spec_lt(a: ObjectID, b: ObjectID) -> bool {
        a.0.high < b.0.high || (a.0.high == b.0.high && a.0.low < b.0.low)
    }

    proof fn lemma_lt_irreflexive(a: ObjectID) {
    }

    proof fn lemma_lt_transitive(a: ObjectID, b: ObjectID, c: ObjectID) {
    }

    proof fn lemma_lt_total(a: ObjectID, b: ObjectID) {
    }

    fn key_eq(&self, other: &Self) -> (r: bool) {
        *self == *other
    }

    fn key_lt(&self, other: &Self) -> (r: bool) {
        self.0.high < other.0.high || (self.0.high == other.0.high && self.0.low < other.0.low)
    }
}

/// Whether `a` comes strictly before `b` in the lexicographic order built on
/// the order `lt` of the elements, a proper prefix first.
pub open spec fn lex_lt<T>(a: Seq<T>, b: Seq<T>, lt: spec_fn(T, T) -> bool) -> bool
    decreases a.len(),
{
    if a.len() == 0 {
        b.len() > 0
    } else if b.len() == 0 {
        false
    } else if a[0] != b[0] {
        lt(a[0], b[0])
    } else {
        lex_lt(a.drop_first(), b.drop_first(), lt)
    }
}

/// Whether `lt` is a strict total order.
pub open spec fn is_strict_total_order<T>(lt: spec_fn(T, T) -> bool) -> bool {
    &&& forall|x: T| !#[trigger] lt(x, x)
    &&& forall|x: T, y: T, z: T| #[trigger] lt(x, y) && #[trigger] lt(y, z) ==> lt(x, z)
    &&& forall|x: T, y: T| x == y || #[trigger] lt(x, y) || lt(y, x)
}

proof fn lemma_lex_lt_irreflexive<T>(a: Seq<T>, lt: spec_fn(T, T) -> bool)
    ensures
        !lex_lt(a, a, lt),
    decreases a.len(),
{
    if a.len() > 0 {
        lemma_lex_lt_irreflexive(a.drop_first(), lt);
    }
}

proof fn lemma_lex_lt_transitive<T>(a: Seq<T>, b: Seq<T>, c: Seq<T>, lt: spec_fn(T, T) -> bool)
    requires
        is_strict_total_order(lt),
        lex_lt(a, b, lt),
        lex_lt(b, c, lt),
    ensures
        lex_lt(a, c, lt),
    decreases a.len(),
{
    if a.len() > 0 && b.len() > 0 && c.len() > 0 {
        if a[0] == b[0] && b[0] == c[0] {
            lemma_lex_lt_transitive(a.drop_first(), b.drop_first(), c.drop_first(), lt);
        } else if a[0] != b[0] && b[0] != c[0] {
            assert(lt(a[0], c[0]));
            assert(!lt(a[0], a[0]));
        }
    }
}

proof fn lemma_lex_lt_total<T>(a: Seq<T>, b: Seq<T>, lt: spec_fn(T, T) -> bool)
    requires
        is_strict_total_order(lt),
    ensures
        a == b || lex_lt(a, b, lt) || lex_lt(b, a, lt),
    decreases a.len(),
{
    if a.len() == 0 && b.len() == 0 {
        assert(a =~= b);
    } else if a.len() > 0 && b.len() > 0 {
        if a[0] == b[0] {
            lemma_lex_lt_total(a.drop_first(), b.drop_first(), lt);
            if a.drop_first() == b.drop_first() {
                assert(a =~= seq![a[0]] + a.drop_first());
                assert(b =~= seq![b[0]] + b.drop_first());
            }
        } else {
            assert(lt(a[0], b[0]) || lt(b[0], a[0]));
        }
    }
}

/// The order of bytes by value.
pub open spec fn byte_lt() -> spec_fn(u8, u8) -> bool {
    |x: u8, y: u8| x < y
}

/// Whether the bytes `a` come strictly before `b` in lexicographic order, a
/// proper prefix first.
pub open spec fn bytes_lt(a: Seq<u8>, b: Seq<u8>) -> bool {
    lex_lt(a, b, byte_lt())
}

/// Byte strings are ordered lexicographically, a proper prefix first.
impl MapKey for Vec<u8> {
    open spec fn spec_lt(a: Seq<u8>, b: Seq<u8>) -> bool {
        bytes_lt(a, b)
    }

    proof fn lemma_lt_irreflexive(a: Seq<u8>) {
        lemma_lex_lt_irreflexive(a, byte_lt());
    }

    proof fn lemma_lt_transitive(a: Seq<u8>, b: Seq<u8>, c: Seq<u8>) {
        lemma_lex_lt_transitive(a, b, c, byte_lt());
    }

    proof fn lemma_lt_total(a: Seq<u8>, b: Seq<u8>) {
        lemma_lex_lt_total(a, b, byte_lt());
    }

    fn key_eq(&self, other: &Self) -> (r: bool) {
        if self.len() != other.len() {
            return false;
        }
        let mut i: usize = 0;
        while i < self.len()
            invariant
                self.len() == other.len(),
                i <= self.len(),
                forall|k: int| 0 <= k < i ==> self@[k] == other@[k],
            decreases self.len() - i,
        {
            if self[i] != other[i] {
                return false;
            }
            i += 1;
        }
        assert(self@ =~= other@);
        true
    }

    fn key_lt(&self, other: &Self) -> (r: bool) {
        let mut i: usize = 0;
        assert(self@.skip(0) =~= self@);
        assert(other@.skip(0) =~= other@);
        while i < self.len() && i < other.len()
            invariant
                i <= self.len(),
                i <= other.len(),
                bytes_lt(self@, other@) == bytes_lt(self@.skip(i as int), other@.skip(i as int)),
            decreases self.len() - i,
        {
            if self[i] != other[i] {
                assert(self@.skip(i as int)[0] == self@[i as int]);
                assert(other@.skip(i as int)[0] == other@[i as int]);
                return self[i] < other[i];
            }
            assert(self@.skip(i as int).drop_first() =~= self@.skip(i + 1));
            assert(other@.skip(i as int).drop_first() =~= other@.skip(i + 1));
            i += 1;
        }
        i < other.len()
    }
}

/// The order of characters by code point.
pub open spec fn char_lt() -> spec_fn(char, char) -> bool {
    |x: char, y: char| x < y
}

/// Whether the characters `a` come strictly before `b` in lexicographic
/// order of their code points, a proper prefix first.
pub open spec fn chars_lt(a: Seq<char>, b: Seq<char>) -> bool {
    lex_lt(a, b, char_lt())
}

/// Strings are ordered by their characters' code points, which is the order
/// of their UTF-8 bytes.
impl MapKey for String {
    open spec fn spec_lt(a: Seq<char>, b: Seq<char>) -> bool {
        chars_lt(a, b)
    }

    proof fn lemma_lt_irreflexive(a: Seq<char>) {
        lemma_lex_lt_irreflexive(a, char_lt());
    }

    proof fn lemma_lt_transitive(a: Seq<char>, b: Seq<char>, c: Seq<char>) {
        lemma_lex_lt_transitive(a, b, c, char_lt());
    }

    proof fn lemma_lt_total(a: Seq<char>, b: Seq<char>) {
        lemma_lex_lt_total(a, b, char_lt());
    }

    fn key_eq(&self, other: &Self) -> (r: bool) {
        *self == *other
    }

    fn key_lt(&self, other: &Self) -> (r: bool) {
        let mut a = self.as_str().chars();
        let mut b = other.as_str().chars();
        loop
            invariant
                chars_lt(self@, other@) == chars_lt(a.remaining(), b.remaining()),
                a.decrease() is Some,
            decreases a.decrease()->0,
        {
            let x = a.next();
            let y = b.next();
            match (x, y) {
                (None, None) => return false,
                (None, Some(_)) => return true,
                (Some(_), None) => return false,
                (Some(cx), Some(cy)) => {
                    if cx != cy {
                        return cx < cy;
                    }
                },
            }
        }
    }
}

/// A finite map held as a list of entries in increasing order of their keys,
/// each key once.
#[derive(Debug)]
pub struct KeyedMap<K, V> {
    entries: Vec<(K, V)>,
}

/// The map that a list of entries stands for.
pub open spec fn entries_map<K: View, V>(s: Seq<(K, V)>) -> Map<K::V, V>
    decreases s.len(),
{
    if s.len() == 0 {
        Map::empty()
    } else {
        entries_map(s.drop_last()).insert(s.last().0@, s.last().1)
    }
}

/// Whether no key occurs twice in a list of entries.
pub open spec fn distinct_keys<K: View, V>(s: Seq<(K, V)>) -> bool {
    forall|i: int, j: int| 0 <= i < j < s.len() ==> (#[trigger] s[i]).0@ != (#[trigger] s[j]).0@
}

/// Whether the keys of a list of entries increase strictly.
pub open spec fn sorted_keys<K: MapKey, V>(s: Seq<(K, V)>) -> bool {
    forall|i: int, j: int| 0 <= i < j < s.len() ==> K::spec_lt((#[trigger] s[i]).0@, (#[trigger] s[j]).0@)
}

proof fn lemma_entries_map_dom<K: View, V>(s: Seq<(K, V)>, k: K::V)
    ensures
        entries_map(s).contains_key(k) <==> exists|i: int| 0 <= i < s.len() && (#[trigger] s[i]).0@ == k,
    decreases s.len(),
{
    if s.len() > 0 {
        lemma_entries_map_dom(s.drop_last(), k);
        if entries_map(s.drop_last()).contains_key(k) {
            let i = choose|i: int| 0 <= i < s.drop_last().len() && (#[trigger] s.drop_last()[i]).0@ == k;
            assert(s[i] == s.drop_last()[i]);
        }
        if exists|i: int| 0 <= i < s.len() && (#[trigger] s[i]).0@ == k {
            let i = choose|i: int| 0 <= i < s.len() && (#[trigger] s[i]).0@ == k;
            if i < s.len() - 1 {
                assert(s.drop_last()[i] == s[i]);
            }
        }
    }
}

proof fn lemma_entries_map_value<K: View, V>(s: Seq<(K, V)>, i: int)
    requires
        distinct_keys(s),
        0 <= i < s.len(),
    ensures
        entries_map(s).contains_key(s[i].0@),
        entries_map(s)[s[i].0@] == s[i].1,
    decreases s.len(),
{
    if i < s.len() - 1 {
        assert(s.drop_last()[i] == s[i]);
        lemma_entries_map_value(s.drop_last(), i);
        assert(s.last().0@ != s[i].0@);
    }
}

proof fn lemma_entries_map_update<K: View, V>(s: Seq<(K, V)>, i: int, v: V)
    requires
        distinct_keys(s),
        0 <= i < s.len(),
    ensures
        distinct_keys(s.update(i, (s[i].0, v))),
        entries_map(s.update(i, (s[i].0, v))) == entries_map(s).insert(s[i].0@, v),
    decreases s.len(),
{
    let t = s.update(i, (s[i].0, v));
    assert forall|a: int, b: int| 0 <= a < b < t.len() implies (#[trigger] t[a]).0@ != (#[trigger] t[b]).0@ by {
        assert(t[a].0 == s[a].0);
        assert(t[b].0 == s[b].0);
    }
    if i == s.len() - 1 {
        assert(t.drop_last() =~= s.drop_last());
        assert(entries_map(s).insert(s[i].0@, v) =~= entries_map(s.drop_last()).insert(s[i].0@, v));
    } else {
        assert(t.drop_last() =~= s.drop_last().update(i, (s[i].0, v)));
        lemma_entries_map_update(s.drop_last(), i, v);
        assert(s.last().0@ != s[i].0@);
        assert(entries_map(t) =~= entries_map(s).insert(s[i].0@, v));
    }
}

/// Inserting an entry with a new key anywhere in the list adds it to the map.
proof fn lemma_entries_map_insert_at<K: View, V>(s: Seq<(K, V)>, p: int, e: (K, V))
    requires
        0 <= p <= s.len(),
        distinct_keys(s.insert(p, e)),
    ensures
        distinct_keys(s),
        entries_map(s.insert(p, e)) == entries_map(s).insert(e.0@, e.1),
{
    let t = s.insert(p, e);
    assert forall|a: int, b: int| 0 <= a < b < s.len() implies (#[trigger] s[a]).0@ != (#[trigger] s[b]).0@ by {
        let a2 = if a < p { a } else { a + 1 };
        let b2 = if b < p { b } else { b + 1 };
        assert(t[a2] == s[a]);
        assert(t[b2] == s[b]);
    }
    assert forall|x: K::V| #[trigger] entries_map(t).contains_key(x) == entries_map(s).insert(e.0@, e.1).contains_key(x) by {
        lemma_entries_map_dom(t, x);
        lemma_entries_map_dom(s, x);
        if exists|i: int| 0 <= i < t.len() && (#[trigger] t[i]).0@ == x {
            let i = choose|i: int| 0 <= i < t.len() && (#[trigger] t[i]).0@ == x;
            if i < p {
                assert(t[i] == s[i]);
            } else if i > p {
                assert(t[i] == s[i - 1]);
            }
        }
        if exists|j: int| 0 <= j < s.len() && (#[trigger] s[j]).0@ == x {
            let j = choose|j: int| 0 <= j < s.len() && (#[trigger] s[j]).0@ == x;
            let j2 = if j < p { j } else { j + 1 };
            assert(t[j2] == s[j]);
        }
        if x == e.0@ {
            assert(t[p] == e);
        }
    }
    assert forall|x: K::V| #[trigger] entries_map(t).contains_key(x) implies entries_map(t)[x] == entries_map(s).insert(e.0@, e.1)[x] by {
        lemma_entries_map_dom(t, x);
        let i = choose|i: int| 0 <= i < t.len() && (#[trigger] t[i]).0@ == x;
        lemma_entries_map_value(t, i);
        if i < p {
            assert(t[i] == s[i]);
            lemma_entries_map_value(s, i);
            assert(t[p].0@ != t[i].0@);
        } else if i > p {
            assert(t[i] == s[i - 1]);
            lemma_entries_map_value(s, i - 1);
            assert(t[p].0@ != t[i].0@);
        } else {
            assert(t[p] == e);
        }
    }
    assert(entries_map(t) =~= entries_map(s).insert(e.0@, e.1));
}

impl<K: MapKey, V> View for KeyedMap<K, V> {
    type V = Map<K::V, V>;

    open spec fn view(&self) -> Map<K::V, V> {
        entries_map(self.spec_entries())
    }
}

impl<K: MapKey, V> KeyedMap<K, V> {
    /// Whether the keys increase strictly along the entries.
    pub open spec fn wf(&self) -> bool {
        &&& distinct_keys(self.spec_entries())
        &&& sorted_keys(self.spec_entries())
    }

    /// The entries, in increasing order of their keys.
    pub closed spec fn spec_entries(&self) -> Seq<(K, V)> {
        self.entries@
    }

    pub fn new() -> (m: KeyedMap<K, V>)
        ensures
            m.wf(),
            m@ == Map::<K::V, V>::empty(),
    {
        KeyedMap { entries: Vec::new() }
    }

    /// The entries, in increasing order of their keys.
    pub fn entries(&self) -> (es: &Vec<(K, V)>)
        ensures
            es@ == self.spec_entries(),
    {
        &self.entries
    }

    /// The entries, in increasing order of their keys.
    pub fn into_entries(self) -> (es: Vec<(K, V)>)
        ensures
            es@ == self.spec_entries(),
    {
        self.entries
    }

    /// The number of keys.
    pub fn len(&self) -> (n: usize)
        requires
            self.wf(),
        ensures
            n == self@.dom().len(),
    {
        proof {
            lemma_distinct_len(self.entries@);
        }
        self.entries.len()
    }

    /// Where `key` is among the entries, or where it would go: `(true, i)`
    /// when the `i`-th entry has the key, `(false, i)` when the key is absent
    /// and the entries before position `i` have smaller keys, those from `i`
    /// on greater ones.
    fn search(&self, key: &K) -> (r: (bool, usize))
        requires
            self.wf(),
        ensures
            r.1 <= self.entries.len(),
            r.0 ==> r.1 < self.entries.len() && self.entries@[r.1 as int].0@ == key@,
            !r.0 ==> !self@.contains_key(key@),
            !r.0 ==> forall|j: int| 0 <= j < r.1 ==> K::spec_lt((#[trigger] self.entries@[j]).0@, key@),
            !r.0 ==> forall|j: int| r.1 <= j < self.entries.len() ==> K::spec_lt(key@, (#[trigger] self.entries@[j]).0@),
    {
        let mut i: usize = 0;
        while i < self.entries.len() && self.entries[i].0.key_lt(key)
            invariant
                i <= self.entries.len(),
                forall|j: int| 0 <= j < i ==> K::spec_lt((#[trigger] self.entries@[j]).0@, key@),
            decreases self.entries.len() - i,
        {
            i += 1;
        }
        if i < self.entries.len() && self.entries[i].0.key_eq(key) {
            return (true, i);
        }
        proof {
            let s = self.entries@;
            if i < s.len() {
                K::lemma_lt_total(s[i as int].0@, key@);
                assert forall|j: int| i <= j < s.len() implies K::spec_lt(key@, (#[trigger] s[j]).0@) by {
                    if j > i {
                        K::lemma_lt_transitive(key@, s[i as int].0@, s[j].0@);
                    }
                }
            }
            lemma_entries_map_dom(s, key@);
            assert forall|j: int| 0 <= j < s.len() implies (#[trigger] s[j]).0@ != key@ by {
                K::lemma_lt_irreflexive(key@);
            }
        }
        (false, i)
    }

    /// Puts a new key at the position that keeps the keys increasing.
    proof fn lemma_insert_at(s: Seq<(K, V)>, p: int, e: (K, V))
        requires
            distinct_keys(s),
            sorted_keys(s),
            0 <= p <= s.len(),
            forall|j: int| 0 <= j < p ==> K::spec_lt((#[trigger] s[j]).0@, e.0@),
            forall|j: int| p <= j < s.len() ==> K::spec_lt(e.0@, (#[trigger] s[j]).0@),
        ensures
            distinct_keys(s.insert(p, e)),
            sorted_keys(s.insert(p, e)),
            entries_map(s.insert(p, e)) == entries_map(s).insert(e.0@, e.1),
    {
        let t = s.insert(p, e);
        assert forall|a: int, b: int| 0 <= a < b < t.len() implies K::spec_lt((#[trigger] t[a]).0@, (#[trigger] t[b]).0@) by {
            if a < p && b < p {
                assert(t[a] == s[a] && t[b] == s[b]);
            } else if a < p && b == p {
                assert(t[a] == s[a]);
            } else if a < p {
                assert(t[a] == s[a] && t[b] == s[b - 1]);
            } else if a == p {
                assert(t[b] == s[b - 1]);
            } else {
                assert(t[a] == s[a - 1] && t[b] == s[b - 1]);
            }
        }
        assert forall|a: int, b: int| 0 <= a < b < t.len() implies (#[trigger] t[a]).0@ != (#[trigger] t[b]).0@ by {
            assert(K::spec_lt(t[a].0@, t[b].0@));
            K::lemma_lt_irreflexive(t[a].0@);
        }
        lemma_entries_map_insert_at(s, p, e);
    }

    /// Whether `key` has a value.
    pub fn contains_key(&self, key: &K) -> (r: bool)
        requires
            self.wf(),
        ensures
            r == self@.contains_key(key@),
    {
        let (found, i) = self.search(key);
        proof {
            if found {
                lemma_entries_map_value(self.entries@, i as int);
            }
        }
        found
    }

    /// The value of `key`, if it has one.
    pub fn get(&self, key: &K) -> (r: Option<&V>)
        requires
            self.wf(),
        ensures
            match r {
                Some(v) => self@.contains_key(key@) && self@[key@] == *v,
                None => !self@.contains_key(key@),
            },
    {
        let (found, i) = self.search(key);
        if found {
            proof {
                lemma_entries_map_value(self.entries@, i as int);
            }
            Some(&self.entries[i].1)
        } else {
            None
        }
    }

    /// The value of `key`, which is first given the value `default` if it has none.
    pub fn get_or_insert_with(&mut self, key: K, default: V) -> (r: &mut V)
        requires
            old(self).wf(),
        ensures
            final(self).wf(),
            old(self)@.contains_key(key@) ==> *r == old(self)@[key@],
            !old(self)@.contains_key(key@) ==> *r == default,
            final(self)@ == old(self)@.insert(key@, *final(r)),
    {
        let (found, i) = self.search(&key);
        if found {
            proof {
                lemma_entries_map_value(self.entries@, i as int);
            }
        } else {
            let ghost before = self.entries@;
            proof {
                Self::lemma_insert_at(before, i as int, (key, default));
            }
            self.entries.insert(i, (key, default));
            proof {
                lemma_entries_map_value(self.entries@, i as int);
            }
        }
        let ghost mid = self.entries@;
        proof {
            assert forall|v: V| #![trigger mid.update(i as int, (mid[i as int].0, v))]
                distinct_keys(mid.update(i as int, (mid[i as int].0, v)))
                && sorted_keys(mid.update(i as int, (mid[i as int].0, v)))
                && entries_map(mid.update(i as int, (mid[i as int].0, v))) == entries_map(mid).insert(key@, v) by {
                lemma_entries_map_update(mid, i as int, v);
                let t = mid.update(i as int, (mid[i as int].0, v));
                assert forall|a: int, b: int| 0 <= a < b < t.len() implies K::spec_lt((#[trigger] t[a]).0@, (#[trigger] t[b]).0@) by {
                    assert(t[a].0 == mid[a].0 && t[b].0 == mid[b].0);
                }
            }
            assert forall|v: V| #![trigger entries_map(mid).insert(key@, v)]
                entries_map(mid).insert(key@, v) == old(self)@.insert(key@, v) by {
                assert(entries_map(mid).insert(key@, v) =~= old(self)@.insert(key@, v));
            }
        }
        &mut self.entries[i].1
    }

    /// Gives `key` the value `value`; returns the value it had before, if any.
    pub fn insert(&mut self, key: K, value: V) -> (r: Option<V>)
        requires
            old(self).wf(),
        ensures
            final(self).wf(),
            final(self)@ == old(self)@.insert(key@, value),
            match r {
                Some(v) => old(self)@.contains_key(key@) && old(self)@[key@] == v,
                None => !old(self)@.contains_key(key@),
            },
    {
        let (found, i) = self.search(&key);
        let ghost before = self.entries@;
        if found {
            proof {
                lemma_entries_map_value(before, i as int);
                lemma_entries_map_update(before, i as int, value);
            }
            let (k, previous) = self.entries.remove(i);
            self.entries.insert(i, (k, value));
            assert(self.entries@ =~= before.update(i as int, (before[i as int].0, value)));
            proof {
                let t = self.entries@;
                assert forall|a: int, b: int| 0 <= a < b < t.len() implies K::spec_lt((#[trigger] t[a]).0@, (#[trigger] t[b]).0@) by {
                    assert(t[a].0 == before[a].0 && t[b].0 == before[b].0);
                }
            }
            Some(previous)
        } else {
            proof {
                Self::lemma_insert_at(before, i as int, (key, value));
            }
            self.entries.insert(i, (key, value));
            None
        }
    }
}

proof fn lemma_distinct_len<K: View, V>(s: Seq<(K, V)>)
    requires
        distinct_keys(s),
    ensures
        entries_map(s).dom().finite(),
        entries_map(s).dom().len() == s.len(),
    decreases s.len(),
{
    if s.len() > 0 {
        let t = s.drop_last();
        assert(distinct_keys(t)) by {
            assert forall|a: int, b: int| 0 <= a < b < t.len() implies (#[trigger] t[a]).0@ != (#[trigger] t[b]).0@ by {
                assert(t[a] == s[a]);
                assert(t[b] == s[b]);
            }
        }
        lemma_distinct_len(t);
        lemma_entries_map_dom(t, s.last().0@);
        if entries_map(t).contains_key(s.last().0@) {
            let i = choose|i: int| 0 <= i < t.len() && (#[trigger] t[i]).0@ == s.last().0@;
            assert(t[i] == s[i]);
        }
    }
}

} // verus!
