//! A plain-value model of JSON values, and an association list keyed by strings.
use vstd::prelude::*;

verus! {

/// A JSON number as serde_json keeps it: a non-negative integer, a negative
/// integer, or a floating-point number, held by its IEEE-754 bit pattern.
#[derive(Debug, Clone, Copy, PartialEq, Eq, Structural)]
pub enum JsonNumber {
    PosInt(u64),
    NegInt(i64),
    Float(u64),
}

impl JsonNumber {
    /// serde_json's `Number::is_i64`: the number is an integer that fits in an `i64`.
    pub open spec fn spec_is_i64(self) -> bool {
        match self {
            JsonNumber::PosInt(u) => u <= i64::MAX,
            JsonNumber::NegInt(_) => true,
            JsonNumber::Float(_) => false,
        }
    }

    /// serde_json's `Number::is_f64`: the number is held as a float.
    pub open spec fn spec_is_f64(self) -> bool {
        self is Float
    }

    /// The integer value of a number that fits in an `i64`.
    pub open spec fn spec_as_i64(self) -> i64 {
        match self {
            JsonNumber::PosInt(u) => u as i64,
            JsonNumber::NegInt(i) => i,
            JsonNumber::Float(_) => 0,
        }
    }

    /// The number that serde_json makes of an `i64`.
    pub open spec fn spec_from_i64(i: i64) -> JsonNumber {
        if i < 0 {
            JsonNumber::NegInt(i)
        } else {
            JsonNumber::PosInt(i as u64)
        }
    }

    pub fn is_i64(&self) -> (r: bool)
        ensures
            r == self.spec_is_i64(),
    {
        match self {
            JsonNumber::PosInt(u) => *u <= 9223372036854775807u64,
            JsonNumber::NegInt(_) => true,
            JsonNumber::Float(_) => false,
        }
    }

    pub fn is_f64(&self) -> (r: bool)
        ensures
            r == self.spec_is_f64(),
    {
        match self {
            JsonNumber::Float(_) => true,
            _ => false,
        }
    }

    pub fn as_i64(&self) -> (r: i64)
        requires
            self.spec_is_i64(),
        ensures
            r == self.spec_as_i64(),
    {
        match self {
            JsonNumber::PosInt(u) => *u as i64,
            JsonNumber::NegInt(i) => *i,
            JsonNumber::Float(_) => 0,
        }
    }

    pub fn from_i64(i: i64) -> (r: JsonNumber)
        ensures
            r == JsonNumber::spec_from_i64(i),
    {
        if i < 0 {
            JsonNumber::NegInt(i)
        } else {
            JsonNumber::PosInt(i as u64)
        }
    }
}

/// A JSON value. Object members keep the order in which they were given.
#[derive(Debug)]
pub enum JsonValue {
    Null,
    Bool(bool),
    Number(JsonNumber),
    String(String),
    Array(Vec<JsonValue>),
    Object(Vec<(String, JsonValue)>),
}

/// The mathematical content of a [`JsonValue`].
pub enum JsonView {
    Null,
    Bool(bool),
    Number(JsonNumber),
    String(Seq<char>),
    Array(Seq<JsonView>),
    Object(Seq<(Seq<char>, JsonView)>),
}

/// The content of a JSON value.
pub open spec fn json_view(j: JsonValue) -> JsonView
    decreases j,
{
    match j {
        JsonValue::Null => JsonView::Null,
        JsonValue::Bool(b) => JsonView::Bool(b),
        JsonValue::Number(n) => JsonView::Number(n),
        JsonValue::String(s) => JsonView::String(s@),
        JsonValue::Array(v) => JsonView::Array(json_seq_view(v@)),
        JsonValue::Object(m) => JsonView::Object(json_members_view(m@)),
    }
}

/// The contents of a sequence of JSON values.
pub open spec fn json_seq_view(s: Seq<JsonValue>) -> Seq<JsonView>
    decreases s,
{
    if s.len() == 0 {
        Seq::empty()
    } else {
        json_seq_view(s.drop_last()).push(json_view(s.last()))
    }
}

/// The contents of a sequence of object members.
pub open spec fn json_members_view(s: Seq<(String, JsonValue)>) -> Seq<(Seq<char>, JsonView)>
    decreases s,
{
    if s.len() == 0 {
        Seq::empty()
    } else {
        json_members_view(s.drop_last()).push((s.last().0@, json_view(s.last().1)))
    }
}

impl View for JsonValue {
    type V = JsonView;

    open spec fn view(&self) -> JsonView {
        json_view(*self)
    }
}

/// The view of an array of strings.
pub open spec fn string_array_view(s: Seq<Seq<char>>) -> JsonView {
    JsonView::Array(s.map_values(|x: Seq<char>| JsonView::String(x)))
}

/// A sequence of JSON values has as many contents as values.
pub proof fn lemma_json_seq_view_len(s: Seq<JsonValue>)
    ensures
        json_seq_view(s).len() == s.len(),
    decreases s.len(),
{
    if s.len() > 0 {
        lemma_json_seq_view_len(s.drop_last());
    }
}

impl JsonValue {
    /// A copy of this value with the same content.
    pub fn copy(&self) -> (r: JsonValue)
        ensures
            r@ == self@,
        decreases self,
    {
        match self {
            JsonValue::Null => JsonValue::Null,
            JsonValue::Bool(b) => JsonValue::Bool(*b),
            JsonValue::Number(n) => JsonValue::Number(*n),
            JsonValue::String(s) => JsonValue::String(s.clone()),
            JsonValue::Array(v) => {
                let mut out: Vec<JsonValue> = Vec::new();
                let mut i: usize = 0;
                while i < v.len()
                    invariant
                        i <= v.len(),
                        *self is Array,
                        self->Array_0 == *v,
                        json_seq_view(out@) == json_seq_view(v@.take(i as int)),
                    decreases v.len() - i,
                {
                    proof {
                        vstd::std_specs::vec::axiom_vec_index_decreases(*v, i as int);
                    }
                    let c = v[i].copy();
                    let ghost before = out@;
                    out.push(c);
                    proof {
                        assert(out@.drop_last() == before);
                        assert(v@.take(i + 1).drop_last() == v@.take(i as int));
                    }
                    i += 1;
                }
                assert(v@.take(v@.len() as int) == v@);
                JsonValue::Array(out)
            },
            JsonValue::Object(m) => {
                let mut out: Vec<(String, JsonValue)> = Vec::new();
                let mut i: usize = 0;
                while i < m.len()
                    invariant
                        i <= m.len(),
                        *self is Object,
                        self->Object_0 == *m,
                        json_members_view(out@) == json_members_view(m@.take(i as int)),
                    decreases m.len() - i,
                {
                    proof {
                        vstd::std_specs::vec::axiom_vec_index_decreases(*m, i as int);
                        assert(decreases_to!(m[i as int] => m[i as int].1));
                    }
                    let k = m[i].0.clone();
                    let c = m[i].1.copy();
                    let ghost before = out@;
                    out.push((k, c));
                    proof {
                        assert(out@.drop_last() == before);
                        assert(m@.take(i + 1).drop_last() == m@.take(i as int));
                    }
                    i += 1;
                }
                assert(m@.take(m@.len() as int) == m@);
                JsonValue::Object(out)
            },
        }
    }

    /// serde_json's `Value::is_string`.
    pub fn is_string(&self) -> (r: bool)
        ensures
            r == (self@ is String),
    {
        match self {
            JsonValue::String(_) => true,
            _ => false,
        }
    }

    /// A JSON array holding the given strings.
    pub fn string_array(items: &Vec<String>) -> (r: JsonValue)
        ensures
            r@ == string_array_view(items@.map_values(|x: String| x@)),
    {
        let mut out: Vec<JsonValue> = Vec::new();
        let mut i: usize = 0;
        while i < items.len()
            invariant
                i <= items.len(),
                json_seq_view(out@) == items@.take(i as int).map_values(
                    |x: String| JsonView::String(x@),
                ),
            decreases items.len() - i,
        {
            let ghost before = out@;
            out.push(JsonValue::String(items[i].clone()));
            proof {
                assert(out@.drop_last() == before);
                assert(json_seq_view(out@) == json_seq_view(before).push(json_view(out@.last())));
                assert(json_view(out@.last()) == JsonView::String(items@[i as int]@));
                assert(items@.take(i + 1).map_values(|x: String| JsonView::String(x@))
                    =~= items@.take(i as int).map_values(|x: String| JsonView::String(x@)).push(
                    JsonView::String(items@[i as int]@),
                ));
            }
            i += 1;
        }
        proof {
            assert(items@.take(items@.len() as int) == items@);
            assert(items@.map_values(|x: String| JsonView::String(x@)) =~= items@.map_values(
                |x: String| x@,
            ).map_values(|x: Seq<char>| JsonView::String(x)));
        }
        JsonValue::Array(out)
    }
}

/// An association list from strings to values: the model of a string-keyed map.
/// Its keys are distinct; insertion replaces the entry with the key or appends one.
#[derive(Debug)]
pub struct StringMap<V> {
    entries: Vec<(String, V)>,
}

impl<V> StringMap<V> {
    /// No two entries have the same key.
    #[verifier::type_invariant]
    spec fn keys_unique(&self) -> bool {
        forall|i: int, j: int|
            0 <= i < self.entries@.len() && 0 <= j < self.entries@.len() && i != j ==> self.entries@[i].0@
                != self.entries@[j].0@
    }
}

/// The content of a list of entries.
pub open spec fn entries_view<V: View>(s: Seq<(String, V)>) -> Seq<(Seq<char>, V::V)> {
    s.map_values(|e: (String, V)| (e.0@, e.1@))
}

impl<V: View> View for StringMap<V> {
    type V = Seq<(Seq<char>, V::V)>;

    closed spec fn view(&self) -> Seq<(Seq<char>, V::V)> {
        entries_view(self.entries@)
    }
}

/// The position of the first entry with key `k`.
pub open spec fn first_index<V>(s: Seq<(Seq<char>, V)>, k: Seq<char>) -> Option<int> {
    if exists|i: int| 0 <= i < s.len() && s[i].0 == k && (forall|j: int| 0 <= j < i ==> s[j].0 != k) {
        Some(choose|i: int| 0 <= i < s.len() && s[i].0 == k && (forall|j: int| 0 <= j < i ==> s[j].0 != k))
    } else {
        None
    }
}

/// The value of the first entry with key `k`.
pub open spec fn lookup<V>(s: Seq<(Seq<char>, V)>, k: Seq<char>) -> Option<V> {
    match first_index(s, k) {
        Some(i) => Some(s[i].1),
        None => None,
    }
}

/// The entries after setting `k` to `v`.
pub open spec fn insert_entry<V>(s: Seq<(Seq<char>, V)>, k: Seq<char>, v: V) -> Seq<(Seq<char>, V)> {
    match first_index(s, k) {
        Some(i) => s.update(i, (k, v)),
        None => s.push((k, v)),
    }
}

/// The keys of the entries are pairwise distinct.
pub open spec fn keys_distinct<V>(s: Seq<(Seq<char>, V)>) -> bool {
    forall|i: int, j: int| 0 <= i < s.len() && 0 <= j < s.len() && i != j ==> s[i].0 != s[j].0
}

/// If the entry at `i` is the first with key `k`, `first_index` finds it.
pub proof fn lemma_first_index_is<V>(s: Seq<(Seq<char>, V)>, k: Seq<char>, i: int)
    requires
        0 <= i < s.len(),
        s[i].0 == k,
        forall|j: int| 0 <= j < i ==> s[j].0 != k,
    ensures
        first_index(s, k) == Some(i),
{
    let c = choose|c: int| 0 <= c < s.len() && s[c].0 == k && (forall|j: int| 0 <= j < c ==> s[j].0 != k);
    if c < i {
        assert(s[c].0 != k);
    }
    if i < c {
        assert(s[i].0 != k);
    }
}

/// When no entry has key `k`, `first_index` finds none.
pub proof fn lemma_first_index_none<V>(s: Seq<(Seq<char>, V)>, k: Seq<char>)
    requires
        forall|j: int| 0 <= j < s.len() ==> s[j].0 != k,
    ensures
        first_index(s, k) is None,
{
}

impl<V: View> StringMap<V> {
    /// An empty map.
    pub fn new() -> (r: Self)
        ensures
            r@ == Seq::<(Seq<char>, V::V)>::empty(),
            keys_distinct(r@),
    {
        let r = StringMap { entries: Vec::new() };
        assert(r@ =~= Seq::<(Seq<char>, V::V)>::empty());
        r
    }

    /// The position of the first entry whose key is `key`.
    pub fn position(&self, key: &str) -> (r: Option<usize>)
        ensures
            match r {
                Some(i) => first_index(self@, key@) == Some(i as int),
                None => first_index(self@, key@) is None,
            },
    {
        let mut i: usize = 0;
        while i < self.entries.len()
            invariant
                i <= self.entries.len(),
                forall|j: int| 0 <= j < i ==> #[trigger] self@[j].0 != key@,
            decreases self.entries.len() - i,
        {
            if crate::text::str_eq(self.entries[i].0.as_str(), key) {
                proof {
                    lemma_first_index_is(self@, key@, i as int);
                }
                return Some(i);
            }
            i += 1;
        }
        proof {
            lemma_first_index_none(self@, key@);
        }
        None
    }

    /// The value of the first entry whose key is `key`.
    pub fn get(&self, key: &str) -> (r: Option<&V>)
        ensures
            match r {
                Some(v) => lookup(self@, key@) == Some(v@),
                None => lookup(self@, key@) is None,
            },
    {
        match self.position(key) {
            Some(i) => Some(&self.entries[i].1),
            None => None,
        }
    }

    /// Sets `key` to `value`: replaces the entry with that key, or appends one.
    pub fn insert(&mut self, key: String, value: V)
        ensures
            final(self)@ == insert_entry(old(self)@, key@, value@),
            keys_distinct(final(self)@),
    {
        proof {
            use_type_invariant(&*self);
            self.lemma_view_keys();
        }
        let p = self.position(key.as_str());
        let ghost k = key@;
        let ghost v = value@;
        let mut entries: Vec<(String, V)> = Vec::new();
        std::mem::swap(&mut entries, &mut self.entries);
        match p {
            Some(i) => {
                entries.set(i, (key, value));
                assert(entries_view(entries@) =~= old(self)@.update(i as int, (k, v)));
            },
            None => {
                entries.push((key, value));
                assert(entries_view(entries@) =~= old(self)@.push((k, v)));
            },
        }
        proof {
            law_insert_keeps_keys_distinct(old(self)@, k, v);
            assert(entries_view(entries@) == insert_entry(old(self)@, k, v));
            assert forall|a: int, b: int|
                0 <= a < entries@.len() && 0 <= b < entries@.len() && a != b implies entries@[a].0@
                != entries@[b].0@ by {
                assert(entries_view(entries@)[a].0 == entries@[a].0@);
                assert(entries_view(entries@)[b].0 == entries@[b].0@);
            }
        }
        self.entries = entries;
    }

    /// The view's keys are those of the entries, so they are distinct.
    proof fn lemma_view_keys(&self)
        requires
            self.keys_unique(),
        ensures
            keys_distinct(self@),
    {
        assert forall|a: int, b: int| 0 <= a < self@.len() && 0 <= b < self@.len() && a != b implies self@[a].0
            != self@[b].0 by {
            assert(self@[a].0 == self.entries@[a].0@);
            assert(self@[b].0 == self.entries@[b].0@);
        }
    }

    /// The entries, in order.
    pub fn entries(&self) -> (r: &Vec<(String, V)>)
        ensures
            entries_view(r@) == self@,
            keys_distinct(self@),
    {
        proof {
            use_type_invariant(self);
            self.lemma_view_keys();
        }
        &self.entries
    }

    /// The number of entries.
    pub fn len(&self) -> (r: usize)
        ensures
            r == self@.len(),
            keys_distinct(self@),
    {
        proof {
            use_type_invariant(self);
            self.lemma_view_keys();
        }
        self.entries.len()
    }
}


/// The members' contents of an object are the contents of its entries.
pub proof fn lemma_members_view(s: Seq<(String, JsonValue)>)
    ensures
        json_members_view(s) == entries_view(s),
    decreases s.len(),
{
    if s.len() > 0 {
        lemma_members_view(s.drop_last());
        assert(entries_view(s) =~= entries_view(s.drop_last()).push((s.last().0@, s.last().1@)));
    }
}

/// The object member of an integer entry.
pub open spec fn int_member(e: (Seq<char>, i64)) -> (Seq<char>, JsonView) {
    (e.0, JsonView::Number(JsonNumber::spec_from_i64(e.1)))
}

/// The object member of a float entry given by its bit pattern.
pub open spec fn float_member(e: (Seq<char>, u64)) -> (Seq<char>, JsonView) {
    (e.0, JsonView::Number(JsonNumber::Float(e.1)))
}

impl JsonValue {
    /// The JSON object with the entries of a map, in order.
    pub fn object_of(m: &StringMap<JsonValue>) -> (r: JsonValue)
        ensures
            r@ == JsonView::Object(m@),
    {
        let mut out: Vec<(String, JsonValue)> = Vec::new();
        let mut i: usize = 0;
        while i < m.entries.len()
            invariant
                i <= m.entries.len(),
                entries_view(out@) == entries_view(m.entries@.take(i as int)),
            decreases m.entries.len() - i,
        {
            let k = m.entries[i].0.clone();
            let c = m.entries[i].1.copy();
            let ghost before = out@;
            out.push((k, c));
            proof {
                assert(entries_view(out@) =~= entries_view(before).push((k@, c@)));
                assert(entries_view(m.entries@.take(i + 1)) =~= entries_view(m.entries@.take(i as int)).push(
                    (m.entries@[i as int].0@, m.entries@[i as int].1@),
                ));
            }
            i += 1;
        }
        proof {
            assert(m.entries@.take(m.entries@.len() as int) == m.entries@);
            lemma_members_view(out@);
        }
        JsonValue::Object(out)
    }

    /// The JSON object of a map of integers.
    pub fn int_object_of(m: &StringMap<i64>) -> (r: JsonValue)
        ensures
            r@ == JsonView::Object(m@.map_values(|e: (Seq<char>, i64)| int_member(e))),
    {
        let mut out: Vec<(String, JsonValue)> = Vec::new();
        let mut i: usize = 0;
        while i < m.entries.len()
            invariant
                i <= m.entries.len(),
                entries_view(out@) == m@.take(i as int).map_values(|e: (Seq<char>, i64)| int_member(e)),
            decreases m.entries.len() - i,
        {
            let k = m.entries[i].0.clone();
            let c = JsonValue::Number(JsonNumber::from_i64(m.entries[i].1));
            let ghost before = out@;
            out.push((k, c));
            proof {
                assert(entries_view(out@) =~= entries_view(before).push((k@, c@)));
                assert(m@[i as int] == (k@, m.entries@[i as int].1@));
                assert(c@ == JsonView::Number(JsonNumber::spec_from_i64(m.entries@[i as int].1)));
                assert(int_member(m@[i as int]) == (k@, c@));
                assert(m@.take(i + 1).map_values(|e: (Seq<char>, i64)| int_member(e)) =~= m@.take(i as int).map_values(|e: (Seq<char>, i64)| int_member(e)).push(int_member(m@[i as int])));
            }
            i += 1;
        }
        proof {
            assert(m@.take(m@.len() as int) == m@);
            lemma_members_view(out@);
        }
        JsonValue::Object(out)
    }

    /// The JSON object of a map of floats given by their bit patterns.
    pub fn float_object_of(m: &StringMap<u64>) -> (r: JsonValue)
        ensures
            r@ == JsonView::Object(m@.map_values(|e: (Seq<char>, u64)| float_member(e))),
    {
        let mut out: Vec<(String, JsonValue)> = Vec::new();
        let mut i: usize = 0;
        while i < m.entries.len()
            invariant
                i <= m.entries.len(),
                entries_view(out@) == m@.take(i as int).map_values(|e: (Seq<char>, u64)| float_member(e)),
            decreases m.entries.len() - i,
        {
            let k = m.entries[i].0.clone();
            let c = JsonValue::Number(JsonNumber::Float(m.entries[i].1));
            let ghost before = out@;
            out.push((k, c));
            proof {
                assert(entries_view(out@) =~= entries_view(before).push((k@, c@)));
                assert(m@[i as int] == (k@, m.entries@[i as int].1@));
                assert(c@ == JsonView::Number(JsonNumber::Float(m.entries@[i as int].1)));
                assert(float_member(m@[i as int]) == (k@, c@));
                assert(m@.take(i + 1).map_values(|e: (Seq<char>, u64)| float_member(e)) =~= m@.take(i as int).map_values(|e: (Seq<char>, u64)| float_member(e)).push(float_member(m@[i as int])));
            }
            i += 1;
        }
        proof {
            assert(m@.take(m@.len() as int) == m@);
            lemma_members_view(out@);
        }
        JsonValue::Object(out)
    }
}


/// When some entry has key `k`, there is a first one.
pub proof fn lemma_some_first<V>(s: Seq<(Seq<char>, V)>, k: Seq<char>, j: int)
    requires
        0 <= j < s.len(),
        s[j].0 == k,
    ensures
        first_index(s, k) is Some,
    decreases j,
{
    if forall|x: int| 0 <= x < j ==> s[x].0 != k {
        lemma_first_index_is(s, k, j);
    } else {
        let x = choose|x: int| 0 <= x < j && s[x].0 == k;
        lemma_some_first(s, k, x);
    }
}

/// The first index, when there is one, points at an entry with the key, and no
/// earlier entry has it.
pub proof fn lemma_first_index_props<V>(s: Seq<(Seq<char>, V)>, k: Seq<char>)
    ensures
        match first_index(s, k) {
            Some(i) => 0 <= i < s.len() && s[i].0 == k && forall|j: int| 0 <= j < i ==> s[j].0 != k,
            None => forall|j: int| 0 <= j < s.len() ==> s[j].0 != k,
        },
{
    if first_index(s, k) is None {
        assert forall|j: int| 0 <= j < s.len() implies s[j].0 != k by {
            if s[j].0 == k {
                lemma_some_first(s, k, j);
            }
        }
    }
}

/// A read after a write of the same key gives back what was written.
pub proof fn law_lookup_after_insert<V>(s: Seq<(Seq<char>, V)>, k: Seq<char>, v: V)
    ensures
        lookup(insert_entry(s, k, v), k) == Some(v),
{
    let t = insert_entry(s, k, v);
    lemma_first_index_props(s, k);
    match first_index(s, k) {
        Some(i) => {
            assert forall|j: int| 0 <= j < i implies t[j].0 != k by {
                assert(t[j] == s[j]);
            }
            lemma_first_index_is(t, k, i);
        },
        None => {
            assert forall|j: int| 0 <= j < s.len() implies t[j].0 != k by {
                assert(t[j] == s[j]);
            }
            lemma_first_index_is(t, k, s.len() as int);
        },
    }
}

/// A write of one key leaves the reads of every other key unchanged.
pub proof fn law_lookup_after_insert_other<V>(s: Seq<(Seq<char>, V)>, k: Seq<char>, v: V, k2: Seq<char>)
    requires
        k2 != k,
    ensures
        lookup(insert_entry(s, k, v), k2) == lookup(s, k2),
{
    let t = insert_entry(s, k, v);
    lemma_first_index_props(s, k);
    lemma_first_index_props(s, k2);
    assert(t.len() >= s.len());
    assert forall|j: int| 0 <= j < s.len() && s[j].0 != k implies t[j] == s[j] by {}
    assert forall|j: int| s.len() <= j < t.len() implies t[j].0 == k by {}
    match first_index(s, k2) {
        Some(i2) => {
            assert(t[i2] == s[i2]);
            assert forall|j: int| 0 <= j < i2 implies t[j].0 != k2 by {
                if s[j].0 != k {
                    assert(t[j] == s[j]);
                }
            }
            lemma_first_index_is(t, k2, i2);
        },
        None => {
            assert forall|j: int| 0 <= j < t.len() implies t[j].0 != k2 by {
                if j < s.len() && s[j].0 != k {
                    assert(t[j] == s[j]);
                }
            }
            lemma_first_index_none(t, k2);
        },
    }
}

/// Writing into entries with distinct keys keeps the keys distinct.
pub proof fn law_insert_keeps_keys_distinct<V>(s: Seq<(Seq<char>, V)>, k: Seq<char>, v: V)
    requires
        keys_distinct(s),
    ensures
        keys_distinct(insert_entry(s, k, v)),
{
    let t = insert_entry(s, k, v);
    match first_index(s, k) {
        Some(i) => {
            let c = choose|c: int| 0 <= c < s.len() && s[c].0 == k && (forall|j: int| 0 <= j < c ==> s[j].0 != k);
            assert forall|a: int, b: int| 0 <= a < t.len() && 0 <= b < t.len() && a != b implies t[a].0 != t[b].0 by {
                if a == i {
                    assert(t[a].0 == s[i].0);
                } else if b == i {
                    assert(t[b].0 == s[i].0);
                }
            }
        },
        None => {
            assert forall|a: int, b: int| 0 <= a < t.len() && 0 <= b < t.len() && a != b implies t[a].0 != t[b].0 by {
                if a == s.len() && b < s.len() {
                    if s[b].0 == k {
                        lemma_some_first(s, k, b);
                    }
                } else if b == s.len() && a < s.len() {
                    if s[a].0 == k {
                        lemma_some_first(s, k, a);
                    }
                }
            }
        },
    }
}

} // verus!
