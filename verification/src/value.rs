//! The canonical value tree: null, booleans, numbers, strings, arrays and
//! objects whose keys stand in increasing order.

use crate::json::{parse_double, text_double};
use crate::order::{key_less, key_lt, lemma_key_order, strictly_sorted};
use crate::text::str_eq;
use vstd::prelude::*;

verus! {

/// What a number is: an integer, or a finite double given by its IEEE-754 bits.
pub enum NumberView {
    Int(int),
    Float(u64),
}

/// What a value is.
pub enum JsonValue {
    Null,
    Bool(bool),
    Number(NumberView),
    String(Seq<char>),
    Array(Seq<JsonValue>),
    Object(Seq<(Seq<char>, JsonValue)>),
}

/// Whether `bits` encodes a double that is neither NaN nor an infinity: its
/// eleven exponent bits are not all set.
pub open spec fn is_finite_bits(bits: u64) -> bool {
    bits & 0x7ff0_0000_0000_0000 != 0x7ff0_0000_0000_0000
}

/// The exponent field of the double that `bits` encodes: the eleven bits
/// below the sign bit.
pub open spec fn exponent_of(bits: u64) -> u64 {
    (bits >> 52) & 0x7ff
}

/// A double is finite unless its exponent field is all ones; the two
/// infinities and the quiet NaN are not finite, zero and one are.
pub proof fn lemma_finite_bits(bits: u64)
    ensures
        is_finite_bits(bits) <==> exponent_of(bits) != 0x7ff,
        !is_finite_bits(0x7ff0_0000_0000_0000),
        !is_finite_bits(0xfff0_0000_0000_0000),
        !is_finite_bits(0x7ff8_0000_0000_0000),
        is_finite_bits(0),
        is_finite_bits(0x3ff0_0000_0000_0000),
{
    assert((bits & 0x7ff0_0000_0000_0000 != 0x7ff0_0000_0000_0000) <==> ((bits >> 52) & 0x7ff
        != 0x7ff)) by (bit_vector);
    assert(0x7ff0_0000_0000_0000u64 & 0x7ff0_0000_0000_0000 == 0x7ff0_0000_0000_0000)
        by (bit_vector);
    assert(0xfff0_0000_0000_0000u64 & 0x7ff0_0000_0000_0000 == 0x7ff0_0000_0000_0000)
        by (bit_vector);
    assert(0x7ff8_0000_0000_0000u64 & 0x7ff0_0000_0000_0000 == 0x7ff0_0000_0000_0000)
        by (bit_vector);
    assert(0u64 & 0x7ff0_0000_0000_0000 == 0) by (bit_vector);
    assert(0x3ff0_0000_0000_0000u64 & 0x7ff0_0000_0000_0000 == 0x3ff0_0000_0000_0000)
        by (bit_vector);
}

/// Whether `bits` encodes a double that is neither NaN nor an infinity.
pub fn finite_bits(bits: u64) -> (r: bool)
    ensures
        r == is_finite_bits(bits),
{
    bits & 0x7ff0_0000_0000_0000 != 0x7ff0_0000_0000_0000
}

/// A finite double: its bit pattern, and the decimal text that denotes it.
#[derive(Debug, PartialEq)]
pub struct Float {
    bits: u64,
    text: String,
}

impl Float {
    #[verifier::type_invariant]
    spec fn inv(self) -> bool {
        is_finite_bits(self.bits) && text_double(self.text@) == Some(self.bits)
    }

    /// The bit pattern of the double.
    pub closed spec fn spec_bits(self) -> u64 {
        self.bits
    }

    /// The text that the double was read from.
    pub closed spec fn spec_text(self) -> Seq<char> {
        self.text@
    }

    /// Reads a finite double from its decimal text.
    pub fn parse(text: &str) -> (r: Option<Float>)
        ensures
            match text_double(text@) {
                Some(bits) if is_finite_bits(bits) => r matches Some(f) && f.spec_bits() == bits
                    && f.spec_text() == text@,
                _ => r is None,
            },
    {
        match parse_double(text) {
            Some(bits) => {
                if finite_bits(bits) {
                    Some(Float { bits, text: String::from_str(text) })
                } else {
                    None
                }
            },
            None => None,
        }
    }

    /// The bit pattern of the double.
    pub fn bits(&self) -> (r: u64)
        ensures
            r == self.spec_bits(),
            is_finite_bits(r),
            text_double(self.spec_text()) == Some(r),
    {
        proof {
            use_type_invariant(self);
        }
        self.bits
    }

    /// The text that the double was read from.
    pub fn text(&self) -> (r: &str)
        ensures
            r@ == self.spec_text(),
    {
        self.text.as_str()
    }

    /// A copy of this double.
    pub fn duplicate(&self) -> (r: Float)
        ensures
            r.spec_bits() == self.spec_bits(),
            r.spec_text() == self.spec_text(),
    {
        proof {
            use_type_invariant(self);
        }
        Float { bits: self.bits, text: self.text.clone() }
    }
}

/// The keys of a list of entries, in their order.
pub open spec fn keys_of(m: Seq<(Seq<char>, JsonValue)>) -> Seq<Seq<char>> {
    Seq::new(m.len(), |i: int| m[i].0)
}

/// The value of the first entry of `m` whose key is `key`.
pub open spec fn lookup(m: Seq<(Seq<char>, JsonValue)>, key: Seq<char>) -> Option<JsonValue>
    decreases m.len(),
{
    if m.len() == 0 {
        None
    } else if m[0].0 == key {
        Some(m[0].1)
    } else {
        lookup(m.drop_first(), key)
    }
}

/// The entries `m`, in key order, with `key` bound to `value`: in place of
/// the entry that had this key, or else at the place that keeps the order.
pub open spec fn insert_entry(m: Seq<(Seq<char>, JsonValue)>, key: Seq<char>, value: JsonValue) -> Seq<
    (Seq<char>, JsonValue),
>
    decreases m.len(),
{
    if m.len() == 0 {
        seq![(key, value)]
    } else if m[0].0 == key {
        m.update(0, (key, value))
    } else if key_lt(key, m[0].0) {
        seq![(key, value)] + m
    } else {
        seq![m[0]] + insert_entry(m.drop_first(), key, value)
    }
}

/// Where the first `p` keys come before `key` and the next one does not,
/// inserting is an update or an insertion at `p`.
pub proof fn lemma_insert_at(m: Seq<(Seq<char>, JsonValue)>, key: Seq<char>, value: JsonValue, p: int)
    requires
        0 <= p <= m.len(),
        forall|j: int| 0 <= j < p ==> key_lt(#[trigger] m[j].0, key),
        p < m.len() ==> !key_lt(m[p].0, key),
    ensures
        insert_entry(m, key, value) == if p < m.len() && m[p].0 == key {
            m.update(p, (key, value))
        } else {
            m.insert(p, (key, value))
        },
    decreases p,
{
    if m.len() == 0 {
        assert(seq![(key, value)] =~= m.insert(0, (key, value)));
    } else if p == 0 {
        lemma_key_order(key, m[0].0, key);
        if m[0].0 != key {
            assert(seq![(key, value)] + m =~= m.insert(0, (key, value)));
        }
    } else {
        lemma_key_order(m[0].0, key, m[0].0);
        let t = m.drop_first();
        assert forall|j: int| 0 <= j < p - 1 implies key_lt(#[trigger] t[j].0, key) by {
            assert(t[j] == m[j + 1]);
        }
        lemma_insert_at(t, key, value, p - 1);
        if p < m.len() && m[p].0 == key {
            assert(seq![m[0]] + t.update(p - 1, (key, value)) =~= m.update(p, (key, value)));
        } else {
            assert(seq![m[0]] + t.insert(p - 1, (key, value)) =~= m.insert(p, (key, value)));
        }
    }
}

/// Where no entry among the first `p` has the key, looking up skips them.
pub proof fn lemma_lookup_skip(m: Seq<(Seq<char>, JsonValue)>, key: Seq<char>, p: int)
    requires
        0 <= p <= m.len(),
        forall|j: int| 0 <= j < p ==> #[trigger] m[j].0 != key,
    ensures
        lookup(m, key) == lookup(m.skip(p), key),
    decreases p,
{
    if p == 0 {
        assert(m.skip(0) =~= m);
    } else {
        let t = m.drop_first();
        assert forall|j: int| 0 <= j < p - 1 implies #[trigger] t[j].0 != key by {
            assert(t[j] == m[j + 1]);
        }
        lemma_lookup_skip(t, key, p - 1);
        assert(t.skip(p - 1) =~= m.skip(p));
    }
}

/// After `key` is bound to `value`, looking `key` up gives `value`, and
/// looking another key up gives what it gave before.
pub proof fn lemma_lookup_insert(
    m: Seq<(Seq<char>, JsonValue)>,
    key: Seq<char>,
    value: JsonValue,
    other: Seq<char>,
)
    ensures
        lookup(insert_entry(m, key, value), key) == Some(value),
        other != key ==> lookup(insert_entry(m, key, value), other) == lookup(m, other),
    decreases m.len(),
{
    let r = insert_entry(m, key, value);
    if m.len() == 0 {
        assert(r.drop_first() =~= m);
    } else if m[0].0 == key {
        assert(r.drop_first() =~= m.drop_first());
    } else if key_lt(key, m[0].0) {
        assert(r.drop_first() =~= m);
    } else {
        lemma_lookup_insert(m.drop_first(), key, value, other);
        assert(r.drop_first() =~= insert_entry(m.drop_first(), key, value));
    }
}

/// Binding a key in entries that stand in key order leaves them in key order.
pub proof fn lemma_insert_keeps_order(m: Seq<(Seq<char>, JsonValue)>, key: Seq<char>, value: JsonValue)
    requires
        strictly_sorted(keys_of(m)),
    ensures
        strictly_sorted(keys_of(insert_entry(m, key, value))),
{
    let p = rank(m, key);
    lemma_rank(m, key);
    let r = insert_entry(m, key, value);
    assert forall|i: int, j: int| 0 <= i < j < keys_of(r).len() implies key_lt(
        #[trigger] keys_of(r)[i],
        #[trigger] keys_of(r)[j],
    ) by {
        lemma_sorted_after(m, key, value, p, i, j);
    }
}

/// The number of entries at the front of `m` whose keys come before `key`.
pub open spec fn rank(m: Seq<(Seq<char>, JsonValue)>, key: Seq<char>) -> int
    decreases m.len(),
{
    if m.len() > 0 && key_lt(m[0].0, key) {
        1 + rank(m.drop_first(), key)
    } else {
        0
    }
}

/// The keys of the first `rank` entries come before `key`, and the next one
/// does not.
pub proof fn lemma_rank(m: Seq<(Seq<char>, JsonValue)>, key: Seq<char>)
    ensures
        0 <= rank(m, key) <= m.len(),
        forall|j: int| 0 <= j < rank(m, key) ==> key_lt(#[trigger] m[j].0, key),
        rank(m, key) < m.len() ==> !key_lt(m[rank(m, key)].0, key),
    decreases m.len(),
{
    if m.len() > 0 && key_lt(m[0].0, key) {
        let t = m.drop_first();
        lemma_rank(t, key);
        assert forall|j: int| 0 <= j < rank(m, key) implies key_lt(#[trigger] m[j].0, key) by {
            if j > 0 {
                assert(m[j] == t[j - 1]);
            }
        }
        if rank(m, key) < m.len() {
            assert(m[rank(m, key)] == t[rank(t, key)]);
        }
    }
}

/// A number: an integer of the unsigned or of the signed 64-bit range, or a
/// finite double.
#[derive(Debug, PartialEq)]
pub enum Number {
    PosInt(u64),
    NegInt(i64),
    Float(Float),
}

impl View for Number {
    type V = NumberView;

    open spec fn view(&self) -> NumberView {
        match self {
            Number::PosInt(u) => NumberView::Int(*u as int),
            Number::NegInt(i) => NumberView::Int(*i as int),
            Number::Float(f) => NumberView::Float(f.spec_bits()),
        }
    }
}

/// A canonical value.
#[derive(Debug, PartialEq)]
pub enum CanonicalValue {
    Null,
    Bool(bool),
    Number(Number),
    String(String),
    Array(Vec<CanonicalValue>),
    Object(Object),
}

/// The entries of an object, by key in strictly increasing order.
#[derive(Debug, PartialEq)]
pub struct Object {
    entries: Vec<(String, CanonicalValue)>,
}

impl CanonicalValue {
    /// What this value is.
    pub open spec fn model(&self) -> JsonValue
        decreases self,
    {
        match self {
            CanonicalValue::Null => JsonValue::Null,
            CanonicalValue::Bool(b) => JsonValue::Bool(*b),
            CanonicalValue::Number(n) => JsonValue::Number(n@),
            CanonicalValue::String(s) => JsonValue::String(s@),
            CanonicalValue::Array(items) => JsonValue::Array(
                Seq::new(
                    items.len() as nat,
                    |i: int|
                        if 0 <= i < items.len() {
                            items[i].model()
                        } else {
                            JsonValue::Null
                        },
                ),
            ),
            CanonicalValue::Object(o) => JsonValue::Object(o.model()),
        }
    }
}

impl Object {
    /// The entries of this object: key and value, in key order.
    pub closed spec fn model(&self) -> Seq<(Seq<char>, JsonValue)>
        decreases self,
    {
        Seq::new(
            self.entries.len() as nat,
            |i: int|
                if 0 <= i < self.entries.len() {
                    (self.entries[i].0@, self.entries[i].1.model())
                } else {
                    (Seq::empty(), JsonValue::Null)
                },
        )
    }
}

impl Object {
    #[verifier::type_invariant]
    spec fn inv(self) -> bool {
        strictly_sorted(keys_of(self.model()))
    }

    /// An object without entries.
    pub fn new() -> (r: Object)
        ensures
            r@ == Seq::<(Seq<char>, JsonValue)>::empty(),
    {
        let r = Object { entries: Vec::new() };
        assert(r.model() =~= Seq::<(Seq<char>, JsonValue)>::empty());
        r
    }

    /// The number of entries.
    pub fn len(&self) -> (r: usize)
        ensures
            r == self@.len(),
            strictly_sorted(keys_of(self@)),
    {
        proof {
            use_type_invariant(self);
        }
        self.entries.len()
    }

    /// The key of the entry at index `i`, counted in key order.
    pub fn key(&self, i: usize) -> (r: &String)
        requires
            i < self@.len(),
        ensures
            r@ == self@[i as int].0,
    {
        &self.entries[i].0
    }

    /// The value of the entry at index `i`, counted in key order.
    pub fn value(&self, i: usize) -> (r: &CanonicalValue)
        requires
            i < self@.len(),
        ensures
            r@ == self@[i as int].1,
            decreases_to!(self => r),
    {
        proof {
            assert(decreases_to!(self.entries => self.entries[i as int]));
        }
        &self.entries[i].1
    }

    /// The value bound to `key`, if there is one.
    pub fn get(&self, key: &str) -> (r: Option<&CanonicalValue>)
        ensures
            match lookup(self@, key@) {
                Some(v) => r matches Some(x) && x@ == v,
                None => r is None,
            },
    {
        let mut i: usize = 0;
        while i < self.entries.len()
            invariant
                i <= self.entries.len(),
                forall|j: int| 0 <= j < i ==> #[trigger] self@[j].0 != key@,
            decreases self.entries.len() - i,
        {
            if str_eq(self.entries[i].0.as_str(), key) {
                proof {
                    lemma_lookup_skip(self@, key@, i as int);
                    assert(self@.skip(i as int)[0] == self@[i as int]);
                }
                return Some(&self.entries[i].1);
            }
            i += 1;
        }
        proof {
            lemma_lookup_skip(self@, key@, i as int);
        }
        None
    }

    /// Binds `key` to `value`, in place of what `key` was bound to before.
    pub fn insert(&mut self, key: String, value: CanonicalValue)
        ensures
            final(self)@ == insert_entry(old(self)@, key@, value@),
    {
        proof {
            use_type_invariant(&*self);
        }
        let ghost before = self@;
        let mut entries: Vec<(String, CanonicalValue)> = Vec::new();
        std::mem::swap(&mut entries, &mut self.entries);
        assert(self.model() =~= Seq::<(Seq<char>, JsonValue)>::empty());
        let mut p: usize = 0;
        while p < entries.len() && key_less(entries[p].0.as_str(), key.as_str())
            invariant
                p <= entries.len(),
                before.len() == entries.len(),
                forall|j: int|
                    0 <= j < entries.len() ==> #[trigger] before[j] == (
                        entries[j].0@,
                        entries[j].1.model(),
                    ),
                forall|j: int| 0 <= j < p ==> key_lt(#[trigger] before[j].0, key@),
            decreases entries.len() - p,
        {
            p += 1;
        }
        let replace = p < entries.len() && str_eq(entries[p].0.as_str(), key.as_str());
        let ghost pair = (key@, value@);
        proof {
            lemma_insert_at(before, key@, value@, p as int);
        }
        if replace {
            entries.set(p, (key, value));
        } else {
            entries.insert(p, (key, value));
        }
        proof {
            let after = (Object { entries }).model();
            if replace {
                assert(after =~= before.update(p as int, pair));
            } else {
                assert(after =~= before.insert(p as int, pair));
            }
            assert forall|i: int, j: int| 0 <= i < j < after.len() implies key_lt(
                #[trigger] keys_of(after)[i],
                #[trigger] keys_of(after)[j],
            ) by {
                lemma_sorted_after(before, pair.0, pair.1, p as int, i, j);
            }
        }
        self.entries = entries;
    }
}

/// The keys of the entries after an insertion still stand in strictly
/// increasing order.
pub proof fn lemma_sorted_after(
    m: Seq<(Seq<char>, JsonValue)>,
    key: Seq<char>,
    value: JsonValue,
    p: int,
    i: int,
    j: int,
)
    requires
        strictly_sorted(keys_of(m)),
        0 <= p <= m.len(),
        forall|k: int| 0 <= k < p ==> key_lt(#[trigger] m[k].0, key),
        p < m.len() ==> !key_lt(m[p].0, key),
        0 <= i < j < insert_entry(m, key, value).len(),
    ensures
        key_lt(insert_entry(m, key, value)[i].0, insert_entry(m, key, value)[j].0),
{
    lemma_insert_at(m, key, value, p);
    let r = insert_entry(m, key, value);
    let ks = keys_of(m);
    if p < m.len() {
        lemma_key_order(m[p].0, key, m[p].0);
    }
    if p < m.len() && m[p].0 == key {
        assert(r[i].0 == ks[i]);
        assert(r[j].0 == ks[j]);
    } else {
        // an insertion at p
        let a = if i < p { i } else { i - 1 };
        let b = if j < p { j } else { j - 1 };
        if i == p {
            // key against an entry from p on
            assert(r[j] == m[j - 1]);
            if j - 1 > p {
                assert(key_lt(ks[p], ks[j - 1]));
                lemma_key_order(key, m[p].0, m[j - 1].0);
            }
        } else if j == p {
            assert(r[i] == m[i]);
        } else {
            assert(r[i] == m[a]);
            assert(r[j] == m[b]);
            assert(key_lt(ks[a], ks[b]));
        }
    }
}

impl View for CanonicalValue {
    type V = JsonValue;

    open spec fn view(&self) -> JsonValue {
        self.model()
    }
}

impl View for Object {
    type V = Seq<(Seq<char>, JsonValue)>;

    open spec fn view(&self) -> Seq<(Seq<char>, JsonValue)> {
        self.model()
    }
}

} // verus!
