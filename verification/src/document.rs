//! The tagged document that a backend answers with, and its normalization to
//! the canonical value tree.

use crate::json::text_double;
use crate::value::{
    exponent_of, finite_bits, insert_entry, is_finite_bits, lemma_finite_bits, CanonicalValue,
    Float, JsonValue, Number, NumberView, Object,
};
use vstd::prelude::*;

verus! {

/// What a tagged number is: a non-negative integer, a negative integer, or a
/// double given by its IEEE-754 bits, which may be NaN or an infinity.
pub enum DocNumberView {
    PosInt(u64),
    NegInt(i64),
    Float(u64),
}

/// What a tagged document is. The entries of an object come in any order,
/// and of two entries with one key the later one counts.
pub enum DocumentView {
    Object(Seq<(Seq<char>, DocumentView)>),
    Array(Seq<DocumentView>),
    Number(DocNumberView),
    String(Seq<char>),
    Bool(bool),
    Null,
}

/// The canonical value of a tagged number: integers stay what they are, a
/// finite double stays what it is, NaN and the infinities become null.
pub open spec fn normalized_number(n: DocNumberView) -> JsonValue {
    match n {
        DocNumberView::PosInt(u) => JsonValue::Number(NumberView::Int(u as int)),
        DocNumberView::NegInt(i) => JsonValue::Number(NumberView::Int(i as int)),
        DocNumberView::Float(bits) => if is_finite_bits(bits) {
            JsonValue::Number(NumberView::Float(bits))
        } else {
            JsonValue::Null
        },
    }
}

/// The canonical value of a tagged document.
pub open spec fn normalized(d: DocumentView) -> JsonValue
    decreases d, 0nat,
{
    match d {
        DocumentView::Object(entries) => JsonValue::Object(
            normalized_entries(entries, entries.len()),
        ),
        DocumentView::Array(items) => JsonValue::Array(
            Seq::new(
                items.len(),
                |i: int|
                    if 0 <= i < items.len() {
                        normalized(items[i])
                    } else {
                        JsonValue::Null
                    },
            ),
        ),
        DocumentView::Number(n) => normalized_number(n),
        DocumentView::String(s) => JsonValue::String(s),
        DocumentView::Bool(b) => JsonValue::Bool(b),
        DocumentView::Null => JsonValue::Null,
    }
}

/// The canonical entries of the first `n` entries of a tagged object: each
/// one inserted in turn, by key.
pub open spec fn normalized_entries(entries: Seq<(Seq<char>, DocumentView)>, n: nat) -> Seq<
    (Seq<char>, JsonValue),
>
    decreases entries, n,
{
    if n == 0 || n > entries.len() {
        Seq::empty()
    } else {
        insert_entry(
            normalized_entries(entries, (n - 1) as nat),
            entries[n - 1].0,
            normalized(entries[n - 1].1),
        )
    }
}

/// A tagged double: its bit pattern and, where it is finite, the finite
/// double that its decimal text denotes.
#[derive(Debug, PartialEq)]
pub struct DocFloat {
    bits: u64,
    float: Option<Float>,
}

impl DocFloat {
    #[verifier::type_invariant]
    spec fn inv(self) -> bool {
        match self.float {
            Some(f) => f.spec_bits() == self.bits,
            None => !is_finite_bits(self.bits),
        }
    }

    /// The bit pattern of the double.
    pub closed spec fn spec_bits(self) -> u64 {
        self.bits
    }

    /// The double with the bit pattern `bits`. For a finite double, `text` is
    /// the decimal text that denotes it; for NaN and the infinities `text` is
    /// not read. `None` where `text` does not denote the finite double.
    pub fn new(bits: u64, text: &str) -> (r: Option<DocFloat>)
        ensures
            r is Some <==> !is_finite_bits(bits) || text_double(text@) == Some(bits),
            r matches Some(d) ==> d.spec_bits() == bits,
    {
        if !finite_bits(bits) {
            Some(DocFloat { bits, float: None })
        } else {
            match Float::parse(text) {
                Some(f) => {
                    if f.bits() == bits {
                        Some(DocFloat { bits, float: Some(f) })
                    } else {
                        None
                    }
                },
                None => None,
            }
        }
    }

    /// The bit pattern of the double.
    pub fn bits(&self) -> (r: u64)
        ensures
            r == self.spec_bits(),
    {
        self.bits
    }

    /// The finite double, or `None` for NaN and the infinities.
    pub fn to_float(&self) -> (r: Option<Float>)
        ensures
            match r {
                Some(f) => is_finite_bits(self.spec_bits()) && f.spec_bits() == self.spec_bits(),
                None => !is_finite_bits(self.spec_bits()),
            },
    {
        proof {
            use_type_invariant(self);
        }
        match &self.float {
            Some(f) => {
                let _ = f.bits();
                Some(f.duplicate())
            },
            None => None,
        }
    }
}

/// A tagged number.
#[derive(Debug, PartialEq)]
pub enum DocNumber {
    PosInt(u64),
    NegInt(i64),
    Float(DocFloat),
}

impl View for DocNumber {
    type V = DocNumberView;

    open spec fn view(&self) -> DocNumberView {
        match self {
            DocNumber::PosInt(u) => DocNumberView::PosInt(*u),
            DocNumber::NegInt(i) => DocNumberView::NegInt(*i),
            DocNumber::Float(d) => DocNumberView::Float(d.spec_bits()),
        }
    }
}

/// A tagged document.
#[derive(Debug, PartialEq)]
pub enum Document {
    Object(Vec<(String, Document)>),
    Array(Vec<Document>),
    Number(DocNumber),
    String(String),
    Bool(bool),
    Null,
}

impl Document {
    /// What this document is.
    pub open spec fn model(&self) -> DocumentView
        decreases self,
    {
        match self {
            Document::Object(entries) => DocumentView::Object(
                Seq::new(
                    entries.len() as nat,
                    |i: int|
                        if 0 <= i < entries.len() {
                            (entries[i].0@, entries[i].1.model())
                        } else {
                            (Seq::empty(), DocumentView::Null)
                        },
                ),
            ),
            Document::Array(items) => DocumentView::Array(
                Seq::new(
                    items.len() as nat,
                    |i: int|
                        if 0 <= i < items.len() {
                            items[i].model()
                        } else {
                            DocumentView::Null
                        },
                ),
            ),
            Document::Number(n) => DocumentView::Number(n@),
            Document::String(s) => DocumentView::String(s@),
            Document::Bool(b) => DocumentView::Bool(*b),
            Document::Null => DocumentView::Null,
        }
    }
}

impl View for Document {
    type V = DocumentView;

    open spec fn view(&self) -> DocumentView {
        self.model()
    }
}

/// The canonical value of a tagged number.
pub fn number_to_value(num: &DocNumber) -> (v: CanonicalValue)
    ensures
        v@ == normalized_number(num@),
{
    match num {
        DocNumber::PosInt(u) => CanonicalValue::Number(Number::PosInt(*u)),
        DocNumber::NegInt(i) => {
            if *i >= 0 {
                CanonicalValue::Number(Number::PosInt(*i as u64))
            } else {
                CanonicalValue::Number(Number::NegInt(*i))
            }
        },
        DocNumber::Float(d) => match d.to_float() {
            Some(f) => CanonicalValue::Number(Number::Float(f)),
            None => CanonicalValue::Null,
        },
    }
}

/// The canonical value of a tagged document. Every document has one.
pub fn document_to_value(doc: &Document) -> (v: CanonicalValue)
    ensures
        v@ == normalized(doc@),
    decreases doc,
{
    match doc {
        Document::Object(entries) => {
            let mut obj = Object::new();
            let mut i: usize = 0;
            while i < entries.len()
                invariant
                    i <= entries.len(),
                    doc@ matches DocumentView::Object(es) && es.len() == entries.len()
                        && obj@ == normalized_entries(es, i as nat),
                    *doc == Document::Object(*entries),
                decreases entries.len() - i,
            {
                let value = document_to_value(&entries[i].1);
                obj.insert(entries[i].0.clone(), value);
                i += 1;
            }
            CanonicalValue::Object(obj)
        },
        Document::Array(items) => {
            let mut out: Vec<CanonicalValue> = Vec::new();
            let mut i: usize = 0;
            while i < items.len()
                invariant
                    i <= items.len(),
                    out.len() == i,
                    *doc == Document::Array(*items),
                    decreases_to!(*doc => *items),
                    forall|j: int| 0 <= j < i ==> #[trigger] out[j]@ == normalized(items[j]@),
                decreases items.len() - i,
            {
                proof {
                    assert(decreases_to!(*items => items[i as int]));
                }
                let value = document_to_value(&items[i]);
                out.push(value);
                i += 1;
            }
            let v = CanonicalValue::Array(out);
            proof {
                let have = v@->Array_0;
                let want = normalized(doc@)->Array_0;
                assert(have.len() == want.len());
                assert forall|j: int| 0 <= j < have.len() implies have[j] == want[j] by {
                    assert(out[j]@ == normalized(items[j]@));
                }
                assert(have =~= want);
            }
            v
        },
        Document::String(s) => CanonicalValue::String(s.clone()),
        Document::Bool(b) => CanonicalValue::Bool(*b),
        Document::Null => CanonicalValue::Null,
        Document::Number(num) => number_to_value(num),
    }
}

/// Integers of the whole unsigned and signed 64-bit ranges keep their value
/// under normalization.
pub proof fn lemma_integers_round_trip(u: u64, i: i64)
    ensures
        normalized(DocumentView::Number(DocNumberView::PosInt(u))) == JsonValue::Number(
            NumberView::Int(u as int),
        ),
        normalized(DocumentView::Number(DocNumberView::NegInt(i))) == JsonValue::Number(
            NumberView::Int(i as int),
        ),
{
}

/// A double that is NaN or an infinity, which is one whose exponent bits are
/// all set, normalizes to null; every other double is finite and keeps its
/// bits.
pub proof fn lemma_doubles(bits: u64)
    ensures
        exponent_of(bits) == 0x7ff ==> normalized(
            DocumentView::Number(DocNumberView::Float(bits)),
        ) == JsonValue::Null,
        exponent_of(bits) != 0x7ff ==> normalized(
            DocumentView::Number(DocNumberView::Float(bits)),
        ) == JsonValue::Number(NumberView::Float(bits)),
{
    lemma_finite_bits(bits);
}

} // verus!
