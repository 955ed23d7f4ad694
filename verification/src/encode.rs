//! JSON text of canonical values.

use crate::json::{
    compact_text, json_array, json_bool, json_double, json_entries, json_null, json_object,
    json_of, json_of_all, json_signed, json_string, json_unsigned, pretty_text, to_compact,
    to_pretty,
};
use crate::result::values_model;
use crate::text::strings_model;
use crate::value::{keys_of, CanonicalValue, Number};
use vstd::prelude::*;

verus! {

/// The `serde_json` value that holds what `v` holds.
pub(crate) fn to_outside(v: &CanonicalValue) -> (r: serde_json::Value)
    ensures
        json_of(r) == v@,
    decreases v,
{
    match v {
        CanonicalValue::Null => json_null(),
        CanonicalValue::Bool(b) => json_bool(*b),
        CanonicalValue::Number(Number::PosInt(u)) => json_unsigned(*u),
        CanonicalValue::Number(Number::NegInt(i)) => json_signed(*i),
        CanonicalValue::Number(Number::Float(f)) => {
            let _ = f.bits();
            match json_double(f.text()) {
                Some(r) => r,
                None => {
                    // not reached: the text of a `Float` denotes its double
                    proof {
                        assert(false);
                    }
                    json_null()
                },
            }
        },
        CanonicalValue::String(s) => json_string(s.clone()),
        CanonicalValue::Array(items) => {
            let mut out: Vec<serde_json::Value> = Vec::new();
            let mut i: usize = 0;
            while i < items.len()
                invariant
                    i <= items.len(),
                    out.len() == i,
                    decreases_to!(*v => *items),
                    forall|j: int| 0 <= j < i ==> json_of(#[trigger] out[j]) == items[j].model(),
                decreases items.len() - i,
            {
                proof {
                    assert(decreases_to!(*items => items[i as int]));
                }
                let item = to_outside(&items[i]);
                out.push(item);
                i += 1;
            }
            proof {
                assert(json_of_all(out@) =~= v@->Array_0);
            }
            json_array(out)
        },
        CanonicalValue::Object(o) => {
            let n = o.len();
            let mut keys: Vec<String> = Vec::new();
            let mut values: Vec<serde_json::Value> = Vec::new();
            let mut i: usize = 0;
            while i < n
                invariant
                    n == o@.len(),
                    i <= n,
                    keys.len() == i,
                    values.len() == i,
                    decreases_to!(*v => *o),
                    forall|j: int| 0 <= j < i ==> (#[trigger] keys[j])@ == o@[j].0,
                    forall|j: int| 0 <= j < i ==> json_of(#[trigger] values[j]) == o@[j].1,
                decreases n - i,
            {
                let value = o.value(i);
                keys.push(o.key(i).clone());
                values.push(to_outside(value));
                i += 1;
            }
            proof {
                assert(strings_model(keys@) =~= keys_of(o@));
                assert(json_entries(keys@, values@) =~= o@);
            }
            json_object(keys, values)
        },
    }
}

/// The compact JSON text of `v`.
pub fn compact_json(v: &CanonicalValue) -> (s: String)
    ensures
        s@ == compact_text(v@),
{
    let outside = to_outside(v);
    to_compact(&outside)
}

/// The pretty JSON text of the list of `rows`: there always is one.
pub fn pretty_json(rows: &[CanonicalValue]) -> (r: Option<String>)
    ensures
        r matches Some(s) && s@ == pretty_text(values_model(rows@)),
{
    let mut out: Vec<serde_json::Value> = Vec::new();
    let mut i: usize = 0;
    while i < rows.len()
        invariant
            i <= rows.len(),
            out.len() == i,
            forall|j: int| 0 <= j < i ==> json_of(#[trigger] out[j]) == rows[j]@,
        decreases rows.len() - i,
    {
        out.push(to_outside(&rows[i]));
        i += 1;
    }
    proof {
        assert(json_of_all(out@) =~= values_model(rows@));
    }
    to_pretty(&out)
}

} // verus!
