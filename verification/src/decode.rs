//! The lenient decoder: normalizes heterogeneous JSON field shapes
//! into canonical typed values.
//!
//! A "string or absent" field accepts null or absence as `None` and a
//! JSON string as `Some`; nothing else. A "list of strings or absent"
//! field accepts null or absence as `None`, an array of strings
//! verbatim (order and duplicates preserved), and a single string as a
//! one-element list containing exactly that string — never re-parsed,
//! even when its text looks like an array literal. The asymmetry is
//! deliberate: arrays pass through, scalars wrap.

use vstd::prelude::*;

use crate::errors::{
    missing_err, res_v, spec_missing_err, spec_type_err, type_err, ToolError, ToolErrorV,
};
use crate::json::{
    spec_elem_kind_name, spec_encode_string_list, spec_kind_name, spec_lookup, JsonElem, JsonElemV,
    JsonValue, JsonValueV, RawParams,
};
use crate::strutil::{i64_dec, spec_idec};

verus! {

/// The strings of an array of JSON elements, if every element is a
/// string.
pub open spec fn spec_str_items(elems: Seq<JsonElemV>) -> Option<Seq<Seq<char>>>
    decreases elems.len(),
{
    if elems.len() == 0 {
        Some(Seq::<Seq<char>>::empty())
    } else {
        match elems[0] {
            JsonElemV::Str(s) => match spec_str_items(elems.drop_first()) {
                Some(rest) => Some(seq![s] + rest),
                None => None,
            },
            _ => None,
        }
    }
}

/// The kind name of the first non-string element.
pub open spec fn spec_first_bad_kind(elems: Seq<JsonElemV>) -> Seq<char>
    decreases elems.len(),
{
    if elems.len() == 0 {
        Seq::<char>::empty()
    } else {
        match elems[0] {
            JsonElemV::Str(_) => spec_first_bad_kind(elems.drop_first()),
            v => spec_elem_kind_name(v),
        }
    }
}

proof fn lemma_str_items_all(elems: Seq<JsonElemV>)
    requires
        forall|j: int| 0 <= j < elems.len() ==> elems[j] is Str,
    ensures
        spec_str_items(elems) == Some(Seq::new(elems.len(), |j: int| elems[j]->Str_0)),
    decreases elems.len(),
{
    if elems.len() == 0 {
        assert(Seq::new(0, |j: int| elems[j]->Str_0) =~= Seq::<Seq<char>>::empty());
    } else {
        lemma_str_items_all(elems.drop_first());
        assert(seq![elems[0]->Str_0] + Seq::new(
            elems.drop_first().len(),
            |j: int| elems.drop_first()[j]->Str_0,
        ) =~= Seq::new(elems.len(), |j: int| elems[j]->Str_0));
    }
}

proof fn lemma_str_items_bad(elems: Seq<JsonElemV>, i: int)
    requires
        0 <= i < elems.len(),
        forall|j: int| 0 <= j < i ==> elems[j] is Str,
        !(elems[i] is Str),
    ensures
        spec_str_items(elems) is None,
        spec_first_bad_kind(elems) == spec_elem_kind_name(elems[i]),
    decreases elems.len(),
{
    if i == 0 {
    } else {
        lemma_str_items_bad(elems.drop_first(), i - 1);
    }
}

/// Decodes an array value into its strings, verbatim; a non-string
/// element is a type error naming the field and the element's kind.
fn decode_str_array(name: &str, elems: &Vec<JsonElem>, expected: &str) -> (r: Result<
    Vec<String>,
    ToolError,
>)
    ensures
        res_v(r) == match spec_str_items(elems.deep_view()) {
            Some(items) => Ok::<_, ToolErrorV>(items),
            None => Err(
                spec_type_err(
                    name@,
                    expected@,
                    "array containing "@ + spec_first_bad_kind(elems.deep_view()),
                ),
            ),
        },
        r matches Err(e) ==> e is InvalidParameter,
{
    let n = elems.len();
    let mut out: Vec<String> = Vec::new();
    let mut i: usize = 0;
    while i < n
        invariant
            n == elems.len(),
            i <= n,
            forall|j: int| 0 <= j < i ==> elems.deep_view()[j] is Str,
            out.deep_view() =~= Seq::new(i as nat, |j: int| elems.deep_view()[j]->Str_0),
        decreases n - i,
    {
        match &elems[i] {
            JsonElem::Str(s) => {
                let ghost pre = out.deep_view();
                out.push(s.clone());
                proof {
                    assert(out.deep_view() =~= pre.push(elems.deep_view()[i as int]->Str_0));
                }
            },
            other => {
                let mut got = String::new();
                got.append("array containing ");
                got.append(other.kind_name());
                proof {
                    lemma_str_items_bad(elems.deep_view(), i as int);
                }
                return Err(type_err(name, expected, got.as_str()));
            },
        }
        i = i + 1;
    }
    proof {
        lemma_str_items_all(elems.deep_view());
    }
    Ok(out)
}

/// What a "string or absent" field decodes to.
pub open spec fn spec_opt_string(
    m: Seq<(Seq<char>, JsonValueV)>,
    name: Seq<char>,
) -> Result<Option<Seq<char>>, ToolErrorV> {
    match spec_lookup(m, name) {
        None => Ok(None),
        Some(JsonValueV::Null) => Ok(None),
        Some(JsonValueV::Str(s)) => Ok(Some(s)),
        Some(v) => Err(spec_type_err(name, "string"@, spec_kind_name(v))),
    }
}

/// Decodes a "string or absent" field: null or absence is `None`, a
/// string is `Some`, anything else is a decode error naming the field.
pub fn opt_string(p: &RawParams, name: &str) -> (r: Result<Option<String>, ToolError>)
    ensures
        res_v(r) == spec_opt_string(p@, name@),
        r matches Err(e) ==> e is InvalidParameter,
{
    match p.get(name) {
        None => Ok(None),
        Some(JsonValue::Null) => Ok(None),
        Some(JsonValue::Str(s)) => Ok(Some(s.clone())),
        Some(v) => Err(type_err(name, "string", v.kind_name())),
    }
}

/// What a "list of strings or absent" field decodes to: arrays pass
/// through verbatim; a bare string wraps into a one-element list.
pub open spec fn spec_opt_string_list(
    m: Seq<(Seq<char>, JsonValueV)>,
    name: Seq<char>,
) -> Result<Option<Seq<Seq<char>>>, ToolErrorV> {
    match spec_lookup(m, name) {
        None => Ok(None),
        Some(JsonValueV::Null) => Ok(None),
        Some(JsonValueV::Str(s)) => Ok(Some(seq![s])),
        Some(JsonValueV::Arr(elems)) => match spec_str_items(elems) {
            Some(items) => Ok(Some(items)),
            None => Err(
                spec_type_err(
                    name,
                    "string or array of strings"@,
                    "array containing "@ + spec_first_bad_kind(elems),
                ),
            ),
        },
        Some(v) => Err(spec_type_err(name, "string or array of strings"@, spec_kind_name(v))),
    }
}

/// Decodes a "list of strings or absent" field. An array of strings
/// decodes to the identical list; a bare string decodes to a
/// one-element list containing exactly that string, with no secondary
/// parsing.
pub fn opt_string_list(p: &RawParams, name: &str) -> (r: Result<Option<Vec<String>>, ToolError>)
    ensures
        res_v(r) == spec_opt_string_list(p@, name@),
        r matches Err(e) ==> e is InvalidParameter,
{
    match p.get(name) {
        None => Ok(None),
        Some(JsonValue::Null) => Ok(None),
        Some(JsonValue::Str(s)) => {
            let mut one: Vec<String> = Vec::new();
            one.push(s.clone());
            proof {
                assert(one.deep_view() =~= seq![s@]);
            }
            Ok(Some(one))
        },
        Some(JsonValue::Arr(elems)) => {
            match decode_str_array(name, elems, "string or array of strings") {
                Ok(items) => Ok(Some(items)),
                Err(e) => Err(e),
            }
        },
        Some(v) => Err(type_err(name, "string or array of strings", v.kind_name())),
    }
}

/// What a required string field decodes to.
pub open spec fn spec_req_string(m: Seq<(Seq<char>, JsonValueV)>, name: Seq<char>) -> Result<
    Seq<char>,
    ToolErrorV,
> {
    match spec_lookup(m, name) {
        None => Err(spec_missing_err(name)),
        Some(JsonValueV::Str(s)) => Ok(s),
        Some(v) => Err(spec_type_err(name, "string"@, spec_kind_name(v))),
    }
}

/// Decodes a required string field: absence is an error, and so is
/// anything but a string (null included).
pub fn req_string(p: &RawParams, name: &str) -> (r: Result<String, ToolError>)
    ensures
        res_v(r) == spec_req_string(p@, name@),
        r matches Err(e) ==> e is InvalidParameter,
{
    match p.get(name) {
        None => Err(missing_err(name)),
        Some(JsonValue::Str(s)) => Ok(s.clone()),
        Some(v) => Err(type_err(name, "string", v.kind_name())),
    }
}

/// What a required array-of-strings field decodes to: strictly an
/// array; a bare string is not wrapped here.
pub open spec fn spec_req_string_array(m: Seq<(Seq<char>, JsonValueV)>, name: Seq<char>) -> Result<
    Seq<Seq<char>>,
    ToolErrorV,
> {
    match spec_lookup(m, name) {
        None => Err(spec_missing_err(name)),
        Some(JsonValueV::Arr(elems)) => match spec_str_items(elems) {
            Some(items) => Ok(items),
            None => Err(
                spec_type_err(
                    name,
                    "array of strings"@,
                    "array containing "@ + spec_first_bad_kind(elems),
                ),
            ),
        },
        Some(v) => Err(spec_type_err(name, "array of strings"@, spec_kind_name(v))),
    }
}

/// Decodes a required array-of-strings field, strictly: absence, null
/// and bare scalars are all errors.
pub fn req_string_array(p: &RawParams, name: &str) -> (r: Result<Vec<String>, ToolError>)
    ensures
        res_v(r) == spec_req_string_array(p@, name@),
        r matches Err(e) ==> e is InvalidParameter,
{
    match p.get(name) {
        None => Err(missing_err(name)),
        Some(JsonValue::Arr(elems)) => decode_str_array(name, elems, "array of strings"),
        Some(v) => Err(type_err(name, "array of strings", v.kind_name())),
    }
}

/// A JSON array of strings decodes to the identical list: order and
/// duplicates are preserved, element for element.
pub proof fn lemma_array_decodes_verbatim(
    m: Seq<(Seq<char>, JsonValueV)>,
    name: Seq<char>,
    elems: Seq<JsonElemV>,
)
    requires
        spec_lookup(m, name) == Some(JsonValueV::Arr(elems)),
        forall|j: int| 0 <= j < elems.len() ==> elems[j] is Str,
    ensures
        spec_opt_string_list(m, name) == Ok::<_, ToolErrorV>(
            Some(Seq::new(elems.len(), |i: int| elems[i]->Str_0)),
        ),
{
    lemma_str_items_all(elems);
}

/// A bare JSON string decodes to a one-element list containing
/// exactly that string — whatever its text looks like, it is never
/// parsed a second time.
pub proof fn lemma_scalar_wraps_verbatim(
    m: Seq<(Seq<char>, JsonValueV)>,
    name: Seq<char>,
    s: Seq<char>,
)
    requires
        spec_lookup(m, name) == Some(JsonValueV::Str(s)),
    ensures
        spec_opt_string_list(m, name) == Ok::<_, ToolErrorV>(Some(seq![s])),
{
}

/// Decoding, re-encoding, and decoding again a list-of-strings field
/// yields the same list: the canonical array form is a fixed point of
/// the round trip.
pub proof fn lemma_string_list_round_trip(
    m: Seq<(Seq<char>, JsonValueV)>,
    name: Seq<char>,
    items: Seq<Seq<char>>,
)
    requires
        spec_lookup(m, name) == Some(spec_encode_string_list(items)),
    ensures
        spec_opt_string_list(m, name) == Ok::<_, ToolErrorV>(Some(items)),
{
    let elems = Seq::new(items.len(), |i: int| JsonElemV::Str(items[i]));
    lemma_str_items_all(elems);
    assert(Seq::new(elems.len(), |j: int| elems[j]->Str_0) =~= items);
}

/// What an optional boolean field decodes to.
pub open spec fn spec_opt_bool(m: Seq<(Seq<char>, JsonValueV)>, name: Seq<char>) -> Result<
    Option<bool>,
    ToolErrorV,
> {
    match spec_lookup(m, name) {
        None => Ok(None),
        Some(JsonValueV::Null) => Ok(None),
        Some(JsonValueV::Bool(b)) => Ok(Some(b)),
        Some(v) => Err(spec_type_err(name, "boolean"@, spec_kind_name(v))),
    }
}

/// Decodes an optional boolean field: null or absence is `None`.
pub fn opt_bool(p: &RawParams, name: &str) -> (r: Result<Option<bool>, ToolError>)
    ensures
        res_v(r) == spec_opt_bool(p@, name@),
        r matches Err(e) ==> e is InvalidParameter,
{
    match p.get(name) {
        None => Ok(None),
        Some(JsonValue::Null) => Ok(None),
        Some(JsonValue::Bool(b)) => Ok(Some(*b)),
        Some(v) => Err(type_err(name, "boolean", v.kind_name())),
    }
}

/// What a defaulted boolean field decodes to: absence is `false`, but
/// an explicit null is a type error.
pub open spec fn spec_bool_or_false(m: Seq<(Seq<char>, JsonValueV)>, name: Seq<char>) -> Result<
    bool,
    ToolErrorV,
> {
    match spec_lookup(m, name) {
        None => Ok(false),
        Some(JsonValueV::Bool(b)) => Ok(b),
        Some(v) => Err(spec_type_err(name, "boolean"@, spec_kind_name(v))),
    }
}

/// Decodes a boolean field that defaults to `false` when absent.
pub fn bool_or_false(p: &RawParams, name: &str) -> (r: Result<bool, ToolError>)
    ensures
        res_v(r) == spec_bool_or_false(p@, name@),
        r matches Err(e) ==> e is InvalidParameter,
{
    match p.get(name) {
        None => Ok(false),
        Some(JsonValue::Bool(b)) => Ok(*b),
        Some(v) => Err(type_err(name, "boolean", v.kind_name())),
    }
}

/// What an optional unsigned 32-bit integer field decodes to.
pub open spec fn spec_opt_u32(m: Seq<(Seq<char>, JsonValueV)>, name: Seq<char>) -> Result<
    Option<u32>,
    ToolErrorV,
> {
    match spec_lookup(m, name) {
        None => Ok(None),
        Some(JsonValueV::Null) => Ok(None),
        Some(JsonValueV::Int(i)) => if 0 <= i <= u32::MAX {
            Ok(Some(i as u32))
        } else {
            Err(spec_type_err(name, "a 32-bit unsigned integer"@, spec_idec(i)))
        },
        Some(v) => Err(spec_type_err(name, "a 32-bit unsigned integer"@, spec_kind_name(v))),
    }
}

/// Decodes an optional unsigned 32-bit integer field: null or absence
/// is `None`; an out-of-range integer is named in the error.
pub fn opt_u32(p: &RawParams, name: &str) -> (r: Result<Option<u32>, ToolError>)
    ensures
        res_v(r) == spec_opt_u32(p@, name@),
        r matches Err(e) ==> e is InvalidParameter,
{
    match p.get(name) {
        None => Ok(None),
        Some(JsonValue::Null) => Ok(None),
        Some(JsonValue::Int(i)) => {
            if 0 <= *i && *i <= u32::MAX as i64 {
                Ok(Some(*i as u32))
            } else {
                let text = i64_dec(*i);
                Err(type_err(name, "a 32-bit unsigned integer", text.as_str()))
            }
        },
        Some(v) => Err(type_err(name, "a 32-bit unsigned integer", v.kind_name())),
    }
}

/// What a defaulted string field decodes to: absence takes the
/// default, but an explicit null is a type error.
pub open spec fn spec_string_or(
    m: Seq<(Seq<char>, JsonValueV)>,
    name: Seq<char>,
    default_value: Seq<char>,
) -> Result<Seq<char>, ToolErrorV> {
    match spec_lookup(m, name) {
        None => Ok(default_value),
        Some(JsonValueV::Str(s)) => Ok(s),
        Some(v) => Err(spec_type_err(name, "string"@, spec_kind_name(v))),
    }
}

/// Decodes a string field that takes `default_value` when absent.
pub fn string_or(p: &RawParams, name: &str, default_value: &str) -> (r: Result<String, ToolError>)
    ensures
        res_v(r) == spec_string_or(p@, name@, default_value@),
        r matches Err(e) ==> e is InvalidParameter,
{
    match p.get(name) {
        None => Ok(default_value.to_owned()),
        Some(JsonValue::Str(s)) => Ok(s.clone()),
        Some(v) => Err(type_err(name, "string", v.kind_name())),
    }
}

/// What an optional numeric field decodes to: the number's decimal
/// text, integral or not.
pub open spec fn spec_opt_number_text(m: Seq<(Seq<char>, JsonValueV)>, name: Seq<char>) -> Result<
    Option<Seq<char>>,
    ToolErrorV,
> {
    match spec_lookup(m, name) {
        None => Ok(None),
        Some(JsonValueV::Null) => Ok(None),
        Some(JsonValueV::Int(i)) => Ok(Some(spec_idec(i))),
        Some(JsonValueV::Num(s)) => Ok(Some(s)),
        Some(v) => Err(spec_type_err(name, "number"@, spec_kind_name(v))),
    }
}

/// Decodes an optional numeric field into its decimal text, keeping a
/// non-integral number's text verbatim.
pub fn opt_number_text(p: &RawParams, name: &str) -> (r: Result<Option<String>, ToolError>)
    ensures
        res_v(r) == spec_opt_number_text(p@, name@),
        r matches Err(e) ==> e is InvalidParameter,
{
    match p.get(name) {
        None => Ok(None),
        Some(JsonValue::Null) => Ok(None),
        Some(JsonValue::Int(i)) => Ok(Some(i64_dec(*i))),
        Some(JsonValue::Num(s)) => Ok(Some(s.clone())),
        Some(v) => Err(type_err(name, "number", v.kind_name())),
    }
}

} // verus!
