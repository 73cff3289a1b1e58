//! A plain model of the JSON parameter documents that callers send.
//!
//! Parameters arrive as a flat JSON object whose values are scalars or
//! arrays. The decoder only ever accepts null, booleans, integers,
//! numbers, strings and arrays of strings; any nested aggregate inside
//! an array is rejected by type name alone, so array elements carry
//! nested aggregates as bare markers.

use vstd::prelude::*;

verus! {

/// An element of a JSON array. Nested arrays and objects never decode
/// successfully, so only their kind is kept.
#[derive(Debug, Clone)]
pub enum JsonElem {
    Null,
    Bool(bool),
    Int(i64),
    /// A non-integral JSON number, carried as its decimal text.
    Num(String),
    Str(String),
    Arr,
    Obj,
}

/// A JSON value standing in a field of a parameter object.
#[derive(Debug, Clone)]
pub enum JsonValue {
    Null,
    Bool(bool),
    Int(i64),
    /// A non-integral JSON number, carried as its decimal text.
    Num(String),
    Str(String),
    Arr(Vec<JsonElem>),
    Obj,
}

/// Mathematical image of a `JsonElem`.
pub enum JsonElemV {
    Null,
    Bool(bool),
    Int(int),
    Num(Seq<char>),
    Str(Seq<char>),
    Arr,
    Obj,
}

/// Mathematical image of a `JsonValue`.
pub enum JsonValueV {
    Null,
    Bool(bool),
    Int(int),
    Num(Seq<char>),
    Str(Seq<char>),
    Arr(Seq<JsonElemV>),
    Obj,
}

impl View for JsonElem {
    type V = JsonElemV;

    open spec fn view(&self) -> JsonElemV {
        match self {
            JsonElem::Null => JsonElemV::Null,
            JsonElem::Bool(b) => JsonElemV::Bool(*b),
            JsonElem::Int(i) => JsonElemV::Int(*i as int),
            JsonElem::Num(s) => JsonElemV::Num(s@),
            JsonElem::Str(s) => JsonElemV::Str(s@),
            JsonElem::Arr => JsonElemV::Arr,
            JsonElem::Obj => JsonElemV::Obj,
        }
    }
}

impl DeepView for JsonElem {
    type V = JsonElemV;

    open spec fn deep_view(&self) -> JsonElemV {
        self.view()
    }
}

impl View for JsonValue {
    type V = JsonValueV;

    open spec fn view(&self) -> JsonValueV {
        match self {
            JsonValue::Null => JsonValueV::Null,
            JsonValue::Bool(b) => JsonValueV::Bool(*b),
            JsonValue::Int(i) => JsonValueV::Int(*i as int),
            JsonValue::Num(s) => JsonValueV::Num(s@),
            JsonValue::Str(s) => JsonValueV::Str(s@),
            JsonValue::Arr(v) => JsonValueV::Arr(v.deep_view()),
            JsonValue::Obj => JsonValueV::Obj,
        }
    }
}

impl DeepView for JsonValue {
    type V = JsonValueV;

    open spec fn deep_view(&self) -> JsonValueV {
        self.view()
    }
}

/// The name of a JSON value's type, as used in decode error messages.
pub open spec fn spec_kind_name(v: JsonValueV) -> Seq<char> {
    match v {
        JsonValueV::Null => "null"@,
        JsonValueV::Bool(_) => "boolean"@,
        JsonValueV::Int(_) => "integer"@,
        JsonValueV::Num(_) => "number"@,
        JsonValueV::Str(_) => "string"@,
        JsonValueV::Arr(_) => "array"@,
        JsonValueV::Obj => "object"@,
    }
}

/// The name of an array element's type, as used in decode error messages.
pub open spec fn spec_elem_kind_name(v: JsonElemV) -> Seq<char> {
    match v {
        JsonElemV::Null => "null"@,
        JsonElemV::Bool(_) => "boolean"@,
        JsonElemV::Int(_) => "integer"@,
        JsonElemV::Num(_) => "number"@,
        JsonElemV::Str(_) => "string"@,
        JsonElemV::Arr => "array"@,
        JsonElemV::Obj => "object"@,
    }
}

impl JsonValue {
    /// The name of this value's JSON type.
    pub fn kind_name(&self) -> (r: &'static str)
        ensures
            r@ == spec_kind_name(self@),
    {
        match self {
            JsonValue::Null => "null",
            JsonValue::Bool(_) => "boolean",
            JsonValue::Int(_) => "integer",
            JsonValue::Num(_) => "number",
            JsonValue::Str(_) => "string",
            JsonValue::Arr(_) => "array",
            JsonValue::Obj => "object",
        }
    }
}

impl JsonElem {
    /// The name of this element's JSON type.
    pub fn kind_name(&self) -> (r: &'static str)
        ensures
            r@ == spec_elem_kind_name(self@),
    {
        match self {
            JsonElem::Null => "null",
            JsonElem::Bool(_) => "boolean",
            JsonElem::Int(_) => "integer",
            JsonElem::Num(_) => "number",
            JsonElem::Str(_) => "string",
            JsonElem::Arr => "array",
            JsonElem::Obj => "object",
        }
    }
}

/// The raw, untyped parameter document of one call: an ordered list of
/// field bindings. Lookups take the first binding of a name.
#[derive(Debug)]
pub struct RawParams {
    pub entries: Vec<(String, JsonValue)>,
}

impl View for RawParams {
    type V = Seq<(Seq<char>, JsonValueV)>;

    open spec fn view(&self) -> Seq<(Seq<char>, JsonValueV)> {
        self.entries.deep_view()
    }
}

/// The value bound to `name`, if any: the first binding wins.
pub open spec fn spec_lookup(m: Seq<(Seq<char>, JsonValueV)>, name: Seq<char>) -> Option<
    JsonValueV,
>
    decreases m.len(),
{
    if m.len() == 0 {
        None
    } else if m[0].0 == name {
        Some(m[0].1)
    } else {
        spec_lookup(m.drop_first(), name)
    }
}

/// Relies on `<str as PartialEq>::eq`: two string slices compare equal
/// exactly when their character sequences are equal.
#[verifier::external_body]
pub(crate) fn str_eq(a: &str, b: &str) -> (r: bool)
    ensures
        r == (a@ == b@),
{
    a == b
}

impl RawParams {
    /// An empty parameter document.
    pub fn new() -> (r: RawParams)
        ensures
            r@ == Seq::<(Seq<char>, JsonValueV)>::empty(),
    {
        RawParams { entries: Vec::new() }
    }

    /// Appends a field binding.
    pub fn insert(&mut self, name: String, value: JsonValue)
        ensures
            final(self)@ == old(self)@.push((name@, value@)),
    {
        let ghost pre = self@;
        self.entries.push((name, value));
        proof {
            assert(self@ =~= pre.push((self.entries@.last().0@, self.entries@.last().1@)));
        }
    }

    /// The value bound to `name`, if the document has one.
    pub fn get<'a>(&'a self, name: &str) -> (r: Option<&'a JsonValue>)
        ensures
            match r {
                Some(v) => spec_lookup(self@, name@) == Some(v@),
                None => spec_lookup(self@, name@) is None,
            },
    {
        let n = self.entries.len();
        let mut i: usize = 0;
        proof {
            assert(self@.skip(0) =~= self@);
        }
        while i < n
            invariant
                n == self.entries.len(),
                i <= n,
                spec_lookup(self@, name@) == spec_lookup(self@.skip(i as int), name@),
            decreases n - i,
        {
            proof {
                assert(self@.skip(i as int)[0] == self@[i as int]);
                assert(self@[i as int] == (self.entries@[i as int].0@,
                self.entries@[i as int].1@));
            }
            if str_eq(self.entries[i].0.as_str(), name) {
                return Some(&self.entries[i].1);
            }
            proof {
                assert(self@.skip(i as int).drop_first() =~= self@.skip(i as int + 1));
            }
            i = i + 1;
        }
        proof {
            assert(self@.skip(n as int) =~= Seq::<(Seq<char>, JsonValueV)>::empty());
        }
        None
    }
}

/// The canonical JSON form of a list of strings: an array of strings,
/// order and duplicates preserved.
pub open spec fn spec_encode_string_list(items: Seq<Seq<char>>) -> JsonValueV {
    JsonValueV::Arr(Seq::new(items.len(), |i: int| JsonElemV::Str(items[i])))
}

/// Encodes a list of strings back into its canonical JSON form: an
/// array of strings, order and duplicates preserved.
pub fn encode_string_list(items: &Vec<String>) -> (r: JsonValue)
    ensures
        r@ == spec_encode_string_list(items.deep_view()),
{
    let n = items.len();
    let mut elems: Vec<JsonElem> = Vec::new();
    let mut i: usize = 0;
    while i < n
        invariant
            n == items.len(),
            i <= n,
            elems.deep_view() =~= Seq::new(i as nat, |j: int| JsonElemV::Str(items@[j]@)),
        decreases n - i,
    {
        let ghost pre = elems.deep_view();
        elems.push(JsonElem::Str(items[i].clone()));
        proof {
            assert(elems.deep_view() =~= pre.push(JsonElemV::Str(items@[i as int]@)));
        }
        i = i + 1;
    }
    proof {
        assert(elems.deep_view() =~= Seq::new(
            items.deep_view().len(),
            |j: int| JsonElemV::Str(items.deep_view()[j]),
        ));
    }
    JsonValue::Arr(elems)
}

} // verus!
