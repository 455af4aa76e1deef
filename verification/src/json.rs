//! A model of the JSON values that the server sends.
//!
//! The server's payloads are decoded outside this crate into [`JsonValue`],
//! which carries exactly what the entity decoder reads: objects keep their
//! fields in payload order, and a number is kept either as a non-negative
//! integer or, when it is not one, as its textual form. The mathematical
//! model of a value is [`JsonVal`], its view; every contract about payloads
//! is stated over that model.

use crate::text::spec_dec;
use vstd::prelude::*;

verus! {

/// One JSON value, as handed to the entity decoder.
///
/// A number that is a non-negative integer is carried as [`JsonValue::UInt`];
/// any other number (negative or fractional) is carried textually as
/// [`JsonValue::FNum`], since the decoder never computes with such values.
#[derive(Debug, PartialEq)]
pub enum JsonValue {
    Null,
    Bool(bool),
    UInt(u64),
    FNum(String),
    Str(String),
    Arr(Vec<JsonValue>),
    Obj(Vec<(String, JsonValue)>),
}

/// The mathematical model of a [`JsonValue`]: the same tree with every
/// string read as its character sequence.
#[verifier::ext_equal]
pub enum JsonVal {
    Null,
    Bool(bool),
    UInt(u64),
    FNum(Seq<char>),
    Str(Seq<char>),
    Arr(Seq<JsonVal>),
    Obj(Seq<(Seq<char>, JsonVal)>),
}

/// The model of a value: strings become their character sequences,
/// arrays and objects the models of their elements.
pub open spec fn json_view(v: JsonValue) -> JsonVal
    decreases v,
{
    match v {
        JsonValue::Null => JsonVal::Null,
        JsonValue::Bool(b) => JsonVal::Bool(b),
        JsonValue::UInt(n) => JsonVal::UInt(n),
        JsonValue::FNum(t) => JsonVal::FNum(t@),
        JsonValue::Str(s) => JsonVal::Str(s@),
        JsonValue::Arr(xs) => JsonVal::Arr(
            Seq::new(
                xs@.len(),
                |i: int|
                    if 0 <= i < xs@.len() {
                        json_view(xs@[i])
                    } else {
                        JsonVal::Null
                    },
            ),
        ),
        JsonValue::Obj(fs) => JsonVal::Obj(
            Seq::new(
                fs@.len(),
                |i: int|
                    if 0 <= i < fs@.len() {
                        (fs@[i].0@, json_view(fs@[i].1))
                    } else {
                        (Seq::empty(), JsonVal::Null)
                    },
            ),
        ),
    }
}

impl View for JsonValue {
    type V = JsonVal;

    open spec fn view(&self) -> JsonVal {
        json_view(*self)
    }
}

/// The value under `key` in an object's field list: the first binding wins.
pub open spec fn spec_lookup(fields: Seq<(Seq<char>, JsonVal)>, key: Seq<char>) -> Option<JsonVal>
    decreases fields.len(),
{
    if fields.len() == 0 {
        None
    } else if fields[0].0 == key {
        Some(fields[0].1)
    } else {
        spec_lookup(fields.drop_first(), key)
    }
}

/// The value under `key` in `v`, when `v` is an object that has the key.
pub open spec fn spec_field(v: JsonVal, key: Seq<char>) -> Option<JsonVal> {
    match v {
        JsonVal::Obj(fields) => spec_lookup(fields, key),
        _ => None,
    }
}

/// The text of a string field; an absent or non-string field reads as `""`.
pub open spec fn spec_str_field(v: JsonVal, key: Seq<char>) -> Seq<char> {
    match spec_field(v, key) {
        Some(JsonVal::Str(s)) => s,
        _ => Seq::empty(),
    }
}

/// The value of an integer field; an absent or non-integer field reads as `0`.
pub open spec fn spec_u64_field(v: JsonVal, key: Seq<char>) -> u64 {
    match spec_field(v, key) {
        Some(JsonVal::UInt(n)) => n,
        _ => 0,
    }
}

/// The value of a boolean field; an absent or non-boolean field reads as `false`.
pub open spec fn spec_bool_field(v: JsonVal, key: Seq<char>) -> bool {
    match spec_field(v, key) {
        Some(JsonVal::Bool(b)) => b,
        _ => false,
    }
}

/// The elements of an array field; an absent or non-array field reads as empty.
pub open spec fn spec_arr_field(v: JsonVal, key: Seq<char>) -> Seq<JsonVal> {
    match spec_field(v, key) {
        Some(JsonVal::Arr(a)) => a,
        _ => Seq::empty(),
    }
}

/// The value of a field, with `Null` standing in for an absent one.
pub open spec fn spec_field_or_null(v: JsonVal, key: Seq<char>) -> JsonVal {
    match spec_field(v, key) {
        Some(u) => u,
        None => JsonVal::Null,
    }
}

/// The text of a number field: the decimal form of an integer, the
/// carried text of any other number, `""` when absent or not a number.
pub open spec fn spec_num_text_field(v: JsonVal, key: Seq<char>) -> Seq<char> {
    match spec_field(v, key) {
        Some(JsonVal::UInt(n)) => spec_dec(n),
        Some(JsonVal::FNum(t)) => t,
        _ => Seq::empty(),
    }
}

/// The text of a string field that distinguishes absence from emptiness.
pub open spec fn spec_opt_str_field(v: JsonVal, key: Seq<char>) -> Option<Seq<char>> {
    match spec_field(v, key) {
        Some(JsonVal::Str(s)) => Some(s),
        _ => None,
    }
}

/// The text of one string element of an array; anything else reads as `""`.
pub open spec fn spec_str_of(v: JsonVal) -> Seq<char> {
    match v {
        JsonVal::Str(s) => s,
        _ => Seq::empty(),
    }
}

/// The elements of an array field read as strings.
pub open spec fn spec_str_list_field(v: JsonVal, key: Seq<char>) -> Seq<Seq<char>> {
    spec_arr_field(v, key).map_values(|e: JsonVal| spec_str_of(e))
}

/// A field absent from a payload reads as the zero value of every type:
/// this is what makes the entity decoder total.
pub proof fn lemma_missing_field_defaults(v: JsonVal, key: Seq<char>)
    requires
        spec_field(v, key) is None,
    ensures
        spec_str_field(v, key) == Seq::<char>::empty(),
        spec_u64_field(v, key) == 0,
        spec_bool_field(v, key) == false,
        spec_arr_field(v, key) == Seq::<JsonVal>::empty(),
        spec_str_list_field(v, key) == Seq::<Seq<char>>::empty(),
        spec_num_text_field(v, key) == Seq::<char>::empty(),
        spec_opt_str_field(v, key) is None,
        spec_field_or_null(v, key) == JsonVal::Null,
{
    assert(spec_str_list_field(v, key) =~= Seq::<Seq<char>>::empty());
}

/// Content equality of two string slices.
pub fn str_eq(a: &str, b: &str) -> (r: bool)
    ensures
        r == (a@ == b@),
{
    let sa: String = a.to_owned();
    let sb: String = b.to_owned();
    sa == sb
}

/// The first binding under `key` in `fields`, as [`spec_lookup`] reads it.
#[verifier::loop_isolation(false)]
fn lookup<'a>(fields: &'a Vec<(String, JsonValue)>, key: &str) -> (r: Option<&'a JsonValue>)
    ensures
        match r {
            Some(u) => spec_field(JsonValue::Obj(*fields)@, key@) == Some(u@),
            None => spec_field(JsonValue::Obj(*fields)@, key@) is None,
        },
{
    let ghost objf = (match JsonValue::Obj(*fields)@ {
        JsonVal::Obj(f) => f,
        _ => Seq::empty(),
    });
    assert(objf.skip(0) =~= objf);
    let n = fields.len();
    for i in 0..n
        invariant
            n == fields@.len(),
            objf.len() == fields@.len(),
            forall|j: int|
                0 <= j < objf.len() ==> objf[j] == (fields@[j].0@, fields@[j].1@),
            spec_lookup(objf, key@) == spec_lookup(objf.skip(i as int), key@),
    {
        assert(objf.skip(i as int)[0] == objf[i as int]);
        if str_eq(fields[i].0.as_str(), key) {
            return Some(&fields[i].1);
        }
        assert(objf.skip(i as int).drop_first() =~= objf.skip(i + 1));
    }
    assert(objf.skip(n as int).len() == 0);
    None
}

/// The value under `key` when `v` is an object holding it.
pub fn field<'a>(v: &'a JsonValue, key: &str) -> (r: Option<&'a JsonValue>)
    ensures
        match r {
            Some(u) => spec_field(v@, key@) == Some(u@),
            None => spec_field(v@, key@) is None,
        },
{
    match v {
        JsonValue::Obj(fields) => lookup(fields, key),
        _ => None,
    }
}

/// The text of a string field, defaulting to the empty string.
pub fn get_str(v: &JsonValue, key: &str) -> (r: String)
    ensures
        r@ == spec_str_field(v@, key@),
{
    match field(v, key) {
        Some(JsonValue::Str(s)) => s.clone(),
        _ => String::new(),
    }
}

/// The value of an integer field, defaulting to zero.
pub fn get_u64(v: &JsonValue, key: &str) -> (r: u64)
    ensures
        r == spec_u64_field(v@, key@),
{
    match field(v, key) {
        Some(JsonValue::UInt(n)) => *n,
        _ => 0,
    }
}

/// The value of a boolean field, defaulting to `false`.
pub fn get_bool(v: &JsonValue, key: &str) -> (r: bool)
    ensures
        r == spec_bool_field(v@, key@),
{
    match field(v, key) {
        Some(JsonValue::Bool(b)) => *b,
        _ => false,
    }
}

/// The text of a number field, defaulting to the empty string.
pub fn get_num_text(v: &JsonValue, key: &str) -> (r: String)
    ensures
        r@ == spec_num_text_field(v@, key@),
{
    match field(v, key) {
        Some(JsonValue::UInt(n)) => crate::text::u64_to_string(*n),
        Some(JsonValue::FNum(t)) => t.clone(),
        _ => String::new(),
    }
}

/// The text of a string field, `None` when absent or not a string.
pub fn get_opt_str(v: &JsonValue, key: &str) -> (r: Option<String>)
    ensures
        r.deep_view() == spec_opt_str_field(v@, key@),
{
    match field(v, key) {
        Some(JsonValue::Str(s)) => Some(s.clone()),
        _ => None,
    }
}

/// A copy of the value under `key`, with `Null` standing in for an absent one.
pub fn get_json(v: &JsonValue, key: &str) -> (r: JsonValue)
    ensures
        r@ == spec_field_or_null(v@, key@),
{
    match field(v, key) {
        Some(u) => u.deep_copy(),
        None => JsonValue::Null,
    }
}

/// The elements of an array field, element by element.
pub fn arr_field<'a>(v: &'a JsonValue, key: &str) -> (r: Option<&'a Vec<JsonValue>>)
    ensures
        match r {
            Some(xs) => xs@.len() == spec_arr_field(v@, key@).len() && (forall|i: int|
                0 <= i < xs@.len() ==> xs@[i]@ == spec_arr_field(v@, key@)[i]),
            None => spec_arr_field(v@, key@) == Seq::<JsonVal>::empty(),
        },
{
    match field(v, key) {
        Some(JsonValue::Arr(xs)) => Some(xs),
        _ => None,
    }
}

/// The text of a string value, defaulting to the empty string.
pub fn str_of(v: &JsonValue) -> (r: String)
    ensures
        r@ == spec_str_of(v@),
{
    match v {
        JsonValue::Str(s) => s.clone(),
        _ => String::new(),
    }
}

/// The elements of an array field read as strings.
#[verifier::loop_isolation(false)]
pub fn get_str_list(v: &JsonValue, key: &str) -> (r: Vec<String>)
    ensures
        r.deep_view() == spec_str_list_field(v@, key@),
{
    let mut out: Vec<String> = Vec::new();
    match arr_field(v, key) {
        Some(xs) => {
            let n = xs.len();
            for i in 0..n
                invariant
                    n == xs@.len(),
                    xs@.len() == spec_arr_field(v@, key@).len(),
                    forall|j: int| 0 <= j < xs@.len() ==> xs@[j]@ == spec_arr_field(v@, key@)[j],
                    out@.len() == i,
                    forall|j: int| 0 <= j < i ==> out@[j]@ == spec_str_of(spec_arr_field(v@, key@)[j]),
            {
                out.push(str_of(&xs[i]));
            }
        },
        None => {},
    }
    assert(out.deep_view() =~= spec_str_list_field(v@, key@));
    out
}

impl JsonValue {
    /// A copy of the value, equal to it in the model.
    #[verifier::loop_isolation(false)]
    pub fn deep_copy(&self) -> (r: JsonValue)
        ensures
            r@ == self@,
        decreases *self,
    {
        match self {
            JsonValue::Null => JsonValue::Null,
            JsonValue::Bool(b) => JsonValue::Bool(*b),
            JsonValue::UInt(n) => JsonValue::UInt(*n),
            JsonValue::FNum(t) => JsonValue::FNum(t.clone()),
            JsonValue::Str(s) => JsonValue::Str(s.clone()),
            JsonValue::Arr(xs) => {
                let mut out: Vec<JsonValue> = Vec::new();
                let n = xs.len();
                for i in 0..n
                    invariant
                        n == xs@.len(),
                        out@.len() == i,
                        forall|j: int| 0 <= j < i ==> out@[j]@ == xs@[j]@,
                    decreases n - i,
                {
                    out.push(xs[i].deep_copy());
                }
                let r = JsonValue::Arr(out);
                proof {
                    let s1 = (match r@ {
                        JsonVal::Arr(s) => s,
                        _ => Seq::empty(),
                    });
                    let s2 = (match self@ {
                        JsonVal::Arr(s) => s,
                        _ => Seq::empty(),
                    });
                    assert forall|j: int| 0 <= j < s1.len() implies s1[j] == s2[j] by {
                        assert(out@[j]@ == xs@[j]@);
                    }
                    assert(s1 =~= s2);
                }
                r
            },
            JsonValue::Obj(fs) => {
                let mut out: Vec<(String, JsonValue)> = Vec::new();
                let n = fs.len();
                for i in 0..n
                    invariant
                        n == fs@.len(),
                        out@.len() == i,
                        forall|j: int|
                            0 <= j < i ==> out@[j].0@ == fs@[j].0@ && out@[j].1@ == fs@[j].1@,
                    decreases n - i,
                {
                    out.push((fs[i].0.clone(), fs[i].1.deep_copy()));
                }
                let r = JsonValue::Obj(out);
                proof {
                    let s1 = (match r@ {
                        JsonVal::Obj(s) => s,
                        _ => Seq::empty(),
                    });
                    let s2 = (match self@ {
                        JsonVal::Obj(s) => s,
                        _ => Seq::empty(),
                    });
                    assert forall|j: int| 0 <= j < s1.len() implies s1[j] == s2[j] by {
                        assert(out@[j].0@ == fs@[j].0@ && out@[j].1@ == fs@[j].1@);
                    }
                    assert(s1 =~= s2);
                }
                r
            },
        }
    }
}

impl Clone for JsonValue {
    /// A clone is equal to the value in the model.
    fn clone(&self) -> (r: JsonValue)
        ensures
            r@ == self@,
    {
        self.deep_copy()
    }
}

} // verus!
