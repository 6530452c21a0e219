//! The library's model of a JSON document.
//!
//! Every response body is decoded into a [`JsonValue`] before any schema
//! logic looks at it.  Specifications speak about the ghost mirror [`Json`],
//! reached through [`jview`] (also available as `deep_view()`), in which
//! strings are character sequences and numbers are mathematical integers.

use vstd::prelude::*;

verus! {

/// A JSON document.  Integer numbers that fit `i64` are held as `Int`;
/// larger ones as `UInt`; non-integer numbers keep their decimal text.
#[derive(Debug, PartialEq)]
pub enum JsonValue {
    Null,
    Bool(bool),
    Int(i64),
    UInt(u64),
    Float(String),
    Str(String),
    Arr(Vec<JsonValue>),
    Obj(Vec<(String, JsonValue)>),
}

/// The mathematical shape of a JSON document: what contracts speak about.
pub enum Json {
    Null,
    Bool(bool),
    Int(int),
    Float(Seq<char>),
    Str(Seq<char>),
    Arr(Seq<Json>),
    Obj(Seq<(Seq<char>, Json)>),
}

/// The mathematical shape of a [`JsonValue`].
pub open spec fn jview(j: JsonValue) -> Json
    decreases j,
{
    match j {
        JsonValue::Null => Json::Null,
        JsonValue::Bool(b) => Json::Bool(b),
        JsonValue::Int(n) => Json::Int(n as int),
        JsonValue::UInt(n) => Json::Int(n as int),
        JsonValue::Float(t) => Json::Float(t@),
        JsonValue::Str(s) => Json::Str(s@),
        JsonValue::Arr(items) => Json::Arr(
            Seq::new(
                items@.len(),
                |i: int| if 0 <= i < items@.len() { jview(items@[i]) } else { Json::Null },
            ),
        ),
        JsonValue::Obj(fields) => Json::Obj(
            Seq::new(
                fields@.len(),
                |i: int| if 0 <= i < fields@.len() {
                    (fields@[i].0@, jview(fields@[i].1))
                } else {
                    (Seq::empty(), Json::Null)
                },
            ),
        ),
    }
}

impl DeepView for JsonValue {
    type V = Json;

    open spec fn deep_view(&self) -> Json {
        jview(*self)
    }
}

/// The value of the first field named `key` in `fields`, if any.
pub open spec fn spec_lookup(fields: Seq<(Seq<char>, Json)>, key: Seq<char>) -> Option<Json>
    decreases fields.len(),
{
    if fields.len() == 0 {
        None
    } else if fields[0].0 == key {
        Some(fields[0].1)
    } else {
        spec_lookup(fields.skip(1), key)
    }
}

impl JsonValue {
    /// The value of the first field named `key`, if this is an object that
    /// has one.
    pub fn get<'a>(&'a self, key: &str) -> (r: Option<&'a JsonValue>)
        ensures
            match r {
                Some(v) => {
                    &&& jview(*self) matches Json::Obj(fields)
                    &&& spec_lookup(fields, key@) == Some(jview(*v))
                },
                None => jview(*self) matches Json::Obj(fields)
                    ==> spec_lookup(fields, key@) is None,
            },
    {
        match self {
            JsonValue::Obj(fields) => {
                let ghost gfields = jview(*self)->Obj_0;
                proof {
                    assert(gfields.len() == fields@.len());
                    assert(gfields.skip(0) =~= gfields);
                }
                let mut i: usize = 0;
                while i < fields.len()
                    invariant
                        i <= fields.len(),
                        gfields.len() == fields@.len(),
                        forall|k: int| 0 <= k < gfields.len()
                            ==> gfields[k] == (fields@[k].0@, jview(fields@[k].1)),
                        jview(*self) == Json::Obj(gfields),
                        spec_lookup(gfields, key@) == spec_lookup(gfields.skip(i as int), key@),
                    decreases fields.len() - i,
                {
                    proof {
                        assert(gfields.skip(i as int)[0] == gfields[i as int]);
                    }
                    if str_eq(fields[i].0.as_str(), key) {
                        return Some(&fields[i].1);
                    }
                    proof {
                        assert(gfields.skip(i as int).skip(1) =~= gfields.skip(i as int + 1));
                    }
                    i = i + 1;
                }
                proof {
                    assert(gfields.skip(i as int) =~= Seq::<(Seq<char>, Json)>::empty());
                }
                None
            },
            _ => None,
        }
    }
}

impl JsonValue {
    /// The integer this document denotes, when it is an integer that
    /// fits a signed 64-bit value.
    pub fn to_i64(&self) -> (r: Option<i64>)
        ensures
            match r {
                Some(v) => jview(*self) == Json::Int(v as int),
                None => jview(*self) matches Json::Int(n)
                    ==> !(i64::MIN <= n <= i64::MAX),
            },
    {
        match self {
            JsonValue::Int(n) => Some(*n),
            JsonValue::UInt(u) => {
                if *u <= i64::MAX as u64 {
                    Some(*u as i64)
                } else {
                    None
                }
            },
            _ => None,
        }
    }

    /// A copy of this document with the same mathematical shape.
    #[verifier::loop_isolation(false)]
    pub fn duplicate(&self) -> (r: JsonValue)
        ensures
            jview(r) == jview(*self),
        decreases *self,
    {
        match self {
            JsonValue::Null => JsonValue::Null,
            JsonValue::Bool(b) => JsonValue::Bool(*b),
            JsonValue::Int(n) => JsonValue::Int(*n),
            JsonValue::UInt(n) => JsonValue::UInt(*n),
            JsonValue::Float(t) => JsonValue::Float(t.clone()),
            JsonValue::Str(s) => JsonValue::Str(s.clone()),
            JsonValue::Arr(items) => {
                let mut out: Vec<JsonValue> = Vec::new();
                let mut i: usize = 0;
                while i < items.len()
                    invariant
                        i <= items.len(),
                        out@.len() == i,
                        forall|k: int| 0 <= k < i
                            ==> jview(#[trigger] out@[k]) == jview(items@[k]),
                    decreases items.len() - i,
                {
                    proof {
                        assert(decreases_to!(*self => items@[i as int]));
                    }
                    out.push(items[i].duplicate());
                    i = i + 1;
                }
                let r = JsonValue::Arr(out);
                proof {
                    assert(jview(r)->Arr_0 =~= jview(*self)->Arr_0);
                }
                r
            },
            JsonValue::Obj(fields) => {
                let mut out: Vec<(String, JsonValue)> = Vec::new();
                let mut i: usize = 0;
                while i < fields.len()
                    invariant
                        i <= fields.len(),
                        out@.len() == i,
                        forall|k: int| 0 <= k < i
                            ==> (#[trigger] out@[k]).0@ == fields@[k].0@
                                && jview(out@[k].1) == jview(fields@[k].1),
                    decreases fields.len() - i,
                {
                    proof {
                        assert(decreases_to!(*self => fields@[i as int].1));
                    }
                    out.push((fields[i].0.clone(), fields[i].1.duplicate()));
                    i = i + 1;
                }
                let r = JsonValue::Obj(out);
                proof {
                    assert(jview(r)->Obj_0 =~= jview(*self)->Obj_0);
                }
                r
            },
        }
    }
}

/// Executable string-slice equality, proved over the character views.
pub fn str_eq(a: &str, b: &str) -> (r: bool)
    ensures
        r == (a@ == b@),
{
    let n = a.unicode_len();
    if n != b.unicode_len() {
        return false;
    }
    let mut i: usize = 0;
    while i < n
        invariant
            0 <= i <= n,
            n == a@.len(),
            n == b@.len(),
            forall|k: int| 0 <= k < i ==> a@[k] == b@[k],
        decreases n - i,
    {
        if a.get_char(i) != b.get_char(i) {
            return false;
        }
        i = i + 1;
    }
    proof {
        assert(a@ =~= b@);
    }
    true
}

} // verus!
