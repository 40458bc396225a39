//! The JSON value model used on the wire.
//!
//! Control-interface requests, replies and lifecycle event payloads are all
//! JSON. The library builds and inspects values of its own type [`JVal`], whose
//! mathematical model is [`Jx`]; the actual JSON text is produced and parsed by
//! serde_json behind the two trusted functions [`json_encode`] and
//! [`json_decode`] at the bottom of this file.

use vstd::prelude::*;

verus! {

/// Mathematical model of a JSON value.
#[verifier::ext_equal]
pub enum Jx {
    Null,
    Bool(bool),
    UInt(u64),
    Str(Seq<char>),
    Arr(Seq<Jx>),
    Obj(Seq<(Seq<char>, Jx)>),
}

/// A JSON value, restricted to what the control protocol uses: the only
/// numbers are unsigned 64-bit integers.
pub enum JVal {
    Null,
    Bool(bool),
    UInt(u64),
    Str(String),
    Arr(Vec<JVal>),
    Obj(Vec<(String, JVal)>),
}

impl JVal {
    /// The model of this value.
    pub open spec fn jx(&self) -> Jx
        decreases self,
    {
        match self {
            JVal::Null => Jx::Null,
            JVal::Bool(b) => Jx::Bool(*b),
            JVal::UInt(n) => Jx::UInt(*n),
            JVal::Str(s) => Jx::Str(s@),
            JVal::Arr(v) => Jx::Arr(
                Seq::new(
                    v@.len(),
                    |i: int|
                        if 0 <= i < v@.len() {
                            v@[i].jx()
                        } else {
                            Jx::Null
                        },
                ),
            ),
            JVal::Obj(v) => Jx::Obj(
                Seq::new(
                    v@.len(),
                    |i: int|
                        if 0 <= i < v@.len() {
                            (v@[i].0@, v@[i].1.jx())
                        } else {
                            (Seq::empty(), Jx::Null)
                        },
                ),
            ),
        }
    }
}

impl DeepView for JVal {
    type V = Jx;

    open spec fn deep_view(&self) -> Jx {
        self.jx()
    }
}

/// Looks a field up in a modelled JSON object: the value under the first
/// occurrence of `name`.
pub open spec fn jx_obj_get(fields: Seq<(Seq<char>, Jx)>, name: Seq<char>) -> Option<Jx>
    decreases fields.len(),
{
    if fields.len() == 0 {
        None
    } else if fields[0].0 == name {
        Some(fields[0].1)
    } else {
        jx_obj_get(fields.skip(1), name)
    }
}

/// An owned copy of a string slice; convenient for field names and literals.
pub fn jstr(x: &str) -> (r: String)
    ensures
        r@ == x@,
{
    x.to_owned()
}

/// Looks a field up in a JSON object.
pub fn jobj_get<'a>(fields: &'a Vec<(String, JVal)>, name: &String) -> (r: Option<&'a JVal>)
    ensures
        match r {
            Some(v) => jx_obj_get(fields.deep_view(), name@) == Some(v.jx()),
            None => jx_obj_get(fields.deep_view(), name@) is None,
        },
{
    let mut i: usize = 0;
    assert(fields.deep_view().skip(0) =~= fields.deep_view());
    while i < fields.len()
        invariant
            i <= fields.len(),
            jx_obj_get(fields.deep_view(), name@) == jx_obj_get(
                fields.deep_view().skip(i as int),
                name@,
            ),
        decreases fields.len() - i,
    {
        assert(fields.deep_view().skip(i as int)[0] == fields.deep_view()[i as int]);
        if fields[i].0 == *name {
            return Some(&fields[i].1);
        }
        assert(fields.deep_view().skip(i as int).skip(1) =~= fields.deep_view().skip(
            i as int + 1,
        ));
        i = i + 1;
    }
    None
}

impl JVal {
    /// The characters of this value if it is a string.
    pub fn as_str(&self) -> (r: Option<&String>)
        ensures
            match r {
                Some(s) => self.jx() == Jx::Str(s@),
                None => !(self.jx() is Str),
            },
    {
        match self {
            JVal::Str(s) => Some(s),
            _ => None,
        }
    }

    /// The number held by this value if it is one.
    pub fn as_u64(&self) -> (r: Option<u64>)
        ensures
            match r {
                Some(n) => self.jx() == Jx::UInt(n),
                None => !(self.jx() is UInt),
            },
    {
        match self {
            JVal::UInt(n) => Some(*n),
            _ => None,
        }
    }

    /// The truth value held by this value if it is a boolean.
    pub fn as_bool(&self) -> (r: Option<bool>)
        ensures
            match r {
                Some(b) => self.jx() == Jx::Bool(b),
                None => !(self.jx() is Bool),
            },
    {
        match self {
            JVal::Bool(b) => Some(*b),
            _ => None,
        }
    }

    /// The fields of this value if it is an object.
    pub fn as_obj(&self) -> (r: Option<&Vec<(String, JVal)>>)
        ensures
            match r {
                Some(fields) => self.jx() == Jx::Obj(fields.deep_view()),
                None => !(self.jx() is Obj),
            },
    {
        match self {
            JVal::Obj(fields) => {
                proof {
                    let sj = self.jx();
                    assert(sj is Obj);
                    assert(sj->Obj_0.len() == fields@.len());
                    assert(forall|i: int|
                        0 <= i < fields@.len() ==> sj->Obj_0[i] == fields.deep_view()[i]);
                    assert(sj->Obj_0 =~= fields.deep_view());
                }
                Some(fields)
            },
            _ => None,
        }
    }

    /// The elements of this value if it is an array.
    pub fn as_arr(&self) -> (r: Option<&Vec<JVal>>)
        ensures
            match r {
                Some(elems) => self.jx() == Jx::Arr(elems.deep_view()),
                None => !(self.jx() is Arr),
            },
    {
        match self {
            JVal::Arr(elems) => {
                proof {
                    let sj = self.jx();
                    assert(sj is Arr);
                    assert(sj->Arr_0.len() == elems@.len());
                    assert(forall|i: int|
                        0 <= i < elems@.len() ==> sj->Arr_0[i] == elems.deep_view()[i]);
                    assert(sj->Arr_0 =~= elems.deep_view());
                }
                Some(elems)
            },
            _ => None,
        }
    }
}

/// The characters under `name` in a modelled object, if the field is there and
/// holds a string.
pub open spec fn jx_get_str(fields: Seq<(Seq<char>, Jx)>, name: Seq<char>) -> Option<Seq<char>> {
    match jx_obj_get(fields, name) {
        Some(Jx::Str(s)) => Some(s),
        _ => None,
    }
}

/// The number under `name` in a modelled object, if the field is there and
/// holds one.
pub open spec fn jx_get_u64(fields: Seq<(Seq<char>, Jx)>, name: Seq<char>) -> Option<u64> {
    match jx_obj_get(fields, name) {
        Some(Jx::UInt(n)) => Some(n),
        _ => None,
    }
}

/// The truth value under `name` in a modelled object, if the field is there
/// and holds a boolean.
pub open spec fn jx_get_bool(fields: Seq<(Seq<char>, Jx)>, name: Seq<char>) -> Option<bool> {
    match jx_obj_get(fields, name) {
        Some(Jx::Bool(b)) => Some(b),
        _ => None,
    }
}

/// Looks a boolean field up in a JSON object.
pub fn jobj_get_bool(fields: &Vec<(String, JVal)>, name: &String) -> (r: Option<bool>)
    ensures
        match r {
            Some(b) => jx_get_bool(fields.deep_view(), name@) == Some(b),
            None => jx_get_bool(fields.deep_view(), name@) is None,
        },
{
    match jobj_get(fields, name) {
        Some(v) => v.as_bool(),
        None => None,
    }
}

/// Looks a string field up in a JSON object.
pub fn jobj_get_str<'a>(fields: &'a Vec<(String, JVal)>, name: &String) -> (r: Option<&'a String>)
    ensures
        match r {
            Some(s) => jx_get_str(fields.deep_view(), name@) == Some(s@),
            None => jx_get_str(fields.deep_view(), name@) is None,
        },
{
    match jobj_get(fields, name) {
        Some(v) => v.as_str(),
        None => None,
    }
}

/// Looks a numeric field up in a JSON object.
pub fn jobj_get_u64(fields: &Vec<(String, JVal)>, name: &String) -> (r: Option<u64>)
    ensures
        match r {
            Some(n) => jx_get_u64(fields.deep_view(), name@) == Some(n),
            None => jx_get_u64(fields.deep_view(), name@) is None,
        },
{
    match jobj_get(fields, name) {
        Some(v) => v.as_u64(),
        None => None,
    }
}

/// The string-to-string map a JSON object's fields fold to, later fields
/// winning; `None` where some value is not a string.
pub open spec fn strmap_fold(fields: Seq<(Seq<char>, Jx)>) -> Option<Map<Seq<char>, Seq<char>>>
    decreases fields.len(),
{
    if fields.len() == 0 {
        Some(Map::empty())
    } else {
        match strmap_fold(fields.drop_last()) {
            Some(m) => match fields.last().1 {
                Jx::Str(s) => Some(m.insert(fields.last().0, s)),
                _ => None,
            },
            None => None,
        }
    }
}

/// Reads a JSON object of string values as a string-to-string map with
/// pairwise-distinct keys; a repeated key keeps its last value.
pub fn jval_strmap(v: &JVal) -> (r: Option<Vec<(String, String)>>)
    ensures
        match r {
            Some(m) => crate::kvlist::kvl_unique(m.deep_view()) && v.jx() is Obj && strmap_fold(
                v.jx()->Obj_0,
            ) == Some(crate::kvlist::kvl_map(m.deep_view())),
            None => !(v.jx() is Obj) || strmap_fold(v.jx()->Obj_0) is None,
        },
{
    let fields = match v.as_obj() {
        Some(fields) => fields,
        None => {
            return None;
        },
    };
    let ghost fx = v.jx()->Obj_0;
    let mut m: Vec<(String, String)> = Vec::new();
    let mut i: usize = 0;
    proof {
        assert(fx.take(0) =~= Seq::<(Seq<char>, Jx)>::empty());
    }
    while i < fields.len()
        invariant
            i <= fields.len(),
            fx == fields.deep_view(),
            v.jx() is Obj,
            fx == v.jx()->Obj_0,
            fx.len() == fields.len(),
            crate::kvlist::kvl_unique(m.deep_view()),
            strmap_fold(fx.take(i as int)) == Some(crate::kvlist::kvl_map(m.deep_view())),
        decreases fields.len() - i,
    {
        proof {
            assert(fx.take(i as int + 1).drop_last() =~= fx.take(i as int));
            assert(fx.take(i as int + 1).last() == fx[i as int]);
        }
        let s = match fields[i].1.as_str() {
            Some(s) => s,
            None => {
                proof {
                    assert(fx[i as int] == (fields@[i as int].0@, fields@[i as int].1.jx()));
                    assert(strmap_fold(fx.take(i as int + 1)) is None);
                    lemma_strmap_fold_extends_none(fx, i as int + 1);
                }
                return None;
            },
        };
        crate::kvlist::kv_insert(&mut m, fields[i].0.clone(), s.clone());
        i = i + 1;
    }
    proof {
        assert(fx.take(fx.len() as int) =~= fx);
    }
    Some(m)
}

/// Once a fold has failed on a prefix, it fails on the whole.
proof fn lemma_strmap_fold_extends_none(fields: Seq<(Seq<char>, Jx)>, k: int)
    requires
        0 <= k <= fields.len(),
        strmap_fold(fields.take(k)) is None,
    ensures
        strmap_fold(fields) is None,
    decreases fields.len() - k,
{
    if k < fields.len() {
        assert(fields.take(k + 1).drop_last() =~= fields.take(k));
        lemma_strmap_fold_extends_none(fields, k + 1);
    } else {
        assert(fields.take(k) =~= fields);
    }
}

/// The strings a JSON array's elements fold to; `None` where some element is
/// not a string.
pub open spec fn strarr_fold(elems: Seq<Jx>) -> Option<Seq<Seq<char>>>
    decreases elems.len(),
{
    if elems.len() == 0 {
        Some(Seq::empty())
    } else {
        match strarr_fold(elems.drop_last()) {
            Some(v) => match elems.last() {
                Jx::Str(s) => Some(v.push(s)),
                _ => None,
            },
            None => None,
        }
    }
}

/// Reads a JSON array of strings as a list of strings.
pub fn jval_strarr(v: &JVal) -> (r: Option<Vec<String>>)
    ensures
        match r {
            Some(a) => v.jx() is Arr && strarr_fold(v.jx()->Arr_0) == Some(a.deep_view()),
            None => !(v.jx() is Arr) || strarr_fold(v.jx()->Arr_0) is None,
        },
{
    let elems = match v.as_arr() {
        Some(elems) => elems,
        None => {
            return None;
        },
    };
    let ghost ex = v.jx()->Arr_0;
    let mut a: Vec<String> = Vec::new();
    let mut i: usize = 0;
    proof {
        assert(ex.take(0) =~= Seq::<Jx>::empty());
        assert(a.deep_view() =~= Seq::<Seq<char>>::empty());
    }
    while i < elems.len()
        invariant
            i <= elems.len(),
            ex == elems.deep_view(),
            v.jx() is Arr,
            ex == v.jx()->Arr_0,
            ex.len() == elems.len(),
            strarr_fold(ex.take(i as int)) == Some(a.deep_view()),
        decreases elems.len() - i,
    {
        proof {
            assert(ex.take(i as int + 1).drop_last() =~= ex.take(i as int));
            assert(ex.take(i as int + 1).last() == ex[i as int]);
        }
        let s = match elems[i].as_str() {
            Some(s) => s,
            None => {
                proof {
                    assert(ex[i as int] == elems@[i as int].jx());
                    assert(strarr_fold(ex.take(i as int + 1)) is None);
                    lemma_strarr_fold_extends_none(ex, i as int + 1);
                }
                return None;
            },
        };
        let ghost before = a.deep_view();
        a.push(s.clone());
        proof {
            assert(a.deep_view() =~= before.push(s@));
        }
        i = i + 1;
    }
    proof {
        assert(ex.take(ex.len() as int) =~= ex);
    }
    Some(a)
}

/// Once a fold has failed on a prefix, it fails on the whole.
proof fn lemma_strarr_fold_extends_none(elems: Seq<Jx>, k: int)
    requires
        0 <= k <= elems.len(),
        strarr_fold(elems.take(k)) is None,
    ensures
        strarr_fold(elems) is None,
    decreases elems.len() - k,
{
    if k < elems.len() {
        assert(elems.take(k + 1).drop_last() =~= elems.take(k));
        lemma_strarr_fold_extends_none(elems, k + 1);
    } else {
        assert(elems.take(k) =~= elems);
    }
}

// ---------------------------------------------------------------------------
// The trusted boundary around serde_json. Everything below this line is
// believed, not verified: each item's contract must be read against
// serde_json's own source.
// ---------------------------------------------------------------------------

#[verifier::external_type_specification]
#[verifier::external_body]
pub struct ExValue(serde_json::Value);

/// What parsing a byte sequence as JSON yields: `None` where the bytes are not
/// a JSON document made of null, booleans, unsigned 64-bit numbers, strings,
/// arrays and objects. Parsing is a function of the bytes alone.
pub uninterp spec fn json_decoded(b: Seq<u8>) -> Option<Jx>;

/// The JSON text that a value renders to; a function of the value alone.
pub uninterp spec fn json_encoded(j: Jx) -> Seq<u8>;

/// Converts a serde_json value tree into the library's model, one arm per
/// variant; a number that is not an unsigned 64-bit integer yields `None`.
/// Only [`json_decode`] uses this.
#[verifier::external_body]
fn jval_of(v: serde_json::Value) -> Option<JVal> {
    match v {
        serde_json::Value::Null => Some(JVal::Null),
        serde_json::Value::Bool(b) => Some(JVal::Bool(b)),
        serde_json::Value::Number(n) => n.as_u64().map(JVal::UInt),
        serde_json::Value::String(s) => Some(JVal::Str(s)),
        serde_json::Value::Array(a) => a.into_iter().map(jval_of).collect::<Option<Vec<JVal>>>().map(
            JVal::Arr,
        ),
        serde_json::Value::Object(m) => m.into_iter().map(
            |kv: (String, serde_json::Value)| Some((kv.0, jval_of(kv.1)?)),
        ).collect::<Option<Vec<(String, JVal)>>>().map(JVal::Obj),
    }
}

/// Converts the library's model into a serde_json value tree, one arm per
/// variant. Only [`json_encode`] uses this.
#[verifier::external_body]
fn jval_to(v: &JVal) -> serde_json::Value {
    match v {
        JVal::Null => serde_json::Value::Null,
        JVal::Bool(b) => serde_json::Value::Bool(*b),
        JVal::UInt(n) => serde_json::Value::Number(serde_json::Number::from(*n)),
        JVal::Str(s) => serde_json::Value::String(s.clone()),
        JVal::Arr(a) => serde_json::Value::Array(a.iter().map(jval_to).collect()),
        JVal::Obj(m) => serde_json::Value::Object(
            m.iter().map(|kv: &(String, JVal)| (kv.0.clone(), jval_to(&kv.1))).collect(),
        ),
    }
}

/// Relies on serde_json::from_slice::<serde_json::Value>: parses JSON text into
/// a value tree, deterministically in the bytes. On failure the error's message
/// is handed back; nothing is promised of its text.
#[verifier::external_body]
pub fn json_decode(bytes: &Vec<u8>) -> (r: Result<JVal, String>)
    ensures
        match r {
            Ok(v) => json_decoded(bytes@) == Some(v.deep_view()),
            Err(_) => json_decoded(bytes@) is None,
        },
{
    match serde_json::from_slice::<serde_json::Value>(bytes) {
        Ok(v) => jval_of(v).ok_or_else(|| "unsupported number in JSON payload".to_string()),
        Err(e) => Err(e.to_string()),
    }
}

/// Relies on serde_json::to_vec on a Value tree: renders JSON text,
/// deterministically in the value. Rendering a Value cannot fail.
#[verifier::external_body]
pub fn json_encode(v: &JVal) -> (r: Vec<u8>)
    ensures
        r@ == json_encoded(v.jx()),
{
    serde_json::to_vec(&jval_to(v)).unwrap_or_default()
}

} // verus!
