//! The JSON values the pipeline carries: guest arguments, guest results and
//! tool error payloads.  Numbers keep their literal text so that values pass
//! through the pipeline unchanged.

use vstd::prelude::*;
use crate::text::str_eq_string;

verus! {

/// Declares `serde_json::Value` so the conversion below may take it.
#[verifier::external_type_specification]
#[verifier::external_body]
pub struct ExJsonValue(serde_json::Value);

/// A JSON value.  Object members keep their order; numbers are carried as
/// their literal text.
#[derive(Debug)]
pub enum Json {
    Null,
    Bool(bool),
    Num(String),
    Str(String),
    Arr(Vec<Json>),
    Obj(Vec<(String, Json)>),
}

/// The mathematical shape of a JSON value.
#[verifier::ext_equal]
pub enum JsonModel {
    Null,
    Bool(bool),
    Num(Seq<char>),
    Str(Seq<char>),
    Arr(Seq<JsonModel>),
    Obj(Seq<(Seq<char>, JsonModel)>),
}

pub open spec fn json_model(j: Json) -> JsonModel
    decreases j,
{
    match j {
        Json::Null => JsonModel::Null,
        Json::Bool(b) => JsonModel::Bool(b),
        Json::Num(s) => JsonModel::Num(s@),
        Json::Str(s) => JsonModel::Str(s@),
        Json::Arr(items) => JsonModel::Arr(
            Seq::new(
                items@.len(),
                |i: int|
                    if 0 <= i < items@.len() {
                        json_model(items@[i])
                    } else {
                        JsonModel::Null
                    },
            ),
        ),
        Json::Obj(fields) => JsonModel::Obj(
            Seq::new(
                fields@.len(),
                |i: int|
                    if 0 <= i < fields@.len() {
                        (fields@[i].0@, json_model(fields@[i].1))
                    } else {
                        (Seq::empty(), JsonModel::Null)
                    },
            ),
        ),
    }
}

impl View for Json {
    type V = JsonModel;

    open spec fn view(&self) -> JsonModel {
        json_model(*self)
    }
}

/// First-match lookup of an object member.
pub open spec fn spec_obj_lookup(fields: Seq<(Seq<char>, JsonModel)>, key: Seq<char>) -> Option<
    JsonModel,
>
    decreases fields.len(),
{
    if fields.len() == 0 {
        None
    } else if fields[0].0 == key {
        Some(fields[0].1)
    } else {
        spec_obj_lookup(fields.drop_first(), key)
    }
}

impl JsonModel {
    /// The member of an object under `key`; `None` on other values.
    pub open spec fn get(self, key: Seq<char>) -> Option<JsonModel> {
        match self {
            JsonModel::Obj(fields) => spec_obj_lookup(fields, key),
            _ => None,
        }
    }
}

impl Json {
    /// The member of a JSON object under `key`, first match; `None` when
    /// the value is no object or has no such member.
    pub fn obj_get<'a>(&'a self, key: &str) -> (r: Option<&'a Json>)
        ensures
            match r {
                Some(v) => self@.get(key@) == Some(v@),
                None => self@.get(key@) is None,
            },
    {
        match self {
            Json::Obj(fields) => {
                let ghost fm = self@->Obj_0;
                proof {
                    assert(fm.skip(0) =~= fm);
                }
                let n = fields.len();
                let mut i: usize = 0;
                while i < n
                    invariant
                        n == fields@.len(),
                        i <= n,
                        *self == Json::Obj(*fields),
                        fm == self@->Obj_0,
                        self@ == JsonModel::Obj(fm),
                        fm.len() == n,
                        forall|k: int|
                            0 <= k < n ==> fm[k] == (fields@[k].0@, json_model(fields@[k].1)),
                        spec_obj_lookup(fm, key@) == spec_obj_lookup(fm.skip(i as int), key@),
                    decreases n - i,
                {
                    proof {
                        assert(fm.skip(i as int)[0] == fm[i as int]);
                        assert(fm.skip(i as int).drop_first() =~= fm.skip(i as int + 1));
                    }
                    if str_eq_string(key, &fields[i].0) {
                        return Some(&fields[i].1);
                    }
                    i = i + 1;
                }
                proof {
                    assert(fm.skip(n as int).len() == 0);
                }
                None
            },
            _ => None,
        }
    }

    /// A deep copy whose mathematical value is the same.
    pub fn duplicate(&self) -> (r: Json)
        ensures
            r@ == self@,
        decreases *self,
    {
        match self {
            Json::Null => Json::Null,
            Json::Bool(b) => Json::Bool(*b),
            Json::Num(s) => Json::Num(s.clone()),
            Json::Str(s) => Json::Str(s.clone()),
            Json::Arr(items) => {
                let ghost ma = self@->Arr_0;
                proof {
                    assert(ma.len() == items@.len());
                    assert(forall|k: int| 0 <= k < items@.len() ==> ma[k] == json_model(
                        #[trigger] items@[k],
                    ));
                }
                let n = items.len();
                let mut out: Vec<Json> = Vec::new();
                let mut i: usize = 0;
                while i < n
                    invariant
                        n == items@.len(),
                        i <= n,
                        out@.len() == i,
                        *self == Json::Arr(*items),
                        forall|k: int| 0 <= k < i ==> json_model(#[trigger] out@[k]) == json_model(
                            items@[k],
                        ),
                    decreases n - i,
                {
                    proof {
                        assert(decreases_to!(*self => (*self)->Arr_0));
                        assert(decreases_to!(*items => items@));
                        assert(decreases_to!(items@ => items@[i as int]));
                    }
                    let d = items[i].duplicate();
                    out.push(d);
                    i = i + 1;
                }
                let r = Json::Arr(out);
                proof {
                    assert(r@->Arr_0 =~= self@->Arr_0);
                }
                r
            },
            Json::Obj(fields) => {
                let ghost ma = self@->Obj_0;
                proof {
                    assert(ma.len() == fields@.len());
                    assert(forall|k: int|
                        0 <= k < fields@.len() ==> ma[k] == (
                            #[trigger] fields@[k].0@,
                            json_model(fields@[k].1),
                        ));
                }
                let n = fields.len();
                let mut out: Vec<(String, Json)> = Vec::new();
                let mut i: usize = 0;
                while i < n
                    invariant
                        n == fields@.len(),
                        i <= n,
                        out@.len() == i,
                        *self == Json::Obj(*fields),
                        forall|k: int| #![trigger out@[k]]
                            0 <= k < i ==> out@[k].0@ == fields@[k].0@ && json_model(out@[k].1)
                                == json_model(fields@[k].1),
                    decreases n - i,
                {
                    proof {
                        assert(decreases_to!(*self => (*self)->Obj_0));
                        assert(decreases_to!(*fields => fields@));
                        assert(decreases_to!(fields@ => fields@[i as int]));
                        assert(decreases_to!(fields@[i as int] => fields@[i as int].1));
                    }
                    let key = fields[i].0.clone();
                    let val = fields[i].1.duplicate();
                    out.push((key, val));
                    i = i + 1;
                }
                let r = Json::Obj(out);
                proof {
                    assert(r@->Obj_0 =~= self@->Obj_0);
                }
                r
            },
        }
    }

    /// Deep structural equality: `true` exactly when the two values have
    /// the same mathematical shape.
    pub fn eq_val(&self, other: &Json) -> (r: bool)
        ensures
            r == (self@ == other@),
        decreases *self,
    {
        match (self, other) {
            (Json::Null, Json::Null) => {
                proof {
                    assert(self@ is Null && other@ is Null);
                }
                true
            },
            (Json::Bool(a), Json::Bool(b)) => {
                proof {
                    assert(self@ == JsonModel::Bool(*a) && other@ == JsonModel::Bool(*b));
                }
                *a == *b
            },
            (Json::Num(a), Json::Num(b)) => {
                proof {
                    assert(self@ == JsonModel::Num(a@) && other@ == JsonModel::Num(b@));
                }
                *a == *b
            },
            (Json::Str(a), Json::Str(b)) => {
                proof {
                    assert(self@ == JsonModel::Str(a@) && other@ == JsonModel::Str(b@));
                }
                *a == *b
            },
            (Json::Arr(a), Json::Arr(b)) => {
                let ghost ma = self@->Arr_0;
                let ghost mb = other@->Arr_0;
                proof {
                    assert(ma.len() == a@.len());
                    assert(mb.len() == b@.len());
                    assert(forall|k: int| 0 <= k < a@.len() ==> ma[k] == json_model(
                        #[trigger] a@[k],
                    ));
                    assert(forall|k: int| 0 <= k < b@.len() ==> mb[k] == json_model(
                        #[trigger] b@[k],
                    ));
                }
                let n = a.len();
                if n != b.len() {
                    proof {
                        assert(ma.len() != mb.len());
                    }
                    return false;
                }
                let mut i: usize = 0;
                while i < n
                    invariant
                        n == a@.len(),
                        n == b@.len(),
                        i <= n,
                        *self == Json::Arr(*a),
                        *other == Json::Arr(*b),
                        ma == self@->Arr_0,
                        mb == other@->Arr_0,
                        ma.len() == n,
                        mb.len() == n,
                        forall|k: int| 0 <= k < n ==> ma[k] == json_model(#[trigger] a@[k]),
                        forall|k: int| 0 <= k < n ==> mb[k] == json_model(#[trigger] b@[k]),
                        forall|k: int| 0 <= k < i ==> ma[k] == #[trigger] mb[k],
                    decreases n - i,
                {
                    proof {
                        assert(decreases_to!(*self => (*self)->Arr_0));
                        assert(decreases_to!(*a => a@));
                        assert(decreases_to!(a@ => a@[i as int]));
                    }
                    if !a[i].eq_val(&b[i]) {
                        proof {
                            assert(ma[i as int] != mb[i as int]);
                            assert(ma != mb);
                        }
                        return false;
                    }
                    i = i + 1;
                }
                proof {
                    assert(ma =~= mb);
                }
                true
            },
            (Json::Obj(a), Json::Obj(b)) => {
                let ghost ma = self@->Obj_0;
                let ghost mb = other@->Obj_0;
                proof {
                    assert(ma.len() == a@.len());
                    assert(mb.len() == b@.len());
                    assert(forall|k: int|
                        0 <= k < a@.len() ==> ma[k] == (
                            #[trigger] a@[k].0@,
                            json_model(a@[k].1),
                        ));
                    assert(forall|k: int|
                        0 <= k < b@.len() ==> mb[k] == (
                            #[trigger] b@[k].0@,
                            json_model(b@[k].1),
                        ));
                }
                let n = a.len();
                if n != b.len() {
                    proof {
                        assert(ma.len() != mb.len());
                    }
                    return false;
                }
                let mut i: usize = 0;
                while i < n
                    invariant
                        n == a@.len(),
                        n == b@.len(),
                        i <= n,
                        *self == Json::Obj(*a),
                        *other == Json::Obj(*b),
                        ma == self@->Obj_0,
                        mb == other@->Obj_0,
                        ma.len() == n,
                        mb.len() == n,
                        forall|k: int|
                            0 <= k < n ==> ma[k] == (#[trigger] a@[k].0@, json_model(a@[k].1)),
                        forall|k: int|
                            0 <= k < n ==> mb[k] == (#[trigger] b@[k].0@, json_model(b@[k].1)),
                        forall|k: int| 0 <= k < i ==> ma[k] == #[trigger] mb[k],
                    decreases n - i,
                {
                    proof {
                        assert(decreases_to!(*self => (*self)->Obj_0));
                        assert(decreases_to!(*a => a@));
                        assert(decreases_to!(a@ => a@[i as int]));
                        assert(decreases_to!(a@[i as int] => a@[i as int].1));
                    }
                    let keys_equal = a[i].0 == b[i].0;
                    if !keys_equal {
                        proof {
                            assert(ma[i as int] != mb[i as int]);
                            assert(ma != mb);
                        }
                        return false;
                    }
                    if !a[i].1.eq_val(&b[i].1) {
                        proof {
                            assert(ma[i as int] != mb[i as int]);
                            assert(ma != mb);
                        }
                        return false;
                    }
                    i = i + 1;
                }
                proof {
                    assert(ma =~= mb);
                }
                true
            },
            _ => {
                proof {
                    assert(!(self@ == other@));
                }
                false
            },
        }
    }
}

/// What `serde_json` parses the given bytes to: `None` when they are not
/// valid JSON, otherwise the parsed value with numbers carried as the text
/// `serde_json` renders them to.
pub uninterp spec fn spec_parse_json(bytes: Seq<u8>) -> Option<JsonModel>;

/// Relies on `serde_json::from_slice`: whether bytes parse, and to what
/// value, depends on the bytes alone.  The error text is not relied on.
#[verifier::external_body]
pub(crate) fn parse_json(bytes: &[u8]) -> (r: Result<Json, String>)
    ensures
        match r {
            Ok(v) => spec_parse_json(bytes@) == Some(v@),
            Err(_) => spec_parse_json(bytes@) is None,
        },
{
    match serde_json::from_slice::<serde_json::Value>(bytes) {
        Ok(v) => Ok(from_value(v)),
        Err(e) => Err(e.to_string()),
    }
}

/// Relies on the public shape of `serde_json::Value`: each variant is
/// carried over one for one, numbers as the text `serde_json` renders.
#[verifier::external_body]
fn from_value(v: serde_json::Value) -> Json {
    match v {
        serde_json::Value::Null => Json::Null,
        serde_json::Value::Bool(b) => Json::Bool(b),
        serde_json::Value::Number(n) => Json::Num(n.to_string()),
        serde_json::Value::String(s) => Json::Str(s),
        serde_json::Value::Array(a) => Json::Arr(a.into_iter().map(from_value).collect()),
        serde_json::Value::Object(o) => Json::Obj(
            o.into_iter().map(|(k, x)| (k, from_value(x))).collect(),
        ),
    }
}

} // verus!
