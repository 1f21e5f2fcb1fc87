//! JSON documents as the library reads them, and the calls into serde_json
//! that produce and print them.
use vstd::prelude::*;

verus! {

#[verifier::external_type_specification]
#[verifier::external_body]
pub struct ExJsonValue(serde_json::Value);

#[verifier::external_type_specification]
#[verifier::external_body]
pub struct ExJsonError(serde_json::Error);

/// A JSON value. A number keeps the text serde_json writes for it; an
/// object keeps its members in serde_json's order, each key once.
#[derive(Debug)]
pub enum Json {
    Null,
    Bool(bool),
    Number(String),
    Str(String),
    Array(Vec<Json>),
    Object(Vec<(String, Json)>),
}

/// The document serde_json reads from `s`; `None` where it refuses the text.
pub uninterp spec fn parsed_json(s: Seq<char>) -> Option<Json>;

/// `j` written as compact JSON by serde_json.
pub uninterp spec fn json_text_of(j: Json) -> Seq<char>;

/// The value of the first member named `key` among `members`; `Null` where
/// there is none.
pub open spec fn lookup(members: Seq<(String, Json)>, key: Seq<char>) -> Json
    decreases members.len(),
{
    if members.len() == 0 {
        Json::Null
    } else if members[0].0@ == key {
        members[0].1
    } else {
        lookup(members.drop_first(), key)
    }
}

/// The member `key` of `j`; `Null` where `j` is no object or has no such
/// member.
pub open spec fn json_field(j: Json, key: Seq<char>) -> Json {
    match j {
        Json::Object(members) => lookup(members@, key),
        _ => Json::Null,
    }
}

/// Relies on the variants of `serde_json::Value`: each is carried over as it
/// is, a number as the text its `Display` writes.
#[verifier::external_body]
fn from_serde(v: &serde_json::Value) -> Json {
    match v {
        serde_json::Value::Null => Json::Null,
        serde_json::Value::Bool(b) => Json::Bool(*b),
        serde_json::Value::Number(n) => Json::Number(n.to_string()),
        serde_json::Value::String(s) => Json::Str(s.clone()),
        serde_json::Value::Array(a) => Json::Array(a.iter().map(from_serde).collect()),
        serde_json::Value::Object(m) => Json::Object(m.iter().map(|(k, e)| (k.clone(), from_serde(e))).collect()),
    }
}

/// Relies on the variants of `serde_json::Value`, and on `FromStr for
/// serde_json::Number` to read back a number's text.
#[verifier::external_body]
fn to_serde(j: &Json) -> serde_json::Value {
    match j {
        Json::Null => serde_json::Value::Null,
        Json::Bool(b) => serde_json::Value::Bool(*b),
        Json::Number(n) => n.parse::<serde_json::Number>().map_or(serde_json::Value::Null, serde_json::Value::Number),
        Json::Str(s) => serde_json::Value::String(s.clone()),
        Json::Array(a) => serde_json::Value::Array(a.iter().map(to_serde).collect()),
        Json::Object(m) => serde_json::Value::Object(m.iter().map(|(k, e)| (k.clone(), to_serde(e))).collect()),
    }
}

/// Relies on `serde_json::from_str::<Value>`: the document depends on the
/// text alone.
#[verifier::external_body]
fn json_from_str(s: &str) -> (r: Result<Json, serde_json::Error>)
    ensures
        r matches Ok(j) ==> parsed_json(s@) == Some(j),
        r is Err ==> parsed_json(s@) is None,
{
    match serde_json::from_str::<serde_json::Value>(s) {
        Ok(v) => Ok(from_serde(&v)),
        Err(e) => Err(e),
    }
}

/// Relies on `Display for serde_json::Value`: compact JSON text.
#[verifier::external_body]
pub(crate) fn json_text(j: &Json) -> (r: String)
    ensures
        r@ == json_text_of(*j),
{
    to_serde(j).to_string()
}

impl Json {
    /// The document in `s`, where serde_json accepts it as JSON.
    pub fn from_text(s: &str) -> (r: Option<Json>)
        ensures
            r == parsed_json(s@),
    {
        match json_from_str(s) {
            Ok(j) => Some(j),
            Err(_) => None,
        }
    }

    /// The member `key` of this value; `None` where it has no such member
    /// (which reads as `Null`).
    pub fn field(&self, key: &str) -> (r: Option<&Json>)
        ensures
            r matches Some(v) ==> *v == json_field(*self, key@),
            r is None ==> json_field(*self, key@) == Json::Null,
    {
        match self {
            Json::Object(members) => {
                let k = String::from_str(key);
                let n = members.len();
                let mut i: usize = 0;
                assert(json_field(*self, key@) == lookup(members@, key@));
                assert(members@.subrange(0, n as int) =~= members@);
                while i < n
                    invariant
                        n == members@.len(),
                        i <= n,
                        k@ == key@,
                        json_field(*self, key@) == lookup(members@, key@),
                        lookup(members@, key@) == lookup(members@.subrange(i as int, n as int), key@),
                    decreases n - i,
                {
                    assert(members@.subrange(i as int, n as int).drop_first() =~= members@.subrange(
                        i as int + 1,
                        n as int,
                    ));
                    assert(members@.subrange(i as int, n as int)[0] == members@[i as int]);
                    if members[i].0 == k {
                        assert(members@[i as int].0@ == key@);
                        let ghost sub = members@.subrange(i as int, n as int);
                        assert(sub.len() > 0 && sub[0].0@ == key@);
                        assert(lookup(sub, key@) == sub[0].1);
                        return Some(&members[i].1);
                    }
                    i = i + 1;
                }
                None
            },
            _ => None,
        }
    }
}

} // verus!
