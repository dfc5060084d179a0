//! The response materializer: it parses the JSON body of a response,
//! detects top-level GraphQL errors, extracts the node at the pointer
//! path, and normalizes the result into the ordered record sequence a
//! scan iterates over.

use vstd::prelude::*;
use vstd::string::*;
use crate::error::FdwError;
use crate::error::FdwErrorV;
use crate::json::Json;
use crate::json::JsonV;
use crate::json::jv_get;
use crate::json::jv_list;
use crate::json::jv_text;
use crate::query::segs_view;

verus! {

#[verifier::external_type_specification]
#[verifier::external_body]
pub struct ExValue(serde_json::Value);

/// What a text parses to as a JSON document, when it parses at all.
pub uninterp spec fn parsed_json(s: Seq<char>) -> Option<JsonV>;

/// Rebuilds a parsed document as the library's own value, one variant
/// at a time; a number outside the signed 64-bit range keeps its
/// literal text.  Part of the trusted reading of `serde_json`.
#[verifier::external_body]
fn json_of_value(v: &serde_json::Value) -> Json {
    match v {
        serde_json::Value::Null => Json::Null,
        serde_json::Value::Bool(b) => Json::Bool(*b),
        serde_json::Value::Number(n) => match n.as_i64() {
            Some(i) => Json::Int(i),
            None => Json::NumText(n.to_string()),
        },
        serde_json::Value::String(s) => Json::Str(s.clone()),
        serde_json::Value::Array(a) => Json::Arr(a.iter().map(json_of_value).collect()),
        serde_json::Value::Object(o) => Json::Obj(
            o.iter().map(|(k, x)| (k.clone(), json_of_value(x))).collect(),
        ),
    }
}

/// Relies on serde_json::from_str: whether and what a text parses to
/// depends on the text alone; a failure carries serde_json's message.
#[verifier::external_body]
fn parse_json(s: &str) -> (r: Result<Json, String>)
    ensures
        r matches Ok(j) ==> parsed_json(s@) == Some(j@),
        r matches Err(_) ==> parsed_json(s@) is None,
{
    match serde_json::from_str::<serde_json::Value>(s) {
        Ok(v) => Ok(json_of_value(&v)),
        Err(e) => Err(e.to_string()),
    }
}

/// The node of a document at a pointer path: one member lookup per
/// segment, absent as soon as a segment is missing.
pub open spec fn node_at(doc: JsonV, segs: Seq<Seq<char>>) -> Option<JsonV>
    decreases segs.len(),
{
    if segs.len() == 0 {
        Some(doc)
    } else {
        match jv_get(doc, segs[0]) {
            Some(n) => node_at(n, segs.skip(1)),
            None => None,
        }
    }
}

/// The record sequence of a result node: an array becomes the records
/// directly, a single object a one-record sequence, anything else (or
/// an absent node) no records at all.
pub open spec fn records_of(node: Option<JsonV>) -> Seq<JsonV> {
    match node {
        Some(JsonV::Arr(a)) => a,
        Some(JsonV::Obj(o)) => seq![JsonV::Obj(o)],
        _ => Seq::empty(),
    }
}

/// The non-empty top-level `errors` array of a document, when there is
/// one.
pub open spec fn graphql_errors(doc: JsonV) -> Option<Seq<JsonV>> {
    match jv_get(doc, "errors"@) {
        Some(JsonV::Arr(a)) => if a.len() > 0 {
            Some(a)
        } else {
            None
        },
        _ => None,
    }
}

/// Takes the node at a pointer path out of a document.
#[verifier::loop_isolation(false)]
fn take_at(doc: Json, segs: &Vec<String>) -> (r: Option<Json>)
    ensures
        match r {
            Some(n) => node_at(doc@, segs_view(segs@)) == Some(n@),
            None => node_at(doc@, segs_view(segs@)) is None,
        },
{
    let ghost sv = segs_view(segs@);
    let mut cur = doc;
    let n = segs.len();
    proof {
        assert(sv.skip(0) =~= sv);
    }
    for i in 0..n
        invariant
            n == segs.len(),
            sv == segs_view(segs@),
            sv.len() == n,
            node_at(doc@, sv) == node_at(cur@, sv.skip(i as int)),
    {
        proof {
            assert(sv.skip(i as int)[0] == sv[i as int]);
            assert(sv.skip(i as int).skip(1) =~= sv.skip(i + 1));
        }
        cur = match cur.into_member(segs[i].as_str()) {
            Some(v) => v,
            None => {
                return None;
            },
        };
    }
    proof {
        assert(sv.skip(n as int) =~= Seq::<Seq<char>>::empty());
    }
    Some(cur)
}

/// Materializes a response into the record sequence of a scan.  A
/// status other than 200 is a transport error carrying the body; a
/// body that does not parse is a protocol error; a non-empty GraphQL
/// `errors` array is a protocol error carrying the serialized array;
/// otherwise the records under the pointer, possibly none.
pub fn materialize(status: u16, body: &str, pointer: &Vec<String>) -> (r: Result<
    Vec<Json>,
    FdwError,
>)
    ensures
        status != 200 ==> (r matches Err(e) && e@ == (FdwErrorV::Transport { body: body@ })),
        status == 200 && parsed_json(body@) is None ==> (r matches Err(e) && (e@ matches
            FdwErrorV::InvalidResponse { .. })),
        status == 200 ==> (parsed_json(body@) matches Some(doc) ==> match graphql_errors(doc) {
            Some(es) => r matches Err(e) && e@ == (FdwErrorV::GraphQlErrors {
                errors: jv_text(JsonV::Arr(es)),
            }),
            None => r matches Ok(rows) && jv_list(rows@) == records_of(
                node_at(doc, segs_view(pointer@)),
            ),
        }),
{
    if status != 200 {
        return Err(FdwError::Transport { body: body.to_owned() });
    }
    let doc = match parse_json(body) {
        Ok(d) => d,
        Err(detail) => {
            return Err(FdwError::InvalidResponse { detail });
        },
    };
    match doc.get("errors") {
        Some(errs) => match errs {
            Json::Arr(a) => {
                if a.len() > 0 {
                    return Err(FdwError::GraphQlErrors { errors: errs.to_text() });
                }
            },
            _ => {},
        },
        None => {},
    }
    let rows: Vec<Json> = match take_at(doc, pointer) {
        Some(node) => match node {
            Json::Arr(a) => {
                proof {
                    crate::json::lemma_jv_list_index(a@);
                    assert(jv_list(a@) =~= records_of(node_at(parsed_json(body@)->Some_0, segs_view(pointer@))));
                }
                a
            },
            Json::Obj(o) => {
                let one = vec![Json::Obj(o)];
                proof {
                    crate::json::lemma_jv_list_index(one@);
                    assert(jv_list(one@) =~= records_of(node_at(parsed_json(body@)->Some_0, segs_view(pointer@))));
                }
                one
            },
            _ => {
                let none: Vec<Json> = Vec::new();
                proof {
                    assert(jv_list(none@) =~= Seq::<JsonV>::empty());
                }
                none
            },
        },
        None => {
            let none: Vec<Json> = Vec::new();
            proof {
                assert(jv_list(none@) =~= Seq::<JsonV>::empty());
            }
            none
        },
    };
    Ok(rows)
}

} // verus!
