//! Translation of relational comparison predicates into the remote
//! API's nested filter-object syntax.  A predicate whose operator or
//! value kind is outside the supported tables is silently dropped,
//! never an error: the relational engine re-applies such conditions
//! itself.

use vstd::prelude::*;
use vstd::string::*;
use crate::json::int_text;
use crate::names::camel_of;
use crate::names::str_eq;
use crate::names::to_remote_field;

verus! {

/// A typed literal value of a predicate.
#[derive(Debug, Clone)]
pub enum PredValue {
    Str(String),
    Boolean(bool),
    Int32(i32),
    Int64(i64),
    /// A timestamp literal, kept as its textual form.
    Timestamp(String),
    /// A literal of any other kind; such a predicate is dropped.
    Unsupported,
}

/// The model of a predicate value.
pub enum PredValueV {
    Str(Seq<char>),
    Boolean(bool),
    Int32(i32),
    Int64(i64),
    Timestamp(Seq<char>),
    Unsupported,
}

impl View for PredValue {
    type V = PredValueV;

    open spec fn view(&self) -> PredValueV {
        match self {
            PredValue::Str(s) => PredValueV::Str(s@),
            PredValue::Boolean(b) => PredValueV::Boolean(*b),
            PredValue::Int32(i) => PredValueV::Int32(*i),
            PredValue::Int64(i) => PredValueV::Int64(*i),
            PredValue::Timestamp(s) => PredValueV::Timestamp(s@),
            PredValue::Unsupported => PredValueV::Unsupported,
        }
    }
}

/// One comparison predicate: a field in the relational convention, a
/// comparison operator in its textual form, and an optional literal.
#[derive(Debug, Clone)]
pub struct Predicate {
    pub field: String,
    pub op: String,
    pub value: Option<PredValue>,
}

/// The model of a predicate.
pub struct PredicateV {
    pub field: Seq<char>,
    pub op: Seq<char>,
    pub value: Option<PredValueV>,
}

impl View for Predicate {
    type V = PredicateV;

    open spec fn view(&self) -> PredicateV {
        PredicateV {
            field: self.field@,
            op: self.op@,
            value: match &self.value {
                Some(v) => Some(v@),
                None => None,
            },
        }
    }
}

/// The models of a predicate list.
pub open spec fn preds_view(ps: Seq<Predicate>) -> Seq<PredicateV> {
    Seq::new(ps.len(), |i: int| ps[i]@)
}

/// The remote filter operator for a relational comparison operator,
/// or nothing when the operator is unsupported.
pub open spec fn op_name(op: Seq<char>) -> Option<Seq<char>> {
    if op == "="@ { Some("eq"@) }
    else if op == "<>"@ { Some("neq"@) }
    else if op == ">"@ { Some("gt"@) }
    else if op == ">="@ { Some("gte"@) }
    else if op == "<"@ { Some("lt"@) }
    else if op == "<="@ { Some("lte"@) }
    else if op == "~~"@ { Some("contains"@) }
    else if op == "!~~"@ { Some("notContains"@) }
    else if op == "~~*"@ { Some("containsIgnoreCase"@) }
    else if op == "!~~*"@ { Some("notContainsIgnoreCase"@) }
    else if op == "IS NULL"@ { Some("null"@) }
    else if op == "IS NOT NULL"@ { Some("notNull"@) }
    else { None }
}

/// The rendering of a predicate literal: strings and timestamps are
/// quoted, booleans and integers are bare tokens, anything else makes
/// the predicate untranslatable.
pub open spec fn value_text(v: Option<PredValueV>) -> Option<Seq<char>> {
    match v {
        Some(PredValueV::Str(s)) => Some(seq!['"'] + s + seq!['"']),
        Some(PredValueV::Boolean(b)) => Some(if b { "true"@ } else { "false"@ }),
        Some(PredValueV::Int32(i)) => Some(int_text(i as int)),
        Some(PredValueV::Int64(i)) => Some(int_text(i as int)),
        Some(PredValueV::Timestamp(s)) => Some(seq!['"'] + s + seq!['"']),
        Some(PredValueV::Unsupported) => None,
        None => None,
    }
}

/// The filter fragment of one predicate, `field: { op: value }`, or
/// nothing when the predicate cannot be translated.
pub open spec fn pred_fragment(p: PredicateV) -> Option<Seq<char>> {
    match (op_name(p.op), value_text(p.value)) {
        (Some(op), Some(val)) => Some(
            camel_of(p.field) + ": { "@ + op + ": "@ + val + " }"@,
        ),
        _ => None,
    }
}

/// The fragments of the predicates that translate, in order.
pub open spec fn fragments_of(ps: Seq<PredicateV>) -> Seq<Seq<char>>
    decreases ps.len(),
{
    if ps.len() == 0 {
        Seq::empty()
    } else {
        match pred_fragment(ps[0]) {
            Some(f) => seq![f] + fragments_of(ps.skip(1)),
            None => fragments_of(ps.skip(1)),
        }
    }
}

/// Comma-joins the fragments after the first.
pub open spec fn join_tail(fs: Seq<Seq<char>>) -> Seq<char>
    decreases fs.len(),
{
    if fs.len() == 0 {
        Seq::empty()
    } else {
        ", "@ + fs[0] + join_tail(fs.skip(1))
    }
}

/// The whole filter clause: empty when no predicate translates, else
/// a single conjunctive filter object.
pub open spec fn filter_clause(ps: Seq<PredicateV>) -> Seq<char> {
    let fs = fragments_of(ps);
    if fs.len() == 0 {
        Seq::empty()
    } else {
        "filter: { "@ + fs[0] + join_tail(fs.skip(1)) + " }"@
    }
}

/// The remote operator for a relational operator, or nothing.
fn op_for(op: &str) -> (r: Option<&'static str>)
    ensures
        match r {
            Some(t) => op_name(op@) == Some(t@),
            None => op_name(op@) is None,
        },
{
    if str_eq(op, "=") { Some("eq") }
    else if str_eq(op, "<>") { Some("neq") }
    else if str_eq(op, ">") { Some("gt") }
    else if str_eq(op, ">=") { Some("gte") }
    else if str_eq(op, "<") { Some("lt") }
    else if str_eq(op, "<=") { Some("lte") }
    else if str_eq(op, "~~") { Some("contains") }
    else if str_eq(op, "!~~") { Some("notContains") }
    else if str_eq(op, "~~*") { Some("containsIgnoreCase") }
    else if str_eq(op, "!~~*") { Some("notContainsIgnoreCase") }
    else if str_eq(op, "IS NULL") { Some("null") }
    else if str_eq(op, "IS NOT NULL") { Some("notNull") }
    else { None }
}

/// Renders a predicate literal, or nothing for an unsupported kind.
fn value_for(v: &Option<PredValue>) -> (r: Option<String>)
    ensures
        match r {
            Some(t) => value_text(match v {
                Some(pv) => Some(pv@),
                None => None,
            }) == Some(t@),
            None => value_text(match v {
                Some(pv) => Some(pv@),
                None => None,
            }) is None,
        },
{
    match v {
        Some(PredValue::Str(s)) => {
            proof {
                reveal_strlit("\"");
            }
            let mut out = String::from_str("\"");
            out.append(s.as_str());
            out.append("\"");
            proof {
                assert(out@ =~= seq!['"'] + s@ + seq!['"']);
            }
            Some(out)
        },
        Some(PredValue::Boolean(b)) => {
            if *b {
                Some(String::from_str("true"))
            } else {
                Some(String::from_str("false"))
            }
        },
        Some(PredValue::Int32(i)) => {
            let mut out = String::new();
            crate::json::append_int(&mut out, *i as i64);
            proof {
                assert(out@ =~= int_text(*i as int));
            }
            Some(out)
        },
        Some(PredValue::Int64(i)) => {
            let mut out = String::new();
            crate::json::append_int(&mut out, *i);
            proof {
                assert(out@ =~= int_text(*i as int));
            }
            Some(out)
        },
        Some(PredValue::Timestamp(s)) => {
            proof {
                reveal_strlit("\"");
            }
            let mut out = String::from_str("\"");
            out.append(s.as_str());
            out.append("\"");
            proof {
                assert(out@ =~= seq!['"'] + s@ + seq!['"']);
            }
            Some(out)
        },
        Some(PredValue::Unsupported) => None,
        None => None,
    }
}

/// Renders the fragment of one predicate, or nothing.
fn fragment_for(p: &Predicate) -> (r: Option<String>)
    ensures
        match r {
            Some(t) => pred_fragment(p@) == Some(t@),
            None => pred_fragment(p@) is None,
        },
{
    let op = op_for(p.op.as_str());
    let val = value_for(&p.value);
    match (op, val) {
        (Some(op), Some(val)) => {
            let mut out = to_remote_field(p.field.as_str());
            out.append(": { ");
            out.append(op);
            out.append(": ");
            out.append(val.as_str());
            out.append(" }");
            proof {
                assert(out@ =~= pred_fragment(p@)->Some_0);
            }
            Some(out)
        },
        _ => None,
    }
}

/// Translates a predicate list into the filter clause text; the
/// result is empty exactly when no predicate translates.
#[verifier::loop_isolation(false)]
pub fn translate_predicates(preds: &Vec<Predicate>) -> (r: String)
    ensures
        r@ == filter_clause(preds_view(preds@)),
{
    let ghost pv = preds_view(preds@);
    let mut frags: Vec<String> = Vec::new();
    let n = preds.len();
    proof {
        assert(pv.skip(0) =~= pv);
    }
    for i in 0..n
        invariant
            n == preds.len(),
            pv == preds_view(preds@),
            pv.len() == n,
            fragments_of(pv) == Seq::new(frags@.len(), |k: int| frags@[k]@) + fragments_of(
                pv.skip(i as int),
            ),
    {
        let ghost before = Seq::new(frags@.len(), |k: int| frags@[k]@);
        proof {
            assert(pv.skip(i as int)[0] == pv[i as int]);
            assert(pv.skip(i as int).skip(1) =~= pv.skip(i + 1));
        }
        match fragment_for(&preds[i]) {
            Some(f) => {
                let ghost fv = f@;
                frags.push(f);
                proof {
                    assert(Seq::new(frags@.len(), |k: int| frags@[k]@) =~= before + seq![fv]);
                    assert(fragments_of(pv.skip(i as int)) == seq![fv] + fragments_of(
                        pv.skip(i + 1),
                    ));
                    assert(fragments_of(pv) =~= Seq::new(frags@.len(), |k: int| frags@[k]@)
                        + fragments_of(pv.skip(i + 1)));
                }
            },
            None => {},
        }
    }
    proof {
        assert(pv.skip(n as int) =~= Seq::<PredicateV>::empty());
        assert(fragments_of(pv) =~= Seq::new(frags@.len(), |k: int| frags@[k]@));
    }
    let ghost fs = fragments_of(pv);
    if frags.len() == 0 {
        let out = String::new();
        proof {
            assert(out@ =~= filter_clause(pv));
        }
        out
    } else {
        let mut out = String::from_str("filter: { ");
        out.append(frags[0].as_str());
        let m = frags.len();
        proof {
            assert(fs.skip(1).skip(0) =~= fs.skip(1));
        }
        for i in 1..m
            invariant
                m == frags.len(),
                fs == fragments_of(pv),
                fs.len() == m,
                forall|k: int| 0 <= k < m ==> fs[k] == frags@[k]@,
                out@ + join_tail(fs.skip(i as int)) == "filter: { "@ + fs[0] + join_tail(
                    fs.skip(1),
                ),
        {
            proof {
                assert(fs.skip(i as int)[0] == fs[i as int]);
                assert(fs.skip(i as int).skip(1) =~= fs.skip(i + 1));
            }
            out.append(", ");
            out.append(frags[i].as_str());
        }
        out.append(" }");
        proof {
            assert(fs.skip(m as int) =~= Seq::<Seq<char>>::empty());
            assert(out@ =~= filter_clause(pv));
        }
        out
    }
}

} // verus!
