//! The object-kind registry and the query builder: every supported
//! logical object kind maps to the exact GraphQL query text and the
//! pointer path locating the result node in the response.

use vstd::prelude::*;
use vstd::string::*;
use crate::coerce::ColumnSpec;
use crate::error::FdwError;
use crate::error::FdwErrorV;
use crate::json::Json;
use crate::json::JsonV;
use crate::json::jv_text;
use crate::names::camel_of;
use crate::names::str_eq;
use crate::names::to_remote_field;
use crate::predicate::Predicate;
use crate::predicate::PredicateV;
use crate::predicate::filter_clause;
use crate::predicate::preds_view;
use crate::predicate::translate_predicates;
use crate::relations::relation_for;
use crate::relations::relation_of;

verus! {

/// The shape of one supported logical object kind: a plain collection,
/// a singleton fetched by id, or a collection scoped by a parent id.
pub enum ObjectKind {
    Collection { remote: String },
    Singleton { remote: String, id_option: String },
    Scoped { parent: String, id_option: String, child: String },
}

/// The model of an object kind.
pub enum ObjectKindV {
    Collection { remote: Seq<char> },
    Singleton { remote: Seq<char>, id_option: Seq<char> },
    Scoped { parent: Seq<char>, id_option: Seq<char>, child: Seq<char> },
}

impl View for ObjectKind {
    type V = ObjectKindV;

    open spec fn view(&self) -> ObjectKindV {
        match self {
            ObjectKind::Collection { remote } => ObjectKindV::Collection { remote: remote@ },
            ObjectKind::Singleton { remote, id_option } => ObjectKindV::Singleton {
                remote: remote@,
                id_option: id_option@,
            },
            ObjectKind::Scoped { parent, id_option, child } => ObjectKindV::Scoped {
                parent: parent@,
                id_option: id_option@,
                child: child@,
            },
        }
    }
}

/// The descriptor of a logical object name, or nothing for an unknown
/// name.
pub open spec fn descriptor_of(object: Seq<char>) -> Option<ObjectKindV> {
    if object == "issues"@ {
        Some(ObjectKindV::Collection { remote: "issues"@ })
    } else if object == "issue"@ {
        Some(ObjectKindV::Singleton { remote: "issue"@, id_option: "id"@ })
    } else if object == "teams"@ {
        Some(ObjectKindV::Collection { remote: "teams"@ })
    } else if object == "team"@ {
        Some(ObjectKindV::Singleton { remote: "team"@, id_option: "id"@ })
    } else if object == "projects"@ {
        Some(ObjectKindV::Collection { remote: "projects"@ })
    } else if object == "project"@ {
        Some(ObjectKindV::Singleton { remote: "project"@, id_option: "id"@ })
    } else if object == "project_issues"@ {
        Some(
            ObjectKindV::Scoped {
                parent: "project"@,
                id_option: "project_id"@,
                child: "issues"@,
            },
        )
    } else if object == "users"@ {
        Some(ObjectKindV::Collection { remote: "users"@ })
    } else if object == "user"@ {
        Some(ObjectKindV::Singleton { remote: "user"@, id_option: "id"@ })
    } else if object == "user_assigned_issues"@ {
        Some(
            ObjectKindV::Scoped {
                parent: "user"@,
                id_option: "user_id"@,
                child: "assignedIssues"@,
            },
        )
    } else if object == "cycles"@ {
        Some(ObjectKindV::Collection { remote: "cycles"@ })
    } else if object == "cycle_issues"@ {
        Some(ObjectKindV::Scoped { parent: "cycle"@, id_option: "cycle_id"@, child: "issues"@ })
    } else if object == "workflow_states"@ {
        Some(ObjectKindV::Collection { remote: "workflowStates"@ })
    } else if object == "issue_labels"@ {
        Some(ObjectKindV::Collection { remote: "issueLabels"@ })
    } else {
        None
    }
}

/// Builds a collection descriptor.
fn collection(remote: &str) -> (r: ObjectKind)
    ensures
        r@ == (ObjectKindV::Collection { remote: remote@ }),
{
    ObjectKind::Collection { remote: String::from_str(remote) }
}

/// Builds a singleton descriptor.
fn singleton(remote: &str) -> (r: ObjectKind)
    ensures
        r@ == (ObjectKindV::Singleton { remote: remote@, id_option: "id"@ }),
{
    ObjectKind::Singleton { remote: String::from_str(remote), id_option: String::from_str("id") }
}

/// Builds a scoped-collection descriptor.
fn scoped(parent: &str, id_option: &str, child: &str) -> (r: ObjectKind)
    ensures
        r@ == (ObjectKindV::Scoped {
            parent: parent@,
            id_option: id_option@,
            child: child@,
        }),
{
    ObjectKind::Scoped {
        parent: String::from_str(parent),
        id_option: String::from_str(id_option),
        child: String::from_str(child),
    }
}

/// Looks a logical object name up in the registry.
pub fn descriptor_for(object: &str) -> (r: Option<ObjectKind>)
    ensures
        match r {
            Some(k) => descriptor_of(object@) == Some(k@),
            None => descriptor_of(object@) is None,
        },
{
    if str_eq(object, "issues") {
        Some(collection("issues"))
    } else if str_eq(object, "issue") {
        Some(singleton("issue"))
    } else if str_eq(object, "teams") {
        Some(collection("teams"))
    } else if str_eq(object, "team") {
        Some(singleton("team"))
    } else if str_eq(object, "projects") {
        Some(collection("projects"))
    } else if str_eq(object, "project") {
        Some(singleton("project"))
    } else if str_eq(object, "project_issues") {
        Some(scoped("project", "project_id", "issues"))
    } else if str_eq(object, "users") {
        Some(collection("users"))
    } else if str_eq(object, "user") {
        Some(singleton("user"))
    } else if str_eq(object, "user_assigned_issues") {
        Some(scoped("user", "user_id", "assignedIssues"))
    } else if str_eq(object, "cycles") {
        Some(collection("cycles"))
    } else if str_eq(object, "cycle_issues") {
        Some(scoped("cycle", "cycle_id", "issues"))
    } else if str_eq(object, "workflow_states") {
        Some(collection("workflowStates"))
    } else if str_eq(object, "issue_labels") {
        Some(collection("issueLabels"))
    } else {
        None
    }
}

/// The selection text of one requested column: the fixed sub-selection
/// of a relation field, or the bare camel-cased field name.
pub open spec fn field_sel(col: Seq<char>) -> Seq<char> {
    match relation_of(col) {
        Some(rel) => rel.selection,
        None => camel_of(col),
    }
}

/// The names of a column list.
pub open spec fn names_of(cs: Seq<ColumnSpec>) -> Seq<Seq<char>> {
    Seq::new(cs.len(), |i: int| cs[i].name@)
}

/// The space-joined selection texts after the first.
pub open spec fn selection_tail(cols: Seq<Seq<char>>) -> Seq<char>
    decreases cols.len(),
{
    if cols.len() == 0 {
        Seq::empty()
    } else {
        seq![' '] + field_sel(cols[0]) + selection_tail(cols.skip(1))
    }
}

/// The whole field-selection list, in the caller-supplied order.
pub open spec fn selection_of(cols: Seq<Seq<char>>) -> Seq<char> {
    if cols.len() == 0 {
        Seq::empty()
    } else {
        field_sel(cols[0]) + selection_tail(cols.skip(1))
    }
}

/// The selection text of one column.
fn field_sel_for(col: &str) -> (r: String)
    ensures
        r@ == field_sel(col@),
{
    match relation_for(col) {
        Some(rel) => rel.selection,
        None => to_remote_field(col),
    }
}

/// Builds the field-selection list of a column list.
#[verifier::loop_isolation(false)]
pub fn build_selection(cols: &Vec<ColumnSpec>) -> (r: String)
    ensures
        r@ == selection_of(names_of(cols@)),
{
    let ghost nv = names_of(cols@);
    let mut out = String::new();
    let n = cols.len();
    if n == 0 {
        proof {
            assert(out@ =~= selection_of(nv));
        }
        return out;
    }
    let first = field_sel_for(cols[0].name.as_str());
    out.append(first.as_str());
    proof {
        assert(nv.skip(1).skip(0) =~= nv.skip(1));
        assert(out@ + selection_tail(nv.skip(1)) =~= selection_of(nv));
    }
    for i in 1..n
        invariant
            n == cols.len(),
            nv == names_of(cols@),
            nv.len() == n,
            out@ + selection_tail(nv.skip(i as int)) == selection_of(nv),
    {
        proof {
            assert(nv.skip(i as int)[0] == nv[i as int]);
            assert(nv.skip(i as int).skip(1) =~= nv.skip(i + 1));
            reveal_strlit(" ");
        }
        out.append(" ");
        let t = field_sel_for(cols[i].name.as_str());
        out.append(t.as_str());
    }
    proof {
        assert(nv.skip(n as int) =~= Seq::<Seq<char>>::empty());
        assert(out@ =~= selection_of(nv));
    }
    out
}

/// The exact query text of an object kind, given the selection list,
/// the filter clause (possibly empty) and the id for kinds that need
/// one.  An empty filter clause is omitted entirely, never rendered as
/// an empty filter object; singletons take no filter.
pub open spec fn query_text(kind: ObjectKindV, sel: Seq<char>, filter: Seq<char>, id: Seq<char>)
    -> Seq<char> {
    match kind {
        ObjectKindV::Collection { remote } => if filter.len() == 0 {
            "{ "@ + remote + " { nodes { "@ + sel + " } } }"@
        } else {
            "{ "@ + remote + "("@ + filter + ") { nodes { "@ + sel + " } } }"@
        },
        ObjectKindV::Singleton { remote, .. } => "{ "@ + remote + "(id: \""@ + id + "\") { "@ + sel
            + " } }"@,
        ObjectKindV::Scoped { parent, child, .. } => if filter.len() == 0 {
            "{ "@ + parent + "(id: \""@ + id + "\") { "@ + child + " { nodes { "@ + sel
                + " } } } }"@
        } else {
            "{ "@ + parent + "(id: \""@ + id + "\") { "@ + child + "("@ + filter
                + ") { nodes { "@ + sel + " } } } }"@
        },
    }
}

/// The pointer path to the result node of an object kind.
pub open spec fn pointer_of(kind: ObjectKindV) -> Seq<Seq<char>> {
    match kind {
        ObjectKindV::Collection { remote } => seq!["data"@, remote, "nodes"@],
        ObjectKindV::Singleton { remote, .. } => seq!["data"@, remote],
        ObjectKindV::Scoped { parent, child, .. } => seq!["data"@, parent, child, "nodes"@],
    }
}

/// The textual form of a pointer path, `/`-separated.
pub open spec fn pointer_text_of(segs: Seq<Seq<char>>) -> Seq<char>
    decreases segs.len(),
{
    if segs.len() == 0 {
        Seq::empty()
    } else {
        seq!['/'] + segs[0] + pointer_text_of(segs.skip(1))
    }
}

/// The models of a pointer path.
pub open spec fn segs_view(segs: Seq<String>) -> Seq<Seq<char>> {
    Seq::new(segs.len(), |i: int| segs[i]@)
}

/// The value of a key in an option list: the first pair that matches.
pub open spec fn opt_of(opts: Seq<(Seq<char>, Seq<char>)>, key: Seq<char>) -> Option<Seq<char>>
    decreases opts.len(),
{
    if opts.len() == 0 {
        None
    } else if opts[0].0 == key {
        Some(opts[0].1)
    } else {
        opt_of(opts.skip(1), key)
    }
}

/// The models of an option list.
pub open spec fn opts_view(os: Seq<(String, String)>) -> Seq<(Seq<char>, Seq<char>)> {
    Seq::new(os.len(), |i: int| (os[i].0@, os[i].1@))
}

/// Looks a key up in an option list.
#[verifier::loop_isolation(false)]
pub fn opt_get<'a>(opts: &'a Vec<(String, String)>, key: &str) -> (r: Option<&'a String>)
    ensures
        match r {
            Some(v) => opt_of(opts_view(opts@), key@) == Some(v@),
            None => opt_of(opts_view(opts@), key@) is None,
        },
{
    let ghost ov = opts_view(opts@);
    let n = opts.len();
    proof {
        assert(ov.skip(0) =~= ov);
    }
    for i in 0..n
        invariant
            n == opts.len(),
            ov == opts_view(opts@),
            ov.len() == n,
            opt_of(ov, key@) == opt_of(ov.skip(i as int), key@),
    {
        proof {
            assert(ov.skip(i as int)[0] == ov[i as int]);
            assert(ov.skip(i as int).skip(1) =~= ov.skip(i + 1));
        }
        if str_eq(opts[i].0.as_str(), key) {
            return Some(&opts[i].1);
        }
    }
    proof {
        assert(ov.skip(n as int) =~= Seq::<(Seq<char>, Seq<char>)>::empty());
    }
    None
}

/// A prepared scan: the query text, the pointer path to the result
/// node, and the JSON request body wrapping the query.
#[derive(Debug)]
pub struct ScanPlan {
    pub query: String,
    pub pointer: Vec<String>,
    pub body: String,
}

/// The model of a prepared scan.
pub struct ScanPlanV {
    pub query: Seq<char>,
    pub pointer: Seq<Seq<char>>,
    pub body: Seq<char>,
}

impl View for ScanPlan {
    type V = ScanPlanV;

    open spec fn view(&self) -> ScanPlanV {
        ScanPlanV { query: self.query@, pointer: segs_view(self.pointer@), body: self.body@ }
    }
}

/// The JSON request body carrying a query.
pub open spec fn body_of(query: Seq<char>) -> Seq<char> {
    jv_text(JsonV::Obj(seq![("query"@, JsonV::Str(query))]))
}

/// The id to interpolate for an object kind: empty for collections.
pub open spec fn plan_id(kind: ObjectKindV, opts: Seq<(Seq<char>, Seq<char>)>) -> Option<
    Seq<char>,
> {
    match kind {
        ObjectKindV::Collection { .. } => Some(Seq::empty()),
        ObjectKindV::Singleton { id_option, .. } => opt_of(opts, id_option),
        ObjectKindV::Scoped { id_option, .. } => opt_of(opts, id_option),
    }
}

/// The whole translation of a scan request: unknown object names and
/// missing id options are configuration errors raised here, before
/// any request is sent; otherwise the exact query text, pointer path
/// and request body.
pub open spec fn plan_of(
    object: Seq<char>,
    opts: Seq<(Seq<char>, Seq<char>)>,
    cols: Seq<Seq<char>>,
    preds: Seq<PredicateV>,
) -> Result<ScanPlanV, FdwErrorV> {
    match descriptor_of(object) {
        None => Err(FdwErrorV::UnknownObject { object }),
        Some(kind) => match plan_id(kind, opts) {
            None => Err(
                FdwErrorV::MissingOption {
                    option: match kind {
                        ObjectKindV::Collection { .. } => Seq::empty(),
                        ObjectKindV::Singleton { id_option, .. } => id_option,
                        ObjectKindV::Scoped { id_option, .. } => id_option,
                    },
                    object,
                },
            ),
            Some(id) => {
                let query = query_text(kind, selection_of(cols), filter_clause(preds), id);
                Ok(ScanPlanV { query, pointer: pointer_of(kind), body: body_of(query) })
            },
        },
    }
}

/// Builds a pointer segment vector from the descriptor.
fn pointer_segs(kind: &ObjectKind) -> (r: Vec<String>)
    ensures
        segs_view(r@) == pointer_of(kind@),
{
    let mut segs: Vec<String> = Vec::new();
    segs.push(String::from_str("data"));
    match kind {
        ObjectKind::Collection { remote } => {
            segs.push(remote.clone());
            segs.push(String::from_str("nodes"));
        },
        ObjectKind::Singleton { remote, .. } => {
            segs.push(remote.clone());
        },
        ObjectKind::Scoped { parent, child, .. } => {
            segs.push(parent.clone());
            segs.push(child.clone());
            segs.push(String::from_str("nodes"));
        },
    }
    proof {
        assert(segs_view(segs@) =~= pointer_of(kind@));
    }
    segs
}

/// Renders the textual form of a pointer path.
#[verifier::loop_isolation(false)]
pub fn pointer_text(segs: &Vec<String>) -> (r: String)
    ensures
        r@ == pointer_text_of(segs_view(segs@)),
{
    let ghost sv = segs_view(segs@);
    let mut out = String::new();
    let n = segs.len();
    proof {
        assert(sv.skip(0) =~= sv);
        assert(out@ + pointer_text_of(sv) =~= pointer_text_of(sv));
    }
    for i in 0..n
        invariant
            n == segs.len(),
            sv == segs_view(segs@),
            sv.len() == n,
            out@ + pointer_text_of(sv.skip(i as int)) == pointer_text_of(sv),
    {
        proof {
            assert(sv.skip(i as int)[0] == sv[i as int]);
            assert(sv.skip(i as int).skip(1) =~= sv.skip(i + 1));
            reveal_strlit("/");
        }
        out.append("/");
        out.append(segs[i].as_str());
    }
    proof {
        assert(sv.skip(n as int) =~= Seq::<Seq<char>>::empty());
        assert(out@ =~= pointer_text_of(sv));
    }
    out
}

/// Builds the query text for a descriptor.
fn render_query(kind: &ObjectKind, sel: &String, filter: &String, id: &String) -> (r: String)
    ensures
        r@ == query_text(kind@, sel@, filter@, id@),
{
    let mut out = String::from_str("{ ");
    match kind {
        ObjectKind::Collection { remote } => {
            out.append(remote.as_str());
            if filter.as_str().unicode_len() == 0 {
                out.append(" { nodes { ");
                out.append(sel.as_str());
                out.append(" } } }");
            } else {
                out.append("(");
                out.append(filter.as_str());
                out.append(") { nodes { ");
                out.append(sel.as_str());
                out.append(" } } }");
            }
        },
        ObjectKind::Singleton { remote, .. } => {
            out.append(remote.as_str());
            out.append("(id: \"");
            out.append(id.as_str());
            out.append("\") { ");
            out.append(sel.as_str());
            out.append(" } }");
        },
        ObjectKind::Scoped { parent, child, .. } => {
            out.append(parent.as_str());
            out.append("(id: \"");
            out.append(id.as_str());
            out.append("\") { ");
            out.append(child.as_str());
            if filter.as_str().unicode_len() == 0 {
                out.append(" { nodes { ");
                out.append(sel.as_str());
                out.append(" } } } }");
            } else {
                out.append("(");
                out.append(filter.as_str());
                out.append(") { nodes { ");
                out.append(sel.as_str());
                out.append(" } } } }");
            }
        },
    }
    proof {
        assert(out@ =~= query_text(kind@, sel@, filter@, id@));
    }
    out
}

/// Translates a scan request into its query text, pointer path and
/// request body, or the configuration error that forbids it.
pub fn plan_scan(
    object: &str,
    options: &Vec<(String, String)>,
    columns: &Vec<ColumnSpec>,
    predicates: &Vec<Predicate>,
) -> (r: Result<ScanPlan, FdwError>)
    ensures
        match r {
            Ok(plan) => plan_of(
                object@,
                opts_view(options@),
                names_of(columns@),
                preds_view(predicates@),
            ) == Ok::<ScanPlanV, FdwErrorV>(plan@),
            Err(e) => plan_of(
                object@,
                opts_view(options@),
                names_of(columns@),
                preds_view(predicates@),
            ) == Err::<ScanPlanV, FdwErrorV>(e@),
        },
{
    let kind = match descriptor_for(object) {
        Some(k) => k,
        None => {
            return Err(FdwError::UnknownObject { object: String::from_str(object) });
        },
    };
    let id: String = match &kind {
        ObjectKind::Collection { .. } => String::new(),
        ObjectKind::Singleton { id_option, .. } => match opt_get(options, id_option.as_str()) {
            Some(v) => v.clone(),
            None => {
                return Err(
                    FdwError::MissingOption {
                        option: id_option.clone(),
                        object: String::from_str(object),
                    },
                );
            },
        },
        ObjectKind::Scoped { id_option, .. } => match opt_get(options, id_option.as_str()) {
            Some(v) => v.clone(),
            None => {
                return Err(
                    FdwError::MissingOption {
                        option: id_option.clone(),
                        object: String::from_str(object),
                    },
                );
            },
        },
    };
    let sel = build_selection(columns);
    let filter = translate_predicates(predicates);
    let query = render_query(&kind, &sel, &filter, &id);
    let pointer = pointer_segs(&kind);
    let body_json = Json::Obj(vec![(String::from_str("query"), Json::Str(query.clone()))]);
    let body = body_json.to_text();
    proof {
        crate::json::lemma_jv_entries_index(body_json->Obj_0@);
        assert(body_json@->Obj_0 =~= seq![("query"@, JsonV::Str(query@))]);
        assert(body@ == body_of(query@));
    }
    Ok(ScanPlan { query, pointer, body })
}

} // verus!
