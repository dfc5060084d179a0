//! Brace balance of the built query texts: for every supported
//! logical object kind, the query built from an empty predicate list
//! and an empty column list is well-bracketed, and no filter clause is
//! rendered at all.

use vstd::prelude::*;
use crate::predicate::PredicateV;
use crate::predicate::filter_clause;
use crate::predicate::fragments_of;
use crate::query::ObjectKindV;
use crate::query::descriptor_of;
use crate::query::query_text;
use crate::query::selection_of;
use crate::query::ScanPlanV;
use crate::query::plan_id;
use crate::query::plan_of;

verus! {

/// The depth change a character causes: braces open and close, every
/// other character is neutral.
pub open spec fn brace_delta(c: char) -> int {
    if c == '{' {
        1
    } else if c == '}' {
        -1
    } else {
        0
    }
}

/// The net depth change over a whole text.
pub open spec fn net(s: Seq<char>) -> int
    decreases s.len(),
{
    if s.len() == 0 {
        0
    } else {
        brace_delta(s[0]) + net(s.skip(1))
    }
}

/// Starting at depth `d`, the depth never becomes negative.
pub open spec fn never_negative(s: Seq<char>, d: int) -> bool
    decreases s.len(),
{
    if s.len() == 0 {
        true
    } else {
        d + brace_delta(s[0]) >= 0 && never_negative(s.skip(1), d + brace_delta(s[0]))
    }
}

/// A text is brace-balanced: the depth returns to zero and never dips
/// below it.
pub open spec fn balanced(s: Seq<char>) -> bool {
    net(s) == 0 && never_negative(s, 0)
}

/// A text without brace characters.
pub open spec fn brace_free(s: Seq<char>) -> bool {
    forall|i: int| 0 <= i < s.len() ==> s[i] != '{' && s[i] != '}'
}

/// Net depth change distributes over concatenation.
pub proof fn lemma_net_concat(a: Seq<char>, b: Seq<char>)
    ensures
        net(a + b) == net(a) + net(b),
    decreases a.len(),
{
    if a.len() == 0 {
        assert(a + b =~= b);
    } else {
        assert((a + b).skip(1) =~= a.skip(1) + b);
        lemma_net_concat(a.skip(1), b);
    }
}

/// Depth safety of a concatenation: the first part must be safe at
/// the starting depth, the second at the depth the first part leaves.
pub proof fn lemma_never_negative_concat(a: Seq<char>, b: Seq<char>, d: int)
    requires
        never_negative(a, d),
        never_negative(b, d + net(a)),
    ensures
        never_negative(a + b, d),
    decreases a.len(),
{
    if a.len() == 0 {
        assert(a + b =~= b);
    } else {
        assert((a + b).skip(1) =~= a.skip(1) + b);
        lemma_never_negative_concat(a.skip(1), b, d + brace_delta(a[0]));
    }
}

/// A brace-free text changes nothing and is safe at any depth.
pub proof fn lemma_brace_free(s: Seq<char>, d: int)
    requires
        brace_free(s),
        d >= 0,
    ensures
        net(s) == 0,
        never_negative(s, d),
    decreases s.len(),
{
    if s.len() > 0 {
        assert(brace_free(s.skip(1)));
        lemma_brace_free(s.skip(1), d);
    }
}

/// Evaluates net and depth safety on the fixed texts of the query
/// templates.
proof fn lemma_template_pieces()
    ensures
        net("{ "@) == 1 && forall|d: int| d >= 0 ==> never_negative("{ "@, d),
        net(" { nodes { "@) == 2 && (forall|d: int| d >= 0 ==> never_negative(" { nodes { "@, d)),
        net(" } } }"@) == -3 && (forall|d: int| d >= 3 ==> never_negative(" } } }"@, d)),
        net(" } }"@) == -2 && (forall|d: int| d >= 2 ==> never_negative(" } }"@, d)),
        net(" } } } }"@) == -4 && (forall|d: int| d >= 4 ==> never_negative(" } } } }"@, d)),
        net("(id: \""@) == 0 && (forall|d: int| d >= 0 ==> never_negative("(id: \""@, d)),
        net("\") { "@) == 1 && (forall|d: int| d >= 0 ==> never_negative("\") { "@, d)),
{
    reveal_with_fuel(net, 13);
    reveal_with_fuel(never_negative, 13);
    reveal_strlit("{ ");
    reveal_strlit(" { nodes { ");
    reveal_strlit(" } } }");
    reveal_strlit(" } }");
    reveal_strlit(" } } } }");
    reveal_strlit("(id: \"");
    reveal_strlit("\") { ");
}

/// A collection query without a filter clause is brace-balanced when
/// the interpolated texts hold no brace.
pub proof fn lemma_collection_balanced(remote: Seq<char>, sel: Seq<char>)
    requires
        brace_free(remote),
        brace_free(sel),
    ensures
        balanced("{ "@ + remote + " { nodes { "@ + sel + " } } }"@),
{
    lemma_template_pieces();
    lemma_brace_free(remote, 1);
    lemma_brace_free(sel, 3);
    let a = "{ "@ + remote;
    lemma_net_concat("{ "@, remote);
    lemma_never_negative_concat("{ "@, remote, 0);
    let b = a + " { nodes { "@;
    lemma_net_concat(a, " { nodes { "@);
    lemma_never_negative_concat(a, " { nodes { "@, 0);
    let c = b + sel;
    lemma_net_concat(b, sel);
    lemma_never_negative_concat(b, sel, 0);
    lemma_net_concat(c, " } } }"@);
    lemma_never_negative_concat(c, " } } }"@, 0);
}

/// A singleton query is brace-balanced when the interpolated texts
/// hold no brace.
pub proof fn lemma_singleton_balanced(remote: Seq<char>, id: Seq<char>, sel: Seq<char>)
    requires
        brace_free(remote),
        brace_free(id),
        brace_free(sel),
    ensures
        balanced("{ "@ + remote + "(id: \""@ + id + "\") { "@ + sel + " } }"@),
{
    lemma_template_pieces();
    lemma_brace_free(remote, 1);
    lemma_brace_free(id, 1);
    lemma_brace_free(sel, 2);
    let a = "{ "@ + remote;
    lemma_net_concat("{ "@, remote);
    lemma_never_negative_concat("{ "@, remote, 0);
    let b = a + "(id: \""@;
    lemma_net_concat(a, "(id: \""@);
    lemma_never_negative_concat(a, "(id: \""@, 0);
    let c = b + id;
    lemma_net_concat(b, id);
    lemma_never_negative_concat(b, id, 0);
    let d = c + "\") { "@;
    lemma_net_concat(c, "\") { "@);
    lemma_never_negative_concat(c, "\") { "@, 0);
    let e = d + sel;
    lemma_net_concat(d, sel);
    lemma_never_negative_concat(d, sel, 0);
    lemma_net_concat(e, " } }"@);
    lemma_never_negative_concat(e, " } }"@, 0);
}

/// A scoped query without a filter clause is brace-balanced when the
/// interpolated texts hold no brace.
pub proof fn lemma_scoped_balanced(
    parent: Seq<char>,
    id: Seq<char>,
    child: Seq<char>,
    sel: Seq<char>,
)
    requires
        brace_free(parent),
        brace_free(id),
        brace_free(child),
        brace_free(sel),
    ensures
        balanced(
            "{ "@ + parent + "(id: \""@ + id + "\") { "@ + child + " { nodes { "@ + sel
                + " } } } }"@,
        ),
{
    lemma_template_pieces();
    lemma_brace_free(parent, 1);
    lemma_brace_free(id, 1);
    lemma_brace_free(child, 2);
    lemma_brace_free(sel, 4);
    let a = "{ "@ + parent;
    lemma_net_concat("{ "@, parent);
    lemma_never_negative_concat("{ "@, parent, 0);
    let b = a + "(id: \""@;
    lemma_net_concat(a, "(id: \""@);
    lemma_never_negative_concat(a, "(id: \""@, 0);
    let c = b + id;
    lemma_net_concat(b, id);
    lemma_never_negative_concat(b, id, 0);
    let d = c + "\") { "@;
    lemma_net_concat(c, "\") { "@);
    lemma_never_negative_concat(c, "\") { "@, 0);
    let e = d + child;
    lemma_net_concat(d, child);
    lemma_never_negative_concat(d, child, 0);
    let f = e + " { nodes { "@;
    lemma_net_concat(e, " { nodes { "@);
    lemma_never_negative_concat(e, " { nodes { "@, 0);
    let g = f + sel;
    lemma_net_concat(f, sel);
    lemma_never_negative_concat(f, sel, 0);
    lemma_net_concat(g, " } } } }"@);
    lemma_never_negative_concat(g, " } } } }"@, 0);
}

/// An empty predicate list translates to no filter clause at all: the
/// clause is empty, not an empty filter object.
pub proof fn lemma_empty_predicates_no_filter()
    ensures
        filter_clause(Seq::<PredicateV>::empty()) == Seq::<char>::empty(),
{
    assert(fragments_of(Seq::<PredicateV>::empty()).len() == 0);
}

/// The remote names of every registered object kind hold no brace.
#[verifier::rlimit(100)]
proof fn lemma_remote_names_brace_free(object: Seq<char>)
    requires
        descriptor_of(object) is Some,
    ensures
        descriptor_of(object)->Some_0 matches ObjectKindV::Collection { remote } ==> brace_free(
            remote,
        ),
        descriptor_of(object)->Some_0 matches ObjectKindV::Singleton { remote, .. } ==> brace_free(
            remote,
        ),
        descriptor_of(object)->Some_0 matches ObjectKindV::Scoped { parent, child, .. }
            ==> brace_free(parent) && brace_free(child),
{
    reveal_strlit("issues");
    reveal_strlit("issue");
    reveal_strlit("teams");
    reveal_strlit("team");
    reveal_strlit("projects");
    reveal_strlit("project");
    reveal_strlit("users");
    reveal_strlit("user");
    reveal_strlit("cycles");
    reveal_strlit("cycle");
    reveal_strlit("assignedIssues");
    reveal_strlit("workflowStates");
    reveal_strlit("issueLabels");
    assert(brace_free("issues"@));
    assert(brace_free("issue"@));
    assert(brace_free("teams"@));
    assert(brace_free("team"@));
    assert(brace_free("projects"@));
    assert(brace_free("project"@));
    assert(brace_free("users"@));
    assert(brace_free("user"@));
    assert(brace_free("cycles"@));
    assert(brace_free("cycle"@));
    assert(brace_free("assignedIssues"@));
    assert(brace_free("workflowStates"@));
    assert(brace_free("issueLabels"@));
    if object == "issues"@ {
        assert(descriptor_of(object) == Some(ObjectKindV::Collection { remote: "issues"@ }));
    } else if object == "issue"@ {
        assert(descriptor_of(object) == Some(ObjectKindV::Singleton {
            remote: "issue"@,
            id_option: "id"@,
        }));
    } else if object == "teams"@ {
        assert(descriptor_of(object) == Some(ObjectKindV::Collection { remote: "teams"@ }));
    } else if object == "team"@ {
        assert(descriptor_of(object) == Some(ObjectKindV::Singleton {
            remote: "team"@,
            id_option: "id"@,
        }));
    } else if object == "projects"@ {
        assert(descriptor_of(object) == Some(ObjectKindV::Collection { remote: "projects"@ }));
    } else if object == "project"@ {
        assert(descriptor_of(object) == Some(ObjectKindV::Singleton {
            remote: "project"@,
            id_option: "id"@,
        }));
    } else if object == "project_issues"@ {
        assert(descriptor_of(object) == Some(ObjectKindV::Scoped {
            parent: "project"@,
            id_option: "project_id"@,
            child: "issues"@,
        }));
    } else if object == "users"@ {
        assert(descriptor_of(object) == Some(ObjectKindV::Collection { remote: "users"@ }));
    } else if object == "user"@ {
        assert(descriptor_of(object) == Some(ObjectKindV::Singleton {
            remote: "user"@,
            id_option: "id"@,
        }));
    } else if object == "user_assigned_issues"@ {
        assert(descriptor_of(object) == Some(ObjectKindV::Scoped {
            parent: "user"@,
            id_option: "user_id"@,
            child: "assignedIssues"@,
        }));
    } else if object == "cycles"@ {
        assert(descriptor_of(object) == Some(ObjectKindV::Collection { remote: "cycles"@ }));
    } else if object == "cycle_issues"@ {
        assert(descriptor_of(object) == Some(ObjectKindV::Scoped {
            parent: "cycle"@,
            id_option: "cycle_id"@,
            child: "issues"@,
        }));
    } else if object == "workflow_states"@ {
        assert(descriptor_of(object) == Some(ObjectKindV::Collection {
            remote: "workflowStates"@,
        }));
    } else if object == "issue_labels"@ {
        assert(descriptor_of(object) == Some(ObjectKindV::Collection {
            remote: "issueLabels"@,
        }));
    } else {
        assert(descriptor_of(object) is None);
    }
}

/// For every supported logical object kind, the query built from an
/// empty predicate list and an empty column list is brace-balanced,
/// and the filter clause is absent from it entirely.  The id an
/// object kind may need is interpolated as given and must itself hold
/// no brace.
pub proof fn lemma_build_empty_valid(object: Seq<char>, id: Seq<char>)
    requires
        descriptor_of(object) is Some,
        brace_free(id),
    ensures
        filter_clause(Seq::<PredicateV>::empty()) == Seq::<char>::empty(),
        balanced(
            query_text(
                descriptor_of(object)->Some_0,
                selection_of(Seq::<Seq<char>>::empty()),
                filter_clause(Seq::<PredicateV>::empty()),
                id,
            ),
        ),
{
    lemma_empty_predicates_no_filter();
    lemma_remote_names_brace_free(object);
    let kind = descriptor_of(object)->Some_0;
    let sel = selection_of(Seq::<Seq<char>>::empty());
    assert(sel =~= Seq::<char>::empty());
    assert(brace_free(sel));
    match kind {
        ObjectKindV::Collection { remote } => {
            lemma_collection_balanced(remote, sel);
        },
        ObjectKindV::Singleton { remote, .. } => {
            lemma_singleton_balanced(remote, id, sel);
        },
        ObjectKindV::Scoped { parent, child, .. } => {
            lemma_scoped_balanced(parent, id, child, sel);
        },
    }
}


/// Corollary at the planning entry: for every supported logical
/// object kind, a plan built from an empty column list and an empty
/// predicate list succeeds whenever the needed id option is present,
/// and its query text is brace-balanced with no filter clause in it.
/// The id option's value must itself hold no brace.
pub proof fn lemma_plan_empty_valid(object: Seq<char>, opts: Seq<(Seq<char>, Seq<char>)>)
    requires
        descriptor_of(object) is Some,
        plan_id(descriptor_of(object)->Some_0, opts) matches Some(id) ==> brace_free(id),
    ensures
        plan_of(object, opts, Seq::<Seq<char>>::empty(), Seq::<PredicateV>::empty()) matches Ok(
            plan,
        ) ==> balanced(plan.query),
{
    let kind = descriptor_of(object)->Some_0;
    match plan_id(kind, opts) {
        Some(id) => {
            lemma_build_empty_valid(object, id);
        },
        None => {},
    }
}
} // verus!
