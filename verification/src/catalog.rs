//! The fixed catalog of supported logical tables, returned by schema
//! import: descriptive metadata only — each table's name, columns
//! with their relational names and declared type names, and the
//! options the object kind requires.

use vstd::prelude::*;
use vstd::string::*;
use crate::query::ObjectKindV;
use crate::query::descriptor_of;

verus! {

broadcast use vstd::string::group_string_axioms;

/// One column of a catalog table: a relational name and the declared
/// type's name.
#[derive(Debug, Clone)]
pub struct ColumnDef {
    pub name: String,
    pub declared_type: String,
}

/// The model of a catalog column.
pub struct ColumnDefV {
    pub name: Seq<char>,
    pub declared_type: Seq<char>,
}

impl View for ColumnDef {
    type V = ColumnDefV;

    open spec fn view(&self) -> ColumnDefV {
        ColumnDefV { name: self.name@, declared_type: self.declared_type@ }
    }
}

/// One catalog table: named after its logical object kind, with its
/// columns and the options that kind requires.
#[derive(Debug, Clone)]
pub struct TableDef {
    pub table_name: String,
    pub object: String,
    pub columns: Vec<ColumnDef>,
    pub required_options: Vec<String>,
}

/// The model of a catalog table.
pub struct TableDefV {
    pub table_name: Seq<char>,
    pub object: Seq<char>,
    pub columns: Seq<ColumnDefV>,
    pub required_options: Seq<Seq<char>>,
}

impl View for TableDef {
    type V = TableDefV;

    open spec fn view(&self) -> TableDefV {
        TableDefV {
            table_name: self.table_name@,
            object: self.object@,
            columns: Seq::new(self.columns@.len(), |i: int| self.columns@[i]@),
            required_options: Seq::new(
                self.required_options@.len(),
                |i: int| self.required_options@[i]@,
            ),
        }
    }
}

/// The models of the catalog.
pub open spec fn catalog_view(ts: Seq<TableDef>) -> Seq<TableDefV> {
    Seq::new(ts.len(), |i: int| ts[i]@)
}

/// A catalog table is consistent with the object registry: its object
/// kind exists, it is named after it, and it requires exactly the
/// options the kind needs.
pub open spec fn table_wf(t: TableDefV) -> bool {
    &&& t.table_name == t.object
    &&& match descriptor_of(t.object) {
        Some(ObjectKindV::Collection { .. }) => t.required_options.len() == 0,
        Some(ObjectKindV::Singleton { id_option, .. }) => t.required_options == seq![id_option],
        Some(ObjectKindV::Scoped { id_option, .. }) => t.required_options == seq![id_option],
        None => false,
    }
}

/// Every table of the catalog is consistent with the registry.
pub open spec fn catalog_wf(ts: Seq<TableDefV>) -> bool {
    forall|i: int| 0 <= i < ts.len() ==> table_wf(#[trigger] ts[i])
}

/// Builds one catalog column.
fn col(name: &str, declared_type: &str) -> (r: ColumnDef)
    ensures
        r@ == (ColumnDefV { name: name@, declared_type: declared_type@ }),
{
    ColumnDef { name: String::from_str(name), declared_type: String::from_str(declared_type) }
}

/// Builds one catalog table.
fn table_def(object: &str, required: Option<&str>, columns: Vec<ColumnDef>) -> (t: TableDef)
    ensures
        t@.table_name == object@,
        t@.object == object@,
        t@.required_options == (match required {
            Some(o) => seq![o@],
            None => Seq::<Seq<char>>::empty(),
        }),
{
    let mut required_options: Vec<String> = Vec::new();
    match required {
        Some(o) => {
            required_options.push(String::from_str(o));
        },
        None => {},
    }
    let t = TableDef {
        table_name: String::from_str(object),
        object: String::from_str(object),
        columns,
        required_options,
    };
    proof {
        assert(t@.required_options =~= (match required {
            Some(o) => seq![o@],
            None => Seq::<Seq<char>>::empty(),
        }));
    }
    t
}

/// The common columns of an issue row.
fn issue_columns() -> Vec<ColumnDef> {
    let mut cs: Vec<ColumnDef> = Vec::new();
    cs.push(col("id", "text"));
    cs.push(col("title", "text"));
    cs.push(col("description", "text"));
    cs.push(col("number", "float"));
    cs.push(col("priority", "float"));
    cs.push(col("estimate", "float"));
    cs.push(col("state", "text"));
    cs.push(col("state_id", "text"));
    cs.push(col("team_id", "text"));
    cs.push(col("assignee_id", "text"));
    cs.push(col("creator_id", "text"));
    cs.push(col("parent_id", "text"));
    cs.push(col("project_id", "text"));
    cs.push(col("cycle_id", "text"));
    cs.push(col("created_at", "timestamptz"));
    cs.push(col("updated_at", "timestamptz"));
    cs.push(col("started_at", "timestamptz"));
    cs.push(col("completed_at", "timestamptz"));
    cs.push(col("archived_at", "timestamptz"));
    cs.push(col("due_date", "timestamptz"));
    cs.push(col("url", "text"));
    cs
}

/// Evaluates the registry on each catalog object name.
pub proof fn lemma_catalog_descriptors()
    ensures
        descriptor_of("issues"@) == Some(ObjectKindV::Collection { remote: "issues"@ }),
        descriptor_of("issue"@) == Some(
            ObjectKindV::Singleton { remote: "issue"@, id_option: "id"@ },
        ),
        descriptor_of("teams"@) == Some(ObjectKindV::Collection { remote: "teams"@ }),
        descriptor_of("projects"@) == Some(ObjectKindV::Collection { remote: "projects"@ }),
        descriptor_of("project_issues"@) == Some(
            ObjectKindV::Scoped {
                parent: "project"@,
                id_option: "project_id"@,
                child: "issues"@,
            },
        ),
        descriptor_of("users"@) == Some(ObjectKindV::Collection { remote: "users"@ }),
        descriptor_of("user_assigned_issues"@) == Some(
            ObjectKindV::Scoped {
                parent: "user"@,
                id_option: "user_id"@,
                child: "assignedIssues"@,
            },
        ),
        descriptor_of("cycles"@) == Some(ObjectKindV::Collection { remote: "cycles"@ }),
        descriptor_of("cycle_issues"@) == Some(
            ObjectKindV::Scoped { parent: "cycle"@, id_option: "cycle_id"@, child: "issues"@ },
        ),
        descriptor_of("workflow_states"@) == Some(
            ObjectKindV::Collection { remote: "workflowStates"@ },
        ),
        descriptor_of("issue_labels"@) == Some(
            ObjectKindV::Collection { remote: "issueLabels"@ },
        ),
{
    reveal_strlit("issues");
    reveal_strlit("issue");
    reveal_strlit("teams");
    reveal_strlit("team");
    reveal_strlit("projects");
    reveal_strlit("project");
    reveal_strlit("project_issues");
    reveal_strlit("users");
    reveal_strlit("user");
    reveal_strlit("user_assigned_issues");
    reveal_strlit("cycles");
    reveal_strlit("cycle_issues");
    reveal_strlit("workflow_states");
    reveal_strlit("issue_labels");
    assert("issues"@.len() == 6);
    assert("issue"@.len() == 5);
    assert("teams"@.len() == 5);
    assert("team"@.len() == 4);
    assert("projects"@.len() == 8);
    assert("project"@.len() == 7);
    assert("project_issues"@.len() == 14);
    assert("users"@.len() == 5);
    assert("user"@.len() == 4);
    assert("user_assigned_issues"@.len() == 20);
    assert("cycles"@.len() == 6);
    assert("cycle_issues"@.len() == 12);
    assert("workflow_states"@.len() == 15);
    assert("issue_labels"@.len() == 12);
    assert("issue"@[0] == 'i' && "issues"@[0] == 'i');
    assert("teams"@[0] == 't');
    assert("team"@[0] == 't');
    assert("users"@[0] == 'u');
    assert("user"@[0] == 'u');
    assert("cycles"@[0] == 'c');
    assert("cycle_issues"@[0] == 'c');
    assert("issue_labels"@[0] == 'i');
    assert("issue"@ != "issues"@);
    assert("teams"@ != "issue"@);
    assert("users"@ != "issue"@);
    assert("users"@ != "teams"@);
    assert("user"@ != "team"@);
    assert("cycles"@ != "issues"@);
    assert("issue_labels"@ != "cycle_issues"@);
}

/// The fixed catalog of supported logical tables.
#[verifier::rlimit(60)]
pub fn schema_catalog() -> (r: Vec<TableDef>)
    ensures
        r@.len() == 11,
        catalog_wf(catalog_view(r@)),
{
    let mut ts: Vec<TableDef> = Vec::new();
    ts.push(table_def("issues", None, issue_columns()));
    ts.push(table_def("issue", Some("id"), issue_columns()));

    let mut team_cols: Vec<ColumnDef> = Vec::new();
    team_cols.push(col("id", "text"));
    team_cols.push(col("name", "text"));
    team_cols.push(col("key", "text"));
    team_cols.push(col("description", "text"));
    team_cols.push(col("icon", "text"));
    team_cols.push(col("color", "text"));
    team_cols.push(col("cycles_enabled", "boolean"));
    team_cols.push(col("timezone", "text"));
    team_cols.push(col("triage_enabled", "boolean"));
    team_cols.push(col("private", "boolean"));
    team_cols.push(col("created_at", "timestamptz"));
    team_cols.push(col("updated_at", "timestamptz"));
    team_cols.push(col("archived_at", "timestamptz"));
    ts.push(table_def("teams", None, team_cols));

    let mut project_cols: Vec<ColumnDef> = Vec::new();
    project_cols.push(col("id", "text"));
    project_cols.push(col("name", "text"));
    project_cols.push(col("description", "text"));
    project_cols.push(col("icon", "text"));
    project_cols.push(col("color", "text"));
    project_cols.push(col("state", "text"));
    project_cols.push(col("slug", "text"));
    project_cols.push(col("team_id", "text"));
    project_cols.push(col("creator_id", "text"));
    project_cols.push(col("start_date", "timestamptz"));
    project_cols.push(col("target_date", "timestamptz"));
    project_cols.push(col("completed_at", "timestamptz"));
    project_cols.push(col("created_at", "timestamptz"));
    project_cols.push(col("updated_at", "timestamptz"));
    project_cols.push(col("archived_at", "timestamptz"));
    project_cols.push(col("url", "text"));
    ts.push(table_def("projects", None, project_cols));

    ts.push(table_def("project_issues", Some("project_id"), issue_columns()));

    let mut user_cols: Vec<ColumnDef> = Vec::new();
    user_cols.push(col("id", "text"));
    user_cols.push(col("name", "text"));
    user_cols.push(col("display_name", "text"));
    user_cols.push(col("email", "text"));
    user_cols.push(col("avatar_url", "text"));
    user_cols.push(col("description", "text"));
    user_cols.push(col("timezone", "text"));
    user_cols.push(col("last_seen", "timestamptz"));
    user_cols.push(col("active", "boolean"));
    user_cols.push(col("url", "text"));
    user_cols.push(col("created_at", "timestamptz"));
    user_cols.push(col("updated_at", "timestamptz"));
    user_cols.push(col("archived_at", "timestamptz"));
    ts.push(table_def("users", None, user_cols));

    ts.push(table_def("user_assigned_issues", Some("user_id"), issue_columns()));

    let mut cycle_cols: Vec<ColumnDef> = Vec::new();
    cycle_cols.push(col("id", "text"));
    cycle_cols.push(col("number", "float"));
    cycle_cols.push(col("name", "text"));
    cycle_cols.push(col("description", "text"));
    cycle_cols.push(col("start_date", "timestamptz"));
    cycle_cols.push(col("end_date", "timestamptz"));
    cycle_cols.push(col("completed_at", "timestamptz"));
    cycle_cols.push(col("team_id", "text"));
    cycle_cols.push(col("created_at", "timestamptz"));
    cycle_cols.push(col("updated_at", "timestamptz"));
    cycle_cols.push(col("archived_at", "timestamptz"));
    ts.push(table_def("cycles", None, cycle_cols));

    ts.push(table_def("cycle_issues", Some("cycle_id"), issue_columns()));

    let mut state_cols: Vec<ColumnDef> = Vec::new();
    state_cols.push(col("id", "text"));
    state_cols.push(col("name", "text"));
    state_cols.push(col("description", "text"));
    state_cols.push(col("color", "text"));
    state_cols.push(col("type", "text"));
    state_cols.push(col("position", "float"));
    state_cols.push(col("team_id", "text"));
    state_cols.push(col("created_at", "timestamptz"));
    state_cols.push(col("updated_at", "timestamptz"));
    state_cols.push(col("archived_at", "timestamptz"));
    ts.push(table_def("workflow_states", None, state_cols));

    let mut label_cols: Vec<ColumnDef> = Vec::new();
    label_cols.push(col("id", "text"));
    label_cols.push(col("name", "text"));
    label_cols.push(col("description", "text"));
    label_cols.push(col("color", "text"));
    label_cols.push(col("team_id", "text"));
    label_cols.push(col("created_at", "timestamptz"));
    label_cols.push(col("updated_at", "timestamptz"));
    label_cols.push(col("archived_at", "timestamptz"));
    ts.push(table_def("issue_labels", None, label_cols));

    proof {
        lemma_catalog_descriptors();
        let cv = catalog_view(ts@);
        assert(table_wf(cv[0]));
        assert(table_wf(cv[1]));
        assert(table_wf(cv[2]));
        assert(table_wf(cv[3]));
        assert(table_wf(cv[4]));
        assert(table_wf(cv[5]));
        assert(table_wf(cv[6]));
        assert(table_wf(cv[7]));
        assert(table_wf(cv[8]));
        assert(table_wf(cv[9]));
        assert(table_wf(cv[10]));
    }
    ts
}

} // verus!
