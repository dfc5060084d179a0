//! The fixed registry of relation fields: relational columns that
//! correspond to a nested object in the remote API.  Each entry gives
//! the GraphQL sub-selection that fetches the column and the two-step
//! extraction path that pulls the value back out of the returned node.

use vstd::prelude::*;
use crate::names::str_eq;

verus! {

/// How the extracted node becomes a cell value.
#[derive(Debug, Clone, Copy, PartialEq, Eq, Structural)]
pub enum RelKind {
    /// The inner node is a string scalar.
    Scalar,
    /// The inner node is an array, re-serialized as a JSON cell.
    JsonArray,
}

/// A relation-field registry entry.
#[derive(Debug, Clone)]
pub struct RelationField {
    /// The GraphQL sub-selection requested for this column.
    pub selection: String,
    /// The member of the record holding the nested object.
    pub object_key: String,
    /// The member of the nested object holding the value.
    pub inner_key: String,
    /// How the inner node is turned into a cell.
    pub kind: RelKind,
}

/// The model of a registry entry.
pub struct RelationFieldV {
    pub selection: Seq<char>,
    pub object_key: Seq<char>,
    pub inner_key: Seq<char>,
    pub kind: RelKind,
}

impl View for RelationField {
    type V = RelationFieldV;

    open spec fn view(&self) -> RelationFieldV {
        RelationFieldV {
            selection: self.selection@,
            object_key: self.object_key@,
            inner_key: self.inner_key@,
            kind: self.kind,
        }
    }
}

/// The registry entry for a relational column name, or nothing when
/// the column is an ordinary flat field.
pub open spec fn relation_of(col: Seq<char>) -> Option<RelationFieldV> {
    if col == "state"@ {
        Some(RelationFieldV {
            selection: "state { id name color }"@,
            object_key: "state"@,
            inner_key: "name"@,
            kind: RelKind::Scalar,
        })
    } else if col == "state_id"@ {
        Some(RelationFieldV {
            selection: "state { id }"@,
            object_key: "state"@,
            inner_key: "id"@,
            kind: RelKind::Scalar,
        })
    } else if col == "team_id"@ {
        Some(RelationFieldV {
            selection: "team { id }"@,
            object_key: "team"@,
            inner_key: "id"@,
            kind: RelKind::Scalar,
        })
    } else if col == "assignee_id"@ {
        Some(RelationFieldV {
            selection: "assignee { id }"@,
            object_key: "assignee"@,
            inner_key: "id"@,
            kind: RelKind::Scalar,
        })
    } else if col == "creator_id"@ {
        Some(RelationFieldV {
            selection: "creator { id }"@,
            object_key: "creator"@,
            inner_key: "id"@,
            kind: RelKind::Scalar,
        })
    } else if col == "parent_id"@ {
        Some(RelationFieldV {
            selection: "parent { id }"@,
            object_key: "parent"@,
            inner_key: "id"@,
            kind: RelKind::Scalar,
        })
    } else if col == "project_id"@ {
        Some(RelationFieldV {
            selection: "project { id }"@,
            object_key: "project"@,
            inner_key: "id"@,
            kind: RelKind::Scalar,
        })
    } else if col == "cycle_id"@ {
        Some(RelationFieldV {
            selection: "cycle { id }"@,
            object_key: "cycle"@,
            inner_key: "id"@,
            kind: RelKind::Scalar,
        })
    } else if col == "labels"@ {
        Some(RelationFieldV {
            selection: "labels { nodes { id name color } }"@,
            object_key: "labels"@,
            inner_key: "nodes"@,
            kind: RelKind::JsonArray,
        })
    } else {
        None
    }
}

/// Builds one registry entry.
fn entry(selection: &str, object_key: &str, inner_key: &str, kind: RelKind) -> (r: RelationField)
    ensures
        r@ == (RelationFieldV {
            selection: selection@,
            object_key: object_key@,
            inner_key: inner_key@,
            kind: kind,
        }),
{
    RelationField {
        selection: String::from_str(selection),
        object_key: String::from_str(object_key),
        inner_key: String::from_str(inner_key),
        kind,
    }
}

/// Looks a relational column name up in the registry.
pub fn relation_for(col: &str) -> (r: Option<RelationField>)
    ensures
        match r {
            Some(f) => relation_of(col@) == Some(f@),
            None => relation_of(col@) is None,
        },
{
    if str_eq(col, "state") {
        Some(entry("state { id name color }", "state", "name", RelKind::Scalar))
    } else if str_eq(col, "state_id") {
        Some(entry("state { id }", "state", "id", RelKind::Scalar))
    } else if str_eq(col, "team_id") {
        Some(entry("team { id }", "team", "id", RelKind::Scalar))
    } else if str_eq(col, "assignee_id") {
        Some(entry("assignee { id }", "assignee", "id", RelKind::Scalar))
    } else if str_eq(col, "creator_id") {
        Some(entry("creator { id }", "creator", "id", RelKind::Scalar))
    } else if str_eq(col, "parent_id") {
        Some(entry("parent { id }", "parent", "id", RelKind::Scalar))
    } else if str_eq(col, "project_id") {
        Some(entry("project { id }", "project", "id", RelKind::Scalar))
    } else if str_eq(col, "cycle_id") {
        Some(entry("cycle { id }", "cycle", "id", RelKind::Scalar))
    } else if str_eq(col, "labels") {
        Some(entry("labels { nodes { id name color } }", "labels", "nodes", RelKind::JsonArray))
    } else {
        None
    }
}

} // verus!
