//! The row coercion engine: for each requested column it looks up the
//! corresponding member of a record (directly, or through a relation
//! field's nested path) and converts the JSON value into the column's
//! declared type.  A missing member or relation target is a soft
//! absence (a null cell); a type mismatch on a declared timestamp and
//! a declared type outside the supported set are fatal data errors.

use vstd::prelude::*;
use vstd::string::*;
use crate::error::FdwError;
use crate::error::FdwErrorV;
use crate::json::Json;
use crate::json::JsonV;
use crate::json::jv_get;
use crate::json::jv_text;
use crate::names::camel_of;
use crate::names::to_remote_field;
use crate::relations::RelKind;
use crate::relations::RelationFieldV;
use crate::relations::relation_for;
use crate::relations::relation_of;
use crate::timestamp::parse_timestamp;
use crate::timestamp::ts_micros;
use crate::timestamp::ts_valid;

verus! {

/// The declared semantic type of a column.
#[derive(Debug, Clone, Copy, PartialEq, Eq, Structural)]
pub enum ColumnType {
    Bool,
    I32,
    I64,
    Str,
    Timestamp,
    Json,
    /// Any declared type outside the supported set.
    Unsupported,
}

/// One requested column: a name in the relational convention and a
/// declared type.
#[derive(Debug, Clone)]
pub struct ColumnSpec {
    pub name: String,
    pub ty: ColumnType,
}

/// The model of a column.
pub struct ColumnSpecV {
    pub name: Seq<char>,
    pub ty: ColumnType,
}

impl View for ColumnSpec {
    type V = ColumnSpecV;

    open spec fn view(&self) -> ColumnSpecV {
        ColumnSpecV { name: self.name@, ty: self.ty }
    }
}

/// The models of a column list.
pub open spec fn cols_view(cs: Seq<ColumnSpec>) -> Seq<ColumnSpecV> {
    Seq::new(cs.len(), |i: int| cs[i]@)
}

/// One typed cell value.
#[derive(Debug, Clone)]
pub enum Cell {
    Bool(bool),
    I32(i32),
    I64(i64),
    Str(String),
    /// Microseconds since the Unix epoch.
    Timestamp(i64),
    /// A structured value, re-serialized as JSON text.
    Json(String),
}

/// The model of a cell.
pub enum CellV {
    Bool(bool),
    I32(i32),
    I64(i64),
    Str(Seq<char>),
    Timestamp(i64),
    Json(Seq<char>),
}

impl View for Cell {
    type V = CellV;

    open spec fn view(&self) -> CellV {
        match self {
            Cell::Bool(b) => CellV::Bool(*b),
            Cell::I32(i) => CellV::I32(*i),
            Cell::I64(i) => CellV::I64(*i),
            Cell::Str(s) => CellV::Str(s@),
            Cell::Timestamp(t) => CellV::Timestamp(*t),
            Cell::Json(s) => CellV::Json(s@),
        }
    }
}

/// The models of a produced row.
pub open spec fn cells_view(cs: Seq<Option<Cell>>) -> Seq<Option<CellV>> {
    Seq::new(
        cs.len(),
        |i: int| match cs[i] {
            Some(c) => Some(c@),
            None => None,
        },
    )
}

/// The model of a coercion result.
pub open spec fn cell_result_view(r: Result<Option<Cell>, FdwError>) -> Result<
    Option<CellV>,
    FdwErrorV,
> {
    match r {
        Ok(Some(c)) => Ok(Some(c@)),
        Ok(None) => Ok(None),
        Err(e) => Err(e@),
    }
}

/// The cell of a relation-field column: the value at the two-step
/// nested path, or a soft absence when the path is missing or has the
/// wrong shape.
pub open spec fn relation_cell(rec: JsonV, rel: RelationFieldV) -> Option<CellV> {
    match jv_get(rec, rel.object_key) {
        Some(node) => match jv_get(node, rel.inner_key) {
            Some(inner) => match rel.kind {
                RelKind::Scalar => match inner {
                    JsonV::Str(s) => Some(CellV::Str(s)),
                    _ => None,
                },
                RelKind::JsonArray => match inner {
                    JsonV::Arr(a) => Some(CellV::Json(jv_text(JsonV::Arr(a)))),
                    _ => None,
                },
            },
            None => None,
        },
        None => None,
    }
}

/// The cell of an ordinary column from its source value: each type
/// accepts only its own source shape; an out-of-range integer and a
/// wrong-shaped source are soft absences, an unparseable timestamp is
/// a fatal data error.
pub open spec fn typed_cell(v: JsonV, ty: ColumnType, col: Seq<char>) -> Result<
    Option<CellV>,
    FdwErrorV,
> {
    match ty {
        ColumnType::Bool => Ok(
            match v {
                JsonV::Bool(b) => Some(CellV::Bool(b)),
                _ => None,
            },
        ),
        ColumnType::I32 => Ok(
            match v {
                JsonV::Int(i) => if i32::MIN <= i <= i32::MAX {
                    Some(CellV::I32(i as i32))
                } else {
                    None
                },
                _ => None,
            },
        ),
        ColumnType::I64 => Ok(
            match v {
                JsonV::Int(i) => Some(CellV::I64(i)),
                _ => None,
            },
        ),
        ColumnType::Str => Ok(
            match v {
                JsonV::Str(s) => Some(CellV::Str(s)),
                _ => None,
            },
        ),
        ColumnType::Timestamp => match v {
            JsonV::Str(s) => if ts_valid(s) {
                Ok(Some(CellV::Timestamp(ts_micros(s) as i64)))
            } else {
                Err(FdwErrorV::InvalidTimestamp { value: s })
            },
            _ => Ok(None),
        },
        ColumnType::Json => Ok(
            match v {
                JsonV::Obj(o) => Some(CellV::Json(jv_text(JsonV::Obj(o)))),
                _ => None,
            },
        ),
        ColumnType::Unsupported => Err(FdwErrorV::UnsupportedColumnType { column: col }),
    }
}

/// The coercion of one column against one record.
pub open spec fn coerce_of(rec: JsonV, col: ColumnSpecV) -> Result<Option<CellV>, FdwErrorV> {
    if col.ty is Unsupported {
        Err(FdwErrorV::UnsupportedColumnType { column: col.name })
    } else {
        match relation_of(col.name) {
            Some(rel) => Ok(relation_cell(rec, rel)),
            None => match jv_get(rec, camel_of(col.name)) {
                Some(v) => typed_cell(v, col.ty, col.name),
                None => Ok(None),
            },
        }
    }
}

/// A registered relation column is read through its nested path: its
/// cell is `relation_cell` over the record, never a flat lookup.
pub proof fn lemma_relation_uses_nested_path(rec: JsonV, col: ColumnSpecV)
    requires
        relation_of(col.name) is Some,
        !(col.ty is Unsupported),
    ensures
        coerce_of(rec, col) == Ok::<Option<CellV>, FdwErrorV>(
            relation_cell(rec, relation_of(col.name)->Some_0),
        ),
{
}

/// When the nested object of a registered relation column is absent,
/// the cell is a soft absence — whatever the record may hold under the
/// camel-cased flat name.
pub proof fn lemma_relation_ignores_flat_field(rec: JsonV, col: ColumnSpecV)
    requires
        relation_of(col.name) is Some,
        !(col.ty is Unsupported),
        jv_get(rec, relation_of(col.name)->Some_0.object_key) is None,
    ensures
        coerce_of(rec, col) == Ok::<Option<CellV>, FdwErrorV>(None),
{
}

/// Coerces one column of one record.
pub fn coerce_cell(rec: &Json, col: &ColumnSpec) -> (r: Result<Option<Cell>, FdwError>)
    ensures
        cell_result_view(r) == coerce_of(rec@, col@),
{
    if matches!(col.ty, ColumnType::Unsupported) {
        return Err(
            FdwError::UnsupportedColumnType { column: col.name.clone() },
        );
    }
    match relation_for(col.name.as_str()) {
        Some(rel) => {
            match rec.get(rel.object_key.as_str()) {
                Some(node) => match node.get(rel.inner_key.as_str()) {
                    Some(inner) => match rel.kind {
                        RelKind::Scalar => match inner {
                            Json::Str(s) => Ok(Some(Cell::Str(s.clone()))),
                            _ => Ok(None),
                        },
                        RelKind::JsonArray => match inner {
                            Json::Arr(_) => Ok(Some(Cell::Json(inner.to_text()))),
                            _ => Ok(None),
                        },
                    },
                    None => Ok(None),
                },
                None => Ok(None),
            }
        },
        None => {
            let remote = to_remote_field(col.name.as_str());
            match rec.get(remote.as_str()) {
                Some(v) => match col.ty {
                    ColumnType::Bool => match v {
                        Json::Bool(b) => Ok(Some(Cell::Bool(*b))),
                        _ => Ok(None),
                    },
                    ColumnType::I32 => match v {
                        Json::Int(i) => {
                            if *i >= i32::MIN as i64 && *i <= i32::MAX as i64 {
                                Ok(Some(Cell::I32(*i as i32)))
                            } else {
                                Ok(None)
                            }
                        },
                        _ => Ok(None),
                    },
                    ColumnType::I64 => match v {
                        Json::Int(i) => Ok(Some(Cell::I64(*i))),
                        _ => Ok(None),
                    },
                    ColumnType::Str => match v {
                        Json::Str(s) => Ok(Some(Cell::Str(s.clone()))),
                        _ => Ok(None),
                    },
                    ColumnType::Timestamp => match v {
                        Json::Str(s) => match parse_timestamp(s.as_str()) {
                            Some(m) => Ok(Some(Cell::Timestamp(m))),
                            None => Err(
                                FdwError::InvalidTimestamp { value: s.clone() },
                            ),
                        },
                        _ => Ok(None),
                    },
                    ColumnType::Json => match v {
                        Json::Obj(_) => Ok(Some(Cell::Json(v.to_text()))),
                        _ => Ok(None),
                    },
                    ColumnType::Unsupported => {
                        proof {
                            assert(false);
                        }
                        Err(FdwError::UnsupportedColumnType { column: col.name.clone() })
                    },
                },
                None => Ok(None),
            }
        },
    }
}

/// The coercion of a whole record against a column list, in the
/// caller-supplied column order; the first fatal column ends the row.
pub open spec fn row_of(rec: JsonV, cols: Seq<ColumnSpecV>) -> Result<
    Seq<Option<CellV>>,
    FdwErrorV,
>
    decreases cols.len(),
{
    if cols.len() == 0 {
        Ok(Seq::empty())
    } else {
        match coerce_of(rec, cols[0]) {
            Err(e) => Err(e),
            Ok(c) => match row_of(rec, cols.skip(1)) {
                Ok(rest) => Ok(seq![c] + rest),
                Err(e) => Err(e),
            },
        }
    }
}

/// Coerces one record into a row of cells, one per requested column.
#[verifier::loop_isolation(false)]
pub fn coerce_row(rec: &Json, cols: &Vec<ColumnSpec>) -> (r: Result<Vec<Option<Cell>>, FdwError>)
    ensures
        match r {
            Ok(cells) => row_of(rec@, cols_view(cols@)) == Ok::<Seq<Option<CellV>>, FdwErrorV>(
                cells_view(cells@),
            ),
            Err(e) => row_of(rec@, cols_view(cols@)) == Err::<Seq<Option<CellV>>, FdwErrorV>(e@),
        },
{
    let ghost cv = cols_view(cols@);
    let mut cells: Vec<Option<Cell>> = Vec::new();
    let n = cols.len();
    proof {
        assert(cv.skip(0) =~= cv);
    }
    for i in 0..n
        invariant
            n == cols.len(),
            cv == cols_view(cols@),
            cv.len() == n,
            cells@.len() == i,
            row_of(rec@, cv) == (match row_of(rec@, cv.skip(i as int)) {
                Ok(rest) => Ok::<Seq<Option<CellV>>, FdwErrorV>(cells_view(cells@) + rest),
                Err(e) => Err::<Seq<Option<CellV>>, FdwErrorV>(e),
            }),
    {
        let ghost before = cells_view(cells@);
        proof {
            assert(cv.skip(i as int)[0] == cv[i as int]);
            assert(cv.skip(i as int).skip(1) =~= cv.skip(i + 1));
        }
        match coerce_cell(rec, &cols[i]) {
            Ok(c) => {
                let ghost cvv = match &c {
                    Some(cc) => Some(cc@),
                    None => None::<CellV>,
                };
                cells.push(c);
                proof {
                    assert(cells_view(cells@) =~= before + seq![cvv]);
                    if let Ok(rest) = row_of(rec@, cv.skip(i + 1)) {
                        assert(cells_view(cells@) + rest =~= before + (seq![cvv] + rest));
                    }
                }
            },
            Err(e) => {
                return Err(e);
            },
        }
    }
    proof {
        assert(cv.skip(n as int) =~= Seq::<ColumnSpecV>::empty());
        assert(cells_view(cells@) + Seq::<Option<CellV>>::empty() =~= cells_view(cells@));
    }
    Ok(cells)
}

} // verus!
