//! The connector handle and the scan lifecycle: configure, plan a
//! scan, ingest the response, iterate rows, end the scan.  A handle
//! owns the per-scan record buffer and cursor; there is no shared
//! mutable state.  Restarting a scan and every write operation are
//! rejected.

use vstd::prelude::*;
use vstd::string::*;
use crate::coerce::Cell;
use crate::coerce::CellV;
use crate::coerce::ColumnSpec;
use crate::coerce::cells_view;
use crate::coerce::cols_view;
use crate::coerce::coerce_row;
use crate::coerce::row_of;
use crate::error::FdwError;
use crate::error::FdwErrorV;
use crate::json::Json;
use crate::json::JsonV;
use crate::json::jv_list;
use crate::json::jv_text;
use crate::json::lemma_jv_list_index;
use crate::predicate::Predicate;
use crate::predicate::preds_view;
use crate::query::ScanPlan;
use crate::query::ScanPlanV;
use crate::query::names_of;
use crate::query::opts_view;
use crate::query::plan_of;
use crate::response::graphql_errors;
use crate::response::materialize;
use crate::response::node_at;
use crate::response::parsed_json;
use crate::response::records_of;

verus! {

/// The default endpoint of the remote API.
pub open spec fn default_base_url() -> Seq<char> {
    "https://api.linear.app/graphql"@
}

/// The lifecycle phase of a connector handle.
#[derive(Debug, Clone, Copy, PartialEq, Eq, Structural)]
pub enum Phase {
    Uninitialized,
    Configured,
    Scanning,
    Closed,
}

/// A connector handle: the server configuration and the single live
/// scan's materialized records and cursor.
pub struct Connector {
    base_url: String,
    api_key: String,
    rows: Vec<Json>,
    cursor: usize,
    phase: Phase,
}

impl Connector {
    /// The configured endpoint.
    pub closed spec fn base_url_spec(&self) -> Seq<char> {
        self.base_url@
    }

    /// The configured credential.
    pub closed spec fn api_key_spec(&self) -> Seq<char> {
        self.api_key@
    }

    /// The materialized records of the live scan.
    pub closed spec fn rows_spec(&self) -> Seq<JsonV> {
        jv_list(self.rows@)
    }

    /// The cursor position within the records.
    pub closed spec fn cursor_spec(&self) -> int {
        self.cursor as int
    }

    /// The lifecycle phase.
    pub closed spec fn phase_spec(&self) -> Phase {
        self.phase
    }

    /// The cursor never exceeds the record count.
    pub closed spec fn wf(&self) -> bool {
        self.cursor <= self.rows@.len()
    }

    /// A fresh, unconfigured handle.
    pub fn new() -> (c: Connector)
        ensures
            c.wf(),
            c.phase_spec() == Phase::Uninitialized,
            c.rows_spec() == Seq::<JsonV>::empty(),
            c.cursor_spec() == 0,
    {
        let c = Connector {
            base_url: String::new(),
            api_key: String::new(),
            rows: Vec::new(),
            cursor: 0,
            phase: Phase::Uninitialized,
        };
        proof {
            assert(jv_list(c.rows@) =~= Seq::<JsonV>::empty());
        }
        c
    }

    /// Applies the server configuration: the given endpoint or the
    /// default, and the credential (already resolved by the caller
    /// when it was held by reference in a secret store).
    pub fn init(&mut self, api_url: Option<String>, api_key: String)
        ensures
            final(self).wf(),
            final(self).phase_spec() == Phase::Configured,
            final(self).base_url_spec() == (match api_url {
                Some(u) => u@,
                None => default_base_url(),
            }),
            final(self).api_key_spec() == api_key@,
            final(self).rows_spec() == Seq::<JsonV>::empty(),
            final(self).cursor_spec() == 0,
    {
        self.base_url = match api_url {
            Some(u) => u,
            None => String::from_str("https://api.linear.app/graphql"),
        };
        self.api_key = api_key;
        self.rows = Vec::new();
        self.cursor = 0;
        self.phase = Phase::Configured;
        proof {
            assert(jv_list(self.rows@) =~= Seq::<JsonV>::empty());
        }
    }

    /// The configured endpoint, for the transport.
    pub fn base_url(&self) -> (r: String)
        ensures
            r@ == self.base_url_spec(),
    {
        self.base_url.clone()
    }

    /// The configured credential, for the transport's authorization
    /// header.
    pub fn api_key(&self) -> (r: String)
        ensures
            r@ == self.api_key_spec(),
    {
        self.api_key.clone()
    }

    /// Translates a scan request into its query, pointer and request
    /// body, raising configuration errors before any request is sent.
    pub fn plan_scan(
        &self,
        object: &str,
        options: &Vec<(String, String)>,
        columns: &Vec<ColumnSpec>,
        predicates: &Vec<Predicate>,
    ) -> (r: Result<ScanPlan, FdwError>)
        ensures
            match r {
                Ok(plan) => plan_of(
                    object@,
                    opts_view(options@),
                    names_of(columns@),
                    preds_view(predicates@),
                ) == Ok::<ScanPlanV, FdwErrorV>(plan@),
                Err(e) => plan_of(
                    object@,
                    opts_view(options@),
                    names_of(columns@),
                    preds_view(predicates@),
                ) == Err::<ScanPlanV, FdwErrorV>(e@),
            },
    {
        crate::query::plan_scan(object, options, columns, predicates)
    }

    /// Ingests the transport's response for a planned scan.  On
    /// success the records are materialized and the cursor reset; on
    /// any failure the scan holds no records at all.
    pub fn begin_scan(&mut self, plan: &ScanPlan, status: u16, body: &str) -> (r: Result<
        (),
        FdwError,
    >)
        ensures
            final(self).wf(),
            final(self).base_url_spec() == old(self).base_url_spec(),
            final(self).api_key_spec() == old(self).api_key_spec(),
            final(self).cursor_spec() == 0,
            r is Ok ==> final(self).phase_spec() == Phase::Scanning,
            r is Err ==> final(self).rows_spec() == Seq::<JsonV>::empty()
                && final(self).phase_spec() == old(self).phase_spec(),
            status != 200 ==> (r matches Err(e) && e@ == (FdwErrorV::Transport { body: body@ })),
            status == 200 && parsed_json(body@) is None ==> (r matches Err(e) && (e@ matches
                FdwErrorV::InvalidResponse { .. })),
            status == 200 ==> (parsed_json(body@) matches Some(doc) ==> match graphql_errors(doc) {
                Some(es) => r matches Err(e) && e@ == (FdwErrorV::GraphQlErrors {
                    errors: jv_text(JsonV::Arr(es)),
                }),
                None => r is Ok && final(self).rows_spec() == records_of(
                    node_at(doc, plan@.pointer),
                ),
            }),
    {
        match materialize(status, body, &plan.pointer) {
            Ok(rows) => {
                self.rows = rows;
                self.cursor = 0;
                self.phase = Phase::Scanning;
                Ok(())
            },
            Err(e) => {
                self.rows = Vec::new();
                self.cursor = 0;
                proof {
                    assert(jv_list(self.rows@) =~= Seq::<JsonV>::empty());
                }
                Err(e)
            },
        }
    }

    /// Fetches the next row of the live scan, coercing each requested
    /// column.  Once the cursor has reached the record count the scan
    /// is exhausted: every further call signals exhaustion again and
    /// changes nothing.  A fatal column error leaves the cursor in
    /// place.
    pub fn iter_scan(&mut self, columns: &Vec<ColumnSpec>) -> (r: Result<
        Option<Vec<Option<Cell>>>,
        FdwError,
    >)
        requires
            old(self).wf(),
        ensures
            final(self).wf(),
            final(self).rows_spec() == old(self).rows_spec(),
            final(self).base_url_spec() == old(self).base_url_spec(),
            final(self).api_key_spec() == old(self).api_key_spec(),
            final(self).phase_spec() == old(self).phase_spec(),
            old(self).cursor_spec() >= old(self).rows_spec().len() ==> (r matches Ok(row) && row
                is None && *final(self) == *old(self)),
            old(self).cursor_spec() < old(self).rows_spec().len() ==> (match row_of(
                old(self).rows_spec()[old(self).cursor_spec()],
                cols_view(columns@),
            ) {
                Ok(cells) => r matches Ok(row) && (row matches Some(v) && cells_view(v@)
                    == cells) && final(self).cursor_spec() == old(self).cursor_spec() + 1,
                Err(e) => r matches Err(e2) && e2@ == e
                    && final(self).cursor_spec() == old(self).cursor_spec(),
            }),
    {
        proof {
            lemma_jv_list_index(self.rows@);
        }
        if self.cursor >= self.rows.len() {
            return Ok(None);
        }
        match coerce_row(&self.rows[self.cursor], columns) {
            Ok(cells) => {
                self.cursor = self.cursor + 1;
                Ok(Some(cells))
            },
            Err(e) => Err(e),
        }
    }

    /// Restarting a scan without re-configuring is not supported.
    pub fn re_scan(&mut self) -> (r: Result<(), FdwError>)
        ensures
            *final(self) == *old(self),
            r matches Err(e) && e@ == FdwErrorV::ReScanUnsupported,
    {
        Err(FdwError::ReScanUnsupported)
    }

    /// Ends the scan: the record buffer is discarded.
    pub fn end_scan(&mut self)
        ensures
            final(self).wf(),
            final(self).rows_spec() == Seq::<JsonV>::empty(),
            final(self).cursor_spec() == 0,
            final(self).phase_spec() == Phase::Closed,
            final(self).base_url_spec() == old(self).base_url_spec(),
            final(self).api_key_spec() == old(self).api_key_spec(),
    {
        self.rows = Vec::new();
        self.cursor = 0;
        self.phase = Phase::Closed;
        proof {
            assert(jv_list(self.rows@) =~= Seq::<JsonV>::empty());
        }
    }

    /// Write operations are rejected: the remote is read-only here.
    pub fn begin_modify(&self) -> (r: Result<(), FdwError>)
        ensures
            r matches Err(e) && e@ == FdwErrorV::ModifyUnsupported,
    {
        Err(FdwError::ModifyUnsupported)
    }

    /// A no-op kept to satisfy the host contract; not a capability.
    pub fn insert(&self, _row: &Vec<Option<Cell>>) -> (r: Result<(), FdwError>)
        ensures
            r is Ok,
    {
        Ok(())
    }

    /// A no-op kept to satisfy the host contract; not a capability.
    pub fn update(&self, _rowid: &Cell, _row: &Vec<Option<Cell>>) -> (r: Result<(), FdwError>)
        ensures
            r is Ok,
    {
        Ok(())
    }

    /// A no-op kept to satisfy the host contract; not a capability.
    pub fn delete(&self, _rowid: &Cell) -> (r: Result<(), FdwError>)
        ensures
            r is Ok,
    {
        Ok(())
    }

    /// A no-op kept to satisfy the host contract; not a capability.
    pub fn end_modify(&self) -> (r: Result<(), FdwError>)
        ensures
            r is Ok,
    {
        Ok(())
    }

    /// The semver requirement on the host runtime.
    pub fn host_version_requirement() -> (r: String)
        ensures
            r@ == "^0.1.0"@,
    {
        String::from_str("^0.1.0")
    }
}

} // verus!
