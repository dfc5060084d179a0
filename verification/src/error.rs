//! The connector's error taxonomy: configuration errors raised before
//! any request, transport and protocol errors for a failed response,
//! and data errors for a schema/type mismatch.  Soft absences (missing
//! fields, unsupported predicates) are never errors.

use vstd::prelude::*;

verus! {

/// An error that ends a scan, or rejects an unsupported call.
#[derive(Debug, Clone)]
pub enum FdwError {
    /// The requested logical object name is not known.
    UnknownObject { object: String },
    /// The object kind needs an id or scope option that was not given.
    MissingOption { option: String, object: String },
    /// The remote answered with a status other than 200; the body is
    /// kept verbatim for diagnosis.
    Transport { body: String },
    /// The response body did not parse as JSON.
    InvalidResponse { detail: String },
    /// The response carried a non-empty top-level `errors` array,
    /// serialized here.
    GraphQlErrors { errors: String },
    /// A column declared as a timestamp held text that does not parse.
    InvalidTimestamp { value: String },
    /// A column declared a type the connector does not support.
    UnsupportedColumnType { column: String },
    /// Restarting a scan without re-configuring is not supported.
    ReScanUnsupported,
    /// Write operations are rejected: the connector is read-only.
    ModifyUnsupported,
}

/// The model of an error.
pub enum FdwErrorV {
    UnknownObject { object: Seq<char> },
    MissingOption { option: Seq<char>, object: Seq<char> },
    Transport { body: Seq<char> },
    InvalidResponse { detail: Seq<char> },
    GraphQlErrors { errors: Seq<char> },
    InvalidTimestamp { value: Seq<char> },
    UnsupportedColumnType { column: Seq<char> },
    ReScanUnsupported,
    ModifyUnsupported,
}

impl View for FdwError {
    type V = FdwErrorV;

    open spec fn view(&self) -> FdwErrorV {
        match self {
            FdwError::UnknownObject { object } => FdwErrorV::UnknownObject { object: object@ },
            FdwError::MissingOption { option, object } => FdwErrorV::MissingOption {
                option: option@,
                object: object@,
            },
            FdwError::Transport { body } => FdwErrorV::Transport { body: body@ },
            FdwError::InvalidResponse { detail } => FdwErrorV::InvalidResponse { detail: detail@ },
            FdwError::GraphQlErrors { errors } => FdwErrorV::GraphQlErrors { errors: errors@ },
            FdwError::InvalidTimestamp { value } => FdwErrorV::InvalidTimestamp { value: value@ },
            FdwError::UnsupportedColumnType { column } => FdwErrorV::UnsupportedColumnType {
                column: column@,
            },
            FdwError::ReScanUnsupported => FdwErrorV::ReScanUnsupported,
            FdwError::ModifyUnsupported => FdwErrorV::ModifyUnsupported,
        }
    }
}

/// The diagnostic message of an error.
pub open spec fn message_of(e: FdwErrorV) -> Seq<char> {
    match e {
        FdwErrorV::UnknownObject { object } => "Unknown object type: "@ + object,
        FdwErrorV::MissingOption { option, object } => "Missing required option '"@ + option
            + "' for object '"@ + object + "'"@,
        FdwErrorV::Transport { body } => "Failed to get data: "@ + body,
        FdwErrorV::InvalidResponse { detail } => "Failed to parse JSON response: "@ + detail,
        FdwErrorV::GraphQlErrors { errors } => "GraphQL errors: "@ + errors,
        FdwErrorV::InvalidTimestamp { value } => "invalid timestamp value: "@ + value,
        FdwErrorV::UnsupportedColumnType { column } => "column "@ + column
            + " data type is not supported"@,
        FdwErrorV::ReScanUnsupported => "re_scan on foreign table is not supported"@,
        FdwErrorV::ModifyUnsupported => "modify on foreign table is not supported"@,
    }
}

impl FdwError {
    /// Renders the diagnostic message.
    pub fn message(&self) -> (r: String)
        ensures
            r@ == message_of(self@),
    {
        match self {
            FdwError::UnknownObject { object } => {
                let mut out = String::from_str("Unknown object type: ");
                out.append(object.as_str());
                out
            },
            FdwError::MissingOption { option, object } => {
                let mut out = String::from_str("Missing required option '");
                out.append(option.as_str());
                out.append("' for object '");
                out.append(object.as_str());
                out.append("'");
                out
            },
            FdwError::Transport { body } => {
                let mut out = String::from_str("Failed to get data: ");
                out.append(body.as_str());
                out
            },
            FdwError::InvalidResponse { detail } => {
                let mut out = String::from_str("Failed to parse JSON response: ");
                out.append(detail.as_str());
                out
            },
            FdwError::GraphQlErrors { errors } => {
                let mut out = String::from_str("GraphQL errors: ");
                out.append(errors.as_str());
                out
            },
            FdwError::InvalidTimestamp { value } => {
                let mut out = String::from_str("invalid timestamp value: ");
                out.append(value.as_str());
                out
            },
            FdwError::UnsupportedColumnType { column } => {
                let mut out = String::from_str("column ");
                out.append(column.as_str());
                out.append(" data type is not supported");
                out
            },
            FdwError::ReScanUnsupported => String::from_str(
                "re_scan on foreign table is not supported",
            ),
            FdwError::ModifyUnsupported => String::from_str(
                "modify on foreign table is not supported",
            ),
        }
    }
}

} // verus!
