//! The error model: the closed set of error kinds that every operation
//! reports, and the result type built on it.

use crate::text::push_str;
use crate::types::{OpcValueError, ValueErrorView};
use vstd::prelude::*;

verus! {

/// Result of an operation of this library.
pub type OpcResult<T> = Result<T, OpcError>;

/// What went wrong in an operation.
#[derive(Debug, Clone, PartialEq)]
pub enum OpcError {
    /// A generic failure reported by the backend.
    OperationFailed(String),
    /// A host or a server could not be reached.
    ConnectionFailed(String),
    /// An argument was not acceptable.
    InvalidParameters(String),
    /// A value could not be converted.
    ValueConversionError(OpcValueError),
    /// The platform or the backend refused to initialise.
    ComInitializationFailed(String),
    /// The named server does not exist.
    ServerNotFound(String),
    /// The named item does not exist.
    ItemNotFound(String),
    /// The backend refused to create a group.
    GroupCreationFailed(String),
    /// The backend refused to register an observer.
    AsyncSubscriptionFailed(String),
    /// An operation did not finish in time.
    Timeout(String),
}

/// Mathematical content of an [`OpcError`].
pub enum ErrorView {
    OperationFailed(Seq<char>),
    ConnectionFailed(Seq<char>),
    InvalidParameters(Seq<char>),
    ValueConversionError(ValueErrorView),
    ComInitializationFailed(Seq<char>),
    ServerNotFound(Seq<char>),
    ItemNotFound(Seq<char>),
    GroupCreationFailed(Seq<char>),
    AsyncSubscriptionFailed(Seq<char>),
    Timeout(Seq<char>),
}

impl View for OpcError {
    type V = ErrorView;

    open spec fn view(&self) -> ErrorView {
        match self {
            OpcError::OperationFailed(e) => ErrorView::OperationFailed(e@),
            OpcError::ConnectionFailed(e) => ErrorView::ConnectionFailed(e@),
            OpcError::InvalidParameters(e) => ErrorView::InvalidParameters(e@),
            OpcError::ValueConversionError(e) => ErrorView::ValueConversionError(e@),
            OpcError::ComInitializationFailed(e) => ErrorView::ComInitializationFailed(e@),
            OpcError::ServerNotFound(e) => ErrorView::ServerNotFound(e@),
            OpcError::ItemNotFound(e) => ErrorView::ItemNotFound(e@),
            OpcError::GroupCreationFailed(e) => ErrorView::GroupCreationFailed(e@),
            OpcError::AsyncSubscriptionFailed(e) => ErrorView::AsyncSubscriptionFailed(e@),
            OpcError::Timeout(e) => ErrorView::Timeout(e@),
        }
    }
}

/// The mathematical content of a result: the value by its view, or the
/// error by its view.
pub open spec fn outcome<T: View>(r: OpcResult<T>) -> Result<T::V, ErrorView> {
    match r {
        Ok(v) => Ok(v@),
        Err(e) => Err(e@),
    }
}

impl ErrorView {
    /// The message shown for the error: what failed, then the detail.
    pub open spec fn message(self) -> Seq<char> {
        match self {
            ErrorView::OperationFailed(msg) => "OPC operation failed: "@ + msg,
            ErrorView::ConnectionFailed(msg) => "Connection failed: "@ + msg,
            ErrorView::InvalidParameters(msg) => "Invalid parameters: "@ + msg,
            ErrorView::ValueConversionError(e) => "Value conversion error: "@ + e.message(),
            ErrorView::ComInitializationFailed(msg) => "COM initialization failed: "@ + msg,
            ErrorView::ServerNotFound(msg) => "Server not found: "@ + msg,
            ErrorView::ItemNotFound(msg) => "Item not found: "@ + msg,
            ErrorView::GroupCreationFailed(msg) => "Failed to create group: "@ + msg,
            ErrorView::AsyncSubscriptionFailed(msg) => "Failed to enable async subscription: "@ + msg,
            ErrorView::Timeout(msg) => "Operation timed out: "@ + msg,
        }
    }
}

impl OpcError {
    /// A generic failure with the given detail.
    pub fn operation_failed(msg: &str) -> (e: OpcError)
        ensures
            e@ == ErrorView::OperationFailed(msg@),
    {
        OpcError::OperationFailed(msg.to_string())
    }

    /// A connection failure with the given detail.
    pub fn connection_failed(msg: &str) -> (e: OpcError)
        ensures
            e@ == ErrorView::ConnectionFailed(msg@),
    {
        OpcError::ConnectionFailed(msg.to_string())
    }

    /// A rejected argument with the given detail.
    pub fn invalid_parameters(msg: &str) -> (e: OpcError)
        ensures
            e@ == ErrorView::InvalidParameters(msg@),
    {
        OpcError::InvalidParameters(msg.to_string())
    }

    /// The message of the error, as shown to users.
    pub fn to_string(&self) -> (s: String)
        ensures
            s@ == self@.message(),
    {
        match self {
            OpcError::OperationFailed(msg) => {
                let mut s = "OPC operation failed: ".to_string();
                push_str(&mut s, msg.as_str());
                s
            },
            OpcError::ConnectionFailed(msg) => {
                let mut s = "Connection failed: ".to_string();
                push_str(&mut s, msg.as_str());
                s
            },
            OpcError::InvalidParameters(msg) => {
                let mut s = "Invalid parameters: ".to_string();
                push_str(&mut s, msg.as_str());
                s
            },
            OpcError::ValueConversionError(e) => {
                let mut s = "Value conversion error: ".to_string();
                let detail = e.to_string();
                push_str(&mut s, detail.as_str());
                s
            },
            OpcError::ComInitializationFailed(msg) => {
                let mut s = "COM initialization failed: ".to_string();
                push_str(&mut s, msg.as_str());
                s
            },
            OpcError::ServerNotFound(msg) => {
                let mut s = "Server not found: ".to_string();
                push_str(&mut s, msg.as_str());
                s
            },
            OpcError::ItemNotFound(msg) => {
                let mut s = "Item not found: ".to_string();
                push_str(&mut s, msg.as_str());
                s
            },
            OpcError::GroupCreationFailed(msg) => {
                let mut s = "Failed to create group: ".to_string();
                push_str(&mut s, msg.as_str());
                s
            },
            OpcError::AsyncSubscriptionFailed(msg) => {
                let mut s = "Failed to enable async subscription: ".to_string();
                push_str(&mut s, msg.as_str());
                s
            },
            OpcError::Timeout(msg) => {
                let mut s = "Operation timed out: ".to_string();
                push_str(&mut s, msg.as_str());
                s
            },
        }
    }
}

impl From<OpcValueError> for OpcError {
    /// Wraps a conversion error.
    fn from(e: OpcValueError) -> (r: OpcError) {
        OpcError::ValueConversionError(e)
    }
}

impl vstd::std_specs::convert::FromSpecImpl<OpcValueError> for OpcError {
    open spec fn obeys_from_spec() -> bool {
        true
    }

    open spec fn from_spec(e: OpcValueError) -> OpcError {
        OpcError::ValueConversionError(e)
    }
}

} // verus!
