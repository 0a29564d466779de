//! What can go wrong when a chart is created or destroyed.

use vstd::prelude::*;
use vstd::string::StringExecFns;

verus! {

/// The recoverable failures of chart creation and destruction.
#[derive(Clone, Debug, PartialEq, Eq)]
pub enum ChartError {
    /// The configuration was rejected; carries the validator's message.
    ConfigInvalid(String),
    /// The parameters were rejected; carries the validator's message.
    ParamsInvalid(String),
    /// The container selector matched nothing in the host document.
    ContainerNotFound,
    /// No registered chart has the identifier.
    NotFound,
    /// The chart is registered but its wrapper element is gone from the
    /// host document.
    DomMissing,
}

/// The text shown for an error.
pub open spec fn message_text(error: ChartError) -> Seq<char> {
    match error {
        ChartError::ConfigInvalid(detail) => "config: "@ + detail@,
        ChartError::ParamsInvalid(detail) => "params: "@ + detail@,
        ChartError::ContainerNotFound => "container not found"@,
        ChartError::NotFound => "chart not found by id"@,
        ChartError::DomMissing => "chart wrapper not found in dom"@,
    }
}

impl ChartError {
    /// Renders the error for the host: each kind has its own wording, and
    /// the two validation errors quote the validator.
    pub fn message(&self) -> (text: String)
        ensures
            text@ == message_text(*self),
    {
        match self {
            ChartError::ConfigInvalid(detail) => {
                String::from_str("config: ").concat(detail.as_str())
            },
            ChartError::ParamsInvalid(detail) => {
                String::from_str("params: ").concat(detail.as_str())
            },
            ChartError::ContainerNotFound => String::from_str("container not found"),
            ChartError::NotFound => String::from_str("chart not found by id"),
            ChartError::DomMissing => String::from_str("chart wrapper not found in dom"),
        }
    }
}

} // verus!
