//! Parsers of the reports that the platform utilities write.

use vstd::prelude::*;
use crate::domain::{ExecutionError, ExecutionMetrics};

pub mod designer_validation;
pub mod designer_validation_laws;
pub mod edt_validation;
pub mod edt_validation_laws;
pub mod junit;
pub mod junit_laws;
pub mod log_laws;
pub mod vanessa_log;
pub mod xml;
pub mod yaxunit_log;

verus! {

/// Output of a parser in the form that all runners share.
#[derive(Debug, PartialEq, Eq)]
pub struct NormalizedParse<T> {
    pub payload: Option<T>,
    pub metrics: Option<ExecutionMetrics>,
    pub diagnostics: Vec<String>,
    pub errors: Vec<ExecutionError>,
    pub warnings: Vec<String>,
    pub artifacts: Option<Vec<String>>,
}

/// Output without anything in it.
pub open spec fn is_empty_parse<T>(p: NormalizedParse<T>) -> bool {
    &&& p.payload is None
    &&& p.metrics is None
    &&& p.diagnostics@.len() == 0
    &&& p.errors@.len() == 0
    &&& p.warnings@.len() == 0
    &&& p.artifacts is None
}

impl<T> Default for NormalizedParse<T> {
    fn default() -> (r: Self)
        ensures
            is_empty_parse(r),
    {
        NormalizedParse {
            payload: None,
            metrics: None,
            diagnostics: Vec::new(),
            errors: Vec::new(),
            warnings: Vec::new(),
            artifacts: None,
        }
    }
}

impl<T> NormalizedParse<T> {
    /// The output with another payload.
    pub fn with_payload(self, payload: T) -> (r: Self)
        ensures
            r == (NormalizedParse { payload: Some(payload), ..self }),
    {
        NormalizedParse { payload: Some(payload), ..self }
    }

    /// The output with other measures.
    pub fn with_metrics(self, metrics: ExecutionMetrics) -> (r: Self)
        ensures
            r == (NormalizedParse { metrics: Some(metrics), ..self }),
    {
        NormalizedParse { metrics: Some(metrics), ..self }
    }

    /// The output with other errors.
    pub fn with_errors(self, errors: Vec<ExecutionError>) -> (r: Self)
        ensures
            r == (NormalizedParse { errors, ..self }),
    {
        NormalizedParse { errors, ..self }
    }
}

} // verus!
