//! Log severities.
use vstd::prelude::*;

verus! {

/// The severity of a log message, as in the syslog severities of RFC 5424,
/// from least to most severe.
#[derive(Debug, Clone, Copy, PartialEq, Eq, Structural, PartialOrd, Ord, Hash)]
pub enum LoggingLevel {
    Debug,
    Info,
    Notice,
    Warning,
    Error,
    Critical,
    Alert,
    Emergency,
}

} // verus!
