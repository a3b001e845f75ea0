//! Messages of the remote debugging protocol that the HMR driver consumes.
//!
//! Only the small subset needed for script identity tracking and live source
//! replacement is modelled; everything else arrives as
//! [`Notification::Unrecognized`] and is ignored.

use vstd::prelude::*;
use vstd::string::StringExecFns;

verus! {

/// Status of a source-replacement (`Debugger.setScriptSource`) response.
#[derive(Clone, Copy, PartialEq, Eq, Structural, Debug)]
pub enum Status {
    /// The engine accepted the new source (the protocol's `Ok` status).
    Accepted,
    /// The new source fails to parse or compile; never retried.
    CompileError,
    /// An active generator or iterator object prevents the edit; retryable.
    BlockedByActiveGenerator,
    /// A function currently on the call stack prevents the edit; retryable.
    BlockedByActiveFunction,
    /// The edit changes top-level module bindings, unsupported live; never retried.
    BlockedByTopLevelEsModuleChange,
}

/// Details the engine attaches to a thrown exception or a compile error.
#[derive(Debug)]
pub struct ExceptionDetails {
    /// Human-readable message of the report.
    pub text: String,
    /// Description of the thrown value, when the engine supplied one.
    pub exception_description: Option<String>,
}

/// The message of an exception report.
pub open spec fn spec_message(d: ExceptionDetails) -> Seq<char> {
    d.text@
}

/// The description of an exception report; the literal placeholder
/// `undefined` stands in when the engine supplied none.
pub open spec fn spec_description(d: ExceptionDetails) -> Seq<char> {
    match d.exception_description {
        Option::Some(s) => s@,
        Option::None => "undefined"@,
    }
}

impl ExceptionDetails {
    /// The (message, description) pair of the report, with the placeholder
    /// description filled in where the engine gave none.
    pub fn get_message_and_description(&self) -> (r: (String, String))
        ensures
            r.0@ == spec_message(*self),
            r.1@ == spec_description(*self),
    {
        let message = self.text.clone();
        let description = match &self.exception_description {
            Option::Some(s) => s.clone(),
            Option::None => String::from_str("undefined"),
        };
        (message, description)
    }
}

/// Response to a source-replacement (`Debugger.setScriptSource`) request.
#[derive(Debug)]
pub struct SetScriptSourceResponse {
    /// Whether the engine applied the edit, and if not, why.
    pub status: Status,
    /// Present when `status` reports a compile error worth explaining.
    pub exception_details: Option<ExceptionDetails>,
}

/// One decoded inbound notification from the engine.
///
/// The notification stream is decoded once at the boundary into this closed
/// union: one variant per recognized method, plus a catch-all that keeps
/// unknown message kinds from being an error.
#[derive(Debug)]
pub enum Notification {
    /// `Runtime.exceptionThrown`: an uncaught exception in the running
    /// program; fatal for the HMR driver.
    ExceptionThrown {
        /// The exception report carried by the notification.
        details: ExceptionDetails,
    },
    /// `Debugger.scriptParsed`: the engine parsed a script and assigned it an
    /// identifier.
    ScriptParsed {
        /// Identifier the engine assigned to the parsed script.
        script_id: String,
        /// URL the script was loaded from, as the engine reports it.
        url: String,
    },
    /// Any other method; ignored.
    Unrecognized,
}

} // verus!
