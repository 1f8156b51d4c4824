use vstd::prelude::*;
use vstd::string::StringExecFns;

verus! {

/// The kind of failure that stopped an operation.
#[derive(Clone, Copy, Debug, PartialEq, Eq, Structural)]
pub enum ErrorKind {
    /// Opening, reading, writing or creating a file or a directory.
    Io,
    /// A metadata block that never ends, an invalid document, or text that is
    /// not UTF-8.
    Parse,
    /// Metadata that parsed but breaks a rule, such as an empty output URL.
    Validation,
    /// The template engine failed to render a page.
    Render,
    /// A URL template could not be expanded.
    Resolution,
    /// Any other failure: command line usage, the preview server.
    Other,
}

/// An error with a human-readable message that names the failing operation.
#[derive(Debug)]
pub struct Error {
    pub kind: ErrorKind,
    pub msg: String,
}

impl Error {
    pub fn new(msg: String) -> (e: Error)
        ensures
            e.kind == ErrorKind::Other,
            e.msg@ == msg@,
    {
        Error { kind: ErrorKind::Other, msg }
    }

    pub fn with_kind(kind: ErrorKind, msg: &str) -> (e: Error)
        ensures
            e.kind == kind,
            e.msg@ == msg@,
    {
        Error { kind, msg: String::from_str(msg) }
    }

    /// Prefixes the message with what was being done (`"<what>: <msg>"`),
    /// keeping the kind.
    pub fn context(self, what: &str) -> (e: Error)
        ensures
            e.kind == self.kind,
            e.msg@ == what@ + ": "@ + self.msg@,
    {
        let m = String::from_str(what);
        let m = m.concat(": ");
        let m = m.concat(self.msg.as_str());
        Error { kind: self.kind, msg: m }
    }

    /// The message, for printing.
    pub fn message(&self) -> (s: String)
        ensures
            s@ == self.msg@,
    {
        self.msg.clone()
    }
}

} // verus!
