//! Builder-style error values and validated configuration counts. The
//! wrapper types make it impossible to confuse an error code with a
//! message, or a worker count with a connection limit.

use vstd::prelude::*;

verus! {

/// A machine-readable error code.
#[derive(Debug, Clone)]
pub struct ErrorCode(String);

impl ErrorCode {
    /// The code's characters.
    pub closed spec fn spec_str(self) -> Seq<char> {
        self.0@
    }

    pub fn from_static(s: &'static str) -> (r: Self)
        ensures
            r.spec_str() == s@,
    {
        ErrorCode(s.to_owned())
    }

    pub fn from_string(s: String) -> (r: Self)
        ensures
            r.spec_str() == s@,
    {
        ErrorCode(s)
    }

    /// The code as text.
    pub fn as_str(&self) -> (r: &str)
        ensures
            r@ == self.spec_str(),
    {
        self.0.as_str()
    }
}

/// An HTTP status code.
#[derive(Debug, Clone, Copy, PartialEq, Eq, Structural)]
pub struct HttpStatus(pub u16);

impl From<u16> for HttpStatus {
    fn from(status: u16) -> (r: Self) {
        HttpStatus(status)
    }
}

impl vstd::std_specs::convert::FromSpecImpl<u16> for HttpStatus {
    open spec fn obeys_from_spec() -> bool {
        true
    }

    open spec fn from_spec(status: u16) -> Self {
        HttpStatus(status)
    }
}

/// A message that is safe to expose to clients.
#[derive(Debug, Clone)]
pub struct ErrorMessage(String);

impl ErrorMessage {
    /// The message's characters.
    pub closed spec fn spec_str(self) -> Seq<char> {
        self.0@
    }

    pub fn from_static(s: &'static str) -> (r: Self)
        ensures
            r.spec_str() == s@,
    {
        ErrorMessage(s.to_owned())
    }

    pub fn from_string(s: String) -> (r: Self)
        ensures
            r.spec_str() == s@,
    {
        ErrorMessage(s)
    }

    /// The message as text.
    pub fn as_str(&self) -> (r: &str)
        ensures
            r@ == self.spec_str(),
    {
        self.0.as_str()
    }
}

/// An error carrying a code, an HTTP status, a client-safe message and
/// optional internal debug information.
#[derive(Debug, Clone)]
pub struct Error {
    code: ErrorCode,
    status: HttpStatus,
    message: ErrorMessage,
    debug_info: Option<String>,
}

impl Error {
    pub closed spec fn spec_code(self) -> Seq<char> {
        self.code.spec_str()
    }

    pub closed spec fn spec_status(self) -> u16 {
        self.status.0
    }

    pub closed spec fn spec_message(self) -> Seq<char> {
        self.message.spec_str()
    }

    pub closed spec fn spec_debug_info(self) -> Option<Seq<char>> {
        match self.debug_info {
            Some(s) => Some(s@),
            None => None,
        }
    }

    /// A new error with the given code, status 500, a stock message and no
    /// debug information.
    pub fn new(code: ErrorCode) -> (r: Self)
        ensures
            r.spec_code() == code.spec_str(),
            r.spec_status() == 500,
            r.spec_message() == "An unknown error occurred."@,
            r.spec_debug_info() is None,
    {
        Self {
            code,
            status: HttpStatus(500),
            message: ErrorMessage::from_static("An unknown error occurred."),
            debug_info: None,
        }
    }

    /// Replaces the HTTP status.
    pub fn with_status(self, status: HttpStatus) -> (r: Self)
        ensures
            r.spec_status() == status.0,
            r.spec_code() == self.spec_code(),
            r.spec_message() == self.spec_message(),
            r.spec_debug_info() == self.spec_debug_info(),
    {
        Self { status, ..self }
    }

    /// Replaces the public-facing message.
    pub fn with_message(self, message: ErrorMessage) -> (r: Self)
        ensures
            r.spec_message() == message.spec_str(),
            r.spec_code() == self.spec_code(),
            r.spec_status() == self.spec_status(),
            r.spec_debug_info() == self.spec_debug_info(),
    {
        Self { message, ..self }
    }

    /// Records internal debug information that is never exposed to clients.
    pub fn with_debug_info(self, info: &str) -> (r: Self)
        ensures
            r.spec_debug_info() == Some(info@),
            r.spec_code() == self.spec_code(),
            r.spec_status() == self.spec_status(),
            r.spec_message() == self.spec_message(),
    {
        Self { debug_info: Some(info.to_owned()), ..self }
    }

    /// The error code, for internal logging.
    pub fn code(&self) -> (r: &str)
        ensures
            r@ == self.spec_code(),
    {
        self.code.as_str()
    }

    /// The HTTP status code.
    pub fn status(&self) -> (r: u16)
        ensures
            r == self.spec_status(),
    {
        self.status.0
    }

    /// The public-facing message.
    pub fn message(&self) -> (r: &str)
        ensures
            r@ == self.spec_message(),
    {
        self.message.as_str()
    }

    /// The internal debug information, if any.
    pub fn debug_info(&self) -> (r: Option<&str>)
        ensures
            match r {
                Some(s) => self.spec_debug_info() == Some(s@),
                None => self.spec_debug_info() is None,
            },
    {
        match &self.debug_info {
            Some(s) => Some(s.as_str()),
            None => None,
        }
    }
}

/// A worker-thread count that is known to be positive when built through
/// `new`.
#[derive(Debug, Clone, Copy, PartialEq, Eq, Structural)]
pub struct WorkerCount(usize);

impl WorkerCount {
    /// The wrapped count.
    pub closed spec fn spec_get(self) -> usize {
        self.0
    }

    /// Accepts only positive counts.
    pub fn new(count: usize) -> (r: Option<Self>)
        ensures
            match r {
                Some(w) => count > 0 && w.spec_get() == count,
                None => count == 0,
            },
    {
        if count > 0 {
            Some(WorkerCount(count))
        } else {
            None
        }
    }

    pub fn get(&self) -> (r: usize)
        ensures
            r == self.spec_get(),
    {
        self.0
    }
}

impl From<usize> for WorkerCount {
    fn from(count: usize) -> (r: Self) {
        WorkerCount(count)
    }
}

impl vstd::std_specs::convert::FromSpecImpl<usize> for WorkerCount {
    open spec fn obeys_from_spec() -> bool {
        true
    }

    closed spec fn from_spec(count: usize) -> Self {
        WorkerCount(count)
    }
}

/// A connection-pool limit that is known to be positive when built through
/// `new`.
#[derive(Debug, Clone, Copy, PartialEq, Eq, Structural)]
pub struct MaxConnections(usize);

impl MaxConnections {
    /// The wrapped count.
    pub closed spec fn spec_get(self) -> usize {
        self.0
    }

    /// Accepts only positive limits.
    pub fn new(count: usize) -> (r: Option<Self>)
        ensures
            match r {
                Some(m) => count > 0 && m.spec_get() == count,
                None => count == 0,
            },
    {
        if count > 0 {
            Some(MaxConnections(count))
        } else {
            None
        }
    }

    pub fn get(&self) -> (r: usize)
        ensures
            r == self.spec_get(),
    {
        self.0
    }
}

impl From<usize> for MaxConnections {
    fn from(count: usize) -> (r: Self) {
        MaxConnections(count)
    }
}

impl vstd::std_specs::convert::FromSpecImpl<usize> for MaxConnections {
    open spec fn obeys_from_spec() -> bool {
        true
    }

    closed spec fn from_spec(count: usize) -> Self {
        MaxConnections(count)
    }
}

/// What a server configuration can be rejected for.
#[derive(Debug, PartialEq, Eq, Structural)]
pub enum ValidationError {
    MissingAddress,
    InvalidWorkers,
    InvalidMaxConnections,
}

} // verus!
