//! What can go wrong, and which of it ends the process.

use vstd::prelude::*;
use vstd::string::*;
use crate::config::ConfigError;

verus! {

/// The exit status of a process that ends on a fatal error.
pub const EXIT_FAILURE: i32 = 1;

/// The kinds of error of a capture.
#[derive(Clone, Copy, Debug, PartialEq, Eq, Structural)]
pub enum CaptureError {
    /// The command line is no configuration.
    Config(ConfigError),
    /// The output directory could not be created.
    Setup,
    /// The socket could not be bound.
    Bind,
    /// One receive on the socket failed.
    Receive,
    /// The clock reports a time before the Unix epoch.
    Clock,
    /// One capture file could not be written.
    Persist,
}

impl CaptureError {
    /// Fatal errors end the process: those of configuration, of the output
    /// directory and of binding. The errors of a single datagram do not.
    pub open spec fn fatal(self) -> bool {
        self is Config || self is Setup || self is Bind
    }

    /// What the diagnostic line of this error starts with.
    pub open spec fn summary(self) -> Seq<char> {
        match self {
            CaptureError::Config(ConfigError::WrongArgumentCount) => "Usage"@,
            CaptureError::Config(ConfigError::InvalidAddress) => "Invalid IP address"@,
            CaptureError::Config(ConfigError::InvalidPort) => "Invalid port"@,
            CaptureError::Setup => "Failed to create output directory"@,
            CaptureError::Bind => "Failed to bind to socket"@,
            CaptureError::Receive => "Error receiving packet"@,
            CaptureError::Clock => "Time went backwards"@,
            CaptureError::Persist => "Error saving packet to file"@,
        }
    }

    /// The diagnostic line of this error: `<summary>: <detail>`, where
    /// `detail` is what the operating system said of it or, for an error of
    /// configuration, the argument at fault.
    pub open spec fn line(self, detail: Seq<char>) -> Seq<char> {
        self.summary() + ": "@ + detail
    }

    /// Whether this error ends the process.
    pub fn is_fatal(&self) -> (fatal: bool)
        ensures
            fatal == self.fatal(),
    {
        match self {
            CaptureError::Config(_) => true,
            CaptureError::Setup => true,
            CaptureError::Bind => true,
            CaptureError::Receive => false,
            CaptureError::Clock => false,
            CaptureError::Persist => false,
        }
    }

    /// What the diagnostic line of this error starts with.
    pub fn describe(&self) -> (text: String)
        ensures
            text@ == self.summary(),
    {
        let text: &'static str = match self {
            CaptureError::Config(ConfigError::WrongArgumentCount) => "Usage",
            CaptureError::Config(ConfigError::InvalidAddress) => "Invalid IP address",
            CaptureError::Config(ConfigError::InvalidPort) => "Invalid port",
            CaptureError::Setup => "Failed to create output directory",
            CaptureError::Bind => "Failed to bind to socket",
            CaptureError::Receive => "Error receiving packet",
            CaptureError::Clock => "Time went backwards",
            CaptureError::Persist => "Error saving packet to file",
        };
        String::from_str(text)
    }
}

/// An error together with the line that reports it on the diagnostic
/// stream.
#[derive(Debug, PartialEq, Eq)]
pub struct Diagnostic {
    pub error: CaptureError,
    pub message: String,
}

/// The mathematical value of a [`Diagnostic`].
pub struct DiagnosticView {
    pub error: CaptureError,
    pub message: Seq<char>,
}

impl View for Diagnostic {
    type V = DiagnosticView;

    open spec fn view(&self) -> DiagnosticView {
        DiagnosticView { error: self.error, message: self.message@ }
    }
}

impl Diagnostic {
    /// The diagnostic for an error of kind `error` of which `detail` is
    /// known.
    pub fn with_detail(error: CaptureError, detail: &str) -> (diagnostic: Diagnostic)
        ensures
            diagnostic@ == (DiagnosticView { error, message: error.line(detail@) }),
    {
        let mut message = error.describe();
        message.append(": ");
        message.append(detail);
        Diagnostic { error, message }
    }
}

} // verus!
