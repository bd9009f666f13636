//! The error type shared by the crawl, the quota gate and the dispatch pass.

use vstd::prelude::*;
use vstd::string::StringExecFns;

verus! {

/// The families of failure that a run distinguishes.
#[derive(Clone, Copy, Debug, PartialEq, Eq, Structural)]
pub enum ErrorKind {
    Network,
    DataParse,
    Io,
    Email,
    SmtpTransport,
    Redis,
    Template,
    InvalidData,
}

/// A failure of a run. Each variant carries the text that the failing
/// collaborator reported.
#[derive(Debug, PartialEq, Eq)]
pub enum BotError {
    /// A page could not be fetched.
    NetworkError(String),
    /// Stored data was not well-formed JSON.
    DataParseError(String),
    /// A local file could not be written or read.
    IOError(String),
    /// A message could not be built.
    EmailError(String),
    /// The mail relay refused or dropped a message.
    SmtpTransportError(String),
    /// The counter store could not be reached or refused a command.
    RedisError(String),
    /// The notification template could not be rendered.
    TemplateError(String),
    /// A value did not have the expected shape.
    InvalidData(String),
}

/// The mathematical value of a [`BotError`]: its family and its text.
pub struct BotErrorView {
    pub kind: ErrorKind,
    pub detail: Seq<char>,
}

impl View for BotError {
    type V = BotErrorView;

    open spec fn view(&self) -> BotErrorView {
        match *self {
            BotError::NetworkError(s) => BotErrorView { kind: ErrorKind::Network, detail: s@ },
            BotError::DataParseError(s) => BotErrorView { kind: ErrorKind::DataParse, detail: s@ },
            BotError::IOError(s) => BotErrorView { kind: ErrorKind::Io, detail: s@ },
            BotError::EmailError(s) => BotErrorView { kind: ErrorKind::Email, detail: s@ },
            BotError::SmtpTransportError(s) => BotErrorView {
                kind: ErrorKind::SmtpTransport,
                detail: s@,
            },
            BotError::RedisError(s) => BotErrorView { kind: ErrorKind::Redis, detail: s@ },
            BotError::TemplateError(s) => BotErrorView { kind: ErrorKind::Template, detail: s@ },
            BotError::InvalidData(s) => BotErrorView { kind: ErrorKind::InvalidData, detail: s@ },
        }
    }
}

/// The words that open the message of each family.
pub open spec fn label_of(kind: ErrorKind) -> Seq<char> {
    match kind {
        ErrorKind::Network => "Network error: "@,
        ErrorKind::DataParse => "Data parsing error: "@,
        ErrorKind::Io => "I/O error: "@,
        ErrorKind::Email => "Email sending error: "@,
        ErrorKind::SmtpTransport => "SMTP transport error: "@,
        ErrorKind::Redis => "Redis operation error: "@,
        ErrorKind::Template => "Template rendering error: "@,
        ErrorKind::InvalidData => "Invalid data: "@,
    }
}

impl BotErrorView {
    /// The full message: the family's label, then the reported text.
    pub open spec fn message(self) -> Seq<char> {
        label_of(self.kind) + self.detail
    }
}

impl Clone for BotError {
    fn clone(&self) -> (copy: BotError)
        ensures
            copy == *self,
    {
        match self {
            BotError::NetworkError(s) => BotError::NetworkError(s.clone()),
            BotError::DataParseError(s) => BotError::DataParseError(s.clone()),
            BotError::IOError(s) => BotError::IOError(s.clone()),
            BotError::EmailError(s) => BotError::EmailError(s.clone()),
            BotError::SmtpTransportError(s) => BotError::SmtpTransportError(s.clone()),
            BotError::RedisError(s) => BotError::RedisError(s.clone()),
            BotError::TemplateError(s) => BotError::TemplateError(s.clone()),
            BotError::InvalidData(s) => BotError::InvalidData(s.clone()),
        }
    }
}

impl BotError {
    /// The family this error belongs to.
    pub fn kind(&self) -> (kind: ErrorKind)
        ensures
            kind == self@.kind,
    {
        match self {
            BotError::NetworkError(_) => ErrorKind::Network,
            BotError::DataParseError(_) => ErrorKind::DataParse,
            BotError::IOError(_) => ErrorKind::Io,
            BotError::EmailError(_) => ErrorKind::Email,
            BotError::SmtpTransportError(_) => ErrorKind::SmtpTransport,
            BotError::RedisError(_) => ErrorKind::Redis,
            BotError::TemplateError(_) => ErrorKind::Template,
            BotError::InvalidData(_) => ErrorKind::InvalidData,
        }
    }

    /// The text that the failing collaborator reported.
    pub fn detail(&self) -> (detail: &str)
        ensures
            detail@ == self@.detail,
    {
        match self {
            BotError::NetworkError(s) => s.as_str(),
            BotError::DataParseError(s) => s.as_str(),
            BotError::IOError(s) => s.as_str(),
            BotError::EmailError(s) => s.as_str(),
            BotError::SmtpTransportError(s) => s.as_str(),
            BotError::RedisError(s) => s.as_str(),
            BotError::TemplateError(s) => s.as_str(),
            BotError::InvalidData(s) => s.as_str(),
        }
    }

    /// The message shown to the user: label and reported text.
    pub fn message(&self) -> (text: String)
        ensures
            text@ == self@.message(),
    {
        let label: &str = match self {
            BotError::NetworkError(_) => "Network error: ",
            BotError::DataParseError(_) => "Data parsing error: ",
            BotError::IOError(_) => "I/O error: ",
            BotError::EmailError(_) => "Email sending error: ",
            BotError::SmtpTransportError(_) => "SMTP transport error: ",
            BotError::RedisError(_) => "Redis operation error: ",
            BotError::TemplateError(_) => "Template rendering error: ",
            BotError::InvalidData(_) => "Invalid data: ",
        };
        String::from_str(label).concat(self.detail())
    }
}

} // verus!
