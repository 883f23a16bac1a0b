//! Errors of the primary store.
use crate::text::clone_opt_string;
use vstd::prelude::*;

verus! {

/// Every kind of error the primary store reports.
#[derive(Debug, PartialEq, Eq)]
pub enum ErrorKind {
    /// More than one record was found where one was expected: the kind of
    /// record and its identifier.
    DuplicateRecord(&'static str, String),
    /// A record could not be understood: its identifier.
    InvalidRecord(String),
    /// The store could not be reached: its address.
    MongoDBConnect(String),
    /// Reading the results of an operation failed: the operation.
    MongoDBCursor(&'static str),
    /// A record could not be decoded.
    MongoDBBsonDecode,
    /// A record could not be encoded.
    MongoDBBsonEncode,
    /// An operation failed: the operation.
    MongoDBOperation(&'static str),
    /// A record that must exist is missing: the kind of record and its identifier.
    RecordNotFound(&'static str, String),
}

impl ErrorKind {
    /// The name of the kind.
    pub open spec fn name(&self) -> Seq<char> {
        match self {
            ErrorKind::DuplicateRecord(_, _) => "DuplicateRecord"@,
            ErrorKind::InvalidRecord(_) => "InvalidRecord"@,
            ErrorKind::MongoDBConnect(_) => "MongoDBConnect"@,
            ErrorKind::MongoDBCursor(_) => "MongoDBCursor"@,
            ErrorKind::MongoDBBsonDecode => "MongoDBBsonDecode"@,
            ErrorKind::MongoDBBsonEncode => "MongoDBBsonEncode"@,
            ErrorKind::MongoDBOperation(_) => "MongoDBOperation"@,
            ErrorKind::RecordNotFound(_, _) => "RecordNotFound"@,
        }
    }

    /// The name of the kind.
    pub fn kind_name(&self) -> (name: Option<&'static str>)
        ensures
            name matches Some(text) && text@ == self.name(),
    {
        let name = match self {
            ErrorKind::DuplicateRecord(_, _) => "DuplicateRecord",
            ErrorKind::InvalidRecord(_) => "InvalidRecord",
            ErrorKind::MongoDBConnect(_) => "MongoDBConnect",
            ErrorKind::MongoDBCursor(_) => "MongoDBCursor",
            ErrorKind::MongoDBBsonDecode => "MongoDBBsonDecode",
            ErrorKind::MongoDBBsonEncode => "MongoDBBsonEncode",
            ErrorKind::MongoDBOperation(_) => "MongoDBOperation",
            ErrorKind::RecordNotFound(_, _) => "RecordNotFound",
        };
        Some(name)
    }
}

/// An error of the primary store: its kind, and the text of what caused it
/// where something did.
#[derive(Debug, PartialEq, Eq)]
pub struct Error {
    kind: ErrorKind,
    cause: Option<String>,
}

impl Error {
    /// The kind of the error.
    pub closed spec fn spec_kind(&self) -> ErrorKind {
        self.kind
    }

    /// The text of what caused the error.
    pub closed spec fn spec_cause(&self) -> Option<Seq<char>> {
        self.cause.deep_view()
    }

    /// An error of the given kind with no known cause.
    pub fn new(kind: ErrorKind) -> (error: Error)
        ensures
            error.spec_kind() == kind,
            error.spec_cause() is None,
    {
        Error { kind, cause: None }
    }

    /// An error of the given kind caused by what `cause` describes.
    pub fn caused_by(kind: ErrorKind, cause: &str) -> (error: Error)
        ensures
            error.spec_kind() == kind,
            error.spec_cause() == Some(cause@),
    {
        Error { kind, cause: Some(cause.to_owned()) }
    }

    /// The kind of the error.
    pub fn kind(&self) -> (kind: &ErrorKind)
        ensures
            *kind == self.spec_kind(),
    {
        &self.kind
    }

    /// The text of what caused the error, where something did.
    pub fn cause(&self) -> (cause: Option<String>)
        ensures
            cause.deep_view() == self.spec_cause(),
    {
        clone_opt_string(&self.cause)
    }
}

} // verus!
