//! The failures that parsing, the registry and the backend client report.

use vstd::prelude::*;

verus! {

/// Why a text is not the canonical form of a value.
#[derive(Debug, Clone, Copy, PartialEq, Eq, Structural)]
pub enum ParseError {
    /// The text does not hold a model, the separator and a serial.
    InvalidFormat,
    /// The model part names no known model.
    UnknownModel,
    /// The text names no known action.
    UnknownAction,
}

/// Why an operation on a registry file or against the backend did not take
/// place. A failed operation changes nothing.
#[derive(Debug, Clone, Copy, PartialEq, Eq, Structural)]
pub enum Error {
    /// A registry file is already there, where one was to be created.
    FileExists,
    /// There is no registry file.
    FileNotFound,
    /// No entry of the registry has the identity asked for.
    LibraNotFound,
    /// The registry already holds an entry with this identity.
    LibraAlreadyExists,
    /// A unit's configuration names no device.
    NoSerialNumber,
    /// The backend answered with a status other than the one that means
    /// success; the status is kept.
    Backend(u16),
}

/// The kinds of failure that a caller tells apart, whichever store it talks
/// to.
#[derive(Debug, Clone, Copy, PartialEq, Eq, Structural)]
pub enum ErrorKind {
    /// The registry file does not exist.
    NotFound,
    /// A registry file, or an entry with the identity, is there already.
    AlreadyExists,
    /// No entry has the identity asked for.
    RecordNotFound,
    /// A text is not a document of the expected shape.
    Decode,
    /// A value cannot be written out.
    Encode,
    /// The network failed before any status came back.
    Transport,
    /// The backend answered with this status, which does not mean success.
    Backend(u16),
    /// The operation is not offered.
    Unimplemented,
    /// A setting is missing from the environment.
    EnvMissing,
    /// The file system refused an operation.
    FileSystem,
}

impl Error {
    /// The kind of the failure.
    pub open spec fn kind_of(self) -> ErrorKind {
        match self {
            Error::FileExists => ErrorKind::AlreadyExists,
            Error::FileNotFound => ErrorKind::NotFound,
            Error::LibraNotFound => ErrorKind::RecordNotFound,
            Error::LibraAlreadyExists => ErrorKind::AlreadyExists,
            Error::NoSerialNumber => ErrorKind::Encode,
            Error::Backend(status) => ErrorKind::Backend(status),
        }
    }

    /// The kind of the failure.
    pub fn kind(&self) -> (kind: ErrorKind)
        ensures
            kind == self.kind_of(),
    {
        match self {
            Error::FileExists => ErrorKind::AlreadyExists,
            Error::FileNotFound => ErrorKind::NotFound,
            Error::LibraNotFound => ErrorKind::RecordNotFound,
            Error::LibraAlreadyExists => ErrorKind::AlreadyExists,
            Error::NoSerialNumber => ErrorKind::Encode,
            Error::Backend(status) => ErrorKind::Backend(*status),
        }
    }
}

} // verus!
