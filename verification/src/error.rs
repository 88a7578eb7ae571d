//! Errors of the RGW backend: the errno codes that the RGW C API returns and
//! their mapping onto the errors that the storage layer reports.

use vstd::prelude::*;

use crate::text::{append_i32, decimal_text};

verus! {

/// The class of a storage-layer error.
#[derive(Clone, Copy, Debug, PartialEq, Eq, Structural)]
pub enum ErrorKind {
    /// The object does not exist.
    NotFound,
    /// Any other failure of the I/O path.
    IO,
    /// The caller handed in something malformed.
    InvalidInput,
}

/// An error of the storage layer: a class and the text that goes with it
/// (for `NotFound`, the URI of the missing object).
#[derive(Debug)]
pub enum StoreError {
    NotFound { uri: String },
    IO { message: String },
    InvalidInput { message: String },
}

impl View for StoreError {
    type V = (ErrorKind, Seq<char>);

    open spec fn view(&self) -> (ErrorKind, Seq<char>) {
        match self {
            StoreError::NotFound { uri } => (ErrorKind::NotFound, uri@),
            StoreError::IO { message } => (ErrorKind::IO, message@),
            StoreError::InvalidInput { message } => (ErrorKind::InvalidInput, message@),
        }
    }
}

impl StoreError {
    /// The class of this error.
    pub fn kind(&self) -> (k: ErrorKind)
        ensures
            k == self@.0,
    {
        match self {
            StoreError::NotFound { .. } => ErrorKind::NotFound,
            StoreError::IO { .. } => ErrorKind::IO,
            StoreError::InvalidInput { .. } => ErrorKind::InvalidInput,
        }
    }

    /// The text of this error (the URI for `NotFound`).
    pub fn text(&self) -> (t: &str)
        ensures
            t@ == self@.1,
    {
        match self {
            StoreError::NotFound { uri } => uri.as_str(),
            StoreError::IO { message } => message.as_str(),
            StoreError::InvalidInput { message } => message.as_str(),
        }
    }
}

/// The errno value for "no such file or directory".
pub const ENOENT: i32 = 2;
/// The errno value for "file exists".
pub const EEXIST: i32 = 17;
/// The errno value for "invalid argument".
pub const EINVAL: i32 = 22;
/// The errno value for "permission denied".
pub const EACCES: i32 = 13;
/// The errno value for "operation not permitted".
pub const EPERM: i32 = 1;
/// The errno value for "out of memory".
pub const ENOMEM: i32 = 12;
/// The errno value for "I/O error".
pub const EIO: i32 = 5;

/// The ` (errno N)` tail that most messages carry.
pub open spec fn errno_tail(errno: int) -> Seq<char> {
    " (errno "@ + decimal_text(errno) + ")"@
}

/// The storage error that a negative errno `errno` stands for, about the
/// object at `path`: its class and its text.
pub open spec fn errno_error(errno: int, path: Seq<char>) -> (ErrorKind, Seq<char>) {
    if errno == -2 {
        (ErrorKind::NotFound, path)
    } else if errno == -17 {
        (ErrorKind::IO, "File already exists: "@ + path + errno_tail(errno))
    } else if errno == -22 {
        (ErrorKind::InvalidInput, "Invalid argument: "@ + path + errno_tail(errno))
    } else if errno == -1 || errno == -13 {
        (ErrorKind::IO, "Permission denied: "@ + path + errno_tail(errno))
    } else if errno == -12 {
        (ErrorKind::IO, "Out of memory"@ + errno_tail(errno))
    } else if errno == -5 {
        (ErrorKind::IO, "I/O error: "@ + path + errno_tail(errno))
    } else {
        (ErrorKind::IO, "RGW operation failed: "@ + path + errno_tail(errno))
    }
}

fn message_with_errno(head: &str, path: &str, errno: i32) -> (s: String)
    ensures
        s@ == head@ + path@ + errno_tail(errno as int),
{
    let mut s = String::from_str(head);
    s.append(path);
    s.append(" (errno ");
    append_i32(&mut s, errno);
    s.append(")");
    assert(s@ =~= head@ + path@ + errno_tail(errno as int));
    s
}

/// Maps an errno code returned by the RGW C API to a storage error about the
/// object at `path`. The codes are negative: `-2` (ENOENT) is `NotFound`,
/// `-22` (EINVAL) is `InvalidInput`, everything else is an `IO` error whose
/// text names the cause where the code is a known one.
pub fn errno_to_error(errno: i32, path: &str) -> (e: StoreError)
    ensures
        e@ == errno_error(errno as int, path@),
{
    if errno == -ENOENT {
        StoreError::NotFound { uri: String::from_str(path) }
    } else if errno == -EEXIST {
        StoreError::IO { message: message_with_errno("File already exists: ", path, errno) }
    } else if errno == -EINVAL {
        StoreError::InvalidInput { message: message_with_errno("Invalid argument: ", path, errno) }
    } else if errno == -EPERM || errno == -EACCES {
        StoreError::IO { message: message_with_errno("Permission denied: ", path, errno) }
    } else if errno == -ENOMEM {
        proof { reveal_strlit(""); }
        let message = message_with_errno("Out of memory", "", errno);
        assert(message@ =~= "Out of memory"@ + errno_tail(errno as int));
        StoreError::IO { message }
    } else if errno == -EIO {
        StoreError::IO { message: message_with_errno("I/O error: ", path, errno) }
    } else {
        StoreError::IO { message: message_with_errno("RGW operation failed: ", path, errno) }
    }
}


/// Checks an errno code: `Ok(())` when it is 0, else the error that
/// `errno_to_error` maps it to.
pub fn check_errno(errno: i32, path: &str) -> (r: Result<(), StoreError>)
    ensures
        r is Ok <==> errno == 0,
        r matches Err(e) ==> e@ == errno_error(errno as int, path@),
{
    if errno != 0 {
        Err(errno_to_error(errno, path))
    } else {
        Ok(())
    }
}

/// Errors specific to the RGW backend.
#[derive(Debug)]
pub enum RgwError {
    /// An RGW operation failed with this errno code.
    Errno(i32),
    /// A C string was not valid UTF-8.
    InvalidUtf8,
    /// RGW returned a null pointer.
    NullPointer,
    /// A required field is missing.
    MissingField(String),
    /// A string handed to RGW held a null byte at this position.
    NulError(usize),
    /// The background task that ran the call failed.
    JoinError,
}

/// The text of an RGW error, as it is displayed.
pub open spec fn rgw_error_text(e: RgwError) -> Seq<char> {
    match e {
        RgwError::Errno(code) => "RGW operation failed with errno "@ + decimal_text(code as int),
        RgwError::InvalidUtf8 => "Invalid UTF-8 in C string"@,
        RgwError::NullPointer => "Null pointer returned from RGW"@,
        RgwError::MissingField(field) => "Required field is missing: "@ + field@,
        RgwError::NulError(_) => "String contains null byte"@,
        RgwError::JoinError => "Background task failed"@,
    }
}

/// The storage error that an RGW error becomes: an errno goes through
/// `errno_error` with an empty path, anything else is an `IO` error that
/// carries the RGW error's text.
pub open spec fn rgw_error_to_store(e: RgwError) -> (ErrorKind, Seq<char>) {
    match e {
        RgwError::Errno(code) => errno_error(code as int, Seq::empty()),
        _ => (ErrorKind::IO, rgw_error_text(e)),
    }
}

impl RgwError {
    /// The error for an errno code.
    pub fn from_errno(errno: i32) -> (e: Self)
        ensures
            e == RgwError::Errno(errno),
    {
        RgwError::Errno(errno)
    }

    /// Whether this is a "not found" error (ENOENT, `-2`).
    pub fn is_not_found(&self) -> (b: bool)
        ensures
            b <==> (self matches RgwError::Errno(code) && code == -2),
    {
        match self {
            RgwError::Errno(code) => *code == -ENOENT,
            _ => false,
        }
    }

    /// Whether this is an "already exists" error (EEXIST, `-17`).
    pub fn is_already_exists(&self) -> (b: bool)
        ensures
            b <==> (self matches RgwError::Errno(code) && code == -17),
    {
        match self {
            RgwError::Errno(code) => *code == -EEXIST,
            _ => false,
        }
    }

    /// The errno code, for an `Errno` error.
    pub fn errno(&self) -> (r: Option<i32>)
        ensures
            r == (match self {
                RgwError::Errno(code) => Some(*code),
                _ => None::<i32>,
            }),
    {
        match self {
            RgwError::Errno(code) => Some(*code),
            _ => None,
        }
    }

    /// The text of this error, as it is displayed.
    pub fn message(&self) -> (s: String)
        ensures
            s@ == rgw_error_text(*self),
    {
        match self {
            RgwError::Errno(code) => {
                let mut s = String::from_str("RGW operation failed with errno ");
                append_i32(&mut s, *code);
                s
            },
            RgwError::InvalidUtf8 => String::from_str("Invalid UTF-8 in C string"),
            RgwError::NullPointer => String::from_str("Null pointer returned from RGW"),
            RgwError::MissingField(field) => {
                let mut s = String::from_str("Required field is missing: ");
                s.append(field.as_str());
                s
            },
            RgwError::NulError(_) => String::from_str("String contains null byte"),
            RgwError::JoinError => String::from_str("Background task failed"),
        }
    }

    /// The storage error that this RGW error becomes.
    pub fn into_store_error(self) -> (e: StoreError)
        ensures
            e@ == rgw_error_to_store(self),
    {
        match self {
            RgwError::Errno(code) => {
                proof { reveal_strlit(""); }
                errno_to_error(code, "")
            },
            _ => StoreError::IO { message: self.message() },
        }
    }
}

} // verus!
