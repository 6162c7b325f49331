//! Errors that a lookup ends with, and their messages.
//!
//! [`ResolveError`] keeps failures of `getaddrinfo`, failures of `getnameinfo`,
//! local input and I/O errors, a resolver that was shut down, and an expired
//! timeout apart.

use crate::text::{decimal, lossy, push_decimal_i32, utf8_lossy};
use vstd::prelude::*;
use vstd::string::StringExecFns;
use vstd::utf8::{decode_utf8, valid_utf8};

verus! {

/// An I/O error, by where it came from.
#[derive(Debug, Clone)]
pub enum IoError {
    /// The request was malformed (`ErrorKind::InvalidInput`).
    InvalidInput {
        /// What is wrong with it.
        message: String,
    },

    /// The operating system refused an operation.
    Os {
        /// The `errno` value.
        code: i32,
        /// The system's text for it.
        message: String,
    },

    /// Any other failure.
    Other {
        /// What went wrong.
        message: String,
    },
}

/// The view of an [`IoError`].
pub enum IoErrorView {
    /// See [`IoError::InvalidInput`].
    InvalidInput {
        /// What is wrong with it.
        message: Seq<char>,
    },
    /// See [`IoError::Os`].
    Os {
        /// The `errno` value.
        code: i32,
        /// The system's text for it.
        message: Seq<char>,
    },
    /// See [`IoError::Other`].
    Other {
        /// What went wrong.
        message: Seq<char>,
    },
}

impl View for IoError {
    type V = IoErrorView;

    open spec fn view(&self) -> IoErrorView {
        match self {
            IoError::InvalidInput { message } => IoErrorView::InvalidInput { message: message@ },
            IoError::Os { code, message } => IoErrorView::Os { code: *code, message: message@ },
            IoError::Other { message } => IoErrorView::Other { message: message@ },
        }
    }
}

impl IoErrorView {
    /// The error's own text.
    pub open spec fn message(self) -> Seq<char> {
        match self {
            IoErrorView::InvalidInput { message } => message,
            IoErrorView::Os { message, .. } => message,
            IoErrorView::Other { message } => message,
        }
    }
}

/// Errors returned by a lookup.
#[derive(Debug, Clone)]
pub enum ResolveError {
    /// `getaddrinfo` failed with this `EAI_*` code.
    Gai(i32),

    /// `getnameinfo` failed with this `EAI_*` code.
    Gni(i32),

    /// An I/O error occurred before the system call was made: the host or the
    /// service held a NUL byte, or the worker thread could not be started.
    Io(IoError),

    /// The resolver stopped admitting work while the lookup was waiting for
    /// capacity, or the worker ended without producing a result.
    Cancelled,

    /// The lookup exceeded the configured timeout.
    TimedOut,

    /// A length invariant was violated.
    LengthInvariantViolated,
}

impl vstd::std_specs::convert::FromSpecImpl<IoError> for ResolveError {
    open spec fn obeys_from_spec() -> bool {
        true
    }

    open spec fn from_spec(err: IoError) -> ResolveError {
        ResolveError::Io(err)
    }
}

impl From<IoError> for ResolveError {
    fn from(err: IoError) -> (r: ResolveError) {
        ResolveError::Io(err)
    }
}

/// The view of a [`ResolveError`].
pub enum ResolveErrorView {
    /// See [`ResolveError::Gai`].
    Gai(i32),
    /// See [`ResolveError::Gni`].
    Gni(i32),
    /// See [`ResolveError::Io`].
    Io(IoErrorView),
    /// See [`ResolveError::Cancelled`].
    Cancelled,
    /// See [`ResolveError::TimedOut`].
    TimedOut,
    /// See [`ResolveError::LengthInvariantViolated`].
    LengthInvariantViolated,
}

impl View for ResolveError {
    type V = ResolveErrorView;

    open spec fn view(&self) -> ResolveErrorView {
        match self {
            ResolveError::Gai(code) => ResolveErrorView::Gai(*code),
            ResolveError::Gni(code) => ResolveErrorView::Gni(*code),
            ResolveError::Io(err) => ResolveErrorView::Io(err@),
            ResolveError::Cancelled => ResolveErrorView::Cancelled,
            ResolveError::TimedOut => ResolveErrorView::TimedOut,
            ResolveError::LengthInvariantViolated => ResolveErrorView::LengthInvariantViolated,
        }
    }
}

/// The text for an `EAI_*` code: what `gai_strerror` gave, or the code itself
/// where it gave nothing.
pub open spec fn gai_text(code: i32, strerror: Option<Seq<u8>>) -> Seq<char> {
    match strerror {
        Some(bytes) => utf8_lossy(bytes),
        None => "error code "@ + decimal(code as int),
    }
}

/// The message for an `EAI_*` code. `strerror` holds the bytes of the string
/// that `gai_strerror` returned for it, or `None` for a null pointer.
pub fn gai_message(code: i32, strerror: Option<&[u8]>) -> (r: String)
    ensures
        r@ == gai_text(code, opt_bytes(strerror)),
        strerror matches Some(bytes) ==> (valid_utf8(bytes@) ==> r@ == decode_utf8(bytes@)),
        r@.len() == 0 <==> (strerror matches Some(bytes) && bytes@.len() == 0),
{
    proof {
        reveal_strlit("error code ");
    }
    match strerror {
        Some(bytes) => lossy(bytes),
        None => {
            let mut out: String = String::new();
            out.append("error code ");
            push_decimal_i32(&mut out, code);
            assert(out@ =~= "error code "@ + decimal(code as int));
            out
        },
    }
}

/// The bytes behind an optional slice.
pub open spec fn opt_bytes(bytes: Option<&[u8]>) -> Option<Seq<u8>> {
    match bytes {
        Some(b) => Some(b@),
        None => None,
    }
}

impl ResolveErrorView {
    /// The error's message, given what `gai_strerror` says of its code.
    pub open spec fn message(self, strerror: Option<Seq<u8>>) -> Seq<char> {
        match self {
            ResolveErrorView::Gai(code) => "getaddrinfo: "@ + gai_text(code, strerror),
            ResolveErrorView::Gni(code) => "getnameinfo: "@ + gai_text(code, strerror),
            ResolveErrorView::Io(err) => err.message(),
            ResolveErrorView::Cancelled => "resolver cancelled"@,
            ResolveErrorView::TimedOut => "resolver timed out"@,
            ResolveErrorView::LengthInvariantViolated => "Length invariant violated"@,
        }
    }
}

impl ResolveError {
    /// The `EAI_*` code to ask `gai_strerror` about, where there is one.
    pub fn gai_code(&self) -> (r: Option<i32>)
        ensures
            r == match self@ {
                ResolveErrorView::Gai(code) => Some(code),
                ResolveErrorView::Gni(code) => Some(code),
                _ => None,
            },
    {
        match self {
            ResolveError::Gai(code) => Some(*code),
            ResolveError::Gni(code) => Some(*code),
            _ => None,
        }
    }

    /// The error's message. `strerror` holds the bytes that `gai_strerror`
    /// returned for [`gai_code`](Self::gai_code); it is read for a failed system
    /// call only. The message for a failed call says more than which call it was,
    /// unless the system's text is empty.
    pub fn message(&self, strerror: Option<&[u8]>) -> (r: String)
        ensures
            r@ == self@.message(opt_bytes(strerror)),
            strerror matches Some(bytes) ==> (valid_utf8(bytes@) ==> {
                &&& self is Gai ==> r@ == "getaddrinfo: "@ + decode_utf8(bytes@)
                &&& self is Gni ==> r@ == "getnameinfo: "@ + decode_utf8(bytes@)
            }),
            self is Gai && !(strerror matches Some(bytes) && bytes@.len() == 0)
                ==> r@.len() > "getaddrinfo: "@.len(),
            self is Gni && !(strerror matches Some(bytes) && bytes@.len() == 0)
                ==> r@.len() > "getnameinfo: "@.len(),
    {
        match self {
            ResolveError::Gai(code) => {
                let mut out: String = String::new();
                out.append("getaddrinfo: ");
                out.append(gai_message(*code, strerror).as_str());
                assert(out@ =~= self@.message(opt_bytes(strerror)));
                out
            },
            ResolveError::Gni(code) => {
                let mut out: String = String::new();
                out.append("getnameinfo: ");
                out.append(gai_message(*code, strerror).as_str());
                assert(out@ =~= self@.message(opt_bytes(strerror)));
                out
            },
            ResolveError::Io(err) => match err {
                IoError::InvalidInput { message } => message.clone(),
                IoError::Os { message, .. } => message.clone(),
                IoError::Other { message } => message.clone(),
            },
            ResolveError::Cancelled => String::from_str("resolver cancelled"),
            ResolveError::TimedOut => String::from_str("resolver timed out"),
            ResolveError::LengthInvariantViolated => String::from_str("Length invariant violated"),
        }
    }
}

} // verus!
