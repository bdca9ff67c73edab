//! The library's error type and its messages.

use vstd::prelude::*;
use vstd::string::*;

verus! {

/// Everything that can make a check, download, verification or install fail.
#[derive(Debug, PartialEq, Eq)]
pub enum Error {
    /// A request failed or answered with a non-success status.
    Http(String),
    /// Release metadata could not be parsed.
    Parse(String),
    /// A file-system or process operation failed.
    Io(String),
    /// An install step failed.
    Install(String),
    /// The running platform or install layout is not supported.
    UnsupportedPlatform(String),
    /// The downloaded artifact does not hash to the published SHA-256.
    ChecksumMismatch { expected: String, actual: String },
    /// The minisign signature could not be decoded or does not verify.
    Signature(String),
    /// The verification policy asks for a check whose input is missing.
    Unverifiable(String),
}

/// An error with its texts as sequences of characters.
pub enum ErrorView {
    Http(Seq<char>),
    Parse(Seq<char>),
    Io(Seq<char>),
    Install(Seq<char>),
    UnsupportedPlatform(Seq<char>),
    ChecksumMismatch { expected: Seq<char>, actual: Seq<char> },
    Signature(Seq<char>),
    Unverifiable(Seq<char>),
}

impl View for Error {
    type V = ErrorView;

    open spec fn view(&self) -> ErrorView {
        match self {
            Error::Http(m) => ErrorView::Http(m@),
            Error::Parse(m) => ErrorView::Parse(m@),
            Error::Io(m) => ErrorView::Io(m@),
            Error::Install(m) => ErrorView::Install(m@),
            Error::UnsupportedPlatform(m) => ErrorView::UnsupportedPlatform(m@),
            Error::ChecksumMismatch { expected, actual } => ErrorView::ChecksumMismatch {
                expected: expected@,
                actual: actual@,
            },
            Error::Signature(m) => ErrorView::Signature(m@),
            Error::Unverifiable(m) => ErrorView::Unverifiable(m@),
        }
    }
}

/// The text that `message` gives for an error.
pub open spec fn error_message(e: ErrorView) -> Seq<char> {
    match e {
        ErrorView::Http(m) => "http error: "@ + m,
        ErrorView::Parse(m) => "failed to parse release metadata: "@ + m,
        ErrorView::Io(m) => "io error: "@ + m,
        ErrorView::Install(m) => "install failed: "@ + m,
        ErrorView::UnsupportedPlatform(m) => "unsupported platform: "@ + m,
        ErrorView::ChecksumMismatch { expected, actual } =>
            "checksum mismatch: expected "@ + expected + ", got "@ + actual,
        ErrorView::Signature(m) => "signature verification failed: "@ + m,
        ErrorView::Unverifiable(m) => "release cannot be verified: "@ + m,
    }
}

/// Whether a message ends with a detail text after a non-empty lead.
pub open spec fn ends_with_detail(m: Seq<char>, d: Seq<char>) -> bool {
    m.len() > d.len() && m.subrange(m.len() - d.len(), m.len() as int) == d
}

proof fn lemma_lead_then_detail(p: Seq<char>, d: Seq<char>)
    requires
        p.len() > 0,
    ensures
        ends_with_detail(p + d, d),
{
    assert((p + d).subrange(p.len() as int, (p + d).len() as int) =~= d);
}

/// Every message ends with the error's own text after a lead that names the
/// kind of failure: the failure's detail, or for a checksum mismatch the
/// actual digest, after a lead that holds the expected one.
pub proof fn lemma_message_carries_detail(e: ErrorView)
    ensures
        match e {
            ErrorView::ChecksumMismatch { expected, actual } => ends_with_detail(error_message(e), actual)
                && error_message(e).len() > expected.len() + actual.len(),
            ErrorView::Http(m) => ends_with_detail(error_message(e), m),
            ErrorView::Parse(m) => ends_with_detail(error_message(e), m),
            ErrorView::Io(m) => ends_with_detail(error_message(e), m),
            ErrorView::Install(m) => ends_with_detail(error_message(e), m),
            ErrorView::UnsupportedPlatform(m) => ends_with_detail(error_message(e), m),
            ErrorView::Signature(m) => ends_with_detail(error_message(e), m),
            ErrorView::Unverifiable(m) => ends_with_detail(error_message(e), m),
        },
{
    match e {
        ErrorView::Http(m) => {
            reveal_strlit("http error: ");
            lemma_lead_then_detail("http error: "@, m);
        },
        ErrorView::Parse(m) => {
            reveal_strlit("failed to parse release metadata: ");
            lemma_lead_then_detail("failed to parse release metadata: "@, m);
        },
        ErrorView::Io(m) => {
            reveal_strlit("io error: ");
            lemma_lead_then_detail("io error: "@, m);
        },
        ErrorView::Install(m) => {
            reveal_strlit("install failed: ");
            lemma_lead_then_detail("install failed: "@, m);
        },
        ErrorView::UnsupportedPlatform(m) => {
            reveal_strlit("unsupported platform: ");
            lemma_lead_then_detail("unsupported platform: "@, m);
        },
        ErrorView::Signature(m) => {
            reveal_strlit("signature verification failed: ");
            lemma_lead_then_detail("signature verification failed: "@, m);
        },
        ErrorView::Unverifiable(m) => {
            reveal_strlit("release cannot be verified: ");
            lemma_lead_then_detail("release cannot be verified: "@, m);
        },
        ErrorView::ChecksumMismatch { expected, actual } => {
            reveal_strlit(", got ");
            let p = "checksum mismatch: expected "@ + expected + ", got "@;
            assert(error_message(e) == p + actual);
            lemma_lead_then_detail(p, actual);
        },
    }
}

/// `prefix` followed by `detail`.
fn prefixed(prefix: &str, detail: &String) -> (s: String)
    ensures
        s@ == prefix@ + detail@,
{
    String::from_str(prefix).concat(detail.as_str())
}

impl Error {
    /// The human-readable message of the error.
    pub fn message(&self) -> (s: String)
        ensures
            s@ == error_message(self@),
    {
        match self {
            Error::Http(m) => prefixed("http error: ", m),
            Error::Parse(m) => prefixed("failed to parse release metadata: ", m),
            Error::Io(m) => prefixed("io error: ", m),
            Error::Install(m) => prefixed("install failed: ", m),
            Error::UnsupportedPlatform(m) => prefixed("unsupported platform: ", m),
            Error::ChecksumMismatch { expected, actual } => {
                let s = prefixed("checksum mismatch: expected ", expected);
                let s = s.concat(", got ");
                s.concat(actual.as_str())
            },
            Error::Signature(m) => prefixed("signature verification failed: ", m),
            Error::Unverifiable(m) => prefixed("release cannot be verified: ", m),
        }
    }
}

/// The error for a failed request, carrying the failure's text.
pub fn http_err(text: String) -> (e: Error)
    ensures
        e == Error::Http(text),
{
    Error::Http(text)
}

} // verus!
