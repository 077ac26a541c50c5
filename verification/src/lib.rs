//! A unified error taxonomy over heterogeneous failure sources, with a
//! retry-eligibility predicate and a best-effort extractor of human-readable
//! messages from arbitrary JSON failure bodies.

use vstd::prelude::*;
use vstd::string::StringExecFns;

pub mod json;
pub mod microsoft;
pub mod outside;
pub mod strutil;
pub mod value;

use crate::json::{compact_spec, extract_spec, find_val};
use crate::microsoft::{az_display_spec, az_error_spec, az_error_view, parse_az_error};
use crate::strutil::{append_u16_dec, dec_digits};

pub use crate::json::JsonVal;
pub use crate::microsoft::{
    AZError, AZErrorDetails, AZErrorInner, AZWarning, MSResponse, MSResponseError,
    MSResponseErrorInner,
};
pub use crate::value::SerdeValue;

verus! {

/// Shorthand for a result that fails with the unified error.
pub type PileResult<T = ()> = Result<T, ErrPile>;

/// The kind of an I/O failure, as read from the failing operation. The named
/// kinds cover the transient set and the common persistent ones; everything
/// else is `OtherKind`.
#[derive(Debug, Clone, Copy, PartialEq, Eq, Structural)]
pub enum IoKind {
    WouldBlock,
    TimedOut,
    Interrupted,
    ConnectionReset,
    ConnectionAborted,
    NotConnected,
    ConnectionRefused,
    AddrInUse,
    Deadlock,
    HostUnreachable,
    NetworkDown,
    NetworkUnreachable,
    ResourceBusy,
    NotFound,
    PermissionDenied,
    OtherKind,
}

/// What the taxonomy keeps of an I/O failure: its display text and its kind.
#[derive(Debug)]
pub struct IoFailure {
    pub text: String,
    pub kind: IoKind,
}

/// The category of a database failure that the retry classification reads.
#[derive(Debug, Clone, Copy, PartialEq, Eq, Structural)]
pub enum DbKind {
    IoErr(IoKind),
    DatabaseErr,
    PoolTimedOut,
    PoolClosed,
    OtherDbErr,
}

/// What the taxonomy keeps of a database failure: its display text and its
/// category.
#[derive(Debug)]
pub struct DbFailure {
    pub text: String,
    pub kind: DbKind,
}

/// What the taxonomy keeps of an HTTP client failure: its display text and
/// the response status code, when a response was received at all.
#[derive(Debug)]
pub struct HttpFailure {
    pub text: String,
    pub status: Option<u16>,
}

/// The unified error taxonomy: one variant per external failure domain, the
/// four zero-payload sentinels, the structured remote-error bodies, the
/// opaque JSON body, and the free-text fallback. A wrapping variant keeps the
/// original failure's display text as its retrievable cause; the variants the
/// retry classification inspects keep the inspected facts beside it.
#[derive(Debug)]
pub enum ErrPile {
    DB(DbFailure),
    Ssh(String),
    Sftp(String),
    Auth,
    Permission,
    InUse,
    NotReady,
    Graph(String),
    GraphErrMSg(String),
    Json(String),
    MS(MSResponseError),
    ExtractPdf(String),
    Zip(String),
    Decode(String),
    Thread(String),
    Image(String),
    Timeframe(String),
    IO(IoFailure),
    Python(String),
    Url(String),
    Req(HttpFailure),
    ReqToStr(String),
    AZ(Box<AZError>),
    FromValue(SerdeValue),
    Custom(String),
}

/// The HTTP status codes worth an immediate retry.
pub open spec fn transient_status(code: u16) -> bool {
    code == 408 || code == 429 || code == 500 || code == 502 || code == 503 || code == 504
}

/// The I/O kinds worth an immediate retry.
pub open spec fn transient_io_kind(k: IoKind) -> bool {
    match k {
        IoKind::WouldBlock => true,
        IoKind::TimedOut => true,
        IoKind::Interrupted => true,
        IoKind::ConnectionReset => true,
        IoKind::ConnectionAborted => true,
        IoKind::NotConnected => true,
        IoKind::ConnectionRefused => true,
        IoKind::AddrInUse => true,
        IoKind::Deadlock => true,
        IoKind::HostUnreachable => true,
        IoKind::NetworkDown => true,
        IoKind::NetworkUnreachable => true,
        IoKind::ResourceBusy => true,
        _ => false,
    }
}

/// The decision table of the retry classification: an HTTP failure is
/// transient on the retryable status codes and never without a status; an
/// I/O failure follows its kind; a database failure follows its category,
/// with its own wrapped I/O failure following the I/O kinds; the not-ready
/// sentinel is always transient; every other variant never is.
pub open spec fn is_transient_spec(e: ErrPile) -> bool {
    match e {
        ErrPile::Req(h) => match h.status {
            Some(code) => transient_status(code),
            None => false,
        },
        ErrPile::IO(f) => transient_io_kind(f.kind),
        ErrPile::DB(d) => match d.kind {
            DbKind::IoErr(k) => transient_io_kind(k),
            DbKind::DatabaseErr => true,
            DbKind::PoolTimedOut => true,
            DbKind::PoolClosed => true,
            DbKind::OtherDbErr => false,
        },
        ErrPile::NotReady => true,
        _ => false,
    }
}

/// The fixed display text of each variant; the variants that carry their own
/// text show it.
pub open spec fn display_spec(e: ErrPile) -> Seq<char> {
    match e {
        ErrPile::DB(_) => "Error connecting/ storing to DB"@,
        ErrPile::Ssh(_) => "An error occurred with SSH"@,
        ErrPile::Sftp(_) => "An error occurred with sftp connection"@,
        ErrPile::Auth => "Invalid username or password was provided. Please try again"@,
        ErrPile::Permission => "User does not have permission to perform this action."@,
        ErrPile::InUse => "This action can't be performed as it is being currently used elsewhere"@,
        ErrPile::NotReady => "The resource is not ready yet, please try again later"@,
        ErrPile::Graph(_) => "An error occurred while getting data using Microsoft Graph"@,
        ErrPile::GraphErrMSg(_) => "Graph Error Message"@,
        ErrPile::Json(_) => "Error parsing Json Data (Serde)"@,
        ErrPile::MS(_) => "Request responded with an error"@,
        ErrPile::ExtractPdf(_) => "An error occurred while parsing the PDF text (PDF_Extract)"@,
        ErrPile::Zip(_) => "Error opening zip archive"@,
        ErrPile::Decode(_) => "Error decoding from base64 content bytes"@,
        ErrPile::Thread(_) => "A thread panicked while executing a task"@,
        ErrPile::Image(_) => "An error occurred while performing an operation on a Image"@,
        ErrPile::Timeframe(_) => "A TimeFrame error occurred"@,
        ErrPile::IO(f) => "IO Err: "@ + f.text@,
        ErrPile::Python(s) => "An error occurred on Python Side: "@ + s@,
        ErrPile::Url(_) => "An error occurred while parsing the URL"@,
        ErrPile::Req(_) => "An error occurred while sending request"@,
        ErrPile::ReqToStr(_) => "An error occurred while converting Http Header to string"@,
        ErrPile::AZ(_) => "Document Intelligence Services returned with an error"@,
        ErrPile::FromValue(v) => compact_spec(v.0),
        ErrPile::Custom(s) => s@,
    }
}

/// The display text of the wrapped cause, for the variants that have one:
/// the kept text of the external failure, the details line of a structured
/// remote error, and the compact body of an opaque one. The sentinels, the
/// Graph-style response error and the free-text fallback have none.
pub open spec fn cause_text_spec(e: ErrPile) -> Option<Seq<char>> {
    match e {
        ErrPile::DB(d) => Some(d.text@),
        ErrPile::Ssh(s) => Some(s@),
        ErrPile::Sftp(s) => Some(s@),
        ErrPile::Graph(s) => Some(s@),
        ErrPile::GraphErrMSg(s) => Some(s@),
        ErrPile::Json(s) => Some(s@),
        ErrPile::ExtractPdf(s) => Some(s@),
        ErrPile::Zip(s) => Some(s@),
        ErrPile::Decode(s) => Some(s@),
        ErrPile::Thread(s) => Some(s@),
        ErrPile::Image(s) => Some(s@),
        ErrPile::Timeframe(s) => Some(s@),
        ErrPile::IO(f) => Some(f.text@),
        ErrPile::Python(s) => Some(s@),
        ErrPile::Url(s) => Some(s@),
        ErrPile::Req(h) => Some(h.text@),
        ErrPile::ReqToStr(s) => Some(s@),
        ErrPile::AZ(e) => Some(az_display_spec(e.error)),
        ErrPile::FromValue(v) => Some(compact_spec(v.0)),
        _ => None,
    }
}

/// What `source_str` returns: the extracted message for an opaque JSON body,
/// else the wrapped cause's display text, else the variant's own display
/// text.
pub open spec fn source_str_spec(e: ErrPile) -> Seq<char> {
    match e {
        ErrPile::FromValue(v) => extract_spec(v.0),
        _ => match cause_text_spec(e) {
            Some(t) => t,
            None => display_spec(e),
        },
    }
}

impl ErrPile {
    /// The free-text fallback member, for call sites with no structured
    /// failure to wrap.
    pub fn custom(msg: &str) -> (r: Self)
        ensures
            r matches ErrPile::Custom(m) && m@ == msg@,
    {
        ErrPile::Custom(msg.to_owned())
    }

    /// Whether the error is the authentication (invalid credentials)
    /// sentinel.
    pub fn is_encrypted(&self) -> (r: bool)
        ensures
            r == (*self is Auth),
    {
        matches!(self, ErrPile::Auth)
    }

    /// Whether the error is the not-ready sentinel.
    pub fn is_not_ready(&self) -> (r: bool)
        ensures
            r == (*self is NotReady),
    {
        matches!(self, ErrPile::NotReady)
    }

    /// Whether the I/O kind is in the transient set.
    pub fn is_io_transient(kind: IoKind) -> (r: bool)
        ensures
            r == transient_io_kind(kind),
    {
        matches!(
            kind,
            IoKind::WouldBlock
                | IoKind::TimedOut
                | IoKind::Interrupted
                | IoKind::ConnectionReset
                | IoKind::ConnectionAborted
                | IoKind::NotConnected
                | IoKind::ConnectionRefused
                | IoKind::AddrInUse
                | IoKind::Deadlock
                | IoKind::HostUnreachable
                | IoKind::NetworkDown
                | IoKind::NetworkUnreachable
                | IoKind::ResourceBusy
        )
    }

    /// Whether retrying the failed operation without any other corrective
    /// action has a reasonable chance of succeeding, by the decision table of
    /// `is_transient_spec`.
    pub fn is_transient(&self) -> (r: bool)
        ensures
            r == is_transient_spec(*self),
    {
        match self {
            ErrPile::Req(h) => match h.status {
                Some(code) => {
                    code == 408 || code == 429 || code == 500 || code == 502 || code == 503
                        || code == 504
                },
                None => false,
            },
            ErrPile::IO(f) => Self::is_io_transient(f.kind),
            ErrPile::DB(d) => match d.kind {
                DbKind::IoErr(k) => Self::is_io_transient(k),
                DbKind::DatabaseErr => true,
                DbKind::PoolTimedOut => true,
                DbKind::PoolClosed => true,
                DbKind::OtherDbErr => false,
            },
            ErrPile::NotReady => true,
            _ => false,
        }
    }

    /// The variant's own display text.
    pub fn display_message(&self) -> (r: String)
        ensures
            r@ == display_spec(*self),
    {
        match self {
            ErrPile::DB(_) => String::from_str("Error connecting/ storing to DB"),
            ErrPile::Ssh(_) => String::from_str("An error occurred with SSH"),
            ErrPile::Sftp(_) => String::from_str("An error occurred with sftp connection"),
            ErrPile::Auth => String::from_str(
                "Invalid username or password was provided. Please try again",
            ),
            ErrPile::Permission => String::from_str(
                "User does not have permission to perform this action.",
            ),
            ErrPile::InUse => String::from_str(
                "This action can't be performed as it is being currently used elsewhere",
            ),
            ErrPile::NotReady => String::from_str(
                "The resource is not ready yet, please try again later",
            ),
            ErrPile::Graph(_) => String::from_str(
                "An error occurred while getting data using Microsoft Graph",
            ),
            ErrPile::GraphErrMSg(_) => String::from_str("Graph Error Message"),
            ErrPile::Json(_) => String::from_str("Error parsing Json Data (Serde)"),
            ErrPile::MS(_) => String::from_str("Request responded with an error"),
            ErrPile::ExtractPdf(_) => String::from_str(
                "An error occurred while parsing the PDF text (PDF_Extract)",
            ),
            ErrPile::Zip(_) => String::from_str("Error opening zip archive"),
            ErrPile::Decode(_) => String::from_str("Error decoding from base64 content bytes"),
            ErrPile::Thread(_) => String::from_str("A thread panicked while executing a task"),
            ErrPile::Image(_) => String::from_str(
                "An error occurred while performing an operation on a Image",
            ),
            ErrPile::Timeframe(_) => String::from_str("A TimeFrame error occurred"),
            ErrPile::IO(f) => {
                let mut m = String::from_str("IO Err: ");
                m.append(f.text.as_str());
                m
            },
            ErrPile::Python(s) => {
                let mut m = String::from_str("An error occurred on Python Side: ");
                m.append(s.as_str());
                m
            },
            ErrPile::Url(_) => String::from_str("An error occurred while parsing the URL"),
            ErrPile::Req(_) => String::from_str("An error occurred while sending request"),
            ErrPile::ReqToStr(_) => String::from_str(
                "An error occurred while converting Http Header to string",
            ),
            ErrPile::AZ(_) => String::from_str(
                "Document Intelligence Services returned with an error",
            ),
            ErrPile::FromValue(v) => v.display_message(),
            ErrPile::Custom(s) => s.clone(),
        }
    }

    /// The display text of the wrapped cause, absent for the variants that
    /// wrap none.
    pub fn cause_text(&self) -> (r: Option<String>)
        ensures
            match r {
                Some(t) => cause_text_spec(*self) == Some(t@),
                None => cause_text_spec(*self) is None,
            },
    {
        match self {
            ErrPile::DB(d) => Some(d.text.clone()),
            ErrPile::Ssh(s) => Some(s.clone()),
            ErrPile::Sftp(s) => Some(s.clone()),
            ErrPile::Graph(s) => Some(s.clone()),
            ErrPile::GraphErrMSg(s) => Some(s.clone()),
            ErrPile::Json(s) => Some(s.clone()),
            ErrPile::ExtractPdf(s) => Some(s.clone()),
            ErrPile::Zip(s) => Some(s.clone()),
            ErrPile::Decode(s) => Some(s.clone()),
            ErrPile::Thread(s) => Some(s.clone()),
            ErrPile::Image(s) => Some(s.clone()),
            ErrPile::Timeframe(s) => Some(s.clone()),
            ErrPile::IO(f) => Some(f.text.clone()),
            ErrPile::Python(s) => Some(s.clone()),
            ErrPile::Url(s) => Some(s.clone()),
            ErrPile::Req(h) => Some(h.text.clone()),
            ErrPile::ReqToStr(s) => Some(s.clone()),
            ErrPile::AZ(e) => Some(e.display_message()),
            ErrPile::FromValue(v) => Some(v.display_message()),
            _ => None,
        }
    }

    /// The string version of the source error: the extracted message for an
    /// opaque JSON body, else the wrapped cause's display text, else the
    /// variant's own display text.
    pub fn source_str(&self) -> (r: String)
        ensures
            r@ == source_str_spec(*self),
    {
        if let ErrPile::FromValue(v) = self {
            return v.extract_error_from_json();
        }
        match self.cause_text() {
            Some(t) => t,
            None => self.display_message(),
        }
    }
}

/// The human-readable category label of a status code, by the fixed range
/// table: informational and redirection ranges, explicit names for the common
/// client and server errors, the range fallbacks, and unknown otherwise.
pub open spec fn status_category_spec(code: u16) -> Seq<char> {
    if 100 <= code && code <= 199 {
        "Informational"@
    } else if 300 <= code && code <= 399 {
        "Redirection"@
    } else if code == 400 {
        "Bad Request"@
    } else if code == 401 {
        "Unauthorized"@
    } else if code == 403 {
        "Forbidden"@
    } else if code == 404 {
        "Not Found"@
    } else if code == 408 {
        "Request Timeout"@
    } else if code == 409 {
        "Conflict"@
    } else if code == 410 {
        "Gone"@
    } else if code == 413 {
        "Payload Too Large"@
    } else if code == 414 {
        "URI Too Long"@
    } else if code == 415 {
        "Unsupported Media Type"@
    } else if code == 422 {
        "Unprocessable Entity"@
    } else if code == 429 {
        "Too Many Requests"@
    } else if 430 <= code && code <= 499 {
        "Client Error"@
    } else if code == 500 {
        "Internal Server Error"@
    } else if code == 501 {
        "Not Implemented"@
    } else if code == 502 {
        "Bad Gateway"@
    } else if code == 503 {
        "Service Unavailable"@
    } else if code == 504 {
        "Gateway Timeout"@
    } else if code == 507 {
        "Insufficient Storage"@
    } else if 508 <= code && code <= 599 {
        "Server Error"@
    } else {
        "Unknown Error"@
    }
}

/// The category label of a status code, executably.
pub fn status_category(code: u16) -> (r: &'static str)
    ensures
        r@ == status_category_spec(code),
{
    if 100 <= code && code <= 199 {
        "Informational"
    } else if 300 <= code && code <= 399 {
        "Redirection"
    } else if code == 400 {
        "Bad Request"
    } else if code == 401 {
        "Unauthorized"
    } else if code == 403 {
        "Forbidden"
    } else if code == 404 {
        "Not Found"
    } else if code == 408 {
        "Request Timeout"
    } else if code == 409 {
        "Conflict"
    } else if code == 410 {
        "Gone"
    } else if code == 413 {
        "Payload Too Large"
    } else if code == 414 {
        "URI Too Long"
    } else if code == 415 {
        "Unsupported Media Type"
    } else if code == 422 {
        "Unprocessable Entity"
    } else if code == 429 {
        "Too Many Requests"
    } else if 430 <= code && code <= 499 {
        "Client Error"
    } else if code == 500 {
        "Internal Server Error"
    } else if code == 501 {
        "Not Implemented"
    } else if code == 502 {
        "Bad Gateway"
    } else if code == 503 {
        "Service Unavailable"
    } else if code == 504 {
        "Gateway Timeout"
    } else if code == 507 {
        "Insufficient Storage"
    } else if 508 <= code && code <= 599 {
        "Server Error"
    } else {
        "Unknown Error"
    }
}

/// The message of the fallback error built when a failure body cannot be
/// read at all: the category label, the code, and the reader's own error.
pub open spec fn unreadable_body_message(code: u16, read_err: Seq<char>) -> Seq<char> {
    status_category_spec(code) + " ("@ + dec_digits(code as nat)
        + "): Failed to read error response: "@ + read_err
}

/// The error reported when the failure body of a response with the given
/// status code could not be read; `read_err` is the display text of the
/// reader's failure.
pub fn unreadable_body_error(code: u16, read_err: &str) -> (r: ErrPile)
    ensures
        r matches ErrPile::Custom(m) && m@ == unreadable_body_message(code, read_err@),
{
    let mut m = String::from_str(status_category(code));
    m.append(" (");
    append_u16_dec(&mut m, code);
    m.append("): Failed to read error response: ");
    m.append(read_err);
    ErrPile::Custom(m)
}

/// The error a failure body stands for: a body that parses as the Azure-style
/// structured schema becomes the structured variant, and any other body is
/// wrapped whole as the opaque variant, its message left to be extracted on
/// demand.
pub fn error_from_body(body: JsonVal) -> (r: ErrPile)
    ensures
        az_error_spec(body) is Some ==> (r matches ErrPile::AZ(e) && az_error_spec(body) == Some(
            az_error_view(*e),
        )),
        az_error_spec(body) is None ==> (r matches ErrPile::FromValue(v) && v.0 == body),
{
    match parse_az_error(&body) {
        Some(az) => ErrPile::AZ(Box::new(az)),
        None => ErrPile::FromValue(SerdeValue(body)),
    }
}

/// Wrapping an external failure preserves it as the retrievable cause: for
/// every variant that has a cause, the source string is exactly the cause's
/// display text.
pub proof fn lemma_wrap_preserves_cause(e: ErrPile)
    requires
        !(e is FromValue),
        cause_text_spec(e) is Some,
    ensures
        cause_text_spec(e) == Some(source_str_spec(e)),
{
}

/// An HTTP failure is transient exactly when the captured status code is one
/// of the retryable ones, and never when no response was received.
pub proof fn lemma_http_transience(h: HttpFailure)
    ensures
        is_transient_spec(ErrPile::Req(h)) <==> (h.status matches Some(code) && transient_status(
            code,
        )),
{
}

/// An I/O failure is transient exactly when its kind is in the transient set.
pub proof fn lemma_io_transience(f: IoFailure)
    ensures
        is_transient_spec(ErrPile::IO(f)) <==> transient_io_kind(f.kind),
{
}

/// A database failure is transient exactly when it wraps a transient I/O
/// failure, or the database reported the error itself, or the pool timed out
/// or was closed.
pub proof fn lemma_db_transience(d: DbFailure)
    ensures
        is_transient_spec(ErrPile::DB(d)) <==> (d.kind matches DbKind::IoErr(k)
            && transient_io_kind(k)) || d.kind == DbKind::DatabaseErr || d.kind
            == DbKind::PoolTimedOut || d.kind == DbKind::PoolClosed,
{
}

/// The not-ready sentinel is always transient; the authentication, permission
/// and in-use sentinels never are.
pub proof fn lemma_sentinel_transience()
    ensures
        is_transient_spec(ErrPile::NotReady),
        !is_transient_spec(ErrPile::Auth),
        !is_transient_spec(ErrPile::Permission),
        !is_transient_spec(ErrPile::InUse),
{
}

/// Constructing the free-text fallback from a message and reading the display
/// or source string back yields the message unchanged.
pub proof fn lemma_custom_round_trip(e: ErrPile, msg: Seq<char>)
    requires
        e matches ErrPile::Custom(m) && m@ == msg,
    ensures
        display_spec(e) == msg,
        source_str_spec(e) == msg,
{
}

/// A body of the shape `{"error": {"code": ..., "message": ...}}` parses as
/// the structured Azure-style schema, so `error_from_body` turns it into the
/// structured variant rather than the opaque one.
pub proof fn lemma_structured_body_parses(v: JsonVal, code: String, message: String)
    requires
        v matches JsonVal::Obj(entries) && entries@.len() == 1 && entries@[0].0@ == "error"@ && (
        entries@[0].1 matches JsonVal::Obj(inner) && inner@.len() == 2 && inner@[0].0@ == "code"@
            && inner@[0].1 == JsonVal::Str(code) && inner@[1].0@ == "message"@ && inner@[1].1
            == JsonVal::Str(message)),
    ensures
        az_error_spec(v) matches Some(e) && e.error.code == code@ && e.error.message == message@
            && e.error.target is None && e.error.details is None && e.error.innererror is None,
{
    reveal_strlit("error");
    reveal_strlit("code");
    reveal_strlit("message");
    reveal_strlit("target");
    reveal_strlit("details");
    reveal_strlit("innererror");
    assert("code"@.len() == 4 && "message"@.len() == 7 && "target"@.len() == 6 && "details"@.len()
        == 7 && "innererror"@.len() == 10);
    assert("message"@[0] == 'm' && "details"@[0] == 'd');
    assert("code"@ != "message"@ && "code"@ != "target"@ && "code"@ != "details"@ && "code"@
        != "innererror"@);
    assert("message"@ != "target"@ && "message"@ != "details"@ && "message"@ != "innererror"@);
    let entries = v->Obj_0;
    let inner = entries@[0].1->Obj_0;
    let rest1 = inner@.drop_first();
    let rest2 = rest1.drop_first();
    assert(rest1[0] == inner@[1]);
    assert(rest2 =~= Seq::<(String, JsonVal)>::empty());
    assert(find_val(entries@, "error"@) == Some(entries@[0].1));
    assert(find_val(inner@, "code"@) == Some(JsonVal::Str(code)));
    assert(find_val(rest1, "message"@) == Some(JsonVal::Str(message)));
    assert(find_val(inner@, "message"@) == Some(JsonVal::Str(message)));
    assert(find_val(rest2, "target"@) is None);
    assert(find_val(rest1, "target"@) is None);
    assert(find_val(inner@, "target"@) is None);
    assert(find_val(rest2, "details"@) is None);
    assert(find_val(rest1, "details"@) is None);
    assert(find_val(inner@, "details"@) is None);
    assert(find_val(rest2, "innererror"@) is None);
    assert(find_val(rest1, "innererror"@) is None);
    assert(find_val(inner@, "innererror"@) is None);
}

} // verus!
