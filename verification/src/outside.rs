//! The boundary to the external failure domains: declarations of the foreign
//! error types and the total conversions from them into the taxonomy.
//!
//! Each conversion keeps the foreign error's display text as the retrievable
//! cause; the conversions whose variant the retry classification inspects
//! also read the inspected facts (status code, I/O kind, database category)
//! through small trusted wrappers, and everything decided on those facts is
//! verified over every value they could return.

use crate::{DbFailure, DbKind, ErrPile, HttpFailure, IoFailure, IoKind};
use vstd::prelude::*;
use vstd::string::to_string_from_display_ensures;

verus! {

#[verifier::external_type_specification]
#[verifier::external_body]
pub struct ExUrlParseError(url::ParseError);

#[verifier::external_type_specification]
#[verifier::external_body]
pub struct ExSerdeJsonError(serde_json::Error);

#[verifier::external_type_specification]
#[verifier::external_body]
pub struct ExBase64DecodeError(base64::DecodeError);

#[verifier::external_type_specification]
#[verifier::external_body]
pub struct ExZipError(zip::result::ZipError);

#[verifier::external_type_specification]
#[verifier::external_body]
pub struct ExJoinError(tokio::task::JoinError);

#[verifier::external_type_specification]
#[verifier::external_body]
pub struct ExImageError(image::ImageError);

#[verifier::external_type_specification]
#[verifier::external_body]
pub struct ExToStrError(reqwest::header::ToStrError);

#[verifier::external_type_specification]
#[verifier::external_body]
pub struct ExReqwestError(reqwest::Error);

#[verifier::external_type_specification]
#[verifier::external_body]
pub struct ExRusshError(russh::Error);

#[verifier::external_type_specification]
#[verifier::external_body]
pub struct ExRusshSftpError(russh_sftp::client::error::Error);

#[verifier::external_type_specification]
#[verifier::external_body]
pub struct ExGraphFailure(graph_rs_sdk::GraphFailure);

#[verifier::external_type_specification]
#[verifier::external_body]
pub struct ExGraphErrorMessage(graph_rs_sdk::error::ErrorMessage);

#[verifier::external_type_specification]
#[verifier::external_body]
pub struct ExPdfiumError(pdfium_render::prelude::PdfiumError);

#[verifier::external_type_specification]
#[verifier::external_body]
pub struct ExSqlxError(sqlx::Error);

#[verifier::external_type_specification]
#[verifier::external_body]
pub struct ExIoError(std::io::Error);

#[verifier::external_type_specification]
#[verifier::external_body]
pub struct ExIoErrorKind(std::io::ErrorKind);

/// Relies on std::io::Error::kind: the kind of this I/O error.
pub assume_specification[ std::io::Error::kind ](e: &std::io::Error) -> std::io::ErrorKind;

/// Relies on matching std::io::ErrorKind: each named connection-level kind
/// maps to its counterpart of the taxonomy's model; the remaining kinds are
/// told apart by `io_kind_model_rest`.
#[verifier::external_body]
fn io_kind_model(k: std::io::ErrorKind) -> (r: IoKind) {
    match k {
        std::io::ErrorKind::WouldBlock => IoKind::WouldBlock,
        std::io::ErrorKind::TimedOut => IoKind::TimedOut,
        std::io::ErrorKind::Interrupted => IoKind::Interrupted,
        std::io::ErrorKind::ConnectionReset => IoKind::ConnectionReset,
        std::io::ErrorKind::ConnectionAborted => IoKind::ConnectionAborted,
        std::io::ErrorKind::NotConnected => IoKind::NotConnected,
        std::io::ErrorKind::ConnectionRefused => IoKind::ConnectionRefused,
        std::io::ErrorKind::AddrInUse => IoKind::AddrInUse,
        other => io_kind_model_rest(other),
    }
}

/// Relies on matching std::io::ErrorKind: the named kinds not handled by
/// `io_kind_model` map to their counterparts, every other kind to
/// `OtherKind`.
#[verifier::external_body]
fn io_kind_model_rest(k: std::io::ErrorKind) -> (r: IoKind) {
    match k {
        std::io::ErrorKind::Deadlock => IoKind::Deadlock,
        std::io::ErrorKind::HostUnreachable => IoKind::HostUnreachable,
        std::io::ErrorKind::NetworkDown => IoKind::NetworkDown,
        std::io::ErrorKind::NetworkUnreachable => IoKind::NetworkUnreachable,
        std::io::ErrorKind::ResourceBusy => IoKind::ResourceBusy,
        std::io::ErrorKind::NotFound => IoKind::NotFound,
        std::io::ErrorKind::PermissionDenied => IoKind::PermissionDenied,
        _ => IoKind::OtherKind,
    }
}

/// The shape of a database failure as the foreign crate reports it; the
/// wrapped I/O failure keeps its foreign kind until the model maps it.
enum DbShape {
    IoErr(std::io::ErrorKind),
    DatabaseErr,
    PoolTimedOut,
    PoolClosed,
    OtherDbErr,
}

/// Relies on matching sqlx::Error's variants: an I/O failure hands on its
/// kind, the reported-by-the-database, pool-timed-out and pool-closed cases
/// map to their own shapes, and every other variant to `OtherDbErr`.
#[verifier::external_body]
fn db_shape(e: &sqlx::Error) -> (r: DbShape) {
    match e {
        sqlx::Error::Io(err) => DbShape::IoErr(err.kind()),
        sqlx::Error::Database(_) => DbShape::DatabaseErr,
        sqlx::Error::PoolTimedOut => DbShape::PoolTimedOut,
        sqlx::Error::PoolClosed => DbShape::PoolClosed,
        _ => DbShape::OtherDbErr,
    }
}

/// Relies on reqwest::Error::status and http::StatusCode::as_u16: the numeric
/// status of the response this failure carries, absent when the exchange
/// never completed.
#[verifier::external_body]
fn reqwest_status(e: &reqwest::Error) -> (r: Option<u16>) {
    match e.status() {
        Some(s) => Some(s.as_u16()),
        None => None,
    }
}

/// Wraps a URL-parsing failure, keeping its display text as the cause.
pub fn from_url(e: url::ParseError) -> (r: ErrPile)
    ensures
        r matches ErrPile::Url(t) && to_string_from_display_ensures(&e, t),
{
    ErrPile::Url(e.to_string())
}

/// Wraps a JSON (de)serialization failure, keeping its display text as the
/// cause.
pub fn from_serde_json(e: serde_json::Error) -> (r: ErrPile)
    ensures
        r matches ErrPile::Json(t) && to_string_from_display_ensures(&e, t),
{
    ErrPile::Json(e.to_string())
}

/// Wraps a base64 decoding failure, keeping its display text as the cause.
pub fn from_base64(e: base64::DecodeError) -> (r: ErrPile)
    ensures
        r matches ErrPile::Decode(t) && to_string_from_display_ensures(&e, t),
{
    ErrPile::Decode(e.to_string())
}

/// Wraps a zip-archive failure, keeping its display text as the cause.
pub fn from_zip(e: zip::result::ZipError) -> (r: ErrPile)
    ensures
        r matches ErrPile::Zip(t) && to_string_from_display_ensures(&e, t),
{
    ErrPile::Zip(e.to_string())
}

/// Wraps a failed or panicked task join, keeping its display text as the
/// cause.
pub fn from_join(e: tokio::task::JoinError) -> (r: ErrPile)
    ensures
        r matches ErrPile::Thread(t) && to_string_from_display_ensures(&e, t),
{
    ErrPile::Thread(e.to_string())
}

/// Wraps an image-processing failure, keeping its display text as the cause.
pub fn from_image(e: image::ImageError) -> (r: ErrPile)
    ensures
        r matches ErrPile::Image(t) && to_string_from_display_ensures(&e, t),
{
    ErrPile::Image(e.to_string())
}

/// Wraps a header-to-string conversion failure, keeping its display text as
/// the cause.
pub fn from_header_to_str(e: reqwest::header::ToStrError) -> (r: ErrPile)
    ensures
        r matches ErrPile::ReqToStr(t) && to_string_from_display_ensures(&e, t),
{
    ErrPile::ReqToStr(e.to_string())
}

/// Wraps an SSH transport failure, keeping its display text as the cause.
pub fn from_ssh(e: russh::Error) -> (r: ErrPile)
    ensures
        r matches ErrPile::Ssh(t) && to_string_from_display_ensures(&e, t),
{
    ErrPile::Ssh(e.to_string())
}

/// Wraps an SFTP client failure, keeping its display text as the cause.
pub fn from_sftp(e: russh_sftp::client::error::Error) -> (r: ErrPile)
    ensures
        r matches ErrPile::Sftp(t) && to_string_from_display_ensures(&e, t),
{
    ErrPile::Sftp(e.to_string())
}

/// Wraps a Graph API failure, keeping its display text as the cause.
pub fn from_graph(e: Box<graph_rs_sdk::GraphFailure>) -> (r: ErrPile)
    ensures
        r matches ErrPile::Graph(t) && to_string_from_display_ensures(&e, t),
{
    ErrPile::Graph(e.to_string())
}

/// Wraps a Graph-reported error message, keeping its display text as the
/// cause.
pub fn from_graph_error_message(e: Box<graph_rs_sdk::error::ErrorMessage>) -> (r: ErrPile)
    ensures
        r matches ErrPile::GraphErrMSg(t) && to_string_from_display_ensures(&e, t),
{
    ErrPile::GraphErrMSg(e.to_string())
}

/// Wraps a PDF processing failure, keeping its display text as the cause.
pub fn from_pdfium(e: pdfium_render::prelude::PdfiumError) -> (r: ErrPile)
    ensures
        r matches ErrPile::ExtractPdf(t) && to_string_from_display_ensures(&e, t),
{
    ErrPile::ExtractPdf(e.to_string())
}

/// Wraps an I/O failure, keeping its display text as the cause and its kind
/// for the retry classification.
pub fn from_io(e: std::io::Error) -> (r: ErrPile)
    ensures
        r matches ErrPile::IO(f) && to_string_from_display_ensures(&e, f.text),
{
    let text = e.to_string();
    let kind = io_kind_model(e.kind());
    ErrPile::IO(IoFailure { text, kind })
}

/// Wraps a database failure, keeping its display text as the cause and its
/// category for the retry classification.
pub fn from_sqlx(e: sqlx::Error) -> (r: ErrPile)
    ensures
        r matches ErrPile::DB(d) && to_string_from_display_ensures(&e, d.text),
{
    let text = e.to_string();
    let kind = match db_shape(&e) {
        DbShape::IoErr(k) => DbKind::IoErr(io_kind_model(k)),
        DbShape::DatabaseErr => DbKind::DatabaseErr,
        DbShape::PoolTimedOut => DbKind::PoolTimedOut,
        DbShape::PoolClosed => DbKind::PoolClosed,
        DbShape::OtherDbErr => DbKind::OtherDbErr,
    };
    ErrPile::DB(DbFailure { text, kind })
}

/// Wraps an HTTP client failure, keeping its display text as the cause and
/// the response status, when there was a response, for the retry
/// classification.
pub fn from_reqwest(e: reqwest::Error) -> (r: ErrPile)
    ensures
        r matches ErrPile::Req(h) && to_string_from_display_ensures(&e, h.text),
{
    let text = e.to_string();
    let status = reqwest_status(&e);
    ErrPile::Req(HttpFailure { text, status })
}

} // verus!
