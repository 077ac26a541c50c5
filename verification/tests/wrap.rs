use base64::Engine;
use errpile::outside::{
    from_base64, from_graph, from_graph_error_message, from_header_to_str, from_image, from_io,
    from_pdfium, from_serde_json, from_sftp, from_sqlx, from_ssh, from_url, from_zip,
};
use errpile::ErrPile;

#[test]
fn url_error_wraps_with_its_display() {
    let e = url::Url::parse("http://[:::1]").unwrap_err();
    let text = e.to_string();
    let p = from_url(e);
    assert!(matches!(p, ErrPile::Url(_)));
    assert_eq!(p.source_str(), text);
    assert_eq!(p.display_message(), "An error occurred while parsing the URL");
    assert!(!p.is_transient());
}

#[test]
fn serde_json_error_wraps_with_its_display() {
    let e = serde_json::from_str::<serde_json::Value>("{").unwrap_err();
    let text = e.to_string();
    let p = from_serde_json(e);
    assert!(matches!(p, ErrPile::Json(_)));
    assert_eq!(p.source_str(), text);
    assert_eq!(p.display_message(), "Error parsing Json Data (Serde)");
}

#[test]
fn base64_error_wraps_with_its_display() {
    let e = base64::engine::general_purpose::STANDARD.decode("%%%").unwrap_err();
    let text = e.to_string();
    let p = from_base64(e);
    assert!(matches!(p, ErrPile::Decode(_)));
    assert_eq!(p.source_str(), text);
}

#[test]
fn zip_error_wraps_with_its_display() {
    let e = zip::result::ZipError::FileNotFound;
    let text = e.to_string();
    let p = from_zip(e);
    assert!(matches!(p, ErrPile::Zip(_)));
    assert_eq!(p.source_str(), text);
}

#[test]
fn image_error_wraps_with_its_display() {
    let e = image::load_from_memory(&[0u8]).unwrap_err();
    let text = e.to_string();
    let p = from_image(e);
    assert!(matches!(p, ErrPile::Image(_)));
    assert_eq!(p.source_str(), text);
}

#[test]
fn header_error_wraps_with_its_display() {
    let value = reqwest::header::HeaderValue::from_bytes(&[0xff]).unwrap();
    let e = value.to_str().unwrap_err();
    let text = e.to_string();
    let p = from_header_to_str(e);
    assert!(matches!(p, ErrPile::ReqToStr(_)));
    assert_eq!(p.source_str(), text);
}

#[test]
fn ssh_error_wraps_with_its_display() {
    let e = russh::Error::CouldNotReadKey;
    let text = e.to_string();
    let p = from_ssh(e);
    assert!(matches!(p, ErrPile::Ssh(_)));
    assert_eq!(p.source_str(), text);
    assert_eq!(p.display_message(), "An error occurred with SSH");
}

#[test]
fn sftp_error_wraps_with_its_display() {
    let e = russh_sftp::client::error::Error::Timeout;
    let text = e.to_string();
    let p = from_sftp(e);
    assert!(matches!(p, ErrPile::Sftp(_)));
    assert_eq!(p.source_str(), text);
}

#[test]
fn pdfium_error_wraps_with_its_display() {
    let e = pdfium_render::prelude::PdfiumError::PdfiumLibraryBindingsAlreadyInitialized;
    let text = e.to_string();
    let p = from_pdfium(e);
    assert!(matches!(p, ErrPile::ExtractPdf(_)));
    assert_eq!(p.source_str(), text);
}

#[test]
fn graph_failure_wraps_with_its_display() {
    let inner = std::io::Error::from(std::io::ErrorKind::TimedOut);
    let e = Box::new(graph_rs_sdk::GraphFailure::Io(inner));
    let text = e.to_string();
    let p = from_graph(e);
    assert!(matches!(p, ErrPile::Graph(_)));
    assert_eq!(p.source_str(), text);
}

#[test]
fn graph_error_message_wraps_with_its_display() {
    let e = Box::new(graph_rs_sdk::error::ErrorMessage::default());
    let text = e.to_string();
    let p = from_graph_error_message(e);
    assert!(matches!(p, ErrPile::GraphErrMSg(_)));
    assert_eq!(p.source_str(), text);
    assert_eq!(p.display_message(), "Graph Error Message");
}

#[test]
fn io_error_keeps_kind_for_classification() {
    let timed_out = std::io::Error::from(std::io::ErrorKind::TimedOut);
    let text = timed_out.to_string();
    let p = from_io(timed_out);
    assert!(matches!(p, ErrPile::IO(_)));
    assert_eq!(p.source_str(), text);
    assert!(p.is_transient());

    let not_found = std::io::Error::from(std::io::ErrorKind::NotFound);
    assert!(!from_io(not_found).is_transient());
}

#[test]
fn sqlx_error_keeps_category_for_classification() {
    let p = from_sqlx(sqlx::Error::PoolTimedOut);
    assert!(matches!(p, ErrPile::DB(_)));
    assert!(p.is_transient());

    let p = from_sqlx(sqlx::Error::PoolClosed);
    assert!(p.is_transient());

    let p = from_sqlx(sqlx::Error::RowNotFound);
    assert!(!p.is_transient());

    let reset = std::io::Error::from(std::io::ErrorKind::ConnectionReset);
    let p = from_sqlx(sqlx::Error::Io(reset));
    assert!(p.is_transient());

    let denied = std::io::Error::from(std::io::ErrorKind::PermissionDenied);
    let p = from_sqlx(sqlx::Error::Io(denied));
    assert!(!p.is_transient());
}

#[test]
fn sqlx_error_keeps_its_display_as_cause() {
    let e = sqlx::Error::RowNotFound;
    let text = e.to_string();
    let p = from_sqlx(e);
    assert_eq!(p.source_str(), text);
    assert_eq!(p.display_message(), "Error connecting/ storing to DB");
}
