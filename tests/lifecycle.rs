use study_core::error::AppError;
use study_core::ledger::{Document, ProcessedDocument, ProcessingStatus};
use study_core::upload::upload_receipt;

fn processed(text: &str, pages: u64) -> ProcessedDocument {
    ProcessedDocument { extracted_text: text.to_string(), page_count: pages }
}

#[test]
fn document_starts_pending() {
    let d = Document::new(4, "a.pdf".to_string(), "s/1-a.pdf".to_string());
    assert_eq!(d.status, ProcessingStatus::Pending);
    assert!(d.extracted_text.is_none());
    assert!(d.page_count.is_none());
    assert_eq!(d.status.as_str(), "pending");
}

#[test]
fn document_completes_through_processing() {
    let mut d = Document::new(1, "a.pdf".to_string(), "p".to_string());
    assert_eq!(d.begin_processing(), Ok(()));
    assert_eq!(d.status, ProcessingStatus::Processing);
    assert_eq!(d.status.as_str(), "processing");
    assert_eq!(d.finish(Ok(processed("hello", 2))), Ok(()));
    assert_eq!(d.status, ProcessingStatus::Completed);
    assert_eq!(d.extracted_text.as_deref(), Some("hello"));
    assert_eq!(d.page_count, Some(2));
    assert_eq!(d.status.as_str(), "completed");
}

#[test]
fn document_cannot_skip_processing() {
    let mut d = Document::new(1, "a.pdf".to_string(), "p".to_string());
    assert_eq!(d.finish(Ok(processed("x", 1))), Err(AppError::InvalidState));
    assert_eq!(d.status, ProcessingStatus::Pending);
    assert!(d.extracted_text.is_none());
}

#[test]
fn document_failure_keeps_cause() {
    let mut d = Document::new(1, "a.pdf".to_string(), "p".to_string());
    d.begin_processing().unwrap();
    assert_eq!(d.finish(Err(AppError::UpstreamFailure)), Ok(()));
    assert_eq!(d.status, ProcessingStatus::Failed);
    assert_eq!(d.failure, Some(AppError::UpstreamFailure));
    assert!(d.extracted_text.is_none());
    assert!(d.page_count.is_none());
    assert_eq!(d.status.as_str(), "failed");
    assert_eq!(d.begin_processing(), Err(AppError::InvalidState));
    assert_eq!(d.finish(Ok(processed("x", 1))), Err(AppError::InvalidState));
    assert_eq!(d.status, ProcessingStatus::Failed);
}

#[test]
fn finished_document_stays_finished() {
    let mut d = Document::new(1, "a.pdf".to_string(), "p".to_string());
    d.begin_processing().unwrap();
    d.finish(Ok(processed("t", 1))).unwrap();
    assert_eq!(d.begin_processing(), Err(AppError::InvalidState));
    assert_eq!(d.finish(Err(AppError::ConversionFailure)), Err(AppError::InvalidState));
    assert_eq!(d.status, ProcessingStatus::Completed);
    assert_eq!(d.extracted_text.as_deref(), Some("t"));
}

#[test]
fn receipt_reports_pending_document() {
    let d = Document::new(12, "Notes.pdf".to_string(), "s/9-Notes.pdf".to_string());
    let r = upload_receipt(&d);
    assert_eq!(r.id, "12");
    assert_eq!(r.file_name, "Notes.pdf");
    assert_eq!(r.file_path, "s/9-Notes.pdf");
    assert_eq!(r.extraction_status, "pending");
    assert_eq!(r.message, "File uploaded successfully. Text extraction in progress.");
}
