//! The status ledger of uploaded documents: `Pending -> Processing ->
//! {Completed, Failed}`, with the extracted text and page count recorded
//! exactly on completion and the failure cause recorded on failure.
use vstd::prelude::*;
use crate::error::AppError;

verus! {

/// The extraction status of a document.
#[derive(Debug, Clone, Copy, PartialEq, Eq, Structural)]
pub enum ProcessingStatus {
    Pending,
    Processing,
    Completed,
    Failed,
}

/// The name under which a status is stored and reported.
pub open spec fn status_name(s: ProcessingStatus) -> Seq<char> {
    match s {
        ProcessingStatus::Pending => "pending"@,
        ProcessingStatus::Processing => "processing"@,
        ProcessingStatus::Completed => "completed"@,
        ProcessingStatus::Failed => "failed"@,
    }
}

impl ProcessingStatus {
    /// The stored name of the status.
    pub fn as_str(&self) -> (r: &'static str)
        ensures
            r@ == status_name(*self),
    {
        match self {
            ProcessingStatus::Pending => "pending",
            ProcessingStatus::Processing => "processing",
            ProcessingStatus::Completed => "completed",
            ProcessingStatus::Failed => "failed",
        }
    }
}

/// The only status changes a document may undergo.
pub open spec fn allowed_transition(from: ProcessingStatus, to: ProcessingStatus) -> bool {
    ||| from == ProcessingStatus::Pending && to == ProcessingStatus::Processing
    ||| from == ProcessingStatus::Processing && to == ProcessingStatus::Completed
    ||| from == ProcessingStatus::Processing && to == ProcessingStatus::Failed
}

/// The output of the extraction pipeline for one document.
pub struct ProcessedDocument {
    pub extracted_text: String,
    pub page_count: u64,
}

/// An uploaded document and its place in the extraction lifecycle.
pub struct Document {
    pub id: u64,
    pub file_name: String,
    pub file_path: String,
    pub status: ProcessingStatus,
    pub extracted_text: Option<String>,
    pub page_count: Option<u64>,
    /// Why extraction failed, when it did.
    pub failure: Option<AppError>,
}

/// The mathematical value of a document's lifecycle state.
pub struct DocumentView {
    pub status: ProcessingStatus,
    pub text: Option<Seq<char>>,
    pub page_count: Option<nat>,
    pub failure: Option<AppError>,
}

impl View for Document {
    type V = DocumentView;

    open spec fn view(&self) -> DocumentView {
        DocumentView {
            status: self.status,
            text: match self.extracted_text {
                Some(t) => Some(t@),
                None => None,
            },
            page_count: match self.page_count {
                Some(p) => Some(p as nat),
                None => None,
            },
            failure: self.failure,
        }
    }
}

/// Text and page count are present exactly when the document is completed;
/// a failure cause is present exactly when it failed.
pub open spec fn ledger_wf(d: DocumentView) -> bool {
    &&& d.text.is_some() <==> d.status == ProcessingStatus::Completed
    &&& d.page_count.is_some() <==> d.status == ProcessingStatus::Completed
    &&& d.failure.is_some() <==> d.status == ProcessingStatus::Failed
}

/// What can happen to a document's lifecycle.
pub enum LedgerEvent {
    Begin,
    Complete { text: Seq<char>, page_count: nat },
    Fail { cause: AppError },
}

/// The state after an event; an event that does not apply changes nothing.
pub open spec fn ledger_step(d: DocumentView, e: LedgerEvent) -> DocumentView {
    match e {
        LedgerEvent::Begin => if d.status == ProcessingStatus::Pending {
            DocumentView { status: ProcessingStatus::Processing, ..d }
        } else {
            d
        },
        LedgerEvent::Complete { text, page_count } => if d.status == ProcessingStatus::Processing {
            DocumentView {
                status: ProcessingStatus::Completed,
                text: Some(text),
                page_count: Some(page_count),
                ..d
            }
        } else {
            d
        },
        LedgerEvent::Fail { cause } => if d.status == ProcessingStatus::Processing {
            DocumentView { status: ProcessingStatus::Failed, failure: Some(cause), ..d }
        } else {
            d
        },
    }
}

/// The state of a freshly uploaded document.
pub open spec fn uploaded() -> DocumentView {
    DocumentView { status: ProcessingStatus::Pending, text: None, page_count: None, failure: None }
}

/// The state after a sequence of events.
pub open spec fn ledger_run(d: DocumentView, es: Seq<LedgerEvent>) -> DocumentView
    decreases es.len(),
{
    if es.len() == 0 {
        d
    } else {
        ledger_step(ledger_run(d, es.drop_last()), es.last())
    }
}

/// The event that the outcome of the extraction pipeline amounts to.
pub open spec fn outcome_event(outcome: Result<ProcessedDocument, AppError>) -> LedgerEvent {
    match outcome {
        Ok(doc) => LedgerEvent::Complete {
            text: doc.extracted_text@,
            page_count: doc.page_count as nat,
        },
        Err(cause) => LedgerEvent::Fail { cause },
    }
}

impl Document {
    /// A newly uploaded document, pending extraction.
    pub fn new(id: u64, file_name: String, file_path: String) -> (r: Document)
        ensures
            r@ == uploaded(),
            r.id == id,
            r.file_name == file_name,
            r.file_path == file_path,
    {
        Document {
            id,
            file_name,
            file_path,
            status: ProcessingStatus::Pending,
            extracted_text: None,
            page_count: None,
            failure: None,
        }
    }

    /// Marks the start of extraction; only a pending document may start.
    pub fn begin_processing(&mut self) -> (r: Result<(), AppError>)
        ensures
            final(self)@ == ledger_step(old(self)@, LedgerEvent::Begin),
            r is Ok <==> old(self).status == ProcessingStatus::Pending,
            r is Err ==> r->Err_0 == AppError::InvalidState,
            final(self).id == old(self).id,
            final(self).file_name == old(self).file_name,
            final(self).file_path == old(self).file_path,
    {
        if self.status != ProcessingStatus::Pending {
            return Err(AppError::InvalidState);
        }
        self.status = ProcessingStatus::Processing;
        Ok(())
    }

    /// Records the outcome of the extraction pipeline: the text and page count
    /// on success, the cause on failure. Only a processing document may finish.
    pub fn finish(&mut self, outcome: Result<ProcessedDocument, AppError>) -> (r: Result<(), AppError>)
        ensures
            final(self)@ == ledger_step(old(self)@, outcome_event(outcome)),
            r is Ok <==> old(self).status == ProcessingStatus::Processing,
            r is Err ==> r->Err_0 == AppError::InvalidState,
            final(self).id == old(self).id,
            final(self).file_name == old(self).file_name,
            final(self).file_path == old(self).file_path,
    {
        if self.status != ProcessingStatus::Processing {
            return Err(AppError::InvalidState);
        }
        match outcome {
            Ok(doc) => {
                self.status = ProcessingStatus::Completed;
                self.extracted_text = Some(doc.extracted_text);
                self.page_count = Some(doc.page_count);
            },
            Err(cause) => {
                self.status = ProcessingStatus::Failed;
                self.failure = Some(cause);
            },
        }
        Ok(())
    }

    /// Whether extraction completed.
    pub fn is_completed(&self) -> (r: bool)
        ensures
            r == (self.status == ProcessingStatus::Completed),
    {
        self.status == ProcessingStatus::Completed
    }
}

/// One event keeps the ledger well formed, and either changes nothing or
/// moves the status along an allowed transition.
pub proof fn lemma_ledger_step(d: DocumentView, e: LedgerEvent)
    requires
        ledger_wf(d),
    ensures
        ledger_wf(ledger_step(d, e)),
        ledger_step(d, e) == d || allowed_transition(d.status, ledger_step(d, e).status),
{
}

/// Every sequence of events keeps a freshly uploaded document well formed.
pub proof fn lemma_run_wf(es: Seq<LedgerEvent>)
    ensures
        ledger_wf(ledger_run(uploaded(), es)),
    decreases es.len(),
{
    if es.len() > 0 {
        lemma_run_wf(es.drop_last());
        lemma_ledger_step(ledger_run(uploaded(), es.drop_last()), es.last());
    }
}

/// The change made by the `i`-th event of a sequence.
proof fn lemma_transition_at(es: Seq<LedgerEvent>, i: int)
    requires
        0 <= i < es.len(),
    ensures
        ({
            let a = ledger_run(uploaded(), es.take(i));
            let b = ledger_run(uploaded(), es.take(i + 1));
            b == a || allowed_transition(a.status, b.status)
        }),
{
    assert(es.take(i + 1).drop_last() =~= es.take(i));
    lemma_run_wf(es.take(i));
    lemma_ledger_step(ledger_run(uploaded(), es.take(i)), es[i]);
}

/// Over any sequence of events applied to a freshly uploaded document, every
/// observed status change follows `Pending -> Processing -> {Completed,
/// Failed}`, and a completed document always carries its text and page count.
pub proof fn lemma_status_transitions(es: Seq<LedgerEvent>)
    ensures
        forall|i: int| 0 <= i <= es.len() ==> ledger_wf(#[trigger] ledger_run(uploaded(), es.take(i))),
        forall|i: int| #![trigger es[i]] 0 <= i < es.len() ==> {
            let a = ledger_run(uploaded(), es.take(i));
            let b = ledger_run(uploaded(), es.take(i + 1));
            b == a || allowed_transition(a.status, b.status)
        },
{
    assert forall|i: int| 0 <= i <= es.len() implies ledger_wf(#[trigger] ledger_run(uploaded(), es.take(i))) by {
        lemma_run_wf(es.take(i));
    }
    assert forall|i: int| #![trigger es[i]] 0 <= i < es.len() implies {
        let a = ledger_run(uploaded(), es.take(i));
        let b = ledger_run(uploaded(), es.take(i + 1));
        b == a || allowed_transition(a.status, b.status)
    } by {
        lemma_transition_at(es, i);
    }
}

} // verus!
