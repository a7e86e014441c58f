//! The record of one certificate: its names, its validity window and its
//! exported key, gathered question by question.

use crate::cert_context::{outcome_view, request_view, Answer, AnswerView, CertContext, Query, QueryView};
use crate::error::CertError;
use crate::native::{KeyHandle, NameAttribute, Reply, ReplyView, Request, RequestView};
use vstd::prelude::*;

verus! {

/// What is reported of one certificate.
#[derive(Debug)]
pub struct CertRecord {
    pub friendly_name: String,
    pub name: String,
    pub issuer_name: String,
    pub effective_date: String,
    pub expiration_date: String,
    /// The exported private key.
    pub key: Vec<u8>,
}

pub struct CertRecordView {
    pub friendly_name: Seq<char>,
    pub name: Seq<char>,
    pub issuer_name: Seq<char>,
    pub effective_date: Seq<char>,
    pub expiration_date: Seq<char>,
    pub key: Seq<u8>,
}

impl View for CertRecord {
    type V = CertRecordView;

    open spec fn view(&self) -> CertRecordView {
        CertRecordView {
            friendly_name: self.friendly_name@,
            name: self.name@,
            issuer_name: self.issuer_name@,
            effective_date: self.effective_date@,
            expiration_date: self.expiration_date@,
            key: self.key@,
        }
    }
}

impl CertRecordView {
    /// The record of a certificate of which nothing has been gathered yet.
    pub open spec fn blank() -> CertRecordView {
        CertRecordView {
            friendly_name: Seq::empty(),
            name: Seq::empty(),
            issuer_name: Seq::empty(),
            effective_date: Seq::empty(),
            expiration_date: Seq::empty(),
            key: Seq::empty(),
        }
    }
}

impl CertRecord {
    /// The record of a certificate of which nothing has been gathered yet.
    pub fn blank() -> (record: CertRecord)
        ensures
            record@ == CertRecordView::blank(),
    {
        CertRecord {
            friendly_name: String::new(),
            name: String::new(),
            issuer_name: String::new(),
            effective_date: String::new(),
            expiration_date: String::new(),
            key: Vec::new(),
        }
    }
}

/// What is gathered of a certificate, in the order in which it is asked for.
#[derive(Clone, Copy, Debug, PartialEq, Eq, Structural)]
pub enum Field {
    Exportable,
    FriendlyName,
    Name,
    IssuerName,
    EffectiveDate,
    ExpirationDate,
    Key,
}

/// The gathering of one record, in the state that the replies so far have
/// brought it to.
#[derive(Debug)]
pub enum Extraction {
    /// Asks for one field; `record` holds the fields before it.
    Gathering { cert: usize, field: Field, question: Query, record: CertRecord },
    /// Holds the record, or the reason why there is none.
    Finished(Result<CertRecord, CertError>),
}

pub enum ExtractionView {
    Gathering { cert: usize, field: Field, question: QueryView, record: CertRecordView },
    Finished(Result<CertRecordView, CertError>),
}

/// The model of a record or the failure in its place.
pub open spec fn record_view(outcome: Result<CertRecord, CertError>) -> Result<
    CertRecordView,
    CertError,
> {
    match outcome {
        Ok(record) => Ok(record@),
        Err(error) => Err(error),
    }
}

impl View for Extraction {
    type V = ExtractionView;

    open spec fn view(&self) -> ExtractionView {
        match *self {
            Extraction::Gathering { cert, field, question, record } => ExtractionView::Gathering {
                cert,
                field,
                question: question@,
                record: record@,
            },
            Extraction::Finished(outcome) => ExtractionView::Finished(record_view(outcome)),
        }
    }
}

/// The text that a question answered with; empty where it failed. A piece of
/// metadata that cannot be read leaves its field empty and the record alive.
pub open spec fn text_or_empty(outcome: Result<AnswerView, CertError>) -> Seq<char> {
    match outcome {
        Ok(AnswerView::Text(text)) => text,
        _ => Seq::empty(),
    }
}

/// The question for the subject's name, or the issuer's, before its first call.
pub open spec fn name_question(cert: usize, issuer: bool) -> QueryView {
    QueryView::NameElement {
        cert,
        issuer,
        attribute: NameAttribute::first_spec(),
        text: Seq::empty(),
        units: 0,
    }
}

impl ExtractionView {
    /// The gathering before its first call: it begins with the question
    /// whether the key can be exported.
    pub open spec fn start(cert: usize) -> ExtractionView {
        ExtractionView::Gathering {
            cert,
            field: Field::Exportable,
            question: QueryView::AcquireModern { cert, export: false },
            record: CertRecordView::blank(),
        }
    }

    /// The native call that the gathering waits for; none once it has finished.
    pub open spec fn request(self) -> Option<RequestView> {
        match self {
            ExtractionView::Gathering { question, .. } => question.request(),
            ExtractionView::Finished(_) => None,
        }
    }

    /// The record or the failure, once the gathering has finished.
    pub open spec fn outcome(self) -> Option<Result<CertRecordView, CertError>> {
        match self {
            ExtractionView::Gathering { .. } => None,
            ExtractionView::Finished(outcome) => Some(outcome),
        }
    }

    /// The key handle that the question in flight has to free.
    pub open spec fn owes(self) -> Option<KeyHandle> {
        match self {
            ExtractionView::Gathering { question, .. } => question.owes(),
            ExtractionView::Finished(_) => None,
        }
    }

    /// The gathering after the question for one field has been answered.
    ///
    /// A key that cannot be exported ends the gathering with the report that
    /// says so; a failure to find that out ends it with that failure. Names
    /// and dates that cannot be read leave their fields empty. An export
    /// that fails ends the gathering with the export error.
    pub open spec fn gathered(
        cert: usize,
        field: Field,
        record: CertRecordView,
        outcome: Result<AnswerView, CertError>,
    ) -> ExtractionView {
        match field {
            Field::Exportable => match outcome {
                Ok(AnswerView::Flag(true)) => ExtractionView::Gathering {
                    cert,
                    field: Field::FriendlyName,
                    question: QueryView::FriendlyName { cert, units: 0 },
                    record,
                },
                Ok(_) => ExtractionView::Finished(Err(CertError::CertNotExportable)),
                Err(error) => ExtractionView::Finished(Err(error)),
            },
            Field::FriendlyName => ExtractionView::Gathering {
                cert,
                field: Field::Name,
                question: name_question(cert, false),
                record: CertRecordView { friendly_name: text_or_empty(outcome), ..record },
            },
            Field::Name => ExtractionView::Gathering {
                cert,
                field: Field::IssuerName,
                question: name_question(cert, true),
                record: CertRecordView { name: text_or_empty(outcome), ..record },
            },
            Field::IssuerName => ExtractionView::Gathering {
                cert,
                field: Field::EffectiveDate,
                question: QueryView::Validity { cert, end: false },
                record: CertRecordView { issuer_name: text_or_empty(outcome), ..record },
            },
            Field::EffectiveDate => ExtractionView::Gathering {
                cert,
                field: Field::ExpirationDate,
                question: QueryView::Validity { cert, end: true },
                record: CertRecordView { effective_date: text_or_empty(outcome), ..record },
            },
            Field::ExpirationDate => ExtractionView::Gathering {
                cert,
                field: Field::Key,
                question: QueryView::AcquireModern { cert, export: true },
                record: CertRecordView { expiration_date: text_or_empty(outcome), ..record },
            },
            Field::Key => ExtractionView::Finished(
                match outcome {
                    Ok(AnswerView::Bytes(key)) => Ok(CertRecordView { key, ..record }),
                    _ => Err(CertError::KeyExport),
                },
            ),
        }
    }

    /// The state that a reply brings the gathering to.
    pub open spec fn advance(self, reply: ReplyView) -> ExtractionView {
        match self {
            ExtractionView::Gathering { cert, field, question, record } => {
                let question = question.advance(reply);
                match question.answer() {
                    None => ExtractionView::Gathering { cert, field, question, record },
                    Some(outcome) => ExtractionView::gathered(cert, field, record, outcome),
                }
            },
            ExtractionView::Finished(_) => self,
        }
    }
}

/// The text that a question answered with; empty where it failed.
fn answered_text(outcome: Result<Answer, CertError>) -> (text: String)
    ensures
        text@ == text_or_empty(outcome_view(outcome)),
{
    match outcome {
        Ok(Answer::Text(text)) => text,
        _ => String::new(),
    }
}

/// Starts to gather the record of a certificate.
pub fn extract_record(cert: &CertContext) -> (extraction: Extraction)
    ensures
        extraction@ == ExtractionView::start(cert.raw()),
        extraction@.wf(),
{
    proof {
        crate::conduct::lemma_gathering_starts_well(cert.raw());
    }
    Extraction::Gathering {
        cert: cert.as_inner(),
        field: Field::Exportable,
        question: cert.is_exportable(),
        record: CertRecord::blank(),
    }
}

impl Extraction {
    /// The native call that the gathering waits for; none once it has finished.
    pub fn request(&self) -> (request: Option<Request>)
        ensures
            request_view(request) == self@.request(),
    {
        match self {
            Extraction::Gathering { question, .. } => question.request(),
            Extraction::Finished(_) => None,
        }
    }

    /// Whether the gathering has finished.
    pub fn is_finished(&self) -> (finished: bool)
        ensures
            finished == self@.outcome().is_some(),
    {
        match self {
            Extraction::Gathering { .. } => false,
            Extraction::Finished(_) => true,
        }
    }

    /// The record or the failure, once the gathering has finished.
    pub fn outcome(self) -> (outcome: Option<Result<CertRecord, CertError>>)
        ensures
            match outcome {
                Some(outcome) => self@.outcome() == Some(record_view(outcome)),
                None => self@.outcome().is_none(),
            },
    {
        match self {
            Extraction::Gathering { .. } => None,
            Extraction::Finished(outcome) => Some(outcome),
        }
    }

    fn gathered(cert: usize, field: Field, record: CertRecord, outcome: Result<Answer, CertError>)
        -> (next: Extraction)
        ensures
            next@ == ExtractionView::gathered(cert, field, record@, outcome_view(outcome)),
    {
        match field {
            Field::Exportable => match outcome {
                Ok(Answer::Flag(true)) => Extraction::Gathering {
                    cert,
                    field: Field::FriendlyName,
                    question: Query::FriendlyName { cert, units: 0 },
                    record,
                },
                Ok(_) => Extraction::Finished(Err(CertError::CertNotExportable)),
                Err(error) => Extraction::Finished(Err(error)),
            },
            Field::FriendlyName => Extraction::Gathering {
                cert,
                field: Field::Name,
                question: Query::NameElement {
                    cert,
                    issuer: false,
                    attribute: NameAttribute::first(),
                    text: String::new(),
                    units: 0,
                },
                record: CertRecord { friendly_name: answered_text(outcome), ..record },
            },
            Field::Name => Extraction::Gathering {
                cert,
                field: Field::IssuerName,
                question: Query::NameElement {
                    cert,
                    issuer: true,
                    attribute: NameAttribute::first(),
                    text: String::new(),
                    units: 0,
                },
                record: CertRecord { name: answered_text(outcome), ..record },
            },
            Field::IssuerName => Extraction::Gathering {
                cert,
                field: Field::EffectiveDate,
                question: Query::Validity { cert, end: false },
                record: CertRecord { issuer_name: answered_text(outcome), ..record },
            },
            Field::EffectiveDate => Extraction::Gathering {
                cert,
                field: Field::ExpirationDate,
                question: Query::Validity { cert, end: true },
                record: CertRecord { effective_date: answered_text(outcome), ..record },
            },
            Field::ExpirationDate => Extraction::Gathering {
                cert,
                field: Field::Key,
                question: Query::AcquireModern { cert, export: true },
                record: CertRecord { expiration_date: answered_text(outcome), ..record },
            },
            Field::Key => Extraction::Finished(
                match outcome {
                    Ok(Answer::Bytes(key)) => Ok(CertRecord { key, ..record }),
                    _ => Err(CertError::KeyExport),
                },
            ),
        }
    }

    /// Moves the gathering on by the reply to the call that it waited for.
    pub fn advance(self, reply: Reply) -> (next: Extraction)
        ensures
            next@ == self@.advance(reply@),
            self@.wf() ==> next@.wf(),
    {
        proof {
            if self@.wf() {
                crate::conduct::lemma_gathering_stays_well(self@, reply@);
            }
        }
        match self {
            Extraction::Gathering { cert, field, question, record } => {
                let question = question.advance(reply);
                if question.is_answered() {
                    match question.answer() {
                        Some(outcome) => Extraction::gathered(cert, field, record, outcome),
                        None => Extraction::Finished(Err(CertError::KeyExport)),
                    }
                } else {
                    Extraction::Gathering { cert, field, question, record }
                }
            },
            Extraction::Finished(outcome) => Extraction::Finished(outcome),
        }
    }
}

} // verus!
