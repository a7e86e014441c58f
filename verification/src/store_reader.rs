//! The selection driver: from a store's name to the records of the
//! certificates that pass the filter.
//!
//! A scan opens the store, walks its certificates, asks of each whether it
//! is within its validity window and whether it has the extension that is
//! looked for, and gathers a record from each one that passes. It frees
//! every certificate that it was handed, and closes the store, before it
//! ends. Like a question, a scan only names the native calls; its caller
//! performs them.

use crate::cert_context::{outcome_view, request_view, Answer, AnswerView, Query, QueryView};
use crate::cert_store::{
    is_store_name, wide_name, CertIter, CertStore, StoreOpening, StoreOpeningView,
};
use crate::error::CertError;
use crate::native::{KeyHandle, Principal, Reply, ReplyView, Request, RequestView};
use crate::record::{CertRecord, CertRecordView, Extraction, ExtractionView};
use vstd::prelude::*;
use vstd::string::StringExecFns;

verus! {

/// How many certificates a scan is after.
#[derive(Clone, Copy, Debug, PartialEq, Eq, Structural)]
pub enum Mode {
    /// The first certificate that yields a record ends the scan.
    First,
    /// The scan walks the whole store.
    All,
}

/// Where a scan stands.
#[derive(Clone, Copy, Debug, PartialEq, Eq, Structural)]
pub enum Stage {
    /// Waits for the store to be opened.
    Opening,
    /// Waits for the walk to come to the next certificate.
    Enumerating,
    /// Asks whether the certificate at hand is within its validity window.
    CheckingTime,
    /// Asks whether the certificate at hand has the extension looked for.
    CheckingExtension,
    /// Gathers the record of the certificate at hand.
    Extracting,
    /// Waits for the certificate at hand to be freed.
    Releasing,
    /// Waits for the walk's own reference to be freed: the scan has what it
    /// was after, and the walk will not go on.
    ReleasingCursor,
    /// Waits for the store to be closed.
    Closing,
    /// Holds the outcome. No call is left to make.
    Finished,
}

/// A scan of one store, in the state that the replies so far have brought it to.
#[derive(Debug)]
pub struct Scan {
    pub mode: Mode,
    /// The store to scan, as it is to be opened.
    pub opening: StoreOpening,
    /// The object identifier of the extension looked for, if any is.
    pub oid: Option<String>,
    /// The value looked for in the display text of that extension, if any is.
    pub value: Option<String>,
    pub stage: Stage,
    /// The open store; none before it is opened and after it is closed.
    pub store: Option<CertStore>,
    pub walk: CertIter,
    /// The certificate at hand, which is the scan's to free; null where
    /// there is none.
    pub cert: usize,
    /// The question that the filter is asking of the certificate at hand.
    pub question: Query,
    /// The gathering of the record of the certificate at hand.
    pub extraction: Extraction,
    /// Whether some certificate has passed the filter.
    pub matched: bool,
    /// The records gathered, in the order of the walk.
    pub records: Vec<CertRecord>,
    /// Why the store could not be scanned at all.
    pub failure: Option<CertError>,
}

pub struct ScanView {
    pub mode: Mode,
    pub principal: Principal,
    pub store_name: Seq<char>,
    pub oid: Option<Seq<char>>,
    pub value: Option<Seq<char>>,
    pub stage: Stage,
    /// The handle of the open store; null where there is none.
    pub store: usize,
    /// The principal and the name under which the open store was opened;
    /// none where there is no open store.
    pub held: Option<StoreOpeningView>,
    pub walk: CertIter,
    pub cert: usize,
    pub question: QueryView,
    pub extraction: ExtractionView,
    pub matched: bool,
    pub records: Seq<CertRecordView>,
    pub failure: Option<CertError>,
}

/// The model of a text that may be absent.
pub open spec fn text_view(text: Option<String>) -> Option<Seq<char>> {
    match text {
        Some(text) => Some(text@),
        None => None,
    }
}

/// The model of a borrowed text that may be absent.
pub open spec fn str_view(text: Option<&str>) -> Option<Seq<char>> {
    match text {
        Some(text) => Some(text@),
        None => None,
    }
}

/// The models of the records of a list.
pub open spec fn records_view(records: Seq<CertRecord>) -> Seq<CertRecordView> {
    records.map_values(|record: CertRecord| record@)
}

/// The model of the outcome of a scan.
pub open spec fn result_view(outcome: Result<Vec<CertRecord>, CertError>) -> Result<
    Seq<CertRecordView>,
    CertError,
> {
    match outcome {
        Ok(records) => Ok(records_view(records@)),
        Err(error) => Err(error),
    }
}

impl View for Scan {
    type V = ScanView;

    open spec fn view(&self) -> ScanView {
        ScanView {
            mode: self.mode,
            principal: self.opening.principal,
            store_name: self.opening.name@,
            oid: text_view(self.oid),
            value: text_view(self.value),
            stage: self.stage,
            store: match self.store {
                Some(store) => store.raw(),
                None => 0,
            },
            held: match self.store {
                Some(store) => Some(
                    StoreOpeningView { principal: store.principal_spec(), name: store.name_spec() },
                ),
                None => None,
            },
            walk: self.walk,
            cert: self.cert,
            question: self.question@,
            extraction: self.extraction@,
            matched: self.matched,
            records: records_view(self.records@),
            failure: self.failure,
        }
    }
}

/// The question of a scan that asks none.
pub open spec fn no_question() -> QueryView {
    QueryView::Answered(Ok(AnswerView::Flag(false)))
}

/// The gathering of a scan that gathers nothing.
pub open spec fn no_extraction() -> ExtractionView {
    ExtractionView::Finished(Err(CertError::CertNotExportable))
}

impl ScanView {
    /// A scan before its first call. The principal is read from its name,
    /// whatever the case of its letters. A name that stands for no principal,
    /// and a text that cannot name a store, end the scan before it starts: the
    /// store cannot be opened.
    pub open spec fn start(
        mode: Mode,
        store: Seq<char>,
        user: Seq<char>,
        oid: Option<Seq<char>>,
        value: Option<Seq<char>>,
    ) -> ScanView {
        let principal = Principal::parse_spec(user);
        let fits = principal.is_some() && is_store_name(store);
        ScanView {
            mode,
            principal: match principal {
                Some(principal) => principal,
                None => Principal::CurrentUser,
            },
            store_name: store,
            oid,
            value,
            stage: if fits {
                Stage::Opening
            } else {
                Stage::Finished
            },
            store: 0,
            held: None,
            walk: CertIter::start(0),
            cert: 0,
            question: no_question(),
            extraction: no_extraction(),
            matched: false,
            records: Seq::empty(),
            failure: if fits {
                None
            } else {
                Some(CertError::StoreOpen)
            },
        }
    }

    /// The native call that the scan waits for; none once it has finished.
    pub open spec fn request(self) -> Option<RequestView> {
        match self.stage {
            Stage::Opening => Some(
                RequestView::OpenStore {
                    principal: self.principal,
                    name: wide_name(self.store_name),
                },
            ),
            Stage::Enumerating => self.walk.request_spec(),
            Stage::CheckingTime | Stage::CheckingExtension => self.question.request(),
            Stage::Extracting => self.extraction.request(),
            Stage::Releasing => Some(RequestView::FreeCertificate { cert: self.cert }),
            Stage::ReleasingCursor => Some(RequestView::FreeCertificate { cert: self.walk.cur }),
            Stage::Closing => Some(RequestView::CloseStore { store: self.store }),
            Stage::Finished => None,
        }
    }

    /// The outcome, once the scan has finished: the failure to open the
    /// store; else the records, where there are any; else the report that
    /// certificates passed the filter but none yielded a record, or that none
    /// passed the filter.
    pub open spec fn outcome(self) -> Option<Result<Seq<CertRecordView>, CertError>> {
        if self.stage != Stage::Finished {
            None
        } else {
            Some(
                match self.failure {
                    Some(error) => Err(error),
                    None => if self.records.len() > 0 {
                        Ok(self.records)
                    } else if self.matched {
                        Err(CertError::NoExportableCertFound)
                    } else {
                        Err(CertError::CertNotFound)
                    },
                },
            )
        }
    }

    /// The key handle that the scan has to free: the one that the question
    /// in flight owes.
    pub open spec fn owes(self) -> Option<KeyHandle> {
        match self.stage {
            Stage::Extracting => self.extraction.owes(),
            _ => self.question.owes(),
        }
    }

    /// The scan as it starts on the record of the certificate at hand, which
    /// has passed the filter.
    pub open spec fn collected(self) -> ScanView {
        ScanView {
            stage: Stage::Extracting,
            question: no_question(),
            extraction: ExtractionView::start(self.cert),
            matched: true,
            ..self
        }
    }

    /// The scan as it turns to free the certificate at hand.
    pub open spec fn dismissed(self) -> ScanView {
        ScanView {
            stage: Stage::Releasing,
            question: no_question(),
            extraction: no_extraction(),
            ..self
        }
    }

    /// The scan after the time check of the certificate at hand has been
    /// answered. Only a yes lets the certificate go on: to the extension check
    /// where an extension is looked for, else to its record. A check that
    /// fails dismisses the certificate as a no does.
    pub open spec fn time_checked(self, outcome: Result<AnswerView, CertError>) -> ScanView {
        if outcome == Ok::<AnswerView, CertError>(AnswerView::Flag(true)) {
            match self.oid {
                Some(oid) => ScanView {
                    stage: Stage::CheckingExtension,
                    question: QueryView::FindExtension {
                        cert: self.cert,
                        oid,
                        expected: self.value,
                    },
                    ..self
                },
                None => self.collected(),
            }
        } else {
            self.dismissed()
        }
    }

    /// The scan after the extension check has been answered. Only a yes lets
    /// the certificate go on to its record. A check that fails dismisses the
    /// certificate as a no does.
    pub open spec fn extension_checked(self, outcome: Result<AnswerView, CertError>) -> ScanView {
        if outcome == Ok::<AnswerView, CertError>(AnswerView::Flag(true)) {
            self.collected()
        } else {
            self.dismissed()
        }
    }

    /// The scan after the question of the filter has taken a reply.
    pub open spec fn asked(self, reply: ReplyView) -> ScanView {
        let question = self.question.advance(reply);
        let next = ScanView { question, ..self };
        match question.answer() {
            None => next,
            Some(outcome) => match self.stage {
                Stage::CheckingTime => next.time_checked(outcome),
                Stage::CheckingExtension => next.extension_checked(outcome),
                _ => next,
            },
        }
    }

    /// The scan after the gathering of the record has taken a reply. A record
    /// that is complete joins the records; a gathering that fails leaves them
    /// as they are. Either way the certificate is freed next.
    pub open spec fn extracted(self, reply: ReplyView) -> ScanView {
        let extraction = self.extraction.advance(reply);
        match extraction.outcome() {
            None => ScanView { extraction, ..self },
            Some(Ok(record)) => ScanView { records: self.records.push(record), ..self.dismissed() },
            Some(Err(_)) => self.dismissed(),
        }
    }

    /// Whether the scan has what it was after and walks no further.
    pub open spec fn is_satisfied(self) -> bool {
        self.mode == Mode::First && self.records.len() > 0
    }

    /// The scan after the certificate at hand has been freed: it winds up
    /// where it is satisfied or the walk has ended, else it walks on.
    pub open spec fn released(self) -> ScanView {
        let stage = if self.walk.done {
            Stage::Closing
        } else if self.is_satisfied() {
            if self.walk.cur != 0 {
                Stage::ReleasingCursor
            } else {
                Stage::Closing
            }
        } else {
            Stage::Enumerating
        };
        ScanView { stage, cert: 0, ..self }
    }

    /// The state that a reply brings the scan to.
    pub open spec fn advance(self, reply: ReplyView) -> ScanView {
        match self.stage {
            Stage::Opening => match StoreOpening::opened_spec(reply) {
                Ok(store) => ScanView {
                    stage: Stage::Enumerating,
                    store,
                    held: Some(
                        StoreOpeningView { principal: self.principal, name: self.store_name },
                    ),
                    walk: CertIter::start(store),
                    ..self
                },
                Err(error) => ScanView { stage: Stage::Finished, failure: Some(error), ..self },
            },
            Stage::Enumerating => {
                let walk = self.walk.after(reply);
                match self.walk.yields() {
                    Some(cert) => ScanView {
                        stage: Stage::CheckingTime,
                        walk,
                        cert,
                        question: QueryView::TimeValidity { cert },
                        ..self
                    },
                    None => ScanView {
                        stage: if walk.done {
                            Stage::Closing
                        } else {
                            Stage::Enumerating
                        },
                        walk,
                        ..self
                    },
                }
            },
            Stage::CheckingTime | Stage::CheckingExtension => self.asked(reply),
            Stage::Extracting => self.extracted(reply),
            Stage::Releasing => self.released(),
            Stage::ReleasingCursor => ScanView {
                stage: Stage::Closing,
                walk: CertIter { cur: 0, done: true, ..self.walk },
                ..self
            },
            Stage::Closing => ScanView { stage: Stage::Finished, store: 0, held: None, ..self },
            Stage::Finished => self,
        }
    }
}

/// Whether a question answered with a yes.
fn answered_yes(outcome: &Result<Answer, CertError>) -> (yes: bool)
    ensures
        yes == (outcome_view(*outcome) == Ok::<AnswerView, CertError>(AnswerView::Flag(true))),
{
    match outcome {
        Ok(Answer::Flag(flag)) => *flag,
        _ => false,
    }
}

fn idle() -> (question: Query)
    ensures
        question@ == no_question(),
{
    Query::Answered(Ok(Answer::Flag(false)))
}

fn no_gathering() -> (extraction: Extraction)
    ensures
        extraction@ == no_extraction(),
{
    Extraction::Finished(Err(CertError::CertNotExportable))
}

/// Prepares to open the store of that name under the principal that `user`
/// names. A name that stands for no principal, and a text that cannot name a
/// store, are refused before any call is made: the store cannot be opened.
pub fn get_certs_from_store(store: &str, user: &str) -> (opening: Result<StoreOpening, CertError>)
    ensures
        match opening {
            Ok(opening) => Principal::parse_spec(user@) == Some(opening.principal)
                && is_store_name(store@) && opening.name@ == store@,
            Err(error) => error == CertError::StoreOpen && (Principal::parse_spec(user@).is_none()
                || !is_store_name(store@)),
        },
{
    match Principal::parse(user) {
        Some(Principal::CurrentUser) => CertStore::open_current_user(store),
        Some(Principal::LocalMachine) => CertStore::open_local_machine(store),
        None => Err(CertError::StoreOpen),
    }
}

fn owned(text: Option<&str>) -> (copy: Option<String>)
    ensures
        text_view(copy) == str_view(text),
{
    match text {
        Some(text) => Some(String::from_str(text)),
        None => None,
    }
}

fn start(
    mode: Mode,
    store: &str,
    user: &str,
    extension_oid: Option<&str>,
    extension_value: Option<&str>,
) -> (scan: Scan)
    ensures
        scan@ == ScanView::start(
            mode,
            store@,
            user@,
            str_view(extension_oid),
            str_view(extension_value),
        ),
        scan@.wf(),
        Principal::parse_spec(user@).is_none() || !is_store_name(store@) ==> scan@.outcome() == Some(
            Err::<Seq<CertRecordView>, CertError>(CertError::StoreOpen),
        ),
{
    proof {
        crate::conduct::lemma_scan_starts_well(
            mode,
            store@,
            user@,
            str_view(extension_oid),
            str_view(extension_value),
        );
    }
    let (opening, stage, failure) = match get_certs_from_store(store, user) {
        Ok(opening) => (opening, Stage::Opening, None),
        Err(error) => (
            StoreOpening {
                principal: match Principal::parse(user) {
                    Some(principal) => principal,
                    None => Principal::CurrentUser,
                },
                name: String::from_str(store),
            },
            Stage::Finished,
            Some(error),
        ),
    };
    let scan = Scan {
        mode,
        opening,
        oid: owned(extension_oid),
        value: owned(extension_value),
        stage,
        store: None,
        walk: CertIter { store: 0, cur: 0, found: 0, done: false },
        cert: 0,
        question: idle(),
        extraction: no_gathering(),
        matched: false,
        records: Vec::new(),
        failure,
    };
    assert(records_view(scan.records@) =~= Seq::empty());
    scan
}

/// Starts a scan for all the certificates that are within their validity
/// window, have the extension looked for, and yield a record. Where no
/// extension is named, the validity window alone is the filter.
pub fn find_windows_cert_by_extension(
    store: &str,
    user: &str,
    extension_oid: Option<&str>,
    extension_value: Option<&str>,
) -> (scan: Scan)
    ensures
        scan@ == ScanView::start(
            Mode::All,
            store@,
            user@,
            str_view(extension_oid),
            str_view(extension_value),
        ),
        scan@.wf(),
        Principal::parse_spec(user@).is_none() || !is_store_name(store@) ==> scan@.outcome() == Some(
            Err::<Seq<CertRecordView>, CertError>(CertError::StoreOpen),
        ),
{
    start(Mode::All, store, user, extension_oid, extension_value)
}

/// Starts a scan for the first certificate that is within its validity
/// window, has the extension looked for, and yields a record: the scan ends
/// with that one record and walks the store no further. Where no extension is
/// named, the validity window alone is the filter.
pub fn find_first_windows_cert_by_extension(
    store: &str,
    user: &str,
    extension_oid: Option<&str>,
    extension_value: Option<&str>,
) -> (scan: Scan)
    ensures
        scan@ == ScanView::start(
            Mode::First,
            store@,
            user@,
            str_view(extension_oid),
            str_view(extension_value),
        ),
        scan@.wf(),
        Principal::parse_spec(user@).is_none() || !is_store_name(store@) ==> scan@.outcome() == Some(
            Err::<Seq<CertRecordView>, CertError>(CertError::StoreOpen),
        ),
{
    start(Mode::First, store, user, extension_oid, extension_value)
}

/// Starts a scan for all the certificates that are within their validity
/// window and yield a record, whatever their extensions are.
pub fn find_windows_cert_all(store: &str, user: &str) -> (scan: Scan)
    ensures
        scan@ == ScanView::start(Mode::All, store@, user@, None, None),
        scan@.wf(),
        Principal::parse_spec(user@).is_none() || !is_store_name(store@) ==> scan@.outcome() == Some(
            Err::<Seq<CertRecordView>, CertError>(CertError::StoreOpen),
        ),
{
    start(Mode::All, store, user, None, None)
}

impl Scan {
    /// The native call that the scan waits for; none once it has finished.
    pub fn request(&self) -> (request: Option<Request>)
        ensures
            request_view(request) == self@.request(),
    {
        match self.stage {
            Stage::Opening => Some(self.opening.request()),
            Stage::Enumerating => self.walk.request(),
            Stage::CheckingTime | Stage::CheckingExtension => self.question.request(),
            Stage::Extracting => self.extraction.request(),
            Stage::Releasing => Some(Request::FreeCertificate { cert: self.cert }),
            Stage::ReleasingCursor => Some(Request::FreeCertificate { cert: self.walk.cur }),
            Stage::Closing => Some(
                Request::CloseStore {
                    store: match &self.store {
                        Some(store) => store.as_inner(),
                        None => 0,
                    },
                },
            ),
            Stage::Finished => None,
        }
    }

    /// Whether the scan has finished.
    pub fn is_finished(&self) -> (finished: bool)
        ensures
            finished == self@.outcome().is_some(),
    {
        match self.stage {
            Stage::Finished => true,
            _ => false,
        }
    }

    /// The outcome, once the scan has finished.
    pub fn outcome(self) -> (outcome: Option<Result<Vec<CertRecord>, CertError>>)
        ensures
            match outcome {
                Some(outcome) => self@.outcome() == Some(result_view(outcome)),
                None => self@.outcome().is_none(),
            },
    {
        match self.stage {
            Stage::Finished => Some(
                match self.failure {
                    Some(error) => Err(error),
                    None => {
                        if self.records.len() > 0 {
                            Ok(self.records)
                        } else if self.matched {
                            Err(CertError::NoExportableCertFound)
                        } else {
                            Err(CertError::CertNotFound)
                        }
                    },
                },
            ),
            _ => None,
        }
    }

    fn collected(self) -> (next: Scan)
        ensures
            next@ == self@.collected(),
    {
        let cert = self.cert;
        Scan {
            stage: Stage::Extracting,
            question: idle(),
            extraction: Extraction::Gathering {
                cert,
                field: crate::record::Field::Exportable,
                question: Query::AcquireModern { cert, export: false },
                record: CertRecord::blank(),
            },
            matched: true,
            ..self
        }
    }

    fn dismissed(self) -> (next: Scan)
        ensures
            next@ == self@.dismissed(),
    {
        Scan { stage: Stage::Releasing, question: idle(), extraction: no_gathering(), ..self }
    }

    fn time_checked(self, outcome: Result<Answer, CertError>) -> (next: Scan)
        ensures
            next@ == self@.time_checked(outcome_view(outcome)),
    {
        if answered_yes(&outcome) {
            match &self.oid {
                Some(oid) => {
                    let question = Query::FindExtension {
                        cert: self.cert,
                        oid: oid.clone(),
                        expected: match &self.value {
                            Some(value) => Some(value.clone()),
                            None => None,
                        },
                    };
                    Scan { stage: Stage::CheckingExtension, question, ..self }
                },
                None => self.collected(),
            }
        } else {
            self.dismissed()
        }
    }

    fn extension_checked(self, outcome: Result<Answer, CertError>) -> (next: Scan)
        ensures
            next@ == self@.extension_checked(outcome_view(outcome)),
    {
        if answered_yes(&outcome) {
            self.collected()
        } else {
            self.dismissed()
        }
    }

    fn asked(self, reply: Reply) -> (next: Scan)
        ensures
            next@ == self@.asked(reply@),
    {
        let mut scan = self;
        let mut question = idle();
        core::mem::swap(&mut question, &mut scan.question);
        let question = question.advance(reply);
        if !question.is_answered() {
            scan.question = question;
            return scan;
        }
        match scan.stage {
            Stage::CheckingTime => match question.answer() {
                Some(outcome) => scan.time_checked(outcome),
                None => scan,
            },
            Stage::CheckingExtension => match question.answer() {
                Some(outcome) => scan.extension_checked(outcome),
                None => scan,
            },
            _ => {
                scan.question = question;
                scan
            },
        }
    }

    fn extracted(self, reply: Reply) -> (next: Scan)
        ensures
            next@ == self@.extracted(reply@),
    {
        let mut scan = self;
        let mut extraction = no_gathering();
        core::mem::swap(&mut extraction, &mut scan.extraction);
        let extraction = extraction.advance(reply);
        if !extraction.is_finished() {
            scan.extraction = extraction;
            return scan;
        }
        match extraction.outcome() {
            Some(Ok(record)) => {
                let ghost before = scan.records@;
                scan.records.push(record);
                assert(records_view(scan.records@) =~= records_view(before).push(record@));
                scan.dismissed()
            },
            _ => scan.dismissed(),
        }
    }

    fn released(self) -> (next: Scan)
        ensures
            next@ == self@.released(),
    {
        let stage = if self.walk.done {
            Stage::Closing
        } else if self.mode == Mode::First && self.records.len() > 0 {
            if self.walk.cur != 0 {
                Stage::ReleasingCursor
            } else {
                Stage::Closing
            }
        } else {
            Stage::Enumerating
        };
        Scan { stage, cert: 0, ..self }
    }

    /// Moves the scan on by the reply to the call that it waited for.
    pub fn advance(self, reply: Reply) -> (next: Scan)
        ensures
            next@ == self@.advance(reply@),
            self@.wf() ==> next@.wf(),
            self.stage == Stage::Opening && StoreOpening::opened_spec(reply@) is Ok ==> match next.store {
                Some(store) => store.principal_spec() == self.opening.principal
                    && store.name_spec() == self.opening.name@,
                None => false,
            },
    {
        proof {
            if self@.wf() {
                crate::conduct::lemma_scan_stays_well(self@, reply@);
            }
        }
        match self.stage {
            Stage::Opening => match self.opening.opened(&reply) {
                Ok(store) => {
                    let walk = store.certs();
                    Scan { stage: Stage::Enumerating, store: Some(store), walk, ..self }
                },
                Err(error) => Scan { stage: Stage::Finished, failure: Some(error), ..self },
            },
            Stage::Enumerating => {
                let mut walk = self.walk;
                match walk.next(&reply) {
                    Some(found) => {
                        let cert = found.as_inner();
                        Scan {
                            stage: Stage::CheckingTime,
                            walk,
                            cert,
                            question: found.is_time_valid(),
                            ..self
                        }
                    },
                    None => Scan {
                        stage: if walk.done {
                            Stage::Closing
                        } else {
                            Stage::Enumerating
                        },
                        walk,
                        ..self
                    },
                }
            },
            Stage::CheckingTime | Stage::CheckingExtension => self.asked(reply),
            Stage::Extracting => self.extracted(reply),
            Stage::Releasing => self.released(),
            Stage::ReleasingCursor => Scan {
                stage: Stage::Closing,
                walk: CertIter { cur: 0, done: true, ..self.walk },
                ..self
            },
            Stage::Closing => Scan { stage: Stage::Finished, store: None, ..self },
            Stage::Finished => self,
        }
    }
}

} // verus!
