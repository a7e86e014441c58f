//! How a scan conducts itself: what holds of every state that a scan can
//! come to, whatever the replies are.

use crate::cert_context::{AnswerView, QueryView};
use crate::cert_store::{is_store_name, CertIter, StoreOpeningView};
use crate::error::CertError;
use crate::native::{KeyHandle, KeyKind, Principal, ReplyView, RequestView};
use crate::record::{CertRecordView, ExtractionView, Field};
use crate::store_reader::{no_extraction, no_question, Mode, ScanView, Stage};
use vstd::prelude::*;

verus! {

/// Whether a question is one about the private key of a certificate, asked
/// for the key itself or only for whether it can be exported.
pub open spec fn is_key_question(question: QueryView, cert: usize, export: bool) -> bool {
    match question {
        QueryView::AcquireModern { cert: c, export: e } => c == cert && e == export,
        QueryView::AcquireLegacy { cert: c, export: e } => c == cert && e == export,
        QueryView::Probe { export: e, .. } => e == export,
        QueryView::Export { .. } => export,
        QueryView::FreeKey { .. } => true,
        _ => false,
    }
}

/// Whether a question is the one by which a field of a record is gathered.
pub open spec fn question_gathers(field: Field, cert: usize, question: QueryView) -> bool {
    match field {
        Field::Exportable => is_key_question(question, cert, false),
        Field::FriendlyName => match question {
            QueryView::FriendlyName { cert: c, .. } => c == cert,
            _ => false,
        },
        Field::Name => match question {
            QueryView::NameElement { cert: c, issuer, .. } => c == cert && !issuer,
            _ => false,
        },
        Field::IssuerName => match question {
            QueryView::NameElement { cert: c, issuer, .. } => c == cert && issuer,
            _ => false,
        },
        Field::EffectiveDate => question == (QueryView::Validity { cert, end: false }),
        Field::ExpirationDate => question == (QueryView::Validity { cert, end: true }),
        Field::Key => is_key_question(question, cert, true),
    }
}

/// Whether a question that has come to bytes has come to some.
pub open spec fn bytes_are_some(question: QueryView) -> bool {
    match question {
        QueryView::FreeKey { answer: Ok(AnswerView::Bytes(bytes)), .. } => bytes.len() > 0,
        QueryView::Answered(Ok(AnswerView::Bytes(bytes))) => bytes.len() > 0,
        _ => true,
    }
}

impl ExtractionView {
    /// What holds of the gathering of a record at every step: it asks the
    /// question of the field that it has come to, of its own certificate,
    /// and a record that it ends with has a key.
    pub open spec fn wf(self) -> bool {
        match self {
            ExtractionView::Gathering { cert, field, question, .. } => {
                &&& question_gathers(field, cert, question)
                &&& question.answer().is_none()
                &&& bytes_are_some(question)
            },
            ExtractionView::Finished(Ok(record)) => record.key.len() > 0,
            ExtractionView::Finished(Err(_)) => true,
        }
    }

    /// The certificate whose record is gathered.
    pub open spec fn subject(self) -> Option<usize> {
        match self {
            ExtractionView::Gathering { cert, .. } => Some(cert),
            ExtractionView::Finished(_) => None,
        }
    }
}

/// Whether a stage asks a question of the certificate at hand.
pub open spec fn asks(stage: Stage) -> bool {
    stage == Stage::CheckingTime || stage == Stage::CheckingExtension || stage == Stage::Extracting
}

impl ScanView {
    /// What holds of a scan at every step.
    ///
    /// The scan holds a store from the reply that opened it to the call that
    /// closes it, and a certificate from the walk that handed it out to the
    /// call that frees it. It asks questions only of a certificate that it
    /// holds. It walks on only while it is not satisfied. Once it has
    /// finished, it holds nothing.
    pub open spec fn wf(self) -> bool {
        &&& forall|i: int| 0 <= i < self.records.len() ==> (#[trigger] self.records[i]).key.len() > 0
        &&& self.records.len() > 0 ==> self.matched
        &&& self.mode == Mode::First ==> self.records.len() <= 1
        &&& self.failure.is_some() ==> self.stage == Stage::Finished && self.records.len() == 0
            && !self.matched
        &&& self.failure.is_none() || self.failure == Some(CertError::StoreOpen) || self.failure
            == Some(CertError::UnsupportedPlatform)
        &&& self.held == if self.store != 0 {
            Some(StoreOpeningView { principal: self.principal, name: self.store_name })
        } else {
            None
        }
        &&& self.walk.done ==> self.walk.cur == 0 && self.walk.found == 0
        &&& self.walk.found != 0 ==> self.walk.cur == 0
        &&& self.stage != Stage::Extracting ==> self.extraction == no_extraction()
        &&& !(self.stage == Stage::CheckingTime || self.stage == Stage::CheckingExtension)
            ==> self.question == no_question()
        &&& match self.stage {
            Stage::Opening => self.store == 0 && self.cert == 0 && self.walk == CertIter::start(0)
                && self.records.len() == 0 && !self.matched,
            Stage::Enumerating => self.store != 0 && self.cert == 0 && !self.walk.done
                && self.walk.store == self.store && !self.is_satisfied(),
            Stage::CheckingTime | Stage::CheckingExtension | Stage::Extracting => {
                &&& self.store != 0
                &&& self.cert != 0
                &&& self.walk.found == 0
                &&& self.walk.store == self.store
                &&& !self.is_satisfied()
                &&& !self.walk.done ==> self.walk.cur != 0
                &&& match self.stage {
                    Stage::CheckingTime => self.question == (QueryView::TimeValidity {
                        cert: self.cert,
                    }),
                    Stage::CheckingExtension => match self.question {
                        QueryView::FindExtension { cert, oid, expected } => cert == self.cert
                            && Some(oid) == self.oid && expected == self.value,
                        QueryView::FormatExtension { value, .. } => Some(value) == self.value,
                        _ => false,
                    },
                    _ => self.matched && self.extraction.wf() && self.extraction.subject() == Some(
                        self.cert,
                    ),
                }
            },
            Stage::Releasing => self.store != 0 && self.cert != 0 && self.walk.found == 0
                && self.walk.store == self.store && (!self.walk.done ==> self.walk.cur != 0),
            Stage::ReleasingCursor => self.store != 0 && self.cert == 0 && self.walk.cur != 0
                && self.walk.found == 0 && self.is_satisfied(),
            Stage::Closing => self.store != 0 && self.cert == 0 && self.walk.cur == 0
                && self.walk.found == 0,
            Stage::Finished => self.store == 0 && self.cert == 0 && self.walk.cur == 0
                && self.walk.found == 0,
        }
    }
}

/// The gathering of a record starts in order.
pub proof fn lemma_gathering_starts_well(cert: usize)
    ensures
        ExtractionView::start(cert).wf(),
        ExtractionView::start(cert).subject() == Some(cert),
{
}

/// The gathering of a record stays in order, and with its certificate.
pub proof fn lemma_gathering_stays_well(extraction: ExtractionView, reply: ReplyView)
    requires
        extraction.wf(),
    ensures
        extraction.advance(reply).wf(),
        extraction.advance(reply).outcome().is_none() ==> extraction.advance(reply).subject()
            == extraction.subject(),
{
}

/// A scan starts well. Where the name of the principal stands for none, or
/// the text cannot name a store, it has finished before it starts, with the
/// failure to open the store, and makes no call at all.
pub proof fn lemma_scan_starts_well(
    mode: Mode,
    store: Seq<char>,
    user: Seq<char>,
    oid: Option<Seq<char>>,
    value: Option<Seq<char>>,
)
    ensures
        ScanView::start(mode, store, user, oid, value).wf(),
        Principal::parse_spec(user).is_none() || !is_store_name(store) ==> {
            &&& ScanView::start(mode, store, user, oid, value).outcome() == Some(
                Err::<Seq<CertRecordView>, CertError>(CertError::StoreOpen),
            )
            &&& ScanView::start(mode, store, user, oid, value).request().is_none()
        },
        Principal::parse_spec(user).is_some() && is_store_name(store) ==> ScanView::start(
            mode,
            store,
            user,
            oid,
            value,
        ).request() == Some(
            RequestView::OpenStore {
                principal: Principal::parse_spec(user).unwrap(),
                name: crate::cert_store::wide_name(store),
            },
        ),
{
}

/// A scan that is in order stays in order, whatever the reply.
pub proof fn lemma_scan_stays_well(scan: ScanView, reply: ReplyView)
    requires
        scan.wf(),
    ensures
        scan.advance(reply).wf(),
{
    let next = scan.advance(reply);
    if scan.stage == Stage::Extracting {
        lemma_gathering_stays_well(scan.extraction, reply);
    }
    if scan.stage == Stage::CheckingTime && next.stage == Stage::Extracting {
        lemma_gathering_starts_well(scan.cert);
    }
    if scan.stage == Stage::CheckingExtension && next.stage == Stage::Extracting {
        lemma_gathering_starts_well(scan.cert);
    }
    assert forall|i: int| 0 <= i < next.records.len() implies (#[trigger] next.records[i]).key.len()
        > 0 by {
        if i < scan.records.len() {
            assert(next.records[i] == scan.records[i]);
        }
    }
}

/// A scan that has not finished always has a call to make.
pub proof fn lemma_scan_goes_on(scan: ScanView)
    requires
        scan.wf(),
    ensures
        scan.outcome().is_none() == scan.request().is_some(),
{
}

/// A certificate that is not within its validity window is dismissed at
/// once: whatever the validity primitive says but that the certificate is
/// valid, the next call frees the certificate, no extension of it is looked at,
/// and neither the records nor the mark that something passed the filter
/// change. This does not depend on what extension is looked for.
pub proof fn lemma_invalid_is_dismissed(scan: ScanView, reply: ReplyView)
    requires
        scan.wf(),
        scan.stage == Stage::CheckingTime,
        reply != ReplyView::Verdict(Some(0)),
    ensures
        scan.advance(reply).stage == Stage::Releasing,
        scan.advance(reply).request() == Some(RequestView::FreeCertificate { cert: scan.cert }),
        scan.advance(reply).records == scan.records,
        scan.advance(reply).matched == scan.matched,
{
}

/// A certificate that the validity primitive finds valid goes on: to the
/// extension check where an extension is looked for, else to its record.
pub proof fn lemma_valid_goes_on(scan: ScanView)
    requires
        scan.wf(),
        scan.stage == Stage::CheckingTime,
    ensures
        scan.advance(ReplyView::Verdict(Some(0))).stage == if scan.oid.is_some() {
            Stage::CheckingExtension
        } else {
            Stage::Extracting
        },
{
}

/// A certificate comes to its record only through the filter: a scan starts
/// on a record only from a time check that said yes, where no extension is
/// looked for, or from an extension check that said yes; and it comes to the
/// extension check only from a time check that said yes.
pub proof fn lemma_record_needs_the_filter(scan: ScanView, reply: ReplyView)
    requires
        scan.wf(),
    ensures
        scan.advance(reply).stage == Stage::Extracting && scan.stage != Stage::Extracting ==> {
            &&& scan.question.advance(reply).answer() == Some(
                Ok::<AnswerView, CertError>(AnswerView::Flag(true)),
            )
            &&& scan.stage == Stage::CheckingExtension || (scan.stage == Stage::CheckingTime
                && scan.oid.is_none())
        },
        scan.advance(reply).stage == Stage::CheckingExtension && scan.stage
            != Stage::CheckingExtension ==> {
            &&& scan.stage == Stage::CheckingTime
            &&& reply == ReplyView::Verdict(Some(0))
        },
{
}

/// The key of a certificate is touched only while its record is gathered:
/// every call that acquires, probes, exports or frees a key is made while the
/// scan gathers the record of the certificate at hand, which has passed the
/// filter, and every acquisition is made for that certificate.
pub proof fn lemma_key_needs_the_filter(scan: ScanView)
    requires
        scan.wf(),
    ensures
        match scan.request() {
            Some(RequestView::AcquireKey { cert, .. }) => cert == scan.cert && scan.matched
                && scan.stage == Stage::Extracting,
            Some(RequestView::ProbeExport { .. }) | Some(RequestView::ExportKey { .. }) | Some(
                RequestView::FreeKey { .. },
            ) => scan.matched && scan.stage == Stage::Extracting,
            _ => true,
        },
{
}

/// The mark that something passed the filter is set only as a certificate
/// comes to its record, and a record is added only as the gathering of the
/// certificate at hand ends with one: that record, which has a key.
pub proof fn lemma_records_grow_by_gathering(scan: ScanView, reply: ReplyView)
    requires
        scan.wf(),
    ensures
        scan.advance(reply).matched != scan.matched ==> scan.advance(reply).stage
            == Stage::Extracting && scan.stage != Stage::Extracting,
        scan.advance(reply).records != scan.records ==> {
            &&& scan.stage == Stage::Extracting
            &&& exists|record: CertRecordView|
                {
                    &&& record.key.len() > 0
                    &&& scan.extraction.advance(reply).outcome() == Some(
                        Ok::<CertRecordView, CertError>(record),
                    )
                    &&& scan.advance(reply).records == scan.records.push(record)
                }
        },
{
    let next = scan.advance(reply);
    if next.records != scan.records {
        lemma_gathering_stays_well(scan.extraction, reply);
        match scan.extraction.advance(reply).outcome() {
            Some(Ok(record)) => {
                assert(next.records == scan.records.push(record));
            },
            _ => {},
        }
    }
}

/// A scan gives up what it holds only by the call that frees it: the
/// certificate at hand and the walk's own reference by the call that frees a
/// certificate (or, for the walk's own, by the enumeration call that takes it
/// over), the store by the call that closes it, and the key that a question
/// has to free by the call that frees a key.
pub proof fn lemma_scan_frees_what_it_holds(scan: ScanView, reply: ReplyView)
    requires
        scan.wf(),
    ensures
        scan.cert != 0 && scan.advance(reply).cert != scan.cert ==> scan.request() == Some(
            RequestView::FreeCertificate { cert: scan.cert },
        ),
        scan.walk.cur != 0 && scan.advance(reply).walk.cur != scan.walk.cur ==> scan.request()
            == Some(RequestView::NextCertificate { store: scan.store, previous: scan.walk.cur })
            || scan.request() == Some(RequestView::FreeCertificate { cert: scan.walk.cur }),
        scan.store != 0 && scan.advance(reply).store != scan.store ==> scan.request() == Some(
            RequestView::CloseStore { store: scan.store },
        ),
        forall|key: KeyHandle|
            scan.owes() == Some(key) ==> scan.advance(reply).owes() == Some(key) || exists|
                kind: KeyKind,
            |
                scan.request() == Some(RequestView::FreeKey { key, kind }),
{
    assert forall|key: KeyHandle| scan.owes() == Some(key) implies scan.advance(reply).owes()
        == Some(key) || exists|kind: KeyKind|
        scan.request() == Some(RequestView::FreeKey { key, kind }) by {
        match scan.extraction {
            ExtractionView::Gathering { question, .. } => {
                crate::answers::lemma_key_is_freed(question, reply, key);
            },
            _ => {},
        }
    }
}

/// A scan takes a certificate in hand only as the walk hands one out: the
/// duplicate of the certificate that the enumeration found.
pub proof fn lemma_scan_holds_what_it_was_given(scan: ScanView, reply: ReplyView)
    requires
        scan.wf(),
        scan.cert == 0,
        scan.advance(reply).cert != 0,
    ensures
        scan.stage == Stage::Enumerating,
        scan.request() == Some(
            RequestView::DuplicateCertificate { cert: scan.advance(reply).cert },
        ),
        scan.advance(reply).stage == Stage::CheckingTime,
{
}

/// A scan that has finished holds nothing: no store, no certificate, no key.
pub proof fn lemma_finished_scan_holds_nothing(scan: ScanView)
    requires
        scan.wf(),
        scan.outcome().is_some(),
    ensures
        scan.store == 0,
        scan.held.is_none(),
        scan.cert == 0,
        scan.walk.cur == 0,
        scan.walk.found == 0,
        scan.owes().is_none(),
        scan.request().is_none(),
{
}

/// The outcome of a scan tells its ends apart. Records come with their
/// keys, never without, and where only the first is asked for there is one.
/// That nothing passed the filter is reported apart from that something did
/// and yielded no record. Any other failure is the failure to open the store.
pub proof fn lemma_outcome_tells_apart(scan: ScanView)
    requires
        scan.wf(),
        scan.outcome().is_some(),
    ensures
        match scan.outcome().unwrap() {
            Ok(records) => {
                &&& records == scan.records
                &&& records.len() > 0
                &&& scan.mode == Mode::First ==> records.len() == 1
                &&& forall|i: int| 0 <= i < records.len() ==> (#[trigger] records[i]).key.len() > 0
                &&& scan.matched
            },
            Err(CertError::CertNotFound) => !scan.matched && scan.failure.is_none(),
            Err(CertError::NoExportableCertFound) => scan.matched && scan.records.len() == 0,
            Err(error) => scan.failure == Some(error) && !scan.matched && (error
                == CertError::StoreOpen || error == CertError::UnsupportedPlatform),
        },
{
}

} // verus!
