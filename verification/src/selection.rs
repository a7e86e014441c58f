//! What a scan finds in a given world: the certificates of the store that
//! pass the filter, in the order of the walk, and the records that they yield.
//!
//! A world says what each native call gives back, and does not change while
//! the scan runs. The walk of a store in a world is the chain of certificates
//! that the enumeration call gives, each from the duplicate of the one before.

use crate::answers::{
    answer_in, calls_left, gathering_left, lemma_advance_nears_answer, lemma_outcome_is_stable,
    lemma_record_is_gathered, outcome_in, record_in, record_of,
};
use crate::cert_context::{AnswerView, QueryView};
use crate::cert_store::{is_store_name, wide_name, CertIter, StoreOpening};
use crate::conduct::lemma_scan_stays_well;
use crate::error::CertError;
use crate::native::{Principal, ReplyView, RequestView};
use crate::record::{CertRecordView, ExtractionView};
use crate::store_reader::{Mode, ScanView, Stage};
use vstd::prelude::*;

verus! {

/// The state that a scan reaches in a world within a number of calls.
pub open spec fn scan_in(world: spec_fn(RequestView) -> ReplyView, scan: ScanView, calls: nat)
    -> ScanView
    decreases calls,
{
    match scan.request() {
        Some(request) => if calls == 0 {
            scan
        } else {
            scan_in(world, scan.advance(world(request)), (calls - 1) as nat)
        },
        None => scan,
    }
}

/// The next certificate of a walk in a world, if the store has one more, and
/// the walk after it.
pub open spec fn walk_step(world: spec_fn(RequestView) -> ReplyView, walk: CertIter) -> (
    Option<usize>,
    CertIter,
) {
    let found = walk.after(
        world(RequestView::NextCertificate { store: walk.store, previous: walk.cur }),
    );
    if found.done {
        (None, found)
    } else {
        (
            Some(found.found),
            found.after(world(RequestView::DuplicateCertificate { cert: found.found })),
        )
    }
}

/// Whether a walk comes to the end of its store after at most `n` certificates.
pub open spec fn ends_within(world: spec_fn(RequestView) -> ReplyView, walk: CertIter, n: nat)
    -> bool
    decreases n,
{
    let (cert, next) = walk_step(world, walk);
    cert.is_none() || (n > 0 && (next.done || ends_within(world, next, (n - 1) as nat)))
}

/// What a scan is after.
pub struct Filter {
    pub mode: Mode,
    pub oid: Option<Seq<char>>,
    pub value: Option<Seq<char>>,
}

/// What a scan has found so far.
pub struct Findings {
    /// Whether some certificate has passed the filter.
    pub matched: bool,
    /// The records of the certificates that passed it and yielded one.
    pub records: Seq<CertRecordView>,
}

impl ScanView {
    pub open spec fn filter(self) -> Filter {
        Filter { mode: self.mode, oid: self.oid, value: self.value }
    }

    pub open spec fn findings(self) -> Findings {
        Findings { matched: self.matched, records: self.records }
    }
}

/// Whether a certificate passes the filter in a world: it is within its
/// validity window, and it has the extension that is looked for, with the
/// value that is looked for in it. A check that fails counts as a no.
pub open spec fn passes(world: spec_fn(RequestView) -> ReplyView, filter: Filter, cert: usize)
    -> bool {
    &&& answer_in(world, QueryView::TimeValidity { cert }) == Ok::<AnswerView, CertError>(
        AnswerView::Flag(true),
    )
    &&& match filter.oid {
        Some(oid) => answer_in(world, QueryView::FindExtension { cert, oid, expected: filter.value })
            == Ok::<AnswerView, CertError>(AnswerView::Flag(true)),
        None => true,
    }
}

/// The findings with what the gathering of one more record came to.
pub open spec fn with_record(so_far: Findings, outcome: Result<CertRecordView, CertError>)
    -> Findings {
    match outcome {
        Ok(record) => Findings { matched: true, records: so_far.records.push(record) },
        Err(_) => Findings { matched: true, ..so_far },
    }
}

/// The findings after one more certificate has been examined: unchanged
/// where it does not pass the filter, else with its record, or with the mark
/// alone that it passed where it yields none.
pub open spec fn examined(
    world: spec_fn(RequestView) -> ReplyView,
    filter: Filter,
    cert: usize,
    so_far: Findings,
) -> Findings {
    if passes(world, filter, cert) {
        with_record(so_far, record_of(world, cert))
    } else {
        so_far
    }
}

/// A certificate that is not within its validity window adds nothing to what
/// a scan finds, whatever extension and value are looked for and whatever the
/// certificate's extensions and key are; so does one whose time check fails.
pub proof fn lemma_invalid_is_excluded(
    world: spec_fn(RequestView) -> ReplyView,
    filter: Filter,
    cert: usize,
    so_far: Findings,
)
    requires
        answer_in(world, QueryView::TimeValidity { cert }) != Ok::<AnswerView, CertError>(
            AnswerView::Flag(true),
        ),
    ensures
        !passes(world, filter, cert),
        examined(world, filter, cert, so_far) == so_far,
{
}

/// A certificate adds a record to what a scan finds only where it passes the
/// filter and its key is handed out, and then the record holds that key.
pub proof fn lemma_record_has_its_key(
    world: spec_fn(RequestView) -> ReplyView,
    filter: Filter,
    cert: usize,
    so_far: Findings,
)
    ensures
        examined(world, filter, cert, so_far).records != so_far.records ==> {
            &&& passes(world, filter, cert)
            &&& record_of(world, cert) is Ok
            &&& examined(world, filter, cert, so_far).records == so_far.records.push(
                record_of(world, cert)->Ok_0,
            )
            &&& answer_in(world, crate::answers::key_export(cert)) == Ok::<AnswerView, CertError>(
                AnswerView::Bytes(record_of(world, cert)->Ok_0.key),
            )
            &&& answer_in(world, crate::answers::exportability(cert)) == Ok::<
                AnswerView,
                CertError,
            >(AnswerView::Flag(true))
        },
{
}

/// Whether the findings are all that the scan was after.
pub open spec fn is_enough(filter: Filter, findings: Findings) -> bool {
    filter.mode == Mode::First && findings.records.len() > 0
}

/// What a scan finds from a point of its walk on, in at most `n` further
/// certificates: each certificate is examined in turn, until the store has
/// no more or the findings are enough.
pub open spec fn found_in(
    world: spec_fn(RequestView) -> ReplyView,
    filter: Filter,
    walk: CertIter,
    n: nat,
    so_far: Findings,
) -> Findings
    decreases n,
{
    if n == 0 {
        so_far
    } else {
        let (cert, next) = walk_step(world, walk);
        match cert {
            None => so_far,
            Some(cert) => {
                let now = examined(world, filter, cert, so_far);
                if next.done || is_enough(filter, now) {
                    now
                } else {
                    found_in(world, filter, next, (n - 1) as nat, now)
                }
            },
        }
    }
}

/// The certificates that a walk comes to in a world, in its order: at most
/// `n` of them.
pub open spec fn certificates_in(world: spec_fn(RequestView) -> ReplyView, walk: CertIter, n: nat)
    -> Seq<usize>
    decreases n,
{
    if n == 0 {
        Seq::empty()
    } else {
        let (cert, next) = walk_step(world, walk);
        match cert {
            None => Seq::empty(),
            Some(cert) => if next.done {
                seq![cert]
            } else {
                seq![cert] + certificates_in(world, next, (n - 1) as nat)
            },
        }
    }
}

/// The records of those among some certificates that pass the filter and
/// yield a record, one for each, in the order of the certificates.
pub open spec fn records_among(
    world: spec_fn(RequestView) -> ReplyView,
    filter: Filter,
    certs: Seq<usize>,
) -> Seq<CertRecordView>
    decreases certs.len(),
{
    if certs.len() == 0 {
        Seq::empty()
    } else {
        let rest = records_among(world, filter, certs.drop_first());
        if passes(world, filter, certs[0]) {
            match record_of(world, certs[0]) {
                Ok(record) => seq![record] + rest,
                Err(_) => rest,
            }
        } else {
            rest
        }
    }
}

/// Whether one among some certificates passes the filter.
pub open spec fn some_passes(
    world: spec_fn(RequestView) -> ReplyView,
    filter: Filter,
    certs: Seq<usize>,
) -> bool
    decreases certs.len(),
{
    certs.len() > 0 && (passes(world, filter, certs[0]) || some_passes(
        world,
        filter,
        certs.drop_first(),
    ))
}

/// A scan for all matches finds every one of them: its records are those
/// of exactly the certificates of the walk that pass the filter and yield a
/// record, one for each, in the order of the walk; and it marks that
/// something passed the filter exactly where some certificate of the walk
/// does.
pub proof fn lemma_every_match_is_found(
    world: spec_fn(RequestView) -> ReplyView,
    filter: Filter,
    walk: CertIter,
    n: nat,
    so_far: Findings,
)
    requires
        filter.mode == Mode::All,
    ensures
        found_in(world, filter, walk, n, so_far).records == so_far.records + records_among(
            world,
            filter,
            certificates_in(world, walk, n),
        ),
        found_in(world, filter, walk, n, so_far).matched == (so_far.matched || some_passes(
            world,
            filter,
            certificates_in(world, walk, n),
        )),
    decreases n,
{
    let certs = certificates_in(world, walk, n);
    if n == 0 {
        assert(so_far.records + Seq::<CertRecordView>::empty() =~= so_far.records);
    } else {
        let (cert, next) = walk_step(world, walk);
        match cert {
            None => {
                assert(so_far.records + Seq::<CertRecordView>::empty() =~= so_far.records);
            },
            Some(cert) => {
                let now = examined(world, filter, cert, so_far);
                let own = records_among(world, filter, seq![cert]);
                let none = Seq::<usize>::empty();
                assert(seq![cert].drop_first() =~= none);
                assert(seq![cert][0] == cert);
                assert(records_among(world, filter, none) =~= Seq::<CertRecordView>::empty());
                assert(!some_passes(world, filter, none));
                assert(own =~= if passes(world, filter, cert) && record_of(world, cert) is Ok {
                    seq![record_of(world, cert)->Ok_0]
                } else {
                    Seq::<CertRecordView>::empty()
                });
                assert(now.records =~= so_far.records + own);
                assert(now.matched == (so_far.matched || passes(world, filter, cert)));
                if next.done {
                    assert(certs =~= seq![cert]);
                    assert(some_passes(world, filter, certs) == passes(world, filter, cert));
                } else {
                    let rest = certificates_in(world, next, (n - 1) as nat);
                    lemma_every_match_is_found(world, filter, next, (n - 1) as nat, now);
                    assert(certs =~= seq![cert] + rest);
                    assert(certs.drop_first() =~= rest);
                    assert(certs[0] == cert);
                    assert(some_passes(world, filter, certs) == (passes(world, filter, cert)
                        || some_passes(world, filter, rest)));
                    assert(records_among(world, filter, certs) =~= own + records_among(
                        world,
                        filter,
                        rest,
                    ));
                    assert(so_far.records + own + records_among(world, filter, rest)
                        =~= so_far.records + (own + records_among(world, filter, rest)));
                }
            },
        }
    }
}

/// What the findings of a scan amount to: the records, where there are any;
/// else the report that certificates passed the filter but none yielded a
/// record, or that none passed the filter.
pub open spec fn verdict(findings: Findings) -> Result<Seq<CertRecordView>, CertError> {
    if findings.records.len() > 0 {
        Ok(findings.records)
    } else if findings.matched {
        Err(CertError::NoExportableCertFound)
    } else {
        Err(CertError::CertNotFound)
    }
}

/// What the gathering of a record that is under way comes to in a world.
pub open spec fn record_now(world: spec_fn(RequestView) -> ReplyView, extraction: ExtractionView)
    -> Result<CertRecordView, CertError> {
    match record_in(world, extraction, gathering_left(extraction)) {
        ExtractionView::Finished(outcome) => outcome,
        _ => Err(CertError::KeyExport),
    }
}

/// What a scan goes on to find once it is done with the certificate at hand.
pub open spec fn then_found(
    world: spec_fn(RequestView) -> ReplyView,
    scan: ScanView,
    n: nat,
    now: Findings,
) -> Findings {
    if scan.walk.done || is_enough(scan.filter(), now) {
        now
    } else {
        found_in(world, scan.filter(), scan.walk, n, now)
    }
}

/// What a scan that is under way comes to find, where the store has at most
/// `n` certificates after the one at hand.
pub open spec fn foreseen(world: spec_fn(RequestView) -> ReplyView, scan: ScanView, n: nat)
    -> Findings {
    let so_far = scan.findings();
    let yes = Ok::<AnswerView, CertError>(AnswerView::Flag(true));
    match scan.stage {
        Stage::Enumerating => if scan.walk.found == 0 {
            found_in(world, scan.filter(), scan.walk, n, so_far)
        } else {
            let next = scan.walk.after(
                world(RequestView::DuplicateCertificate { cert: scan.walk.found }),
            );
            let now = examined(world, scan.filter(), scan.walk.found, so_far);
            if next.done || is_enough(scan.filter(), now) {
                now
            } else {
                found_in(world, scan.filter(), next, n, now)
            }
        },
        Stage::CheckingTime => then_found(
            world,
            scan,
            n,
            examined(world, scan.filter(), scan.cert, so_far),
        ),
        Stage::CheckingExtension => then_found(
            world,
            scan,
            n,
            if answer_in(world, scan.question) == yes {
                with_record(so_far, record_of(world, scan.cert))
            } else {
                so_far
            },
        ),
        Stage::Extracting => then_found(
            world,
            scan,
            n,
            with_record(so_far, record_now(world, scan.extraction)),
        ),
        Stage::Releasing => then_found(world, scan, n, so_far),
        _ => so_far,
    }
}

/// Whether the store has at most `n` certificates after the point that a
/// scan has come to.
pub open spec fn store_ends(world: spec_fn(RequestView) -> ReplyView, scan: ScanView, n: nat)
    -> bool {
    match scan.stage {
        Stage::Enumerating => if scan.walk.found == 0 {
            ends_within(world, scan.walk, n)
        } else {
            let next = scan.walk.after(
                world(RequestView::DuplicateCertificate { cert: scan.walk.found }),
            );
            next.done || ends_within(world, next, n)
        },
        Stage::CheckingTime | Stage::CheckingExtension | Stage::Extracting | Stage::Releasing =>
            scan.walk.done || ends_within(world, scan.walk, n),
        _ => true,
    }
}

/// The number of certificates that the store may still have after a step.
pub open spec fn certificates_left(scan: ScanView, n: nat) -> nat {
    if scan.stage == Stage::Enumerating && scan.walk.found == 0 && n > 0 {
        (n - 1) as nat
    } else {
        n
    }
}

/// A question answers the same before and after a step of its own.
proof fn lemma_answer_is_kept(world: spec_fn(RequestView) -> ReplyView, question: QueryView)
    requires
        question.answer().is_none(),
    ensures
        answer_in(world, question.advance(world(question.request().unwrap()))) == answer_in(
            world,
            question,
        ),
        question.advance(world(question.request().unwrap())).answer().is_some()
            ==> question.advance(world(question.request().unwrap())).answer() == Some(
            answer_in(world, question),
        ),
{
    let reply = world(question.request().unwrap());
    let next = question.advance(reply);
    lemma_advance_nears_answer(question, reply);
    reveal_with_fuel(outcome_in, 2);
    lemma_outcome_is_stable(world, next, calls_left(next), (calls_left(question) - 1) as nat);
}

/// The gathering of a record comes to the same before and after a step of
/// its own.
proof fn lemma_record_is_kept(world: spec_fn(RequestView) -> ReplyView, extraction: ExtractionView)
    requires
        extraction.wf(),
        extraction.outcome().is_none(),
    ensures
        record_now(world, extraction.advance(world(extraction.request().unwrap()))) == record_now(
            world,
            extraction,
        ),
        extraction.advance(world(extraction.request().unwrap())).outcome().is_some()
            ==> extraction.advance(world(extraction.request().unwrap())).outcome() == Some(
            record_now(world, extraction),
        ),
{
    let reply = world(extraction.request().unwrap());
    let next = extraction.advance(reply);
    crate::answers::lemma_gathering_step(world, extraction);
}

/// What a scan comes to find does not change as the scan goes on.
pub proof fn lemma_foreseen_is_kept(
    world: spec_fn(RequestView) -> ReplyView,
    scan: ScanView,
    n: nat,
)
    requires
        scan.wf(),
        scan.stage != Stage::Opening,
        scan.request().is_some(),
        store_ends(world, scan, n),
    ensures
        foreseen(world, scan.advance(world(scan.request().unwrap())), certificates_left(scan, n))
            == foreseen(world, scan, n),
        store_ends(
            world,
            scan.advance(world(scan.request().unwrap())),
            certificates_left(scan, n),
        ),
{
    let reply = world(scan.request().unwrap());
    let next = scan.advance(reply);
    lemma_scan_stays_well(scan, reply);
    reveal_with_fuel(found_in, 2);
    reveal_with_fuel(ends_within, 2);
    match scan.stage {
        Stage::CheckingTime => {
            lemma_answer_is_kept(world, scan.question);
        },
        Stage::CheckingExtension => {
            lemma_answer_is_kept(world, scan.question);
        },
        Stage::Extracting => {
            lemma_record_is_kept(world, scan.extraction);
        },
        _ => {},
    }
    if next.stage == Stage::Extracting && scan.stage != Stage::Extracting {
        lemma_record_is_gathered(world, scan.cert);
    }
}

/// A scan that has finished finds what was foreseen of it at every step
/// before.
pub proof fn lemma_scan_finds_what_is_foreseen(
    world: spec_fn(RequestView) -> ReplyView,
    scan: ScanView,
    n: nat,
    calls: nat,
)
    requires
        scan.wf(),
        scan.stage != Stage::Opening,
        scan.failure.is_none(),
        store_ends(world, scan, n),
    ensures
        scan_in(world, scan, calls).outcome().is_some() ==> scan_in(world, scan, calls).outcome()
            == Some(verdict(foreseen(world, scan, n))),
    decreases calls,
{
    match scan.request() {
        Some(request) => {
            if calls > 0 {
                let next = scan.advance(world(request));
                lemma_foreseen_is_kept(world, scan, n);
                lemma_scan_stays_well(scan, world(request));
                lemma_scan_finds_what_is_foreseen(
                    world,
                    next,
                    certificates_left(scan, n),
                    (calls - 1) as nat,
                );
            }
        },
        None => {},
    }
}

/// The most calls that a scan still needs, where the store has at most `n`
/// certificates after the point that the scan has come to: forty-seven for
/// each certificate, and two to find the end of the store and to close it.
pub open spec fn calls_needed(scan: ScanView, n: nat) -> nat {
    let release = 3 + 47 * n;
    match scan.stage {
        Stage::Opening => release,
        Stage::Enumerating => if scan.walk.found == 0 {
            2 + 47 * n
        } else {
            45 + release
        },
        Stage::CheckingTime => calls_left(scan.question) + 43 + release,
        Stage::CheckingExtension => calls_left(scan.question) + 40 + release,
        Stage::Extracting => gathering_left(scan.extraction) + release,
        Stage::Releasing => release,
        Stage::ReleasingCursor => 2,
        Stage::Closing => 1,
        Stage::Finished => 0,
    }
}

/// Each reply brings a scan closer to its end.
pub proof fn lemma_scan_nears_its_end(
    world: spec_fn(RequestView) -> ReplyView,
    scan: ScanView,
    n: nat,
)
    requires
        scan.wf(),
        scan.stage != Stage::Opening,
        scan.request().is_some(),
        store_ends(world, scan, n),
    ensures
        calls_needed(scan.advance(world(scan.request().unwrap())), certificates_left(scan, n))
            < calls_needed(scan, n),
{
    let reply = world(scan.request().unwrap());
    reveal_with_fuel(ends_within, 2);
    match scan.stage {
        Stage::CheckingTime | Stage::CheckingExtension => {
            lemma_advance_nears_answer(scan.question, reply);
        },
        Stage::Extracting => {
            crate::answers::lemma_gathering_nears_its_end(scan.extraction, reply);
        },
        _ => {},
    }
}

/// A scan of a store that ends comes to its own end: after as many calls as
/// `calls_needed` says, it has finished.
pub proof fn lemma_scan_ends(
    world: spec_fn(RequestView) -> ReplyView,
    scan: ScanView,
    n: nat,
    calls: nat,
)
    requires
        scan.wf(),
        scan.stage != Stage::Opening,
        store_ends(world, scan, n),
        calls >= calls_needed(scan, n),
    ensures
        scan_in(world, scan, calls).outcome().is_some(),
    decreases calls,
{
    match scan.request() {
        Some(request) => {
            let next = scan.advance(world(request));
            lemma_scan_nears_its_end(world, scan, n);
            lemma_foreseen_is_kept(world, scan, n);
            lemma_scan_stays_well(scan, world(request));
            lemma_scan_ends(world, next, certificates_left(scan, n), (calls - 1) as nat);
        },
        None => {},
    }
}

/// What a scan of a store comes to, from its first call to its last.
///
/// Where the store cannot be opened, the scan ends with that failure after
/// the one call. Else, where the store has at most `n` certificates, the scan
/// ends after at most forty-seven calls for each of them and three more, and
/// finds what the walk of the store holds: the records of the certificates
/// that pass the filter, in the order of the walk, up to the first one where
/// only the first is asked for; and where there is no record, the report
/// that none passed the filter, or that some did and none yielded a record.
pub proof fn lemma_store_is_scanned(
    world: spec_fn(RequestView) -> ReplyView,
    mode: Mode,
    store: Seq<char>,
    user: Seq<char>,
    oid: Option<Seq<char>>,
    value: Option<Seq<char>>,
    n: nat,
)
    requires
        Principal::parse_spec(user).is_some(),
        is_store_name(store),
    ensures
        match StoreOpening::opened_spec(
            world(
                RequestView::OpenStore {
                    principal: Principal::parse_spec(user).unwrap(),
                    name: wide_name(store),
                },
            ),
        ) {
            Err(error) => scan_in(world, ScanView::start(mode, store, user, oid, value), 1).outcome()
                == Some(Err::<Seq<CertRecordView>, CertError>(error)),
            Ok(handle) => ends_within(world, CertIter::start(handle), n) ==> scan_in(
                world,
                ScanView::start(mode, store, user, oid, value),
                3 + 47 * n,
            ).outcome() == Some(
                verdict(
                    found_in(
                        world,
                        Filter { mode, oid, value },
                        CertIter::start(handle),
                        n,
                        Findings { matched: false, records: Seq::empty() },
                    ),
                ),
            ),
        },
{
    let scan = ScanView::start(mode, store, user, oid, value);
    let request = RequestView::OpenStore {
        principal: Principal::parse_spec(user).unwrap(),
        name: wide_name(store),
    };
    crate::conduct::lemma_scan_starts_well(mode, store, user, oid, value);
    lemma_scan_stays_well(scan, world(request));
    let opened = scan.advance(world(request));
    reveal_with_fuel(scan_in, 2);
    match StoreOpening::opened_spec(world(request)) {
        Err(error) => {},
        Ok(handle) => {
            if ends_within(world, CertIter::start(handle), n) {
                lemma_scan_ends(world, opened, n, 2 + 47 * n);
                lemma_scan_finds_what_is_foreseen(world, opened, n, 2 + 47 * n);
                assert(scan_in(world, scan, 3 + 47 * n) == scan_in(world, opened, 2 + 47 * n));
            }
        },
    }
}

} // verus!
