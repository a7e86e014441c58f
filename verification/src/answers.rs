//! What the questions about a certificate answer in a given world.
//!
//! A world says what each native call gives back. It does not change while a
//! question runs, nor from one question to the next.

use crate::cert_context::{size_of, units_in, wide_text, AnswerView, QueryView};
use crate::error::{CertError, Property};
use crate::name::name_from;
use crate::native::{
    CertExtentionView, KeyHandle, KeyKind, NameAttribute, ReplyView, RequestView,
    FRIENDLY_NAME_PROPERTY,
};
use crate::record::{name_question, text_or_empty, CertRecordView, ExtractionView, Field};
use crate::text::{is_substring, utf16_of};
use vstd::prelude::*;

verus! {

/// The state that a question reaches in a world within a number of calls.
pub open spec fn outcome_in(
    world: spec_fn(RequestView) -> ReplyView,
    question: QueryView,
    calls: nat,
) -> QueryView
    decreases calls,
{
    match question.request() {
        Some(request) => if calls == 0 {
            question
        } else {
            outcome_in(world, question.advance(world(request)), (calls - 1) as nat)
        },
        None => question,
    }
}

/// The number of attributes from this one to the last of a name string.
pub open spec fn attributes_left(attribute: NameAttribute) -> nat {
    match attribute {
        NameAttribute::Country => 6,
        NameAttribute::State => 5,
        NameAttribute::Locality => 4,
        NameAttribute::Organization => 3,
        NameAttribute::OrganizationalUnit => 2,
        NameAttribute::CommonName => 1,
    }
}

/// The most calls that a question still needs.
pub open spec fn calls_left(question: QueryView) -> nat {
    match question {
        QueryView::TimeValidity { .. } => 1,
        QueryView::FindExtension { .. } => 3,
        QueryView::FormatExtension { units, .. } => if units == 0 {
            2
        } else {
            1
        },
        QueryView::FriendlyName { units, .. } => if units == 0 {
            2
        } else {
            1
        },
        QueryView::NameElement { attribute, units, .. } => if units == 0 {
            2 * attributes_left(attribute)
        } else {
            (2 * attributes_left(attribute) - 1) as nat
        },
        QueryView::Validity { .. } => 1,
        QueryView::AcquireModern { .. } => 6,
        QueryView::AcquireLegacy { .. } => 5,
        QueryView::Probe { .. } => 4,
        QueryView::Export { len, .. } => if len == 0 {
            3
        } else {
            2
        },
        QueryView::FreeKey { .. } => 1,
        QueryView::Answered(_) => 0,
    }
}

/// Each reply brings a question closer to its answer.
pub proof fn lemma_advance_nears_answer(question: QueryView, reply: ReplyView)
    requires
        question.answer().is_none(),
    ensures
        calls_left(question.advance(reply)) < calls_left(question),
{
}

/// Every question has its answer after as many calls as `calls_left` says: at
/// most twelve, in whatever world.
pub proof fn lemma_answered_in_time(
    world: spec_fn(RequestView) -> ReplyView,
    question: QueryView,
    calls: nat,
)
    requires
        calls >= calls_left(question),
    ensures
        outcome_in(world, question, calls).answer().is_some(),
        calls_left(question) <= 12,
    decreases calls,
{
    match question.request() {
        Some(request) => {
            lemma_advance_nears_answer(question, world(request));
            lemma_answered_in_time(world, question.advance(world(request)), (calls - 1) as nat);
        },
        None => {},
    }
}

/// A question gives up the key that it has to free only by the call that frees
/// it, and it has none left once it is answered.
pub proof fn lemma_key_is_freed(question: QueryView, reply: ReplyView, key: KeyHandle)
    requires
        question.owes() == Some(key),
    ensures
        question.advance(reply).owes() == Some(key) || (exists|kind: KeyKind|
            question.request() == Some(RequestView::FreeKey { key, kind })),
        question.answer().is_none(),
{
    match question {
        QueryView::FreeKey { kind, .. } => {
            assert(question.request() == Some(RequestView::FreeKey { key, kind }));
        },
        _ => {},
    }
}

/// A question comes to owe a key only through an acquisition that reported
/// the key as its caller's to free.
pub proof fn lemma_key_is_acquired(question: QueryView, reply: ReplyView, key: KeyHandle)
    requires
        question.owes().is_none(),
        question.advance(reply).owes() == Some(key),
    ensures
        reply == ReplyView::Key(Some(key)),
        key.caller_frees,
        exists|cert: usize, modern_only: bool|
            question.request() == Some(RequestView::AcquireKey { cert, modern_only }),
{
    match question {
        QueryView::AcquireModern { cert, .. } => {
            assert(question.request() == Some(RequestView::AcquireKey { cert, modern_only: true }));
        },
        QueryView::AcquireLegacy { cert, .. } => {
            assert(question.request() == Some(
                RequestView::AcquireKey { cert, modern_only: false },
            ));
        },
        _ => {},
    }
}

/// More calls than a question needs change nothing.
pub proof fn lemma_outcome_is_stable(
    world: spec_fn(RequestView) -> ReplyView,
    question: QueryView,
    calls: nat,
    more: nat,
)
    requires
        calls >= calls_left(question),
        more >= calls,
    ensures
        outcome_in(world, question, more) == outcome_in(world, question, calls),
    decreases calls,
{
    match question.request() {
        Some(request) => {
            lemma_advance_nears_answer(question, world(request));
            lemma_outcome_is_stable(
                world,
                question.advance(world(request)),
                (calls - 1) as nat,
                (more - 1) as nat,
            );
        },
        None => {},
    }
}

/// The question whether the certificate is within its validity window says
/// yes exactly where the validity primitive gives zero, no where it gives
/// anything else, and fails where the primitive gives no verdict.
pub proof fn lemma_time_validity(world: spec_fn(RequestView) -> ReplyView, cert: usize)
    ensures
        outcome_in(world, QueryView::TimeValidity { cert }, 1).answer() == Some(
            match world(RequestView::VerifyTimeValidity { cert }) {
                ReplyView::Verdict(Some(verdict)) => Ok(AnswerView::Flag(verdict == 0)),
                ReplyView::Unsupported => Err(CertError::UnsupportedPlatform),
                _ => Err(CertError::TimeValidityCheck),
            },
        ),
{
    reveal_with_fuel(outcome_in, 2);
}

/// What a world gives back for a request.
pub open spec fn reply_in(world: spec_fn(RequestView) -> ReplyView, request: RequestView)
    -> ReplyView {
    world(request)
}

/// Whether a world is one of a platform that has a certificate store: no
/// call is answered with the report that there is none.
pub open spec fn is_supported(world: spec_fn(RequestView) -> ReplyView) -> bool {
    forall|request: RequestView| #[trigger] reply_in(world, request) != ReplyView::Unsupported
}

/// Where no value is looked for, the extension's presence is the answer: yes
/// where the certificate has the extension, no where it has not.
pub proof fn lemma_presence_suffices(
    world: spec_fn(RequestView) -> ReplyView,
    cert: usize,
    oid: Seq<char>,
    found: Option<CertExtentionView>,
)
    requires
        world(RequestView::FindExtension { cert, oid }) == ReplyView::Extension(found),
    ensures
        outcome_in(world, QueryView::FindExtension { cert, oid, expected: None }, 3).answer()
            == Some(Ok::<AnswerView, CertError>(AnswerView::Flag(found.is_some()))),
{
    reveal_with_fuel(outcome_in, 2);
}

/// Where the certificate does not have the extension, the answer is no, and
/// never a failure, whatever value is looked for.
pub proof fn lemma_absence_is_no_failure(
    world: spec_fn(RequestView) -> ReplyView,
    cert: usize,
    oid: Seq<char>,
    expected: Option<Seq<char>>,
)
    requires
        world(RequestView::FindExtension { cert, oid }) == ReplyView::Extension(None),
    ensures
        outcome_in(world, QueryView::FindExtension { cert, oid, expected }, 3).answer() == Some(
            Ok::<AnswerView, CertError>(AnswerView::Flag(false)),
        ),
{
    reveal_with_fuel(outcome_in, 2);
}

/// The display text that a world gives for an extension: what the formatting
/// call writes into a buffer of the size that it asked for, without the
/// terminating zero. `None` where the extension cannot be rendered.
pub open spec fn display_in(world: spec_fn(RequestView) -> ReplyView, extension: CertExtentionView)
    -> Option<Seq<char>> {
    let units = units_in(size_of(world(RequestView::FormatExtension { extension, units: 0 })));
    if units > 0 {
        wide_text(world(RequestView::FormatExtension { extension, units }))
    } else {
        None
    }
}

/// Where a value is looked for and the certificate has the extension, the
/// answer is yes exactly where the display text of the extension contains the
/// value as a literal substring, and a decoding failure where the extension
/// cannot be rendered.
pub proof fn lemma_value_is_searched(
    world: spec_fn(RequestView) -> ReplyView,
    cert: usize,
    oid: Seq<char>,
    value: Seq<char>,
    extension: CertExtentionView,
)
    requires
        is_supported(world),
        world(RequestView::FindExtension { cert, oid }) == ReplyView::Extension(Some(extension)),
    ensures
        outcome_in(
            world,
            QueryView::FindExtension { cert, oid, expected: Some(value) },
            3,
        ).answer() == Some(
            match display_in(world, extension) {
                Some(display) => Ok(AnswerView::Flag(is_substring(value, display))),
                None => Err(CertError::ExtensionDecode),
            },
        ),
{
    reveal_with_fuel(outcome_in, 4);
    let sizing = RequestView::FormatExtension { extension, units: 0 };
    assert(reply_in(world, sizing) != ReplyView::Unsupported);
    let units = units_in(size_of(world(sizing)));
    assert(reply_in(world, RequestView::FormatExtension { extension, units })
        != ReplyView::Unsupported);
}

/// A value that stands in the display text is always found: where the
/// extension is rendered as the encoding of a text, with its terminating
/// zero, every substring of that text gives the answer yes.
pub proof fn lemma_displayed_value_is_found(
    world: spec_fn(RequestView) -> ReplyView,
    cert: usize,
    oid: Seq<char>,
    value: Seq<char>,
    extension: CertExtentionView,
    display: Seq<char>,
)
    requires
        is_supported(world),
        world(RequestView::FindExtension { cert, oid }) == ReplyView::Extension(Some(extension)),
        units_in(size_of(world(RequestView::FormatExtension { extension, units: 0 }))) > 0,
        world(
            RequestView::FormatExtension {
                extension,
                units: units_in(
                    size_of(world(RequestView::FormatExtension { extension, units: 0 })),
                ),
            },
        ) == ReplyView::Wide(Some(utf16_of(display).push(0))),
        is_substring(value, display),
    ensures
        outcome_in(
            world,
            QueryView::FindExtension { cert, oid, expected: Some(value) },
            3,
        ).answer() == Some(Ok::<AnswerView, CertError>(AnswerView::Flag(true))),
{
    lemma_value_is_searched(world, cert, oid, value, extension);
    crate::text::lemma_utf16_round_trip(display);
    assert(utf16_of(display).push(0).drop_last() =~= utf16_of(display));
}

/// The value that a world gives for one attribute of a name: what the call
/// writes into a buffer of the size that it asked for, without the
/// terminating zero. Empty where the certificate has no such attribute or the
/// read fails.
pub open spec fn attribute_in(
    world: spec_fn(RequestView) -> ReplyView,
    cert: usize,
    issuer: bool,
    attribute: NameAttribute,
) -> Seq<char> {
    let units = size_of(world(RequestView::ReadNameAttribute { cert, issuer, attribute, units: 0 }));
    if units > 0 {
        match wide_text(world(RequestView::ReadNameAttribute { cert, issuer, attribute, units })) {
            Some(value) => value,
            None => Seq::empty(),
        }
    } else {
        Seq::empty()
    }
}

/// The values that a world gives for the attributes from this one on.
pub open spec fn attributes_in(
    world: spec_fn(RequestView) -> ReplyView,
    cert: usize,
    issuer: bool,
    attribute: NameAttribute,
) -> Seq<Seq<char>>
    decreases attributes_left(attribute),
{
    let value = seq![attribute_in(world, cert, issuer, attribute)];
    match attribute.next_spec() {
        Some(following) => value + attributes_in(world, cert, issuer, following),
        None => value,
    }
}

/// A name question that has come to some attribute ends with the name string
/// of the values that the world gives from there on.
pub proof fn lemma_name_from_attribute(
    world: spec_fn(RequestView) -> ReplyView,
    cert: usize,
    issuer: bool,
    attribute: NameAttribute,
    text: Seq<char>,
)
    requires
        is_supported(world),
    ensures
        outcome_in(
            world,
            QueryView::NameElement { cert, issuer, attribute, text, units: 0 },
            2 * attributes_left(attribute),
        ).answer() == Some(
            Ok::<AnswerView, CertError>(
                AnswerView::Text(
                    name_from(text, attribute, attributes_in(world, cert, issuer, attribute)),
                ),
            ),
        ),
    decreases attributes_left(attribute),
{
    let values = attributes_in(world, cert, issuer, attribute);
    let longer = crate::name::with_attribute(text, attribute, values[0]);
    let sizing = RequestView::ReadNameAttribute { cert, issuer, attribute, units: 0 };
    let units = size_of(world(sizing));
    assert(reply_in(world, sizing) != ReplyView::Unsupported);
    assert(reply_in(world, RequestView::ReadNameAttribute { cert, issuer, attribute, units })
        != ReplyView::Unsupported);
    reveal_with_fuel(outcome_in, 3);
    match attribute.next_spec() {
        Some(following) => {
            lemma_name_from_attribute(world, cert, issuer, following, longer);
            assert(values.drop_first() =~= attributes_in(world, cert, issuer, following));
            if units == 0 {
                lemma_outcome_is_stable(
                    world,
                    QueryView::NameElement {
                        cert,
                        issuer,
                        attribute: following,
                        text: longer,
                        units: 0,
                    },
                    2 * attributes_left(following),
                    (2 * attributes_left(attribute) - 1) as nat,
                );
            }
        },
        None => {
            assert(values.drop_first() =~= Seq::<Seq<char>>::empty());
        },
    }
}

/// The question for the subject's name, or the issuer's, answers with the
/// attributes that the certificate has, in their fixed order, each as
/// `Prefix=Value`, joined by a comma and a space. It never fails.
pub proof fn lemma_name_is_assembled(
    world: spec_fn(RequestView) -> ReplyView,
    cert: usize,
    issuer: bool,
)
    requires
        is_supported(world),
    ensures
        outcome_in(world, name_question(cert, issuer), 12).answer() == Some(
            Ok::<AnswerView, CertError>(
                AnswerView::Text(
                    crate::name::name_text(
                        attributes_in(world, cert, issuer, NameAttribute::first_spec()),
                    ),
                ),
            ),
        ),
{
    lemma_name_from_attribute(world, cert, issuer, NameAttribute::first_spec(), Seq::empty());
}

/// The friendly name that a world gives for a certificate: what the call
/// writes into a buffer of the size that it asked for, without the
/// terminating zero. `None` where the property cannot be read.
pub open spec fn friendly_name_in(world: spec_fn(RequestView) -> ReplyView, cert: usize)
    -> Option<Seq<char>> {
    let units = units_in(
        size_of(
            world(RequestView::ReadProperty { cert, property: FRIENDLY_NAME_PROPERTY, units: 0 }),
        ),
    );
    if units > 0 {
        wide_text(world(RequestView::ReadProperty { cert, property: FRIENDLY_NAME_PROPERTY, units }))
    } else {
        None
    }
}

/// The question for the friendly name answers with the text of the property,
/// and fails, with the property's name, where the property cannot be read.
pub proof fn lemma_friendly_name(world: spec_fn(RequestView) -> ReplyView, cert: usize)
    requires
        is_supported(world),
    ensures
        outcome_in(world, QueryView::FriendlyName { cert, units: 0 }, 2).answer() == Some(
            match friendly_name_in(world, cert) {
                Some(text) => Ok(AnswerView::Text(text)),
                None => Err(CertError::PropertyUnavailable(Property::FriendlyName)),
            },
        ),
{
    reveal_with_fuel(outcome_in, 3);
    let sizing = RequestView::ReadProperty { cert, property: FRIENDLY_NAME_PROPERTY, units: 0 };
    assert(reply_in(world, sizing) != ReplyView::Unsupported);
    let units = units_in(size_of(world(sizing)));
    assert(reply_in(
        world,
        RequestView::ReadProperty { cert, property: FRIENDLY_NAME_PROPERTY, units },
    ) != ReplyView::Unsupported);
}

/// The question for an end of the validity window answers with that instant
/// as `YYYY-MM-DDTHH:MM:SSZ`, and fails, with the property's name, where the
/// instant cannot be had or is no instant of the calendar.
pub proof fn lemma_validity_date(world: spec_fn(RequestView) -> ReplyView, cert: usize, end: bool)
    requires
        is_supported(world),
    ensures
        outcome_in(world, QueryView::Validity { cert, end }, 1).answer() == Some(
            match world(RequestView::ReadValidity { cert, end }) {
                ReplyView::Time(Some(time)) if crate::date::exists_in_calendar(time) => Ok(
                    AnswerView::Text(crate::date::utc_text(time)),
                ),
                _ => Err(
                    CertError::PropertyUnavailable(
                        if end {
                            Property::ValidTo
                        } else {
                            Property::ValidFrom
                        },
                    ),
                ),
            },
        ),
{
    reveal_with_fuel(outcome_in, 2);
    assert(reply_in(world, RequestView::ReadValidity { cert, end }) != ReplyView::Unsupported);
}

/// The question whether the key can be exported, as `is_exportable` starts it.
pub open spec fn exportability(cert: usize) -> QueryView {
    QueryView::AcquireModern { cert, export: false }
}

/// The question for the key itself, as `private_key` starts it.
pub open spec fn key_export(cert: usize) -> QueryView {
    QueryView::AcquireModern { cert, export: true }
}

/// Asking twice whether the key can be exported gives the same answer twice,
/// as long as the world stays as it is. The answer is a yes, a no or a
/// failure, and a certificate without a key that can be reached gives the
/// failure that says so, never a no.
pub proof fn lemma_exportability_is_repeatable(
    world: spec_fn(RequestView) -> ReplyView,
    cert: usize,
    first: nat,
    second: nat,
)
    requires
        first >= 6,
        second >= 6,
    ensures
        outcome_in(world, exportability(cert), first) == outcome_in(
            world,
            exportability(cert),
            second,
        ),
        match outcome_in(world, exportability(cert), first).answer() {
            Some(Ok(AnswerView::Flag(_))) => true,
            Some(Err(_)) => true,
            _ => false,
        },
{
    lemma_outcome_is_stable(world, exportability(cert), 6, first);
    lemma_outcome_is_stable(world, exportability(cert), 6, second);
    reveal_with_fuel(outcome_in, 7);
}

/// Where the world has no key for the certificate under either kind of
/// acquisition, the answer is the failure that says so.
pub proof fn lemma_missing_key_is_told_apart(
    world: spec_fn(RequestView) -> ReplyView,
    cert: usize,
    export: bool,
)
    requires
        world(RequestView::AcquireKey { cert, modern_only: true }) == ReplyView::Key(None),
        world(RequestView::AcquireKey { cert, modern_only: false }) == ReplyView::Key(None),
    ensures
        outcome_in(world, QueryView::AcquireModern { cert, export }, 6).answer() == Some(
            Err::<AnswerView, CertError>(CertError::PrivateKeyUnavailable),
        ),
{
    reveal_with_fuel(outcome_in, 7);
}

/// The key of a certificate whose key cannot be exported is not handed out:
/// where the question whether it can be exported says no, the question for
/// the key fails with the export error.
pub proof fn lemma_no_key_unless_exportable(world: spec_fn(RequestView) -> ReplyView, cert: usize)
    requires
        outcome_in(world, exportability(cert), 6).answer() == Some(
            Ok::<AnswerView, CertError>(AnswerView::Flag(false)),
        ),
    ensures
        outcome_in(world, key_export(cert), 6).answer() == Some(
            Err::<AnswerView, CertError>(CertError::KeyExport),
        ),
{
    reveal_with_fuel(outcome_in, 7);
}

/// The question for the key answers with bytes or fails: it never answers
/// with no bytes at all, and it answers with bytes only where the question
/// whether the key can be exported says yes.
pub proof fn lemma_key_bytes_are_never_empty(
    world: spec_fn(RequestView) -> ReplyView,
    cert: usize,
)
    ensures
        match outcome_in(world, key_export(cert), 6).answer() {
            Some(Ok(AnswerView::Bytes(bytes))) => bytes.len() > 0 && outcome_in(
                world,
                exportability(cert),
                6,
            ).answer() == Some(Ok::<AnswerView, CertError>(AnswerView::Flag(true))),
            Some(Err(_)) => true,
            _ => false,
        },
{
    reveal_with_fuel(outcome_in, 7);
}

/// What a question answers in a world.
pub open spec fn answer_in(world: spec_fn(RequestView) -> ReplyView, question: QueryView) -> Result<
    AnswerView,
    CertError,
> {
    match outcome_in(world, question, calls_left(question)) {
        QueryView::Answered(answer) => answer,
        _ => Err(CertError::UnsupportedPlatform),
    }
}

/// The state that the gathering of a record reaches in a world within a
/// number of calls.
pub open spec fn record_in(
    world: spec_fn(RequestView) -> ReplyView,
    extraction: ExtractionView,
    calls: nat,
) -> ExtractionView
    decreases calls,
{
    match extraction.request() {
        Some(request) => if calls == 0 {
            extraction
        } else {
            record_in(world, extraction.advance(world(request)), (calls - 1) as nat)
        },
        None => extraction,
    }
}

/// The most calls that the fields after this one need.
pub open spec fn calls_after(field: Field) -> nat {
    match field {
        Field::Exportable => 34,
        Field::FriendlyName => 32,
        Field::Name => 20,
        Field::IssuerName => 8,
        Field::EffectiveDate => 7,
        Field::ExpirationDate => 6,
        Field::Key => 0,
    }
}

/// The most calls that the gathering of a record still needs.
pub open spec fn gathering_left(extraction: ExtractionView) -> nat {
    match extraction {
        ExtractionView::Gathering { field, question, .. } => calls_left(question) + calls_after(
            field,
        ),
        ExtractionView::Finished(_) => 0,
    }
}

/// Whether the gathering asks a question that is not answered yet.
pub open spec fn is_asking(extraction: ExtractionView) -> bool {
    match extraction {
        ExtractionView::Gathering { question, .. } => question.answer().is_none(),
        ExtractionView::Finished(_) => true,
    }
}

/// Each reply brings the gathering of a record closer to its end.
pub proof fn lemma_gathering_nears_its_end(extraction: ExtractionView, reply: ReplyView)
    requires
        is_asking(extraction),
        extraction.outcome().is_none(),
    ensures
        gathering_left(extraction.advance(reply)) < gathering_left(extraction),
        is_asking(extraction.advance(reply)),
{
    match extraction {
        ExtractionView::Gathering { question, .. } => {
            lemma_advance_nears_answer(question, reply);
        },
        _ => {},
    }
}

/// The gathering of a record has ended after as many calls as
/// `gathering_left` says, and more calls change nothing.
pub proof fn lemma_gathering_is_stable(
    world: spec_fn(RequestView) -> ReplyView,
    extraction: ExtractionView,
    calls: nat,
    more: nat,
)
    requires
        is_asking(extraction),
        calls >= gathering_left(extraction),
        more >= calls,
    ensures
        record_in(world, extraction, more) == record_in(world, extraction, calls),
        record_in(world, extraction, calls).outcome().is_some(),
    decreases calls,
{
    match extraction.request() {
        Some(request) => {
            lemma_gathering_nears_its_end(extraction, world(request));
            lemma_gathering_is_stable(
                world,
                extraction.advance(world(request)),
                (calls - 1) as nat,
                (more - 1) as nat,
            );
        },
        None => {},
    }
}

/// The gathering of a record comes to the same end from a state and from the
/// state after it.
pub proof fn lemma_gathering_step(
    world: spec_fn(RequestView) -> ReplyView,
    extraction: ExtractionView,
)
    requires
        is_asking(extraction),
        extraction.outcome().is_none(),
    ensures
        record_in(world, extraction, gathering_left(extraction)) == record_in(
            world,
            extraction.advance(world(extraction.request().unwrap())),
            gathering_left(extraction.advance(world(extraction.request().unwrap()))),
        ),
{
    let reply = world(extraction.request().unwrap());
    let next = extraction.advance(reply);
    lemma_gathering_nears_its_end(extraction, reply);
    reveal_with_fuel(record_in, 2);
    lemma_gathering_is_stable(
        world,
        next,
        gathering_left(next),
        (gathering_left(extraction) - 1) as nat,
    );
}

/// The gathering of a field comes to what the answer to its question makes
/// of it.
proof fn lemma_field_is_gathered(
    world: spec_fn(RequestView) -> ReplyView,
    cert: usize,
    field: Field,
    question: QueryView,
    record: CertRecordView,
)
    requires
        question.answer().is_none(),
        calls_left(question) + calls_after(field) <= 40,
        is_asking(ExtractionView::gathered(cert, field, record, answer_in(world, question))),
        gathering_left(ExtractionView::gathered(cert, field, record, answer_in(world, question)))
            <= calls_after(field),
    ensures
        record_in(world, ExtractionView::Gathering { cert, field, question, record }, 40)
            == record_in(
            world,
            ExtractionView::gathered(cert, field, record, answer_in(world, question)),
            40,
        ),
    decreases calls_left(question),
{
    let extraction = ExtractionView::Gathering { cert, field, question, record };
    let request = question.request().unwrap();
    let reply = world(request);
    let next = question.advance(reply);
    lemma_advance_nears_answer(question, reply);
    reveal_with_fuel(outcome_in, 2);
    reveal_with_fuel(record_in, 2);
    assert(outcome_in(world, question, calls_left(question)) == outcome_in(
        world,
        next,
        (calls_left(question) - 1) as nat,
    ));
    lemma_outcome_is_stable(world, next, calls_left(next), (calls_left(question) - 1) as nat);
    assert(answer_in(world, question) == answer_in(world, next));
    assert(record_in(world, extraction, 40) == record_in(world, extraction.advance(reply), 39));
    match next.answer() {
        Some(outcome) => {
            assert(answer_in(world, next) == outcome);
            let gathered = ExtractionView::gathered(cert, field, record, outcome);
            lemma_gathering_is_stable(world, gathered, 39, 40);
        },
        None => {
            let waiting = ExtractionView::Gathering { cert, field, question: next, record };
            lemma_gathering_is_stable(world, waiting, 39, 40);
            lemma_field_is_gathered(world, cert, field, next, record);
        },
    }
}

/// The record that a world holds for a certificate, or the reason why it
/// holds none.
///
/// Where the key cannot be exported, the report says so; where that cannot
/// be found out, the failure to find it out stands. Else the record holds the
/// friendly name, the names of subject and issuer and both ends of the
/// validity window, each empty where it cannot be read, and the exported key;
/// and where the export fails, the export error stands in its place.
pub open spec fn record_of(world: spec_fn(RequestView) -> ReplyView, cert: usize) -> Result<
    CertRecordView,
    CertError,
> {
    match answer_in(world, exportability(cert)) {
        Ok(AnswerView::Flag(true)) => match answer_in(world, key_export(cert)) {
            Ok(AnswerView::Bytes(key)) => Ok(
                CertRecordView {
                    friendly_name: text_or_empty(
                        answer_in(world, QueryView::FriendlyName { cert, units: 0 }),
                    ),
                    name: text_or_empty(answer_in(world, name_question(cert, false))),
                    issuer_name: text_or_empty(answer_in(world, name_question(cert, true))),
                    effective_date: text_or_empty(
                        answer_in(world, QueryView::Validity { cert, end: false }),
                    ),
                    expiration_date: text_or_empty(
                        answer_in(world, QueryView::Validity { cert, end: true }),
                    ),
                    key,
                },
            ),
            _ => Err(CertError::KeyExport),
        },
        Ok(_) => Err(CertError::CertNotExportable),
        Err(error) => Err(error),
    }
}

/// The gathering of a record ends, after at most forty calls, with the
/// record that the world holds for the certificate.
pub proof fn lemma_record_is_gathered(world: spec_fn(RequestView) -> ReplyView, cert: usize)
    ensures
        record_in(world, ExtractionView::start(cert), 40).outcome() == Some(record_of(world, cert)),
{
    let blank = CertRecordView::blank();
    lemma_field_is_gathered(world, cert, Field::Exportable, exportability(cert), blank);
    if answer_in(world, exportability(cert)) == Ok::<AnswerView, CertError>(
        AnswerView::Flag(true),
    ) {
        let friendly = QueryView::FriendlyName { cert, units: 0 };
        lemma_field_is_gathered(world, cert, Field::FriendlyName, friendly, blank);
        let first = CertRecordView {
            friendly_name: text_or_empty(answer_in(world, friendly)),
            ..blank
        };
        let subject = name_question(cert, false);
        lemma_field_is_gathered(world, cert, Field::Name, subject, first);
        let second = CertRecordView { name: text_or_empty(answer_in(world, subject)), ..first };
        let issuer = name_question(cert, true);
        lemma_field_is_gathered(world, cert, Field::IssuerName, issuer, second);
        let third = CertRecordView {
            issuer_name: text_or_empty(answer_in(world, issuer)),
            ..second
        };
        let from = QueryView::Validity { cert, end: false };
        lemma_field_is_gathered(world, cert, Field::EffectiveDate, from, third);
        let fourth = CertRecordView {
            effective_date: text_or_empty(answer_in(world, from)),
            ..third
        };
        let to = QueryView::Validity { cert, end: true };
        lemma_field_is_gathered(world, cert, Field::ExpirationDate, to, fourth);
        let fifth = CertRecordView {
            expiration_date: text_or_empty(answer_in(world, to)),
            ..fourth
        };
        lemma_field_is_gathered(world, cert, Field::Key, key_export(cert), fifth);
    }
}

} // verus!
