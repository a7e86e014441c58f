//! One certificate of a store, and the questions that can be asked about it.
//!
//! A question is a small state machine. Each state but the last names one
//! native call; the reply to that call moves the question on, until it holds
//! its answer. The question decides which call comes next and what a reply
//! means; its caller only performs the calls.

use crate::date::{exists_in_calendar, format_utc, utc_text};
use crate::error::{CertError, Property};
use crate::name::{append_attribute, with_attribute};
use crate::native::{
    CertExtention, CertExtentionView, KeyHandle, KeyKind, NameAttribute, Reply,
    ReplyView, Request, RequestView, BAD_KEY_STATE, ERROR_INVALID_PARAMETER,
    FRIENDLY_NAME_PROPERTY,
};
use crate::text::{contains_text, decode_wide, is_substring, utf16_lossy};
use vstd::prelude::*;
use vstd::slice::slice_subrange;
use vstd::string::StringExecFns;

verus! {

/// What a question found out.
#[derive(Debug)]
pub enum Answer {
    Flag(bool),
    Text(String),
    Bytes(Vec<u8>),
}

pub enum AnswerView {
    Flag(bool),
    Text(Seq<char>),
    Bytes(Seq<u8>),
}

impl View for Answer {
    type V = AnswerView;

    open spec fn view(&self) -> AnswerView {
        match *self {
            Answer::Flag(flag) => AnswerView::Flag(flag),
            Answer::Text(text) => AnswerView::Text(text@),
            Answer::Bytes(bytes) => AnswerView::Bytes(bytes@),
        }
    }
}

/// The model of an answer or the failure in its place.
pub open spec fn outcome_view(outcome: Result<Answer, CertError>) -> Result<AnswerView, CertError> {
    match outcome {
        Ok(answer) => Ok(answer@),
        Err(error) => Err(error),
    }
}

/// The model of a request that may be absent.
pub open spec fn request_view(request: Option<Request>) -> Option<RequestView> {
    match request {
        Some(request) => Some(request@),
        None => None,
    }
}

/// A question about one certificate, in the state that the replies so far
/// have brought it to.
#[derive(Debug)]
pub enum Query {
    /// Waits for the verdict of the validity primitive.
    TimeValidity { cert: usize },
    /// Waits for the extension with the object identifier `oid`.
    FindExtension { cert: usize, oid: String, expected: Option<String> },
    /// Waits for the display text of the extension, to look for `value` in it:
    /// for its size while `units` is zero, then for the text itself.
    FormatExtension { extension: CertExtention, value: String, units: u32 },
    /// Waits for the friendly-name property: for its size while `units` is
    /// zero, then for the text itself.
    FriendlyName { cert: usize, units: u32 },
    /// Waits for `attribute`: for the size of its value while `units` is zero,
    /// then for the value itself. `text` holds the attributes before it.
    NameElement { cert: usize, issuer: bool, attribute: NameAttribute, text: String, units: u32 },
    /// Waits for one end of the validity window as calendar fields.
    Validity { cert: usize, end: bool },
    /// Waits for a key from a key-storage provider.
    AcquireModern { cert: usize, export: bool },
    /// Waits for a key from whichever provider holds it.
    AcquireLegacy { cert: usize, export: bool },
    /// Waits for the outcome of the export probe.
    Probe { key: KeyHandle, kind: KeyKind, export: bool },
    /// Waits for the exported blob: for its size while `len` is zero, then
    /// for the blob itself.
    Export { key: KeyHandle, kind: KeyKind, len: u32 },
    /// Waits for the key handle to be freed; the answer stands already.
    FreeKey { key: KeyHandle, kind: KeyKind, answer: Result<Answer, CertError> },
    /// Holds the answer. No call is left to make.
    Answered(Result<Answer, CertError>),
}

pub enum QueryView {
    TimeValidity { cert: usize },
    FindExtension { cert: usize, oid: Seq<char>, expected: Option<Seq<char>> },
    FormatExtension { extension: CertExtentionView, value: Seq<char>, units: u32 },
    FriendlyName { cert: usize, units: u32 },
    NameElement {
        cert: usize,
        issuer: bool,
        attribute: NameAttribute,
        text: Seq<char>,
        units: u32,
    },
    Validity { cert: usize, end: bool },
    AcquireModern { cert: usize, export: bool },
    AcquireLegacy { cert: usize, export: bool },
    Probe { key: KeyHandle, kind: KeyKind, export: bool },
    Export { key: KeyHandle, kind: KeyKind, len: u32 },
    FreeKey { key: KeyHandle, kind: KeyKind, answer: Result<AnswerView, CertError> },
    Answered(Result<AnswerView, CertError>),
}

impl View for Query {
    type V = QueryView;

    open spec fn view(&self) -> QueryView {
        match *self {
            Query::TimeValidity { cert } => QueryView::TimeValidity { cert },
            Query::FindExtension { cert, oid, expected: Some(value) } => QueryView::FindExtension {
                cert,
                oid: oid@,
                expected: Some(value@),
            },
            Query::FindExtension { cert, oid, expected: None } => QueryView::FindExtension {
                cert,
                oid: oid@,
                expected: None,
            },
            Query::FormatExtension { extension, value, units } => QueryView::FormatExtension {
                extension: extension@,
                value: value@,
                units,
            },
            Query::FriendlyName { cert, units } => QueryView::FriendlyName { cert, units },
            Query::NameElement { cert, issuer, attribute, text, units } => QueryView::NameElement {
                cert,
                issuer,
                attribute,
                text: text@,
                units,
            },
            Query::Validity { cert, end } => QueryView::Validity { cert, end },
            Query::AcquireModern { cert, export } => QueryView::AcquireModern { cert, export },
            Query::AcquireLegacy { cert, export } => QueryView::AcquireLegacy { cert, export },
            Query::Probe { key, kind, export } => QueryView::Probe { key, kind, export },
            Query::Export { key, kind, len } => QueryView::Export { key, kind, len },
            Query::FreeKey { key, kind, answer } => QueryView::FreeKey {
                key,
                kind,
                answer: outcome_view(answer),
            },
            Query::Answered(answer) => QueryView::Answered(outcome_view(answer)),
        }
    }
}

/// The text that a reply carries: what its code units stand for, without the
/// terminating zero. `None` where the call failed or wrote nothing at all.
pub open spec fn wide_text(reply: ReplyView) -> Option<Seq<char>> {
    match reply {
        ReplyView::Wide(Some(units)) => if units.len() > 0 {
            Some(utf16_lossy(units.drop_last()))
        } else {
            None
        },
        _ => None,
    }
}

/// The size that a reply reports; nothing where the call failed.
pub open spec fn size_of(reply: ReplyView) -> u32 {
    match reply {
        ReplyView::Size(Some(size)) => size,
        _ => 0,
    }
}

/// The number of code units in a text of so many bytes.
pub open spec fn units_in(bytes: u32) -> u32 {
    bytes / 2
}

/// The name question as it turns from one attribute to the next, or to its
/// answer after the last.
pub open spec fn following(cert: usize, issuer: bool, attribute: NameAttribute, text: Seq<char>)
    -> QueryView {
    match attribute.next_spec() {
        Some(next) => QueryView::NameElement { cert, issuer, attribute: next, text, units: 0 },
        None => QueryView::Answered(Ok(AnswerView::Text(text))),
    }
}

/// What an export probe says of a key. A probe that succeeds shows a key that
/// can be exported. One that fails with the refusal of its subsystem (the
/// bad-key-state status of a key-storage provider, the invalid-parameter code
/// of a legacy provider) shows one that cannot. Any other end is a failure of
/// the probe itself.
pub open spec fn probe_verdict(kind: KeyKind, reply: ReplyView) -> Result<bool, CertError> {
    match reply {
        ReplyView::Status { succeeded, code } => if succeeded {
            Ok(true)
        } else if kind == KeyKind::Modern && code == BAD_KEY_STATE {
            Ok(false)
        } else if kind == KeyKind::Legacy && code == ERROR_INVALID_PARAMETER {
            Ok(false)
        } else {
            Err(CertError::KeyExport)
        },
        _ => Err(CertError::KeyExport),
    }
}

/// Where a question goes once it is done with a key: to the call that frees
/// the handle where the acquisition left that to its caller, else to the end.
pub open spec fn release(key: KeyHandle, kind: KeyKind, answer: Result<AnswerView, CertError>)
    -> QueryView {
    if key.caller_frees {
        QueryView::FreeKey { key, kind, answer }
    } else {
        QueryView::Answered(answer)
    }
}

impl QueryView {
    /// The key handle that the question has to free before it ends.
    pub open spec fn owes(self) -> Option<KeyHandle> {
        match self {
            QueryView::Probe { key, .. } | QueryView::Export { key, .. } | QueryView::FreeKey {
                key,
                ..
            } => if key.caller_frees {
                Some(key)
            } else {
                None
            },
            _ => None,
        }
    }

    /// The native call that the question waits for; none once it is answered.
    pub open spec fn request(self) -> Option<RequestView> {
        match self {
            QueryView::TimeValidity { cert } => Some(RequestView::VerifyTimeValidity { cert }),
            QueryView::FindExtension { cert, oid, .. } => Some(
                RequestView::FindExtension { cert, oid },
            ),
            QueryView::FormatExtension { extension, units, .. } => Some(
                RequestView::FormatExtension { extension, units },
            ),
            QueryView::FriendlyName { cert, units } => Some(
                RequestView::ReadProperty { cert, property: FRIENDLY_NAME_PROPERTY, units },
            ),
            QueryView::NameElement { cert, issuer, attribute, units, .. } => Some(
                RequestView::ReadNameAttribute { cert, issuer, attribute, units },
            ),
            QueryView::Validity { cert, end } => Some(RequestView::ReadValidity { cert, end }),
            QueryView::AcquireModern { cert, .. } => Some(
                RequestView::AcquireKey { cert, modern_only: true },
            ),
            QueryView::AcquireLegacy { cert, .. } => Some(
                RequestView::AcquireKey { cert, modern_only: false },
            ),
            QueryView::Probe { key, kind, .. } => Some(RequestView::ProbeExport { key, kind }),
            QueryView::Export { key, kind, len } => Some(RequestView::ExportKey { key, kind, len }),
            QueryView::FreeKey { key, kind, .. } => Some(RequestView::FreeKey { key, kind }),
            QueryView::Answered(_) => None,
        }
    }

    /// The answer, once the question has one.
    pub open spec fn answer(self) -> Option<Result<AnswerView, CertError>> {
        match self {
            QueryView::Answered(answer) => Some(answer),
            _ => None,
        }
    }

    /// The state after the reply to a question that holds no key.
    pub open spec fn advance_free(self, reply: ReplyView) -> QueryView {
        match self {
            QueryView::TimeValidity { .. } => QueryView::Answered(
                match reply {
                    ReplyView::Verdict(Some(verdict)) => Ok(AnswerView::Flag(verdict == 0)),
                    _ => Err(CertError::TimeValidityCheck),
                },
            ),
            QueryView::FindExtension { expected, .. } => match reply {
                ReplyView::Extension(None) => QueryView::Answered(Ok(AnswerView::Flag(false))),
                ReplyView::Extension(Some(extension)) => match expected {
                    None => QueryView::Answered(Ok(AnswerView::Flag(true))),
                    Some(value) => QueryView::FormatExtension { extension, value, units: 0 },
                },
                _ => QueryView::Answered(Err(CertError::ExtensionDecode)),
            },
            QueryView::FormatExtension { extension, value, units } => if units == 0 {
                if units_in(size_of(reply)) > 0 {
                    QueryView::FormatExtension { extension, value, units: units_in(size_of(reply)) }
                } else {
                    QueryView::Answered(Err(CertError::ExtensionDecode))
                }
            } else {
                QueryView::Answered(
                    match wide_text(reply) {
                        Some(text) => Ok(AnswerView::Flag(is_substring(value, text))),
                        None => Err(CertError::ExtensionDecode),
                    },
                )
            },
            QueryView::FriendlyName { cert, units } => if units == 0 {
                if units_in(size_of(reply)) > 0 {
                    QueryView::FriendlyName { cert, units: units_in(size_of(reply)) }
                } else {
                    QueryView::Answered(
                        Err(CertError::PropertyUnavailable(Property::FriendlyName)),
                    )
                }
            } else {
                QueryView::Answered(
                    match wide_text(reply) {
                        Some(text) => Ok(AnswerView::Text(text)),
                        None => Err(CertError::PropertyUnavailable(Property::FriendlyName)),
                    },
                )
            },
            QueryView::NameElement { cert, issuer, attribute, text, units } => if units == 0 {
                if size_of(reply) > 0 {
                    QueryView::NameElement { cert, issuer, attribute, text, units: size_of(reply) }
                } else {
                    following(cert, issuer, attribute, text)
                }
            } else {
                let value = match wide_text(reply) {
                    Some(value) => value,
                    None => Seq::empty(),
                };
                following(cert, issuer, attribute, with_attribute(text, attribute, value))
            },
            QueryView::Validity { end, .. } => {
                let missing = CertError::PropertyUnavailable(
                    if end {
                        Property::ValidTo
                    } else {
                        Property::ValidFrom
                    },
                );
                QueryView::Answered(
                    match reply {
                        ReplyView::Time(Some(time)) => if exists_in_calendar(time) {
                            Ok(AnswerView::Text(utc_text(time)))
                        } else {
                            Err(missing)
                        },
                        _ => Err(missing),
                    },
                )
            },
            QueryView::AcquireModern { cert, export } => match reply {
                ReplyView::Key(Some(key)) => if key.kind_spec() == KeyKind::Modern {
                    QueryView::Probe { key, kind: KeyKind::Modern, export }
                } else {
                    release(
                        key,
                        KeyKind::Legacy,
                        if export {
                            Err(CertError::KeyExport)
                        } else {
                            Ok(AnswerView::Flag(false))
                        },
                    )
                },
                _ => QueryView::AcquireLegacy { cert, export },
            },
            QueryView::AcquireLegacy { export, .. } => match reply {
                ReplyView::Key(Some(key)) => QueryView::Probe { key, kind: KeyKind::Legacy, export },
                _ => QueryView::Answered(Err(CertError::PrivateKeyUnavailable)),
            },
            _ => self,
        }
    }

    /// The state that a reply brings the question to.
    ///
    /// A call that is made without a buffer gives the size of the buffer for
    /// the call that follows it; where it gives none, there is nothing to
    /// read. A question that holds a key goes on to free it whatever the reply
    /// says. Any other question ends at once where the platform has no store
    /// to call.
    pub open spec fn advance(self, reply: ReplyView) -> QueryView {
        match self {
            QueryView::Answered(_) => self,
            QueryView::FreeKey { answer, .. } => QueryView::Answered(answer),
            QueryView::Probe { key, kind, export } => {
                let verdict = probe_verdict(kind, reply);
                if export {
                    if verdict == Ok::<bool, CertError>(true) {
                        QueryView::Export { key, kind, len: 0 }
                    } else {
                        release(key, kind, Err(CertError::KeyExport))
                    }
                } else {
                    release(
                        key,
                        kind,
                        match verdict {
                            Ok(exportable) => Ok(AnswerView::Flag(exportable)),
                            Err(error) => Err(error),
                        },
                    )
                }
            },
            QueryView::Export { key, kind, len } => if len == 0 && size_of(reply) > 0 {
                QueryView::Export { key, kind, len: size_of(reply) }
            } else if len == 0 {
                release(key, kind, Err(CertError::KeyExport))
            } else {
                release(
                    key,
                    kind,
                    match reply {
                        ReplyView::Bytes(Some(bytes)) => if bytes.len() > 0 {
                            Ok(AnswerView::Bytes(bytes))
                        } else {
                            Err(CertError::KeyExport)
                        },
                        _ => Err(CertError::KeyExport),
                    },
                )
            },
            _ => if reply == ReplyView::Unsupported {
                QueryView::Answered(Err(CertError::UnsupportedPlatform))
            } else {
                self.advance_free(reply)
            },
        }
    }
}

/// The text of a reply, decoded.
fn text_of(reply: &Reply) -> (text: Option<String>)
    ensures
        match text {
            Some(text) => wide_text(reply@) == Some(text@),
            None => wide_text(reply@).is_none(),
        },
{
    match reply {
        Reply::Wide(Some(units)) => {
            if units.len() > 0 {
                Some(decode_wide(slice_subrange(units.as_slice(), 0, units.len() - 1)))
            } else {
                None
            }
        },
        _ => None,
    }
}

/// The size that a reply reports.
fn reported_size(reply: &Reply) -> (size: u32)
    ensures
        size == size_of(reply@),
{
    match reply {
        Reply::Size(Some(size)) => *size,
        _ => 0,
    }
}

/// Turns the name question to its next attribute.
fn turn(cert: usize, issuer: bool, attribute: NameAttribute, text: String) -> (next: Query)
    ensures
        next@ == following(cert, issuer, attribute, text@),
{
    match attribute.next() {
        Some(next) => Query::NameElement { cert, issuer, attribute: next, text, units: 0 },
        None => Query::Answered(Ok(Answer::Text(text))),
    }
}

/// Reads the outcome of an export probe.
fn verdict_of(kind: KeyKind, reply: &Reply) -> (verdict: Result<bool, CertError>)
    ensures
        verdict == probe_verdict(kind, reply@),
{
    match reply {
        Reply::Status { succeeded, code } => {
            if *succeeded {
                Ok(true)
            } else if kind == KeyKind::Modern && *code == BAD_KEY_STATE {
                Ok(false)
            } else if kind == KeyKind::Legacy && *code == ERROR_INVALID_PARAMETER {
                Ok(false)
            } else {
                Err(CertError::KeyExport)
            }
        },
        _ => Err(CertError::KeyExport),
    }
}

/// Ends a question that is done with its key.
fn released(key: KeyHandle, kind: KeyKind, answer: Result<Answer, CertError>) -> (next: Query)
    ensures
        next@ == release(key, kind, outcome_view(answer)),
{
    if key.caller_frees {
        Query::FreeKey { key, kind, answer }
    } else {
        Query::Answered(answer)
    }
}

impl Query {
    /// The native call that the question waits for; none once it is answered.
    pub fn request(&self) -> (request: Option<Request>)
        ensures
            request_view(request) == self@.request(),
    {
        match self {
            Query::TimeValidity { cert } => Some(Request::VerifyTimeValidity { cert: *cert }),
            Query::FindExtension { cert, oid, .. } => Some(
                Request::FindExtension { cert: *cert, oid: oid.clone() },
            ),
            Query::FormatExtension { extension, units, .. } => Some(
                Request::FormatExtension { extension: extension.duplicate(), units: *units },
            ),
            Query::FriendlyName { cert, units } => Some(
                Request::ReadProperty {
                    cert: *cert,
                    property: FRIENDLY_NAME_PROPERTY,
                    units: *units,
                },
            ),
            Query::NameElement { cert, issuer, attribute, units, .. } => Some(
                Request::ReadNameAttribute {
                    cert: *cert,
                    issuer: *issuer,
                    attribute: *attribute,
                    units: *units,
                },
            ),
            Query::Validity { cert, end } => Some(Request::ReadValidity { cert: *cert, end: *end }),
            Query::AcquireModern { cert, .. } => Some(
                Request::AcquireKey { cert: *cert, modern_only: true },
            ),
            Query::AcquireLegacy { cert, .. } => Some(
                Request::AcquireKey { cert: *cert, modern_only: false },
            ),
            Query::Probe { key, kind, .. } => Some(Request::ProbeExport { key: *key, kind: *kind }),
            Query::Export { key, kind, len } => Some(
                Request::ExportKey { key: *key, kind: *kind, len: *len },
            ),
            Query::FreeKey { key, kind, .. } => Some(Request::FreeKey { key: *key, kind: *kind }),
            Query::Answered(_) => None,
        }
    }

    /// Whether the question has its answer.
    pub fn is_answered(&self) -> (answered: bool)
        ensures
            answered == self@.answer().is_some(),
            answered == self@.request().is_none(),
    {
        match self {
            Query::Answered(_) => true,
            _ => false,
        }
    }

    /// The answer, once the question has one.
    pub fn answer(self) -> (answer: Option<Result<Answer, CertError>>)
        ensures
            match answer {
                Some(answer) => self@.answer() == Some(outcome_view(answer)),
                None => self@.answer().is_none(),
            },
    {
        match self {
            Query::Answered(answer) => Some(answer),
            _ => None,
        }
    }

    /// Moves a question that holds no key on by one reply.
    fn advance_free(self, reply: Reply) -> (next: Query)
        ensures
            next@ == self@.advance_free(reply@),
    {
        match self {
            Query::TimeValidity { .. } => Query::Answered(
                match reply {
                    Reply::Verdict(Some(verdict)) => Ok(Answer::Flag(verdict == 0)),
                    _ => Err(CertError::TimeValidityCheck),
                },
            ),
            Query::FindExtension { expected, .. } => match reply {
                Reply::Extension(None) => Query::Answered(Ok(Answer::Flag(false))),
                Reply::Extension(Some(extension)) => match expected {
                    None => Query::Answered(Ok(Answer::Flag(true))),
                    Some(value) => Query::FormatExtension { extension, value, units: 0 },
                },
                _ => Query::Answered(Err(CertError::ExtensionDecode)),
            },
            Query::FormatExtension { extension, value, units } => {
                if units == 0 {
                    let units: u32 = reported_size(&reply) / 2;
                    if units > 0 {
                        Query::FormatExtension { extension, value, units }
                    } else {
                        Query::Answered(Err(CertError::ExtensionDecode))
                    }
                } else {
                    Query::Answered(
                        match text_of(&reply) {
                            Some(text) => Ok(
                                Answer::Flag(contains_text(text.as_str(), value.as_str())),
                            ),
                            None => Err(CertError::ExtensionDecode),
                        },
                    )
                }
            },
            Query::FriendlyName { cert, units } => {
                if units == 0 {
                    let units: u32 = reported_size(&reply) / 2;
                    if units > 0 {
                        Query::FriendlyName { cert, units }
                    } else {
                        Query::Answered(Err(CertError::PropertyUnavailable(Property::FriendlyName)))
                    }
                } else {
                    Query::Answered(
                        match text_of(&reply) {
                            Some(text) => Ok(Answer::Text(text)),
                            None => Err(CertError::PropertyUnavailable(Property::FriendlyName)),
                        },
                    )
                }
            },
            Query::NameElement { cert, issuer, attribute, text, units } => {
                if units == 0 {
                    let units: u32 = reported_size(&reply);
                    if units > 0 {
                        Query::NameElement { cert, issuer, attribute, text, units }
                    } else {
                        turn(cert, issuer, attribute, text)
                    }
                } else {
                    let value = match text_of(&reply) {
                        Some(value) => value,
                        None => String::new(),
                    };
                    turn(cert, issuer, attribute, append_attribute(text, attribute, value.as_str()))
                }
            },
            Query::Validity { end, .. } => {
                let missing = CertError::PropertyUnavailable(
                    if end {
                        Property::ValidTo
                    } else {
                        Property::ValidFrom
                    },
                );
                Query::Answered(
                    match reply {
                        Reply::Time(Some(time)) => match format_utc(time) {
                            Some(text) => Ok(Answer::Text(text)),
                            None => Err(missing),
                        },
                        _ => Err(missing),
                    },
                )
            },
            Query::AcquireModern { cert, export } => match reply {
                Reply::Key(Some(key)) => {
                    if key.kind() == KeyKind::Modern {
                        Query::Probe { key, kind: KeyKind::Modern, export }
                    } else {
                        released(
                            key,
                            KeyKind::Legacy,
                            if export {
                                Err(CertError::KeyExport)
                            } else {
                                Ok(Answer::Flag(false))
                            },
                        )
                    }
                },
                _ => Query::AcquireLegacy { cert, export },
            },
            Query::AcquireLegacy { export, .. } => match reply {
                Reply::Key(Some(key)) => Query::Probe { key, kind: KeyKind::Legacy, export },
                _ => Query::Answered(Err(CertError::PrivateKeyUnavailable)),
            },
            other => other,
        }
    }

    /// Moves the question on by the reply to the call that it waited for.
    pub fn advance(self, reply: Reply) -> (next: Query)
        ensures
            next@ == self@.advance(reply@),
    {
        match self {
            Query::Answered(answer) => Query::Answered(answer),
            Query::FreeKey { answer, .. } => Query::Answered(answer),
            Query::Probe { key, kind, export } => {
                let verdict = verdict_of(kind, &reply);
                if export {
                    match verdict {
                        Ok(true) => Query::Export { key, kind, len: 0 },
                        _ => released(key, kind, Err(CertError::KeyExport)),
                    }
                } else {
                    released(
                        key,
                        kind,
                        match verdict {
                            Ok(exportable) => Ok(Answer::Flag(exportable)),
                            Err(error) => Err(error),
                        },
                    )
                }
            },
            Query::Export { key, kind, len } => {
                if len == 0 {
                    let len: u32 = reported_size(&reply);
                    if len > 0 {
                        Query::Export { key, kind, len }
                    } else {
                        released(key, kind, Err(CertError::KeyExport))
                    }
                } else {
                    released(
                        key,
                        kind,
                        match reply {
                            Reply::Bytes(Some(bytes)) => {
                                if bytes.len() > 0 {
                                    Ok(Answer::Bytes(bytes))
                                } else {
                                    Err(CertError::KeyExport)
                                }
                            },
                            _ => Err(CertError::KeyExport),
                        },
                    )
                }
            },
            other => match reply {
                Reply::Unsupported => Query::Answered(Err(CertError::UnsupportedPlatform)),
                reply => other.advance_free(reply),
            },
        }
    }
}

/// One certificate of a store: a reference to a native certificate context.
///
/// The reference is never null. It is given up by `close`, which takes the
/// value, so that no reference is given up twice.
#[derive(Debug)]
pub struct CertContext {
    handle: usize,
}

impl CertContext {
    #[verifier::type_invariant]
    spec fn is_not_null(self) -> bool {
        self.handle != 0
    }

    /// The native handle.
    pub closed spec fn raw(self) -> usize {
        self.handle
    }

    /// Takes over a reference that a native call returned. There is no
    /// certificate behind the null handle.
    pub fn from_inner(handle: usize) -> (cert: Option<CertContext>)
        ensures
            cert.is_some() == (handle != 0),
            cert.is_some() ==> cert.unwrap().raw() == handle,
    {
        if handle != 0 {
            Some(CertContext { handle })
        } else {
            None
        }
    }

    /// The native handle, for the call that a request names.
    pub fn as_inner(&self) -> (handle: usize)
        ensures
            handle == self.raw(),
            handle != 0,
    {
        proof {
            use_type_invariant(self);
        }
        self.handle
    }

    /// Asks whether the current time lies within the validity window.
    pub fn is_time_valid(&self) -> (question: Query)
        ensures
            question@ == (QueryView::TimeValidity { cert: self.raw() }),
    {
        Query::TimeValidity { cert: self.handle }
    }

    /// Asks whether the certificate has the extension with that object
    /// identifier and, where a value is given, whether the display text of the
    /// extension contains it.
    pub fn has_extension_with_property(
        &self,
        extension_oid: &str,
        extension_value: Option<&str>,
    ) -> (question: Query)
        ensures
            question@ == (QueryView::FindExtension {
                cert: self.raw(),
                oid: extension_oid@,
                expected: match extension_value {
                    Some(value) => Some(value@),
                    None => None,
                },
            }),
    {
        let expected = match extension_value {
            Some(value) => Some(String::from_str(value)),
            None => None,
        };
        Query::FindExtension { cert: self.handle, oid: String::from_str(extension_oid), expected }
    }

    /// Asks whether the private key can be exported.
    pub fn is_exportable(&self) -> (question: Query)
        ensures
            question@ == (QueryView::AcquireModern { cert: self.raw(), export: false }),
    {
        Query::AcquireModern { cert: self.handle, export: false }
    }

    /// Asks for the private key as a blob.
    pub fn private_key(&self) -> (question: Query)
        ensures
            question@ == (QueryView::AcquireModern { cert: self.raw(), export: true }),
    {
        Query::AcquireModern { cert: self.handle, export: true }
    }

    /// Asks for the friendly name.
    pub fn friendly_name(&self) -> (question: Query)
        ensures
            question@ == (QueryView::FriendlyName { cert: self.raw(), units: 0 }),
    {
        Query::FriendlyName { cert: self.handle, units: 0 }
    }

    /// Asks for the subject's name.
    pub fn name(&self) -> (question: Query)
        ensures
            question@ == (QueryView::NameElement {
                cert: self.raw(),
                issuer: false,
                attribute: NameAttribute::first_spec(),
                text: Seq::empty(),
                units: 0,
            }),
    {
        Query::NameElement {
            cert: self.handle,
            issuer: false,
            attribute: NameAttribute::first(),
            text: String::new(),
            units: 0,
        }
    }

    /// Asks for the issuer's name.
    pub fn issuer(&self) -> (question: Query)
        ensures
            question@ == (QueryView::NameElement {
                cert: self.raw(),
                issuer: true,
                attribute: NameAttribute::first_spec(),
                text: Seq::empty(),
                units: 0,
            }),
    {
        Query::NameElement {
            cert: self.handle,
            issuer: true,
            attribute: NameAttribute::first(),
            text: String::new(),
            units: 0,
        }
    }

    /// Asks for the start of the validity window.
    pub fn valid_from(&self) -> (question: Query)
        ensures
            question@ == (QueryView::Validity { cert: self.raw(), end: false }),
    {
        Query::Validity { cert: self.handle, end: false }
    }

    /// Asks for the end of the validity window.
    pub fn valid_to(&self) -> (question: Query)
        ensures
            question@ == (QueryView::Validity { cert: self.raw(), end: true }),
    {
        Query::Validity { cert: self.handle, end: true }
    }

    /// The call that makes one more reference to the certificate.
    pub fn duplicate(&self) -> (request: Request)
        ensures
            request@ == (RequestView::DuplicateCertificate { cert: self.raw() }),
    {
        Request::DuplicateCertificate { cert: self.handle }
    }

    /// Gives the reference up: the call that frees it.
    pub fn close(self) -> (request: Request)
        ensures
            request@ == (RequestView::FreeCertificate { cert: self.raw() }),
    {
        Request::FreeCertificate { cert: self.handle }
    }
}

} // verus!
