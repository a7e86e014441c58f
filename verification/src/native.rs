//! What the engine asks of the operating system, and what comes back.
//!
//! The engine never calls the native certificate interfaces itself. It hands
//! its caller a `Request`, the caller performs the one native call that the
//! request names, and hands back the `Reply`. Handles travel as the integers
//! that the native interfaces use for them; zero is the null handle.
//!
//! The native interfaces write text and blobs into buffers of their caller.
//! Such a call is made twice: first without a buffer, for the size, then with
//! a buffer of the size that the engine has worked out from that.

use vstd::prelude::*;

verus! {

/// The scope under which a store is opened.
#[derive(Clone, Copy, Debug, PartialEq, Eq, Structural)]
pub enum Principal {
    CurrentUser,
    LocalMachine,
}

/// The native subsystem that holds a private key.
#[derive(Clone, Copy, Debug, PartialEq, Eq, Structural)]
pub enum KeyKind {
    /// A key of a legacy cryptographic service provider.
    Legacy,
    /// A key of a key-storage provider.
    Modern,
}

/// The key spec by which an acquisition marks a key of a key-storage provider.
pub const NCRYPT_KEY_SPEC: u32 = 0xFFFF_FFFF;

/// The property under which a certificate keeps its friendly name.
pub const FRIENDLY_NAME_PROPERTY: u32 = 11;

/// The last-error code by which a legacy provider refuses to export a key.
pub const ERROR_INVALID_PARAMETER: i32 = 87;

/// The status by which a key-storage provider says that the state of a key
/// does not allow its export: `NTE_BAD_KEY_STATE`, 0x8009000B.
pub const BAD_KEY_STATE: i32 = -2146893813;

/// A private key handle as an acquisition reports it. It is never stored: it
/// lives from the acquisition to the end of the question that asked for it.
#[derive(Clone, Copy, Debug, PartialEq, Eq, Structural)]
pub struct KeyHandle {
    pub handle: usize,
    /// The discriminator that the acquisition reported with the handle.
    pub key_spec: u32,
    /// Whether the caller of the acquisition has to free the handle.
    pub caller_frees: bool,
}

impl KeyHandle {
    /// The subsystem that the key spec names: a key-storage provider for the
    /// key spec of such providers and for none at all, else a legacy provider.
    pub open spec fn kind_spec(self) -> KeyKind {
        if self.key_spec == 0 || self.key_spec == NCRYPT_KEY_SPEC {
            KeyKind::Modern
        } else {
            KeyKind::Legacy
        }
    }

    /// The subsystem that holds the key, by the discriminator captured at acquisition.
    #[verifier::when_used_as_spec(kind_spec)]
    pub fn kind(self) -> (kind: KeyKind)
        ensures
            kind == self.kind_spec(),
    {
        if self.key_spec == 0 || self.key_spec == NCRYPT_KEY_SPEC {
            KeyKind::Modern
        } else {
            KeyKind::Legacy
        }
    }
}

/// An instant as calendar fields in UTC, as the native conversion of a file
/// time gives them.
#[derive(Clone, Copy, Debug, PartialEq, Eq, Structural)]
pub struct CalendarTime {
    pub year: u16,
    pub month: u16,
    pub day: u16,
    pub hour: u16,
    pub minute: u16,
    pub second: u16,
}

/// The attributes of a distinguished name that a name string shows, in the
/// order in which it shows them.
#[derive(Clone, Copy, Debug, PartialEq, Eq, Structural)]
pub enum NameAttribute {
    Country,
    State,
    Locality,
    Organization,
    OrganizationalUnit,
    CommonName,
}

/// One extension of a certificate: its object identifier and its encoded value.
#[derive(Clone, Debug)]
pub struct CertExtention {
    pub oid: String,
    pub critical: bool,
    pub value: Vec<u8>,
}

pub struct CertExtentionView {
    pub oid: Seq<char>,
    pub critical: bool,
    pub value: Seq<u8>,
}

impl View for CertExtention {
    type V = CertExtentionView;

    open spec fn view(&self) -> CertExtentionView {
        CertExtentionView { oid: self.oid@, critical: self.critical, value: self.value@ }
    }
}

impl CertExtention {
    /// A copy of the extension.
    pub fn duplicate(&self) -> (copy: CertExtention)
        ensures
            copy@ == self@,
    {
        let value = self.value.clone();
        assert(value@ =~= self.value@);
        CertExtention { oid: self.oid.clone(), critical: self.critical, value }
    }
}

/// One native call that the engine wants made.
#[derive(Clone, Debug)]
pub enum Request {
    /// Open the system store of that name under that principal. The name is
    /// UTF-16 with a terminating zero.
    OpenStore { principal: Principal, name: Vec<u16> },
    /// Close the store.
    CloseStore { store: usize },
    /// Find the certificate that follows `previous` in the store, or the first
    /// one where `previous` is null. The call takes over `previous` and frees it.
    NextCertificate { store: usize, previous: usize },
    /// Duplicate the certificate context: one more reference to it.
    DuplicateCertificate { cert: usize },
    /// Free one reference to the certificate context.
    FreeCertificate { cert: usize },
    /// Judge the certificate's validity window against the current time.
    VerifyTimeValidity { cert: usize },
    /// Find the extension with that object identifier among the certificate's.
    FindExtension { cert: usize, oid: String },
    /// Render the encoded value of the extension as display text, into a
    /// buffer of `units` code units; with no buffer at all, ask for the number
    /// of bytes that the text takes.
    FormatExtension { extension: CertExtention, units: u32 },
    /// Read a property of the certificate context that holds text, into a
    /// buffer of `units` code units; with no buffer at all, ask for the number
    /// of bytes that the text takes.
    ReadProperty { cert: usize, property: u32, units: u32 },
    /// Read one attribute of the subject's name, or of the issuer's, into a
    /// buffer of `units` code units; with no buffer at all, ask for the number
    /// of code units that the value takes.
    ReadNameAttribute { cert: usize, issuer: bool, attribute: NameAttribute, units: u32 },
    /// Convert the start of the validity window to calendar fields, or its end.
    ReadValidity { cert: usize, end: bool },
    /// Acquire the private key of the certificate: from a key-storage provider
    /// only, or from whichever provider holds it.
    AcquireKey { cert: usize, modern_only: bool },
    /// Attempt an export of the key into no buffer at all.
    ProbeExport { key: KeyHandle, kind: KeyKind },
    /// Export the key as a private-key blob of its subsystem, into a buffer of
    /// `len` bytes; with no buffer at all, ask for the number of bytes that the
    /// blob takes.
    ExportKey { key: KeyHandle, kind: KeyKind, len: u32 },
    /// Free the key handle.
    FreeKey { key: KeyHandle, kind: KeyKind },
}

pub enum RequestView {
    OpenStore { principal: Principal, name: Seq<u16> },
    CloseStore { store: usize },
    NextCertificate { store: usize, previous: usize },
    DuplicateCertificate { cert: usize },
    FreeCertificate { cert: usize },
    VerifyTimeValidity { cert: usize },
    FindExtension { cert: usize, oid: Seq<char> },
    FormatExtension { extension: CertExtentionView, units: u32 },
    ReadProperty { cert: usize, property: u32, units: u32 },
    ReadNameAttribute { cert: usize, issuer: bool, attribute: NameAttribute, units: u32 },
    ReadValidity { cert: usize, end: bool },
    AcquireKey { cert: usize, modern_only: bool },
    ProbeExport { key: KeyHandle, kind: KeyKind },
    ExportKey { key: KeyHandle, kind: KeyKind, len: u32 },
    FreeKey { key: KeyHandle, kind: KeyKind },
}

impl View for Request {
    type V = RequestView;

    open spec fn view(&self) -> RequestView {
        match *self {
            Request::OpenStore { principal, name } => RequestView::OpenStore { principal, name: name@ },
            Request::CloseStore { store } => RequestView::CloseStore { store },
            Request::NextCertificate { store, previous } => RequestView::NextCertificate {
                store,
                previous,
            },
            Request::DuplicateCertificate { cert } => RequestView::DuplicateCertificate { cert },
            Request::FreeCertificate { cert } => RequestView::FreeCertificate { cert },
            Request::VerifyTimeValidity { cert } => RequestView::VerifyTimeValidity { cert },
            Request::FindExtension { cert, oid } => RequestView::FindExtension { cert, oid: oid@ },
            Request::FormatExtension { extension, units } => RequestView::FormatExtension {
                extension: extension@,
                units,
            },
            Request::ReadProperty { cert, property, units } => RequestView::ReadProperty {
                cert,
                property,
                units,
            },
            Request::ReadNameAttribute { cert, issuer, attribute, units } =>
                RequestView::ReadNameAttribute { cert, issuer, attribute, units },
            Request::ReadValidity { cert, end } => RequestView::ReadValidity { cert, end },
            Request::AcquireKey { cert, modern_only } => RequestView::AcquireKey { cert, modern_only },
            Request::ProbeExport { key, kind } => RequestView::ProbeExport { key, kind },
            Request::ExportKey { key, kind, len } => RequestView::ExportKey { key, kind, len },
            Request::FreeKey { key, kind } => RequestView::FreeKey { key, kind },
        }
    }
}

/// What a native call gave back.
#[derive(Clone, Debug)]
pub enum Reply {
    /// The platform has no certificate store to call.
    Unsupported,
    /// The call was made; it reports nothing.
    Done,
    /// A handle to a store or to a certificate context; null where the call
    /// failed or the store has no further certificate.
    Handle(usize),
    /// The verdict of the validity primitive: zero inside the window, negative
    /// before it, positive after it. `None` where the certificate could not be
    /// judged.
    Verdict(Option<i32>),
    /// The extension that was looked for, or `None` where the certificate has none such.
    Extension(Option<CertExtention>),
    /// The size that a call made without a buffer reports, or `None` where
    /// the call failed.
    Size(Option<u32>),
    /// UTF-16 text with its terminating zero, or `None` where the call failed.
    Wide(Option<Vec<u16>>),
    /// Calendar fields, or `None` where the conversion failed.
    Time(Option<CalendarTime>),
    /// The key that was acquired, or `None` where the certificate has no key
    /// that can be reached.
    Key(Option<KeyHandle>),
    /// How an export attempt ended: whether it succeeded, and the status or
    /// last-error code that it left.
    Status { succeeded: bool, code: i32 },
    /// The exported blob, or `None` where the export failed.
    Bytes(Option<Vec<u8>>),
}

pub enum ReplyView {
    Unsupported,
    Done,
    Handle(usize),
    Verdict(Option<i32>),
    Extension(Option<CertExtentionView>),
    Size(Option<u32>),
    Wide(Option<Seq<u16>>),
    Time(Option<CalendarTime>),
    Key(Option<KeyHandle>),
    Status { succeeded: bool, code: i32 },
    Bytes(Option<Seq<u8>>),
}

impl View for Reply {
    type V = ReplyView;

    open spec fn view(&self) -> ReplyView {
        match *self {
            Reply::Unsupported => ReplyView::Unsupported,
            Reply::Done => ReplyView::Done,
            Reply::Handle(handle) => ReplyView::Handle(handle),
            Reply::Verdict(verdict) => ReplyView::Verdict(verdict),
            Reply::Extension(Some(extension)) => ReplyView::Extension(Some(extension@)),
            Reply::Extension(None) => ReplyView::Extension(None),
            Reply::Size(size) => ReplyView::Size(size),
            Reply::Wide(Some(units)) => ReplyView::Wide(Some(units@)),
            Reply::Wide(None) => ReplyView::Wide(None),
            Reply::Time(time) => ReplyView::Time(time),
            Reply::Key(key) => ReplyView::Key(key),
            Reply::Status { succeeded, code } => ReplyView::Status { succeeded, code },
            Reply::Bytes(Some(bytes)) => ReplyView::Bytes(Some(bytes@)),
            Reply::Bytes(None) => ReplyView::Bytes(None),
        }
    }
}

} // verus!
