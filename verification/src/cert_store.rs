//! A certificate store: how it is opened, and how its certificates are walked.

use crate::cert_context::CertContext;
use crate::error::CertError;
use crate::native::{Principal, Reply, ReplyView, Request, RequestView};
use crate::text::{chars_of, encode_wide, same_text, utf16_of};
use vstd::prelude::*;
use vstd::string::StringExecFns;

verus! {

/// The text in lower case, as `str::to_lowercase` gives it.
pub uninterp spec fn lowercase_of(text: Seq<char>) -> Seq<char>;

/// Puts a text into lower case.
///
/// Trusted: this is `str::to_lowercase`, whose result depends on the text
/// alone. Nothing more is claimed of it.
#[verifier::external_body]
fn lowercase(text: &str) -> (lower: String)
    ensures
        lower@ == lowercase_of(text@),
{
    text.to_lowercase()
}

impl Principal {
    /// The principal that a name in lower case stands for.
    pub open spec fn named(lower: Seq<char>) -> Option<Principal> {
        if lower == "currentuser"@ {
            Some(Principal::CurrentUser)
        } else if lower == "localmachine"@ {
            Some(Principal::LocalMachine)
        } else {
            None
        }
    }

    /// The principal that a name stands for, whatever the case of its letters.
    pub open spec fn parse_spec(user: Seq<char>) -> Option<Principal> {
        Principal::named(lowercase_of(user))
    }

    /// Reads a principal from its name in lower case.
    pub fn from_lowercase(lower: &str) -> (principal: Option<Principal>)
        ensures
            principal == Principal::named(lower@),
    {
        if same_text(lower, "currentuser") {
            Some(Principal::CurrentUser)
        } else if same_text(lower, "localmachine") {
            Some(Principal::LocalMachine)
        } else {
            None
        }
    }

    /// Reads a principal from its name: `CurrentUser` or `LocalMachine`, in
    /// whatever case.
    pub fn parse(user: &str) -> (principal: Option<Principal>)
        ensures
            principal == Principal::parse_spec(user@),
    {
        let lower = lowercase(user);
        Principal::from_lowercase(lower.as_str())
    }

    /// The location of the principal's system stores, as the flags of the
    /// native open call carry it: the location's number in the upper half.
    pub open spec fn location_spec(self) -> u32 {
        match self {
            Principal::CurrentUser => 0x0001_0000,
            Principal::LocalMachine => 0x0002_0000,
        }
    }

    #[verifier::when_used_as_spec(location_spec)]
    pub fn location(self) -> (flags: u32)
        ensures
            flags == self.location_spec(),
    {
        match self {
            Principal::CurrentUser => 0x0001_0000,
            Principal::LocalMachine => 0x0002_0000,
        }
    }
}

/// Whether a text can name a store: it is not empty, and it holds no zero,
/// which would end the name early in the native encoding.
pub open spec fn is_store_name(name: Seq<char>) -> bool {
    name.len() > 0 && !name.contains('\0')
}

/// A store name as the native open call takes it: UTF-16 with a terminating zero.
pub open spec fn wide_name(name: Seq<char>) -> Seq<u16> {
    utf16_of(name).push(0)
}

fn check_store_name(name: &str) -> (fits: bool)
    ensures
        fits == is_store_name(name@),
{
    let chars = chars_of(name);
    if chars.len() == 0 {
        return false;
    }
    let mut at: usize = 0;
    while at < chars.len()
        invariant
            at <= chars.len(),
            chars@ == name@,
            forall|k: int| 0 <= k < at ==> name@[k] != '\0',
        decreases chars.len() - at,
    {
        if chars[at] == '\0' {
            return false;
        }
        at += 1;
    }
    true
}

/// A store that is about to be opened: what the open call is to be given.
#[derive(Debug)]
pub struct StoreOpening {
    pub principal: Principal,
    pub name: String,
}

pub struct StoreOpeningView {
    pub principal: Principal,
    pub name: Seq<char>,
}

impl View for StoreOpening {
    type V = StoreOpeningView;

    open spec fn view(&self) -> StoreOpeningView {
        StoreOpeningView { principal: self.principal, name: self.name@ }
    }
}

/// An open certificate store: the root from which its certificates are
/// enumerated. Its handle is never null. The store owns no certificate.
#[derive(Debug)]
pub struct CertStore {
    handle: usize,
    principal: Principal,
    name: String,
}

impl StoreOpening {
    fn new(principal: Principal, store: &str) -> (opening: Result<StoreOpening, CertError>)
        ensures
            match opening {
                Ok(opening) => is_store_name(store@) && opening@ == (StoreOpeningView {
                    principal,
                    name: store@,
                }),
                Err(error) => !is_store_name(store@) && error == CertError::StoreOpen,
            },
    {
        if check_store_name(store) {
            Ok(StoreOpening { principal, name: String::from_str(store) })
        } else {
            Err(CertError::StoreOpen)
        }
    }

    /// The open call to make.
    pub fn request(&self) -> (request: Request)
        ensures
            request@ == (RequestView::OpenStore {
                principal: self.principal,
                name: wide_name(self.name@),
            }),
    {
        let mut name = encode_wide(self.name.as_str());
        name.push(0);
        Request::OpenStore { principal: self.principal, name }
    }

    /// What the reply to the open call makes of the opening: the store where
    /// the call gave a handle, else the failure to open it.
    pub open spec fn opened_spec(reply: ReplyView) -> Result<usize, CertError> {
        match reply {
            ReplyView::Unsupported => Err(CertError::UnsupportedPlatform),
            ReplyView::Handle(handle) => if handle != 0 {
                Ok(handle)
            } else {
                Err(CertError::StoreOpen)
            },
            _ => Err(CertError::StoreOpen),
        }
    }

    /// Takes the reply to the open call.
    pub fn opened(&self, reply: &Reply) -> (store: Result<CertStore, CertError>)
        ensures
            match store {
                Ok(store) => StoreOpening::opened_spec(reply@) == Ok::<usize, CertError>(
                    store.raw(),
                ) && store.principal_spec() == self.principal && store.name_spec() == self.name@,
                Err(error) => StoreOpening::opened_spec(reply@) == Err::<usize, CertError>(error),
            },
    {
        match reply {
            Reply::Unsupported => Err(CertError::UnsupportedPlatform),
            Reply::Handle(handle) => {
                if *handle != 0 {
                    Ok(
                        CertStore {
                            handle: *handle,
                            principal: self.principal,
                            name: self.name.clone(),
                        },
                    )
                } else {
                    Err(CertError::StoreOpen)
                }
            },
            _ => Err(CertError::StoreOpen),
        }
    }
}

impl CertStore {
    #[verifier::type_invariant]
    spec fn is_not_null(self) -> bool {
        self.handle != 0
    }

    /// The native handle.
    pub closed spec fn raw(self) -> usize {
        self.handle
    }

    /// The principal under which the store was opened.
    pub closed spec fn principal_spec(self) -> Principal {
        self.principal
    }

    /// The logical name with which the store was opened.
    pub closed spec fn name_spec(self) -> Seq<char> {
        self.name@
    }

    /// Prepares to open the current user's store of that name. A text that
    /// cannot name a store is refused before any call is made.
    pub fn open_current_user(store: &str) -> (opening: Result<StoreOpening, CertError>)
        ensures
            match opening {
                Ok(opening) => is_store_name(store@) && opening@ == (StoreOpeningView {
                    principal: Principal::CurrentUser,
                    name: store@,
                }),
                Err(error) => !is_store_name(store@) && error == CertError::StoreOpen,
            },
    {
        StoreOpening::new(Principal::CurrentUser, store)
    }

    /// Prepares to open the local machine's store of that name. A text that
    /// cannot name a store is refused before any call is made.
    pub fn open_local_machine(store: &str) -> (opening: Result<StoreOpening, CertError>)
        ensures
            match opening {
                Ok(opening) => is_store_name(store@) && opening@ == (StoreOpeningView {
                    principal: Principal::LocalMachine,
                    name: store@,
                }),
                Err(error) => !is_store_name(store@) && error == CertError::StoreOpen,
            },
    {
        StoreOpening::new(Principal::LocalMachine, store)
    }

    /// The native handle, for the call that a request names.
    pub fn as_inner(&self) -> (handle: usize)
        ensures
            handle == self.raw(),
            handle != 0,
    {
        proof {
            use_type_invariant(self);
        }
        self.handle
    }

    pub fn principal(&self) -> (principal: Principal)
        ensures
            principal == self.principal_spec(),
    {
        self.principal
    }

    pub fn name(&self) -> (name: &str)
        ensures
            name@ == self.name_spec(),
    {
        self.name.as_str()
    }

    /// A walk over the certificates of the store, from the first one on.
    pub fn certs(&self) -> (walk: CertIter)
        ensures
            walk == CertIter::start(self.raw()),
            walk.wf(),
    {
        CertIter { store: self.handle, cur: 0, found: 0, done: false }
    }

    /// Gives the store up: the call that closes it.
    pub fn close(self) -> (request: Request)
        ensures
            request@ == (RequestView::CloseStore { store: self.raw() }),
    {
        Request::CloseStore { store: self.handle }
    }
}

/// A walk over the certificates of a store: forward only, once only.
///
/// The walk keeps a reference of its own to the certificate it has come to,
/// which the next enumeration call takes over. What it hands out is another
/// reference to the same certificate, its holder's to free.
#[derive(Clone, Copy, Debug, PartialEq, Eq, Structural)]
pub struct CertIter {
    /// The store that is walked.
    pub store: usize,
    /// The walk's own reference to the certificate it has come to; null
    /// before the first certificate and after the last.
    pub cur: usize,
    /// The certificate that the enumeration has found and that is still to
    /// be duplicated before it is handed out; null where there is none.
    pub found: usize,
    /// Whether the walk has ended.
    pub done: bool,
}

impl CertIter {
    /// The walk before its first enumeration call.
    pub open spec fn start(store: usize) -> CertIter {
        CertIter { store, cur: 0, found: 0, done: false }
    }

    /// What holds of a walk at every step: it has no reference of its own
    /// while a certificate is still to be duplicated, nor once it has ended.
    pub open spec fn wf(self) -> bool {
        &&& self.found != 0 ==> self.cur == 0 && !self.done
        &&& self.done ==> self.cur == 0
    }

    /// The native call that the walk waits for; none once it has ended.
    pub open spec fn request_spec(self) -> Option<RequestView> {
        if self.done {
            None
        } else if self.found != 0 {
            Some(RequestView::DuplicateCertificate { cert: self.found })
        } else {
            Some(RequestView::NextCertificate { store: self.store, previous: self.cur })
        }
    }

    /// The certificate that the reply at hand makes the walk hand out.
    pub open spec fn yields(self) -> Option<usize> {
        if !self.done && self.found != 0 {
            Some(self.found)
        } else {
            None
        }
    }

    /// The walk after a reply.
    ///
    /// The reply to an enumeration call gives the certificate to duplicate, or
    /// ends the walk; either way the call has taken over the walk's own
    /// reference. The reply to a duplication gives the walk its new reference;
    /// where there is none, the walk ends with the certificate it hands out.
    pub open spec fn after(self, reply: ReplyView) -> CertIter {
        if self.done {
            self
        } else if self.found == 0 {
            match reply {
                ReplyView::Handle(handle) => if handle != 0 {
                    CertIter { cur: 0, found: handle, ..self }
                } else {
                    CertIter { cur: 0, done: true, ..self }
                },
                _ => CertIter { cur: 0, done: true, ..self },
            }
        } else {
            match reply {
                ReplyView::Handle(handle) => if handle != 0 {
                    CertIter { cur: handle, found: 0, ..self }
                } else {
                    CertIter { cur: 0, found: 0, done: true, ..self }
                },
                _ => CertIter { cur: 0, found: 0, done: true, ..self },
            }
        }
    }

    /// The native call that the walk waits for; none once it has ended.
    pub fn request(&self) -> (request: Option<Request>)
        ensures
            crate::cert_context::request_view(request) == self.request_spec(),
    {
        if self.done {
            None
        } else if self.found != 0 {
            Some(Request::DuplicateCertificate { cert: self.found })
        } else {
            Some(Request::NextCertificate { store: self.store, previous: self.cur })
        }
    }

    /// Takes the reply to the call that the walk waited for, and hands out
    /// the next certificate once it has been found and duplicated.
    pub fn next(&mut self, reply: &Reply) -> (cert: Option<CertContext>)
        ensures
            *final(self) == old(self).after(reply@),
            match cert {
                Some(cert) => old(self).yields() == Some(cert.raw()),
                None => old(self).yields().is_none(),
            },
            old(self).wf() ==> final(self).wf(),
            cert.is_some() ==> final(self).cur != 0 || final(self).done,
    {
        if self.done {
            return None;
        }
        let handle: usize = match reply {
            Reply::Handle(handle) => *handle,
            _ => 0,
        };
        if self.found == 0 {
            self.cur = 0;
            if handle != 0 {
                self.found = handle;
            } else {
                self.done = true;
            }
            None
        } else {
            let cert = CertContext::from_inner(self.found);
            self.found = 0;
            self.cur = handle;
            if handle == 0 {
                self.done = true;
            }
            cert
        }
    }

    /// Ends the walk before the store is exhausted: the call that frees the
    /// walk's own reference, where it has one.
    pub fn close(self) -> (request: Option<Request>)
        ensures
            crate::cert_context::request_view(request) == if self.cur != 0 {
                Some(RequestView::FreeCertificate { cert: self.cur })
            } else {
                None
            },
    {
        if self.cur != 0 {
            Some(Request::FreeCertificate { cert: self.cur })
        } else {
            None
        }
    }
}

} // verus!
