use py_cert_store::error::CertError;
use py_cert_store::native::{
    CalendarTime, CertExtention, KeyHandle, KeyKind, NameAttribute, Principal, Reply, Request,
    BAD_KEY_STATE,
};
use py_cert_store::record::CertRecord;
use py_cert_store::store_reader::{
    find_first_windows_cert_by_extension, find_windows_cert_all, find_windows_cert_by_extension, Scan,
};

const STORE: usize = 0x5000;
const KEY_USAGE: &str = "2.5.29.15";

fn wide(text: &str) -> Vec<u16> {
    text.encode_utf16().chain(Some(0)).collect()
}

/// The reply to a call that writes text: the size of the text where the
/// call is made without a buffer, else the text, which has to fit the buffer.
fn sized(text: Option<Vec<u16>>, units: u32, bytes_per_unit: u32) -> Reply {
    if units == 0 {
        Reply::Size(text.map(|text| bytes_per_unit * text.len() as u32))
    } else {
        assert_eq!(units as usize, text.as_ref().map_or(0, |text| text.len()));
        Reply::Wide(text)
    }
}

struct FakeCert {
    handle: usize,
    verdict: Option<i32>,
    extension: Option<(&'static str, &'static str)>,
    friendly: Option<&'static str>,
    common_name: &'static str,
    key: Option<KeyHandle>,
    legacy_key: Option<KeyHandle>,
    probe: (bool, i32),
    blob: Option<Vec<u8>>,
    references: i64,
}

fn valid_cert(handle: usize, common_name: &'static str) -> FakeCert {
    FakeCert {
        handle,
        verdict: Some(0),
        extension: Some((KEY_USAGE, "Digital Signature, Key Encipherment (a0)")),
        friendly: Some("work"),
        common_name,
        key: Some(KeyHandle { handle: handle + 1, key_spec: 0xFFFF_FFFF, caller_frees: true }),
        legacy_key: None,
        probe: (true, 0),
        blob: Some(vec![0x30, 0x82, 0x01, 0x02]),
        references: 0,
    }
}

struct World {
    supported: bool,
    grants_store: bool,
    store_open: bool,
    certs: Vec<FakeCert>,
    keys_out: i64,
    log: Vec<Request>,
}

impl World {
    fn with(certs: Vec<FakeCert>) -> World {
        World {
            supported: true,
            grants_store: true,
            store_open: false,
            certs,
            keys_out: 0,
            log: Vec::new(),
        }
    }

    fn cert(&mut self, handle: usize) -> &mut FakeCert {
        self.certs.iter_mut().find(|c| c.handle == handle).expect("a certificate of the store")
    }

    fn holder(&mut self, key: usize) -> &mut FakeCert {
        self.certs
            .iter_mut()
            .find(|c| c.key.or(c.legacy_key).map(|k| k.handle) == Some(key))
            .expect("a key of the store")
    }

    fn perform(&mut self, request: &Request) -> Reply {
        self.log.push(request.clone());
        if !self.supported {
            return Reply::Unsupported;
        }
        match request {
            Request::OpenStore { .. } => {
                if self.grants_store {
                    self.store_open = true;
                    Reply::Handle(STORE)
                } else {
                    Reply::Handle(0)
                }
            }
            Request::CloseStore { store } => {
                assert_eq!(*store, STORE);
                assert!(self.store_open);
                self.store_open = false;
                Reply::Done
            }
            Request::NextCertificate { store, previous } => {
                assert_eq!(*store, STORE);
                let next = if *previous == 0 {
                    0
                } else {
                    self.cert(*previous).references -= 1;
                    self.certs.iter().position(|c| c.handle == *previous).unwrap() + 1
                };
                match self.certs.get_mut(next) {
                    Some(cert) => {
                        cert.references += 1;
                        Reply::Handle(cert.handle)
                    }
                    None => Reply::Handle(0),
                }
            }
            Request::DuplicateCertificate { cert } => {
                self.cert(*cert).references += 1;
                Reply::Handle(*cert)
            }
            Request::FreeCertificate { cert } => {
                self.cert(*cert).references -= 1;
                Reply::Done
            }
            Request::VerifyTimeValidity { cert } => Reply::Verdict(self.cert(*cert).verdict),
            Request::FindExtension { cert, oid } => match self.cert(*cert).extension {
                Some((own, _)) if own == oid => Reply::Extension(Some(CertExtention {
                    oid: oid.clone(),
                    critical: false,
                    value: own.as_bytes().to_vec(),
                })),
                _ => Reply::Extension(None),
            },
            Request::FormatExtension { extension, units } => {
                let display = self
                    .certs
                    .iter()
                    .filter_map(|c| c.extension)
                    .find(|(oid, _)| *oid == extension.oid)
                    .map(|(_, display)| wide(display));
                sized(display, *units, 2)
            }
            Request::ReadProperty { cert, units, .. } => {
                sized(self.cert(*cert).friendly.map(wide), *units, 2)
            }
            Request::ReadNameAttribute { cert, issuer, attribute, units } => {
                let cert = self.cert(*cert);
                let value = match (attribute, issuer) {
                    (NameAttribute::CommonName, false) => cert.common_name,
                    (NameAttribute::CommonName, true) => "Test Authority",
                    (NameAttribute::Organization, _) => "Contoso",
                    (NameAttribute::Country, _) => "US",
                    _ => "",
                };
                sized(Some(wide(value)), *units, 1)
            }
            Request::ReadValidity { end, .. } => Reply::Time(Some(CalendarTime {
                year: if *end { 2031 } else { 2021 },
                month: 3,
                day: 9,
                hour: 7,
                minute: 5,
                second: 0,
            })),
            Request::AcquireKey { cert, modern_only } => {
                let cert = self.cert(*cert);
                let key = if *modern_only { cert.key } else { cert.key.or(cert.legacy_key) };
                if key.map(|k| k.caller_frees) == Some(true) {
                    self.keys_out += 1;
                }
                Reply::Key(key)
            }
            Request::ProbeExport { key, kind } => {
                let holder = self.holder(key.handle);
                let expected = if holder.key.is_some() { KeyKind::Modern } else { KeyKind::Legacy };
                assert_eq!(*kind, expected);
                let (succeeded, code) = holder.probe;
                Reply::Status { succeeded, code }
            }
            Request::ExportKey { key, len, .. } => {
                let blob = self.holder(key.handle).blob.clone();
                if *len == 0 {
                    Reply::Size(blob.map(|blob| blob.len() as u32))
                } else {
                    assert_eq!(*len as usize, blob.as_ref().map_or(0, |blob| blob.len()));
                    Reply::Bytes(blob)
                }
            }
            Request::FreeKey { .. } => {
                self.keys_out -= 1;
                Reply::Done
            }
        }
    }

    fn asked_for_key_of(&self, handle: usize) -> bool {
        self.log.iter().any(|r| matches!(r, Request::AcquireKey { cert, .. } if *cert == handle))
    }

    fn looked_at(&self, handle: usize) -> bool {
        self.log
            .iter()
            .any(|r| matches!(r, Request::VerifyTimeValidity { cert } if *cert == handle))
    }

    fn holds_nothing(&self) -> bool {
        !self.store_open && self.keys_out == 0 && self.certs.iter().all(|c| c.references == 0)
    }
}

fn run(scan: Scan, world: &mut World) -> Result<Vec<CertRecord>, CertError> {
    let mut scan = scan;
    let mut calls = 0;
    while let Some(request) = scan.request() {
        calls += 1;
        assert!(calls <= 3 + 47 * world.certs.len(), "the scan takes more calls than it may");
        let reply = world.perform(&request);
        scan = scan.advance(reply);
    }
    assert!(scan.is_finished());
    scan.outcome().expect("a finished scan has an outcome")
}

#[test]
fn first_match_of_a_store_with_one_good_certificate() {
    let mut cert = valid_cert(0x100, "alice");
    cert.friendly = None;
    let mut world = World::with(vec![cert]);
    let records = run(find_first_windows_cert_by_extension("My", "CurrentUser", None, None), &mut world)
        .expect("one record");
    assert_eq!(records.len(), 1);
    assert_eq!(records[0].friendly_name, "");
    assert_eq!(records[0].name, "C=US, O=Contoso, CN=alice");
    assert_eq!(records[0].issuer_name, "C=US, O=Contoso, CN=Test Authority");
    assert_eq!(records[0].effective_date, "2021-03-09T07:05:00Z");
    assert_eq!(records[0].expiration_date, "2031-03-09T07:05:00Z");
    assert_eq!(records[0].key, vec![0x30, 0x82, 0x01, 0x02]);
    assert!(world.holds_nothing());
}

#[test]
fn empty_store_has_no_certificate_to_find() {
    let mut world = World::with(vec![]);
    let outcome = run(find_windows_cert_all("My", "CurrentUser"), &mut world);
    assert_eq!(outcome.unwrap_err(), CertError::CertNotFound);
    assert!(world.holds_nothing());
    assert_eq!(world.log.len(), 3);
}

#[test]
fn matching_certificate_without_exportable_key_is_told_apart_from_no_match() {
    let mut cert = valid_cert(0x100, "alice");
    cert.probe = (false, BAD_KEY_STATE);
    let mut world = World::with(vec![cert]);
    let scan = find_windows_cert_by_extension("My", "CurrentUser", Some(KEY_USAGE), Some("Key Encipherment"));
    assert_eq!(run(scan, &mut world).unwrap_err(), CertError::NoExportableCertFound);
    assert!(world.asked_for_key_of(0x100));
    assert!(world.holds_nothing());
}

#[test]
fn expired_certificate_never_comes_to_its_key() {
    let mut expired = valid_cert(0x100, "old");
    expired.verdict = Some(1);
    let mut current = valid_cert(0x200, "new");
    current.extension = None;
    let mut world = World::with(vec![expired, current]);
    let records =
        run(find_windows_cert_all("My", "CurrentUser"), &mut world).expect("one record");
    assert_eq!(records.len(), 1);
    assert_eq!(records[0].name, "C=US, O=Contoso, CN=new");
    assert!(world.looked_at(0x100));
    assert!(!world.asked_for_key_of(0x100));
    assert!(world.asked_for_key_of(0x200));
    assert!(world.holds_nothing());
}

#[test]
fn not_yet_valid_certificate_is_dismissed_whatever_its_extensions() {
    let mut early = valid_cert(0x100, "early");
    early.verdict = Some(-1);
    let mut world = World::with(vec![early]);
    let scan = find_windows_cert_by_extension("My", "CurrentUser", Some(KEY_USAGE), None);
    assert_eq!(run(scan, &mut world).unwrap_err(), CertError::CertNotFound);
    assert!(!world.log.iter().any(|r| matches!(r, Request::FindExtension { .. })));
    assert!(world.holds_nothing());
}

#[test]
fn local_machine_store_that_is_denied_fails_to_open() {
    let mut world = World::with(vec![valid_cert(0x100, "alice")]);
    world.grants_store = false;
    let outcome = run(find_windows_cert_all("My", "LocalMachine"), &mut world);
    assert_eq!(outcome.unwrap_err(), CertError::StoreOpen);
    assert_eq!(world.log.len(), 1);
    match &world.log[0] {
        Request::OpenStore { principal, name } => {
            assert_eq!(*principal, Principal::LocalMachine);
            assert_eq!(name, &vec![0x4D, 0x79, 0]);
        }
        other => panic!("the first call opens the store, not {:?}", other),
    }
}

#[test]
fn unknown_principal_fails_to_open_without_a_call() {
    let mut world = World::with(vec![valid_cert(0x100, "alice")]);
    let outcome = run(find_first_windows_cert_by_extension("My", "Everyone", None, None), &mut world);
    assert_eq!(outcome.unwrap_err(), CertError::StoreOpen);
    assert!(world.log.is_empty());
}

#[test]
fn store_name_that_cannot_be_encoded_fails_to_open_without_a_call() {
    let mut world = World::with(vec![]);
    let empty = run(find_windows_cert_all("", "CurrentUser"), &mut world);
    assert_eq!(empty.unwrap_err(), CertError::StoreOpen);
    let cut = run(find_windows_cert_all("My\0Root", "CurrentUser"), &mut world);
    assert_eq!(cut.unwrap_err(), CertError::StoreOpen);
    assert!(world.log.is_empty());
}

#[test]
fn principal_is_read_in_any_case() {
    let mut world = World::with(vec![valid_cert(0x100, "alice")]);
    let records = run(find_windows_cert_all("My", "cURRENTuSER"), &mut world);
    assert_eq!(records.expect("one record").len(), 1);
    assert!(matches!(
        world.log[0],
        Request::OpenStore { principal: Principal::CurrentUser, .. }
    ));
}

#[test]
fn platform_without_a_store_is_reported_at_once() {
    let mut world = World::with(vec![valid_cert(0x100, "alice")]);
    world.supported = false;
    let outcome = run(find_windows_cert_all("My", "CurrentUser"), &mut world);
    assert_eq!(outcome.unwrap_err(), CertError::UnsupportedPlatform);
    assert_eq!(world.log.len(), 1);
}

#[test]
fn first_match_stops_the_walk() {
    let mut world = World::with(vec![
        valid_cert(0x100, "alice"),
        valid_cert(0x200, "bob"),
        valid_cert(0x300, "carol"),
    ]);
    let records = run(find_first_windows_cert_by_extension("My", "CurrentUser", None, None), &mut world)
        .expect("one record");
    assert_eq!(records.len(), 1);
    assert_eq!(records[0].name, "C=US, O=Contoso, CN=alice");
    assert!(!world.looked_at(0x200));
    assert!(!world.looked_at(0x300));
    assert!(world.holds_nothing());
}

#[test]
fn first_match_passes_over_what_yields_no_record() {
    let mut locked = valid_cert(0x100, "alice");
    locked.probe = (false, BAD_KEY_STATE);
    let mut keyless = valid_cert(0x200, "bob");
    keyless.key = None;
    let mut world = World::with(vec![locked, keyless, valid_cert(0x300, "carol")]);
    let scan = find_first_windows_cert_by_extension("My", "CurrentUser", Some(KEY_USAGE), None);
    let records = run(scan, &mut world).expect("one record");
    assert_eq!(records.len(), 1);
    assert_eq!(records[0].name, "C=US, O=Contoso, CN=carol");
    let fallbacks = world
        .log
        .iter()
        .filter(|r| matches!(r, Request::AcquireKey { modern_only: false, .. }))
        .count();
    assert_eq!(fallbacks, 1);
    assert!(world.holds_nothing());
}

#[test]
fn legacy_key_is_exported_through_its_own_provider() {
    let mut cert = valid_cert(0x100, "alice");
    cert.key = None;
    cert.legacy_key = Some(KeyHandle { handle: 0x777, key_spec: 1, caller_frees: false });
    let mut world = World::with(vec![cert]);
    let records =
        run(find_windows_cert_all("My", "CurrentUser"), &mut world).expect("one record");
    assert_eq!(records[0].key, vec![0x30, 0x82, 0x01, 0x02]);
    assert!(world.log.iter().any(|r| matches!(
        r,
        Request::ExportKey { kind: KeyKind::Legacy, .. }
    )));
    assert!(!world.log.iter().any(|r| matches!(r, Request::FreeKey { .. })));
    assert!(world.holds_nothing());
}

#[test]
fn all_matches_come_in_the_order_of_the_store() {
    let mut other = valid_cert(0x200, "bob");
    other.extension = Some(("2.5.29.37", "Client Authentication"));
    let mut world = World::with(vec![
        valid_cert(0x100, "alice"),
        other,
        valid_cert(0x300, "carol"),
    ]);
    let scan = find_windows_cert_by_extension("My", "CurrentUser", Some(KEY_USAGE), Some("Digital Signature"));
    let records = run(scan, &mut world).expect("two records");
    let names: Vec<&str> = records.iter().map(|r| r.name.as_str()).collect();
    assert_eq!(names, vec!["C=US, O=Contoso, CN=alice", "C=US, O=Contoso, CN=carol"]);
    assert!(!world.asked_for_key_of(0x200));
    assert!(world.holds_nothing());
}

#[test]
fn value_is_matched_with_its_case() {
    let mut world = World::with(vec![valid_cert(0x100, "alice")]);
    let scan = find_windows_cert_by_extension("My", "CurrentUser", Some(KEY_USAGE), Some("digital signature"));
    assert_eq!(run(scan, &mut world).unwrap_err(), CertError::CertNotFound);
    assert!(world.holds_nothing());
}

#[test]
fn failed_time_check_skips_the_certificate_and_the_scan_goes_on() {
    let mut broken = valid_cert(0x100, "broken");
    broken.verdict = None;
    let mut world = World::with(vec![broken, valid_cert(0x200, "bob")]);
    let records =
        run(find_windows_cert_all("My", "CurrentUser"), &mut world).expect("one record");
    assert_eq!(records.len(), 1);
    assert_eq!(records[0].name, "C=US, O=Contoso, CN=bob");
    assert!(world.holds_nothing());
}

#[test]
fn failed_export_leaves_no_record() {
    let mut cert = valid_cert(0x100, "alice");
    cert.blob = None;
    let mut world = World::with(vec![cert]);
    let outcome = run(find_windows_cert_all("My", "CurrentUser"), &mut world);
    assert_eq!(outcome.unwrap_err(), CertError::NoExportableCertFound);
    assert!(world.holds_nothing());
}

#[test]
fn search_by_extension_reports_every_match() {
    let mut other = valid_cert(0x200, "bob");
    other.extension = None;
    let mut world = World::with(vec![
        valid_cert(0x100, "alice"),
        other,
        valid_cert(0x300, "carol"),
        valid_cert(0x400, "dave"),
    ]);
    let scan = find_windows_cert_by_extension("My", "CurrentUser", Some(KEY_USAGE), None);
    let records = run(scan, &mut world).expect("three records");
    let names: Vec<&str> = records.iter().map(|r| r.name.as_str()).collect();
    assert_eq!(
        names,
        vec!["C=US, O=Contoso, CN=alice", "C=US, O=Contoso, CN=carol", "C=US, O=Contoso, CN=dave"]
    );
    assert!(world.looked_at(0x400));
    assert!(world.holds_nothing());
}

#[test]
fn search_by_extension_without_an_extension_filters_by_time_alone() {
    let mut expired = valid_cert(0x200, "old");
    expired.verdict = Some(1);
    let mut bare = valid_cert(0x300, "bare");
    bare.extension = None;
    let mut world = World::with(vec![valid_cert(0x100, "alice"), expired, bare]);
    let records = run(find_windows_cert_by_extension("My", "CurrentUser", None, None), &mut world)
        .expect("two records");
    let names: Vec<&str> = records.iter().map(|r| r.name.as_str()).collect();
    assert_eq!(names, vec!["C=US, O=Contoso, CN=alice", "C=US, O=Contoso, CN=bare"]);
    assert!(world.holds_nothing());
}

#[test]
fn search_of_the_whole_store_looks_at_no_extension() {
    let mut bare = valid_cert(0x200, "bare");
    bare.extension = None;
    let mut world = World::with(vec![valid_cert(0x100, "alice"), bare]);
    let records = run(find_windows_cert_all("My", "CurrentUser"), &mut world).expect("two records");
    assert_eq!(records.len(), 2);
    assert!(!world.log.iter().any(|r| matches!(r, Request::FindExtension { .. })));
    assert!(world.holds_nothing());
}

#[test]
fn key_in_a_bad_state_yields_no_record_and_another_status_neither() {
    for code in [-2146893813, -2146893783, 5] {
        let mut cert = valid_cert(0x100, "alice");
        cert.probe = (false, code);
        let mut world = World::with(vec![cert]);
        let outcome = run(find_windows_cert_all("My", "CurrentUser"), &mut world);
        assert_eq!(outcome.unwrap_err(), CertError::NoExportableCertFound);
        assert!(world.holds_nothing());
    }
}

#[test]
fn open_store_is_held_under_its_principal_and_name() {
    let scan = find_windows_cert_by_extension("Root", "LocalMachine", Some(KEY_USAGE), None);
    assert!(scan.store.is_none());
    let scan = scan.advance(Reply::Handle(STORE));
    let store = scan.store.as_ref().expect("an open store");
    assert_eq!(store.as_inner(), STORE);
    assert_eq!(store.principal(), Principal::LocalMachine);
    assert_eq!(store.name(), "Root");
    let scan = scan.advance(Reply::Handle(0));
    assert!(matches!(scan.request(), Some(Request::CloseStore { store: STORE })));
    let scan = scan.advance(Reply::Done);
    assert!(scan.store.is_none());
    assert_eq!(scan.outcome().unwrap().unwrap_err(), CertError::CertNotFound);
}
