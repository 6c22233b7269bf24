use vstd::prelude::*;

use native_tls::{Certificate, TlsConnector, TlsConnectorBuilder};

use crate::text::same_text;

verus! {

/// The override name that turns off the check of the server's host name.
pub const DANGER_ACCEPT_INVALID_HOSTNAMES: &'static str = "danger_accept_invalid_hostnames";

/// The override name that turns off the validation of the server's certificate.
pub const DANGER_ACCEPT_INVALID_CERTS: &'static str = "danger_accept_invalid_certs";

#[verifier::external_type_specification]
#[verifier::external_body]
pub struct ExTlsConnectorBuilder(TlsConnectorBuilder);

#[verifier::external_type_specification]
#[verifier::external_body]
pub struct ExTlsConnector(TlsConnector);

#[verifier::external_type_specification]
#[verifier::external_body]
pub struct ExCertificate(Certificate);

/// The validation overrides asked for at construction: the value each recognised
/// override was last given, and the names that were not recognised.
pub struct TlsOverrides {
    pub accept_invalid_hostnames: Option<bool>,
    pub accept_invalid_certs: Option<bool>,
    pub unrecognized: Vec<String>,
}

/// The value that the last entry named `name` gives, if any entry has that name.
pub open spec fn last_value(list: Seq<(Seq<char>, bool)>, name: Seq<char>) -> Option<bool>
    decreases list.len(),
{
    if list.len() == 0 {
        None
    } else if list.last().0 == name {
        Some(list.last().1)
    } else {
        last_value(list.drop_last(), name)
    }
}

/// The names of the entries that are neither override name, in order.
pub open spec fn unknown_names(list: Seq<(Seq<char>, bool)>) -> Seq<Seq<char>>
    decreases list.len(),
{
    if list.len() == 0 {
        Seq::empty()
    } else {
        let n = list.last().0;
        if n == DANGER_ACCEPT_INVALID_HOSTNAMES@ || n == DANGER_ACCEPT_INVALID_CERTS@ {
            unknown_names(list.drop_last())
        } else {
            unknown_names(list.drop_last()).push(n)
        }
    }
}

/// The view of a list of overrides.
pub open spec fn overrides_view(v: Seq<(String, bool)>) -> Seq<(Seq<char>, bool)> {
    v.map_values(|p: (String, bool)| (p.0@, p.1))
}

/// Sorts the override list: the last value given to each recognised name, and the
/// names that are not recognised (these are ignored).
pub fn classify_overrides(list: &Vec<(String, bool)>) -> (r: TlsOverrides)
    ensures
        r.accept_invalid_hostnames == last_value(
            overrides_view(list@),
            DANGER_ACCEPT_INVALID_HOSTNAMES@,
        ),
        r.accept_invalid_certs == last_value(overrides_view(list@), DANGER_ACCEPT_INVALID_CERTS@),
        r.unrecognized@.map_values(|s: String| s@) == unknown_names(overrides_view(list@)),
{
    let ghost all = overrides_view(list@);
    proof {
        reveal_strlit("danger_accept_invalid_hostnames");
        reveal_strlit("danger_accept_invalid_certs");
        assert(DANGER_ACCEPT_INVALID_HOSTNAMES@.len() != DANGER_ACCEPT_INVALID_CERTS@.len());
    }
    let mut hostnames: Option<bool> = None;
    let mut certs: Option<bool> = None;
    let mut unknown: Vec<String> = Vec::new();
    let mut i: usize = 0;
    while i < list.len()
        invariant
            i <= list.len(),
            all == overrides_view(list@),
            DANGER_ACCEPT_INVALID_HOSTNAMES@ != DANGER_ACCEPT_INVALID_CERTS@,
            hostnames == last_value(all.subrange(0, i as int), DANGER_ACCEPT_INVALID_HOSTNAMES@),
            certs == last_value(all.subrange(0, i as int), DANGER_ACCEPT_INVALID_CERTS@),
            unknown@.map_values(|s: String| s@) == unknown_names(all.subrange(0, i as int)),
        decreases list.len() - i,
    {
        let ghost pre = all.subrange(0, i + 1);
        assert(pre.drop_last() =~= all.subrange(0, i as int));
        assert(pre.last() == (list@[i as int].0@, list@[i as int].1));
        let name = list[i].0.as_str();
        if same_text(name, DANGER_ACCEPT_INVALID_HOSTNAMES) {
            hostnames = Some(list[i].1);
        } else if same_text(name, DANGER_ACCEPT_INVALID_CERTS) {
            certs = Some(list[i].1);
        } else {
            let ghost before = unknown@;
            unknown.push(list[i].0.clone());
            assert(unknown@.map_values(|s: String| s@) =~= before.map_values(|s: String| s@).push(
                list@[i as int].0@,
            ));
        }
        i = i + 1;
    }
    assert(all.subrange(0, i as int) =~= all);
    TlsOverrides { accept_invalid_hostnames: hostnames, accept_invalid_certs: certs, unrecognized: unknown }
}

/// The longest PEM file the TLS backend reads: its length must fit a C `int`.
pub const MAX_PEM_LEN: usize = 0x7fff_ffff;

/// What the builder of a TLS connector was given: the PEM files added as trust
/// anchors, in order, and the values set for the two overrides (`None`: left at
/// the backend's default).
pub struct TlsModel {
    pub roots: Seq<Seq<u8>>,
    pub accept_invalid_hostnames: Option<bool>,
    pub accept_invalid_certs: Option<bool>,
}

/// A TLS connector builder, with what it has been given.
pub struct TlsSetup {
    builder: TlsConnectorBuilder,
    model: Ghost<TlsModel>,
}

impl TlsSetup {
    /// What the builder has been given.
    pub closed spec fn model(&self) -> TlsModel {
        self.model@
    }
}

/// A certificate read from PEM bytes, with those bytes.
pub struct PemCertificate {
    cert: Certificate,
    pem: Ghost<Seq<u8>>,
}

impl PemCertificate {
    /// The PEM bytes the certificate was read from.
    pub closed spec fn pem(&self) -> Seq<u8> {
        self.pem@
    }
}

/// A TLS connector, with what its builder was given.
pub struct LocalTls {
    connector: TlsConnector,
    model: Ghost<TlsModel>,
}

impl LocalTls {
    /// What the builder of the connector was given.
    pub closed spec fn model(&self) -> TlsModel {
        self.model@
    }

    /// What the builder of the connector was given, as a ghost value.
    pub fn ghost_model(&self) -> (r: Ghost<TlsModel>)
        ensures
            r@ == self.model(),
    {
        Ghost(self.model@)
    }

    /// The connector itself.
    pub fn into_connector(self) -> TlsConnector {
        self.connector
    }
}

/// Relies on `native_tls::TlsConnector::builder`: a builder with no trust anchor
/// added and both overrides left at the backend's default.
#[verifier::external_body]
fn tls_builder() -> (r: TlsSetup)
    ensures
        r.model() == (TlsModel {
            roots: Seq::empty(),
            accept_invalid_hostnames: None,
            accept_invalid_certs: None,
        }),
{
    TlsSetup {
        builder: TlsConnector::builder(),
        model: Ghost(TlsModel {
            roots: Seq::empty(),
            accept_invalid_hostnames: None,
            accept_invalid_certs: None,
        }),
    }
}

/// The bytes hold a PEM certificate that the TLS backend reads.
pub uninterp spec fn pem_parses(pem: Seq<u8>) -> bool;

/// Relies on `native_tls::Certificate::from_pem`: the first PEM certificate in the
/// bytes, `None` when none can be read; the outcome depends on the bytes alone. The
/// backend asserts that the length fits a C `int`.
#[verifier::external_body]
fn certificate_from_pem(pem: &[u8]) -> (r: Option<Certificate>)
    requires
        pem@.len() <= MAX_PEM_LEN,
    ensures
        r is Some <==> pem_parses(pem@),
{
    Certificate::from_pem(pem).ok()
}

/// Reads the certificate in PEM bytes, keeping the bytes it was read from.
pub fn parse_pem(pem: &Vec<u8>) -> (r: Option<PemCertificate>)
    requires
        pem@.len() <= MAX_PEM_LEN,
    ensures
        r is Some <==> pem_parses(pem@),
        r matches Some(c) ==> c.pem() == pem@,
{
    match certificate_from_pem(pem.as_slice()) {
        Some(cert) => Some(PemCertificate { cert, pem: Ghost(pem@) }),
        None => None,
    }
}

/// Relies on `native_tls::TlsConnectorBuilder::add_root_certificate`: the certificate
/// is added to the trust anchors.
#[verifier::external_body]
fn add_root_certificate(s: &mut TlsSetup, c: PemCertificate)
    ensures
        final(s).model() == (TlsModel { roots: old(s).model().roots.push(c.pem()), ..old(s).model() }),
{
    s.builder.add_root_certificate(c.cert);
}

/// Relies on `native_tls::TlsConnectorBuilder::danger_accept_invalid_hostnames`: the
/// setting takes the given value.
#[verifier::external_body]
fn set_accept_invalid_hostnames(s: &mut TlsSetup, accept: bool)
    ensures
        final(s).model() == (TlsModel { accept_invalid_hostnames: Some(accept), ..old(s).model() }),
{
    s.builder.danger_accept_invalid_hostnames(accept);
}

/// Relies on `native_tls::TlsConnectorBuilder::danger_accept_invalid_certs`: the
/// setting takes the given value.
#[verifier::external_body]
fn set_accept_invalid_certs(s: &mut TlsSetup, accept: bool)
    ensures
        final(s).model() == (TlsModel { accept_invalid_certs: Some(accept), ..old(s).model() }),
{
    s.builder.danger_accept_invalid_certs(accept);
}

/// Relies on `native_tls::TlsConnectorBuilder::build`: a connector with the builder's
/// settings, `None` when the TLS backend refuses them.
#[verifier::external_body]
fn build_connector(s: &TlsSetup) -> (r: Option<LocalTls>)
    ensures
        r matches Some(t) ==> t.model() == s.model(),
{
    match s.builder.build() {
        Ok(connector) => Some(LocalTls { connector, model: Ghost(s.model@) }),
        Err(_) => None,
    }
}

/// The builder a connector gets from these PEM files and overrides: the files that
/// the backend can take and that parse, in order, and the overrides as sorted.
pub open spec fn expected_tls(
    pems: Seq<Vec<u8>>,
    accept_invalid_hostnames: Option<bool>,
    accept_invalid_certs: Option<bool>,
) -> TlsModel {
    TlsModel {
        roots: pems.map_values(|b: Vec<u8>| b@).filter(
            |b: Seq<u8>| b.len() <= MAX_PEM_LEN && pem_parses(b),
        ),
        accept_invalid_hostnames,
        accept_invalid_certs,
    }
}

/// A TLS builder given the PEM certificates to trust besides the system's, and the
/// recognised overrides. A file too long for the backend, or that is not a PEM
/// certificate, is skipped.
pub fn configured_tls(pem_files: &Vec<Vec<u8>>, overrides: &TlsOverrides) -> (r: TlsSetup)
    ensures
        r.model() == expected_tls(
            pem_files@,
            overrides.accept_invalid_hostnames,
            overrides.accept_invalid_certs,
        ),
{
    let ghost files = pem_files@.map_values(|b: Vec<u8>| b@);
    let ghost keep = |b: Seq<u8>| b.len() <= MAX_PEM_LEN && pem_parses(b);
    let mut setup = tls_builder();
    let mut i: usize = 0;
    proof {
        reveal(Seq::filter);
        assert(files.subrange(0, 0) =~= Seq::<Seq<u8>>::empty());
    }
    while i < pem_files.len()
        invariant
            i <= pem_files.len(),
            files == pem_files@.map_values(|b: Vec<u8>| b@),
            keep == (|b: Seq<u8>| b.len() <= MAX_PEM_LEN && pem_parses(b)),
            setup.model() == (TlsModel {
                roots: files.subrange(0, i as int).filter(keep),
                accept_invalid_hostnames: None,
                accept_invalid_certs: None,
            }),
        decreases pem_files.len() - i,
    {
        proof {
            reveal(Seq::filter);
            assert(files.subrange(0, i + 1).drop_last() =~= files.subrange(0, i as int));
            assert(files.subrange(0, i + 1).last() == pem_files@[i as int]@);
        }
        if pem_files[i].len() <= MAX_PEM_LEN {
            match parse_pem(&pem_files[i]) {
                Some(cert) => add_root_certificate(&mut setup, cert),
                None => {},
            }
        }
        i = i + 1;
    }
    assert(files.subrange(0, i as int) =~= files);
    match overrides.accept_invalid_hostnames {
        Some(v) => set_accept_invalid_hostnames(&mut setup, v),
        None => {},
    }
    match overrides.accept_invalid_certs {
        Some(v) => set_accept_invalid_certs(&mut setup, v),
        None => {},
    }
    setup
}

/// A TLS connector that trusts the given PEM certificates besides the system's, with
/// the recognised overrides applied; the builder it is made from is the one
/// `configured_tls` gives. `None` when there is neither a certificate file nor an
/// override (the transport then keeps its default TLS setup), or when the backend
/// refuses to build the connector.
pub fn tls_connector(pem_files: &Vec<Vec<u8>>, overrides: &TlsOverrides) -> (r: Option<LocalTls>)
    ensures
        pem_files@.len() == 0 && overrides.accept_invalid_hostnames is None
            && overrides.accept_invalid_certs is None ==> r is None,
        r matches Some(t) ==> t.model() == expected_tls(
            pem_files@,
            overrides.accept_invalid_hostnames,
            overrides.accept_invalid_certs,
        ),
{
    if pem_files.len() == 0 && overrides.accept_invalid_hostnames.is_none()
        && overrides.accept_invalid_certs.is_none() {
        return None;
    }
    let setup = configured_tls(pem_files, overrides);
    build_connector(&setup)
}

} // verus!
