//! Key material for the machines of a testbed: a self-signed certificate and
//! its private key per machine, for the names under which it is reached.
use vstd::prelude::*;
use vstd::string::*;

use crate::config::machine::Machine;
use crate::runner::plan::texts;
use crate::text::owned;

verus! {

/// `rcgen::RcgenError`, an error of certificate generation; carried through
/// unopened.
#[verifier::external_type_specification]
#[verifier::external_body]
pub struct ExRcgenError(rcgen::RcgenError);

/// A DER encoding of an ASN.1 SEQUENCE: it opens with the constructed
/// SEQUENCE tag, byte 0x30.
pub open spec fn is_der_sequence(b: Seq<u8>) -> bool {
    b.len() > 0 && b[0] == 0x30u8
}

/// Every character of `t` is ASCII.
pub open spec fn is_ascii_text(t: Seq<char>) -> bool {
    forall|i: int| 0 <= i < t.len() ==> (#[trigger] t[i]) as u32 <= 0x7f
}

/// Every text of `names` is ASCII.
pub open spec fn all_ascii(names: Seq<Seq<char>>) -> bool {
    forall|i: int| 0 <= i < names.len() ==> is_ascii_text(#[trigger] names[i])
}

/// `c` can stand in the text of an IP address (a decimal or hexadecimal digit,
/// a dot or a colon).
pub open spec fn ip_address_char(c: char) -> bool {
    let n = c as int;
    (48 <= n <= 57) || (97 <= n <= 102) || (65 <= n <= 70) || c == '.' || c == ':'
}

/// `t` is no IP address, so a certificate names it as a DNS name: it holds a
/// character that no IP address's text holds.
pub open spec fn dns_only(t: Seq<char>) -> bool {
    exists|i: int| 0 <= i < t.len() && !ip_address_char(#[trigger] t[i])
}

/// The bytes `b` hold the ASCII text `t` from position `k` on.
pub open spec fn text_at(b: Seq<u8>, t: Seq<char>, k: int) -> bool {
    &&& 0 <= k
    &&& k + t.len() <= b.len()
    &&& forall|j: int| 0 <= j < t.len() ==> b[k + j] as int == #[trigger] t[j] as int
}

/// The bytes `b` hold the ASCII text `t` as a contiguous run.
pub open spec fn holds_text(b: Seq<u8>, t: Seq<char>) -> bool {
    exists|k: int| #[trigger] text_at(b, t, k)
}

/// The certificate bytes `cert` name, as a DNS name, each text of `names`
/// that is no IP address.
pub open spec fn names_dns(cert: Seq<u8>, names: Seq<Seq<char>>) -> bool {
    forall|i: int| 0 <= i < names.len() && dns_only(#[trigger] names[i]) ==> holds_text(cert, names[i])
}

/// `rcgen::generate_simple_self_signed` for `names`, then, on the certificate
/// it returns, `Certificate::serialize_der` and
/// `Certificate::serialize_private_key_der`: the certificate, signed by its
/// own freshly generated key, and that private key, both in DER. The three
/// calls stand together because the serialisation is safe only for a
/// certificate whose names are known: rcgen writes each DNS name with yasna's
/// `write_ia5_string`, which panics on a non-ASCII text, so `requires` asks
/// every name to be ASCII (the key pair is generated locally, so the key's
/// serialisation does not panic either). It is stated, on success:
/// - that the certificate bytes encode a SEQUENCE, as rcgen writes them with
///   `yasna::try_construct_der` and `write_sequence`;
/// - that they hold each name that does not parse as an IP address
///   (`CertificateParams::new` makes it a DNS name) as a contiguous run of its
///   ASCII bytes, as rcgen writes the subject alternative names extension,
///   with each DNS name an IA5 string, into the certificate's DER;
/// - that the key bytes encode a SEQUENCE, as the key pair is generated for
///   the default algorithm, ECDSA P-256, whose PKCS#8 document ring writes
///   from a template that opens with the SEQUENCE tag.
/// Nothing more is stated of the bytes, nor when an error comes, since the key
/// pair and the signature are random.
#[verifier::external_body]
fn self_signed_der(names: Vec<String>) -> (r: Result<(Vec<u8>, Vec<u8>), KeyGenError>)
    requires
        all_ascii(texts(names)),
    ensures
        match r {
            Ok(ders) => {
                &&& is_der_sequence(ders.0@)
                &&& is_der_sequence(ders.1@)
                &&& names_dns(ders.0@, texts(names))
            },
            Err(e) => !(e is NonAsciiName),
        },
{
    let cert = match rcgen::generate_simple_self_signed(names) {
        Ok(c) => c,
        Err(e) => return Err(KeyGenError::Generate(e)),
    };
    match cert.serialize_der() {
        Ok(d) => Ok((d, cert.serialize_private_key_der())),
        Err(e) => Err(KeyGenError::Serialize(e)),
    }
}

/// Whether every character of `t` is ASCII.
pub fn ascii_text(t: &str) -> (r: bool)
    ensures
        r == is_ascii_text(t@),
{
    let n = t.unicode_len();
    let mut i: usize = 0;
    while i < n
        invariant
            n == t@.len(),
            i <= n,
            forall|j: int| 0 <= j < i ==> (#[trigger] t@[j]) as u32 <= 0x7f,
        decreases n - i,
    {
        let c = t.get_char(i);
        if c as u32 > 0x7f {
            return false;
        }
        i = i + 1;
    }
    true
}

/// The names a machine's certificate is issued for: `localhost`, its host
/// name, and its host name in the `.local` domain.
pub fn cert_subject_names(hostname: &str) -> (r: Vec<String>)
    ensures
        texts(r) == seq!["localhost"@, hostname@, hostname@ + ".local"@],
{
    let mut names: Vec<String> = Vec::new();
    names.push(owned("localhost"));
    names.push(owned(hostname));
    let mut local = owned(hostname);
    local.append(".local");
    names.push(local);
    assert(texts(names) =~= seq!["localhost"@, hostname@, hostname@ + ".local"@]);
    names
}

/// The files of a machine's certificate and private key: `{host}.cert.der`
/// and `{host}.key.der`.
pub fn key_files(machine: &Machine) -> (r: (String, String))
    ensures
        r.0@ == machine.host() + ".cert.der"@,
        r.1@ == machine.host() + ".key.der"@,
{
    let mut cert = owned(machine.hostname());
    cert.append(".cert.der");
    let mut key = owned(machine.hostname());
    key.append(".key.der");
    (cert, key)
}

/// A certificate and its private key, both in DER.
pub struct MachineKeys {
    pub cert_der: Vec<u8>,
    pub key_der: Vec<u8>,
}

/// Why key material could not be made.
#[derive(Debug)]
pub enum KeyGenError {
    /// The certificate could not be generated.
    Generate(rcgen::RcgenError),
    /// The certificate could not be serialised.
    Serialize(rcgen::RcgenError),
    /// The machine's host name holds a character outside ASCII, which a
    /// certificate's DNS name cannot carry.
    NonAsciiName,
}

/// Generates a self-signed certificate for `names` and its private key, both
/// as DER SEQUENCEs; the certificate carries each name that is no IP address
/// as a DNS name. Whether generation succeeds, and the rest of the bytes, rest
/// on the random key pair.
pub fn generate_keys(names: Vec<String>) -> (r: Result<MachineKeys, KeyGenError>)
    requires
        all_ascii(texts(names)),
    ensures
        match r {
            Ok(k) => {
                &&& is_der_sequence(k.cert_der@)
                &&& is_der_sequence(k.key_der@)
                &&& names_dns(k.cert_der@, texts(names))
            },
            Err(e) => !(e is NonAsciiName),
        },
{
    match self_signed_der(names) {
        Ok((cert_der, key_der)) => Ok(MachineKeys { cert_der, key_der }),
        Err(e) => Err(e),
    }
}

/// Generates the key material of a machine, for the names under which it is
/// reached (`cert_subject_names`): a certificate that names `localhost` and
/// the host name in the `.local` domain, and the host name itself unless it is
/// an IP address, together with its private key, both as DER SEQUENCEs. A
/// host name with a character outside ASCII is refused.
pub fn machine_keys(machine: &Machine) -> (r: Result<MachineKeys, KeyGenError>)
    ensures
        !is_ascii_text(machine.host()) <==> r matches Err(KeyGenError::NonAsciiName),
        r matches Ok(k) ==> {
            &&& is_der_sequence(k.cert_der@)
            &&& is_der_sequence(k.key_der@)
            &&& holds_text(k.cert_der@, "localhost"@)
            &&& holds_text(k.cert_der@, machine.host() + ".local"@)
            &&& dns_only(machine.host()) ==> holds_text(k.cert_der@, machine.host())
        },
{
    let host = machine.hostname();
    if !ascii_text(host) {
        return Err(KeyGenError::NonAsciiName);
    }
    let names = cert_subject_names(host);
    proof {
        let t = texts(names);
        reveal_strlit("localhost");
        reveal_strlit(".local");
        assert(is_ascii_text(t[0]));
        assert(is_ascii_text(t[1]));
        assert forall|i: int| 0 <= i < t[2].len() implies (#[trigger] t[2][i]) as u32 <= 0x7f by {
            if i >= host@.len() {
                assert(t[2][i] == ".local"@[i - host@.len()]);
            } else {
                assert(t[2][i] == host@[i]);
            }
        }
        assert(!ip_address_char(t[0][0]));
        assert(dns_only(t[0]));
        assert(t[2][host@.len() as int + 1] == ".local"@[1]);
        assert(!ip_address_char(t[2][host@.len() as int + 1]));
        assert(dns_only(t[2]));
    }
    let r = generate_keys(names);
    proof {
        let t = texts(names);
        if r is Ok {
            let c = r->Ok_0.cert_der@;
            assert(dns_only(t[0]) ==> holds_text(c, t[0]));
            assert(dns_only(t[2]) ==> holds_text(c, t[2]));
            assert(dns_only(t[1]) ==> holds_text(c, t[1]));
        }
    }
    r
}

} // verus!
