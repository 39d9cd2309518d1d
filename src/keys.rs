//! The verification key both peers show while pairing: SHA-256 over the two
//! public keys, greater key first, as lowercase hex.
use vstd::prelude::*;
use sha2::Digest;
use crate::device::Device;
use crate::error::KdeConnectError;

verus! {

/// The raw SubjectPublicKeyInfo of a DER certificate, or `None` when the bytes
/// do not parse as one.
pub uninterp spec fn spki_of(cert: Seq<u8>) -> Option<Seq<u8>>;

/// The SHA-256 digest of `data`.
pub uninterp spec fn sha256_of(data: Seq<u8>) -> Seq<u8>;

/// Lowercase hex digit of a nibble.
pub open spec fn hex_digit(n: u8) -> char {
    seq!['0', '1', '2', '3', '4', '5', '6', '7', '8', '9', 'a', 'b', 'c', 'd', 'e', 'f'][n as int]
}

/// Lowercase hex of `b`: two digits per byte, high nibble first.
pub open spec fn hex_lower(b: Seq<u8>) -> Seq<char>
    decreases b.len(),
{
    if b.len() == 0 {
        seq![]
    } else {
        hex_lower(b.drop_last()) + seq![hex_digit(b.last() / 16), hex_digit(b.last() % 16)]
    }
}

/// Relies on x509_parser::parse_x509_certificate (`X509Certificate::from_der`):
/// the public key's raw DER is a function of the certificate bytes.
#[verifier::external_body]
fn public_key_of(cert: &[u8]) -> (r: Option<Vec<u8>>)
    ensures
        match r {
            Some(k) => spki_of(cert@) == Some(k@),
            None => spki_of(cert@) is None,
        },
{
    match x509_parser::parse_x509_certificate(cert) {
        Ok((_, c)) => Some(c.public_key().raw.to_vec()),
        Err(_) => None,
    }
}

/// Relies on sha2::Sha256::digest: a 32-byte digest determined by the input.
#[verifier::external_body]
fn sha256(data: &[u8]) -> (r: Vec<u8>)
    ensures
        r@ == sha256_of(data@),
        r@.len() == 32,
{
    sha2::Sha256::digest(data).to_vec()
}

/// Relies on hex::encode: two lowercase digits per byte, high nibble first.
#[verifier::external_body]
fn to_hex(b: &[u8]) -> (r: String)
    ensures
        r@ == hex_lower(b@),
{
    hex::encode(b)
}

/// Lexicographic order of byte strings, a proper prefix coming first.
pub open spec fn lex_less(a: Seq<u8>, b: Seq<u8>) -> bool {
    exists|i: int|
        0 <= i <= a.len() && i <= b.len() && a.subrange(0, i) == b.subrange(0, i) && ((i == a.len()
            && i < b.len()) || (i < a.len() && i < b.len() && a[i] < b[i]))
}

/// The two keys, the greater first.
pub open spec fn key_material(a: Seq<u8>, b: Seq<u8>) -> Seq<u8> {
    if lex_less(a, b) {
        b + a
    } else {
        a + b
    }
}

/// The verification key of two public keys.
pub open spec fn key_of(a: Seq<u8>, b: Seq<u8>) -> Seq<char> {
    hex_lower(sha256_of(key_material(a, b)))
}

/// The verification key of two certificates, when both parse.
pub open spec fn verification_key_of(own_cert: Seq<u8>, peer_cert: Seq<u8>) -> Option<Seq<char>> {
    match (spki_of(own_cert), spki_of(peer_cert)) {
        (Some(a), Some(b)) => Some(key_of(a, b)),
        _ => None,
    }
}

/// Whether `a` orders before `b`.
pub fn bytes_less(a: &[u8], b: &[u8]) -> (r: bool)
    ensures
        r == lex_less(a@, b@),
{
    let mut i: usize = 0;
    while i < a.len() && i < b.len()
        invariant
            i <= a@.len(),
            i <= b@.len(),
            a@.subrange(0, i as int) == b@.subrange(0, i as int),
        decreases a@.len() - i,
    {
        if a[i] != b[i] {
            let r = a[i] < b[i];
            proof {
                if !r {
                    assert forall|j: int|
                        0 <= j <= a@.len() && j <= b@.len() && a@.subrange(0, j) == b@.subrange(
                            0,
                            j,
                        ) implies !((j == a@.len() && j < b@.len()) || (j < a@.len() && j
                        < b@.len() && a@[j] < b@[j])) by {
                        if j > i {
                            assert(a@.subrange(0, j)[i as int] == b@.subrange(0, j)[i as int]);
                        } else if j < i {
                            assert(a@.subrange(0, i as int)[j] == b@.subrange(0, i as int)[j]);
                        }
                    }
                }
            }
            return r;
        }
        assert(a@.subrange(0, i + 1) == a@.subrange(0, i as int).push(a@[i as int]));
        assert(b@.subrange(0, i + 1) == b@.subrange(0, i as int).push(b@[i as int]));
        i = i + 1;
    }
    let r = i == a.len() && i < b.len();
    proof {
        if !r {
            assert forall|j: int|
                0 <= j <= a@.len() && j <= b@.len() && a@.subrange(0, j) == b@.subrange(0, j)
                    implies !((j == a@.len() && j < b@.len()) || (j < a@.len() && j < b@.len()
                && a@[j] < b@[j])) by {
                if j < i {
                    assert(a@.subrange(0, i as int)[j] == b@.subrange(0, i as int)[j]);
                }
            }
        }
    }
    r
}

/// Concatenation of two byte strings.
fn concat(a: &[u8], b: &[u8]) -> (r: Vec<u8>)
    ensures
        r@ == a@ + b@,
{
    let mut out: Vec<u8> = Vec::new();
    let mut i: usize = 0;
    while i < a.len()
        invariant
            i <= a@.len(),
            out@ == a@.subrange(0, i as int),
        decreases a@.len() - i,
    {
        out.push(a[i]);
        i = i + 1;
    }
    let mut j: usize = 0;
    while j < b.len()
        invariant
            j <= b@.len(),
            out@ == a@ + b@.subrange(0, j as int),
        decreases b@.len() - j,
    {
        out.push(b[j]);
        j = j + 1;
    }
    assert(b@.subrange(0, b@.len() as int) == b@);
    out
}

/// The verification key of two certificates: SHA-256 over their public keys,
/// the greater key first, in lowercase hex. Fails with `X509` when either
/// certificate does not parse.
pub fn verification_key(own_cert: &[u8], peer_cert: &[u8]) -> (r: Result<String, KdeConnectError>)
    ensures
        match verification_key_of(own_cert@, peer_cert@) {
            Some(k) => r matches Ok(s) && s@ == k,
            None => r == Err::<String, _>(KdeConnectError::X509),
        },
{
    let own_key = match public_key_of(own_cert) {
        Some(k) => k,
        None => return Err(KdeConnectError::X509),
    };
    let device_key = match public_key_of(peer_cert) {
        Some(k) => k,
        None => return Err(KdeConnectError::X509),
    };
    let material = if bytes_less(own_key.as_slice(), device_key.as_slice()) {
        concat(device_key.as_slice(), own_key.as_slice())
    } else {
        concat(own_key.as_slice(), device_key.as_slice())
    };
    let digest = sha256(material.as_slice());
    Ok(to_hex(digest.as_slice()))
}

impl Device {
    /// The verification key of this session, from our own certificate and the
    /// one the peer presented.
    pub fn get_verification_key(&self, own_cert: &[u8]) -> (r: Result<String, KdeConnectError>)
        ensures
            match verification_key_of(own_cert@, self.peer_certificate@) {
                Some(k) => r matches Ok(s) && s@ == k,
                None => r == Err::<String, _>(KdeConnectError::X509),
            },
    {
        verification_key(own_cert, self.peer_certificate.as_slice())
    }
}

/// Two distinct byte strings are ordered one way or the other, never both.
proof fn lemma_lex_total(a: Seq<u8>, b: Seq<u8>)
    requires
        a != b,
    ensures
        lex_less(a, b) != lex_less(b, a),
{
    let n: int = if a.len() < b.len() { a.len() as int } else { b.len() as int };
    if a.subrange(0, n as int) == b.subrange(0, n as int) {
        if a.len() == b.len() {
            assert(a == a.subrange(0, n as int));
            assert(b == b.subrange(0, n as int));
        }
        if a.len() < b.len() {
            assert(lex_less(a, b));
        } else {
            assert(lex_less(b, a));
        }
    } else {
        let d = first_difference(a, b, n);
        if a[d] < b[d] {
            assert(lex_less(a, b));
        } else {
            assert(lex_less(b, a));
        }
    }
    if lex_less(a, b) && lex_less(b, a) {
        let i = choose|i: int|
            0 <= i <= a.len() && i <= b.len() && a.subrange(0, i) == b.subrange(0, i) && ((i
                == a.len() && i < b.len()) || (i < a.len() && i < b.len() && a[i] < b[i]));
        let j = choose|j: int|
            0 <= j <= b.len() && j <= a.len() && b.subrange(0, j) == a.subrange(0, j) && ((j
                == b.len() && j < a.len()) || (j < b.len() && j < a.len() && b[j] < a[j]));
        if i < j {
            assert(a.subrange(0, j)[i] == b.subrange(0, j)[i]);
        } else if j < i {
            assert(a.subrange(0, i)[j] == b.subrange(0, i)[j]);
        }
    }
}

/// The first index below `n` where `a` and `b` differ, given that they differ there.
proof fn first_difference(a: Seq<u8>, b: Seq<u8>, n: int) -> (d: int)
    requires
        0 <= n <= a.len(),
        n <= b.len(),
        a.subrange(0, n) != b.subrange(0, n),
    ensures
        0 <= d < n,
        a.subrange(0, d) == b.subrange(0, d),
        a[d] != b[d],
    decreases n,
{
    if n == 0 {
        assert(a.subrange(0, n) =~= b.subrange(0, n));
    }
    if a.subrange(0, n - 1) == b.subrange(0, n - 1) {
        if a[n - 1] == b[n - 1] {
            assert(a.subrange(0, n) =~= a.subrange(0, n - 1).push(a[n - 1]));
            assert(b.subrange(0, n) =~= b.subrange(0, n - 1).push(b[n - 1]));
        }
        n - 1
    } else {
        first_difference(a, b, n - 1)
    }
}

/// Both peers of a session compute the same verification key: swapping the
/// two certificates does not change it.
pub proof fn lemma_verification_key_symmetric(own_cert: Seq<u8>, peer_cert: Seq<u8>)
    ensures
        verification_key_of(own_cert, peer_cert) == verification_key_of(peer_cert, own_cert),
{
    match (spki_of(own_cert), spki_of(peer_cert)) {
        (Some(a), Some(b)) => {
            if a != b {
                lemma_lex_total(a, b);
            }
            assert(key_material(a, b) == key_material(b, a));
        },
        _ => {},
    }
}

} // verus!
