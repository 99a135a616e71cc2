//! Putting a host name into the ASCII form that goes on the wire.
use vstd::prelude::*;
use vstd::utf8::is_ascii_chars;

use crate::error::{Error, IoErrorKind};
use crate::text::{char_index, index_of};

verus! {

/// The Punycode encoding (RFC 3492) of a label, without the `xn--` prefix;
/// `None` where the encoding overflows.
pub uninterp spec fn punycode_of(label: Seq<char>) -> Option<Seq<char>>;

/// The longest label handed to the Punycode encoder. The encoder's `u32`
/// counter stays below 1_113_985 times the label's length, so it cannot
/// overflow for labels this long or shorter.
pub const MAX_PUNYCODE_LABEL: usize = 3800;

/// Relies on `punycode::encode`: its output is a function of the label's
/// characters, is an error exactly where that function has none, and is
/// made of ASCII characters only (basic code points, `-` and base-36 digits).
/// Longer labels are kept out: the encoder's counter could then overflow,
/// which panics or gives a wrong encoding.
#[verifier::external_body]
fn punycode_encode(label: &str) -> (r: Option<String>)
    requires
        label@.len() <= MAX_PUNYCODE_LABEL,
    ensures
        r matches Some(t) ==> punycode_of(label@) == Some(t@) && is_ascii_chars(t@),
        r is None ==> punycode_of(label@) is None,
{
    punycode::encode(label).ok()
}

pub open spec fn ace_prefix() -> Seq<char> {
    seq!['x', 'n', '-', '-']
}

/// One label in wire form: an ASCII label as it is, any other as `xn--`
/// followed by its Punycode encoding. A non-ASCII label longer than
/// `MAX_PUNYCODE_LABEL` characters has no wire form.
pub open spec fn encode_label(label: Seq<char>) -> Option<Seq<char>> {
    if is_ascii_chars(label) {
        Some(label)
    } else if label.len() > MAX_PUNYCODE_LABEL {
        None
    } else {
        match punycode_of(label) {
            Some(p) => Some(ace_prefix() + p),
            None => None,
        }
    }
}

/// A dotted name in wire form, label by label.
pub open spec fn encode_labels(s: Seq<char>) -> Option<Seq<char>>
    decreases s.len(),
{
    let k = index_of(s, '.');
    if 0 <= k < s.len() {
        match (encode_label(s.take(k)), encode_labels(s.skip(k + 1))) {
            (Some(a), Some(b)) => Some(a + seq!['.'] + b),
            _ => None,
        }
    } else {
        encode_label(s)
    }
}

/// The wire form of a host: itself when it is ASCII, else its labels encoded.
pub open spec fn ascii_host(host: Seq<char>) -> Option<Seq<char>> {
    if is_ascii_chars(host) {
        Some(host)
    } else {
        encode_labels(host)
    }
}

proof fn lemma_ascii_concat(a: Seq<char>, b: Seq<char>)
    requires
        is_ascii_chars(a),
        is_ascii_chars(b),
    ensures
        is_ascii_chars(a + b),
{
    assert forall|i: int| 0 <= i < (a + b).len() implies '\0' <= #[trigger] (a + b)[i] <= '\u{7f}' by {
        if i < a.len() {
            assert((a + b)[i] == a[i]);
        } else {
            assert((a + b)[i] == b[i - a.len()]);
        }
    }
}

/// Makes a host ASCII for the wire: an ASCII host is returned unchanged;
/// otherwise every non-ASCII dot-separated label becomes `xn--` and its
/// Punycode, and the call fails if any label cannot be encoded or is a
/// non-ASCII label longer than `MAX_PUNYCODE_LABEL` characters.
pub fn ensure_ascii_host(host: String) -> (r: Result<String, Error>)
    ensures
        r matches Ok(h) ==> ascii_host(host@) == Some(h@),
        r is Err ==> ascii_host(host@) is None && r == Err::<String, Error>(
            Error::PunycodeConversionFailed,
        ),
        r matches Ok(h) ==> is_ascii_chars(h@),
{
    if host.is_ascii() {
        return Ok(host);
    }
    let s = host.as_str();
    let n = s.unicode_len();
    let mut out = String::new();
    proof {
        assert(s@.skip(0) =~= s@);
        if let Some(t) = encode_labels(s@) {
            assert(out@ + t =~= t);
        }
    }
    let mut pos: usize = 0;
    while pos <= n
        invariant
            pos <= n,
            n == s@.len(),
            s@ == host@,
            !is_ascii_chars(host@),
            is_ascii_chars(out@),
            encode_labels(s@) == match encode_labels(s@.skip(pos as int)) {
                Some(t) => Some(out@ + t),
                None => None,
            },
        decreases n - pos,
    {
        let rest = s.substring_char(pos, n);
        assert(rest@ =~= s@.skip(pos as int));
        let k = char_index(rest, '.');
        let rest_len = rest.unicode_len();
        let label = rest.substring_char(0, k);
        assert(label@ =~= rest@.take(k as int));
        if k == rest_len {
            assert(rest@.take(k as int) =~= rest@);
        }
        let encoded = if label.is_ascii() {
            String::from_str(label)
        } else if k > MAX_PUNYCODE_LABEL {
            assert(encode_label(label@) is None);
            assert(encode_labels(rest@) is None);
            return Err(Error::PunycodeConversionFailed);
        } else {
            match punycode_encode(label) {
                Some(p) => {
                    proof {
                        reveal_strlit("xn--");
                    }
                    let e = String::from_str("xn--").concat(p.as_str());
                    assert("xn--"@ =~= ace_prefix());
                    proof {
                        lemma_ascii_concat(ace_prefix(), p@);
                    }
                    e
                },
                None => {
                    assert(encode_label(label@) is None);
                    assert(encode_labels(rest@) is None);
                    return Err(Error::PunycodeConversionFailed);
                },
            }
        };
        assert(encode_label(label@) == Some(encoded@));
        assert(is_ascii_chars(encoded@));
        if k < rest_len {
            proof {
                reveal_strlit(".");
            }
            let ghost before = out@;
            out.append(encoded.as_str());
            out.append(".");
            proof {
                lemma_ascii_concat(before, encoded@);
                lemma_ascii_concat(before + encoded@, "."@);
                assert(out@ =~= before + encoded@ + "."@);
                assert(rest@.skip(k + 1) =~= s@.skip(pos + k + 1));
                assert("."@ =~= seq!['.']);
                match encode_labels(s@.skip(pos + k + 1)) {
                    Some(t) => {
                        assert(before + (encoded@ + seq!['.'] + t) =~= out@ + t);
                    },
                    None => {},
                }
            }
            pos = pos + k + 1;
        } else {
            let ghost before = out@;
            out.append(encoded.as_str());
            proof {
                lemma_ascii_concat(before, encoded@);
            }
            return Ok(out);
        }
    }
    Ok(out)
}

/// The name a TLS session is bound to: the host without its port.
pub open spec fn server_name(host: Seq<char>) -> Seq<char> {
    host.take(index_of(host, ':'))
}

/// Strips the port from a `host:port` to name the server for TLS.
pub fn tls_server_name(host: &str) -> (r: String)
    ensures
        r@ == server_name(host@),
{
    let k = char_index(host, ':');
    String::from_str(host.substring_char(0, k))
}

/// Whether a name is a syntactically valid DNS name to verify a server
/// certificate against.
pub uninterp spec fn valid_dns_name(name: Seq<char>) -> bool;

/// Relies on `webpki::DNSNameRef::try_from_ascii_str`: whether it accepts a
/// name depends on the name's characters alone.
#[verifier::external_body]
fn accepts_dns_name(name: &str) -> (r: bool)
    ensures
        r == valid_dns_name(name@),
{
    webpki::DNSNameRef::try_from_ascii_str(name).is_ok()
}

/// The name to bind a TLS session to for `host`: the host without its
/// port. A name that is not a valid DNS name fails the TLS setup with a
/// generic I/O error.
pub fn tls_session_name(host: &str) -> (r: Result<String, Error>)
    ensures
        r is Ok <==> valid_dns_name(server_name(host@)),
        r matches Ok(n) ==> n@ == server_name(host@),
        r is Err ==> r == Err::<String, Error>(Error::IoError(IoErrorKind::Other)),
{
    let name = tls_server_name(host);
    if accepts_dns_name(name.as_str()) {
        Ok(name)
    } else {
        Err(Error::IoError(IoErrorKind::Other))
    }
}

} // verus!
