//! Byte-level encodings the wire paths use: decimal digit rendering, the
//! hexadecimal and base64 images of byte strings, substring search, and
//! the HMAC tag behind request signing.

use vstd::prelude::*;

verus! {

/// The ASCII decimal digits of `n`, most significant first.
pub open spec fn dec_digits_of(n: nat) -> Seq<u8>
    decreases n,
{
    if n < 10 {
        seq![(48 + n) as u8]
    } else {
        dec_digits_of(n / 10).push((48 + n % 10) as u8)
    }
}

/// Renders `n` in ASCII decimal.
pub fn u64_digits(n: u64) -> (r: Vec<u8>)
    ensures
        r@ == dec_digits_of(n as nat),
    decreases n,
{
    if n < 10 {
        let mut v: Vec<u8> = Vec::new();
        v.push(48 + (n as u8));
        proof {
            assert(v@ =~= dec_digits_of(n as nat));
        }
        v
    } else {
        let mut v = u64_digits(n / 10);
        v.push(48 + ((n % 10) as u8));
        v
    }
}

/// The lowercase hexadecimal digit of a value below sixteen.
pub open spec fn hex_digit(n: u8) -> char {
    if n < 10 {
        (48 + n) as char
    } else {
        (87 + n) as char
    }
}

/// The lowercase hexadecimal image of a byte string: two digits per byte.
pub open spec fn hex_of(b: Seq<u8>) -> Seq<char>
    decreases b.len(),
{
    if b.len() == 0 {
        Seq::<char>::empty()
    } else {
        seq![hex_digit((b[0] / 16) as u8), hex_digit((b[0] % 16) as u8)] + hex_of(b.drop_first())
    }
}

/// One character of the standard base64 alphabet.
pub open spec fn b64_char(i: u8) -> char {
    if i < 26 {
        (65 + i) as char
    } else if i < 52 {
        (97 + (i - 26)) as char
    } else if i < 62 {
        (48 + (i - 52)) as char
    } else if i == 62 {
        '+'
    } else {
        '/'
    }
}

/// The standard padded base64 image of a byte string.
pub open spec fn b64_of(b: Seq<u8>) -> Seq<char>
    decreases b.len(),
{
    if b.len() == 0 {
        Seq::<char>::empty()
    } else if b.len() == 1 {
        seq![b64_char((b[0] / 4) as u8), b64_char(((b[0] % 4) * 16) as u8), '=', '=']
    } else if b.len() == 2 {
        seq![b64_char((b[0] / 4) as u8), b64_char(((b[0] % 4) * 16 + b[1] / 16) as u8), b64_char(((b[1] % 16) * 4) as u8), '=']
    } else {
        seq![
            b64_char((b[0] / 4) as u8),
            b64_char(((b[0] % 4) * 16 + b[1] / 16) as u8),
            b64_char(((b[1] % 16) * 4 + b[2] / 64) as u8),
            b64_char((b[2] % 64) as u8),
        ] + b64_of(b.skip(3))
    }
}

/// Whether `pat` occurs contiguously inside `hay`.
pub open spec fn contains_seq(hay: Seq<u8>, pat: Seq<u8>) -> bool {
    exists|i: int|
        0 <= i <= hay.len() - pat.len() && #[trigger] hay.subrange(i, i + pat.len()) == pat
}

/// Whether the pattern occurs at offset `i` of `hay`.
fn matches_at(hay: &[u8], pat: &[u8], i: usize) -> (r: bool)
    requires
        i + pat@.len() <= hay@.len(),
    ensures
        r == (hay@.subrange(i as int, i + pat@.len()) == pat@),
{
    let hl = hay.len();
    let m = pat.len();
    let mut j: usize = 0;
    while j < m
        invariant
            hl == hay@.len(),
            m == pat@.len(),
            i + m <= hl,
            j <= m,
            forall|k: int| 0 <= k < j ==> hay@[i + k] == pat@[k],
        decreases m - j,
    {
        if hay[i + j] != pat[j] {
            proof {
                assert(hay@.subrange(i as int, i + m)[j as int] != pat@[j as int]);
            }
            return false;
        }
        j = j + 1;
    }
    proof {
        assert(hay@.subrange(i as int, i + m) =~= pat@);
    }
    true
}

/// Substring search.
pub fn contains_bytes(hay: &[u8], pat: &[u8]) -> (r: bool)
    ensures
        r == contains_seq(hay@, pat@),
{
    let n = hay.len();
    let m = pat.len();
    if m > n {
        proof {
            assert(!contains_seq(hay@, pat@));
        }
        return false;
    }
    let mut i: usize = 0;
    while i <= n - m
        invariant
            n == hay@.len(),
            m == pat@.len(),
            m <= n,
            i <= n - m + 1,
            forall|k: int| 0 <= k < i ==> #[trigger] hay@.subrange(k, k + m as int) != pat@,
        decreases n - m - i + 1,
    {
        if matches_at(hay, pat, i) {
            proof {
                assert(contains_seq(hay@, pat@));
            }
            return true;
        }
        proof {
            if m == 0 {
                assert(hay@.subrange(i as int, i as int) =~= pat@);
            }
        }
        i = i + 1;
    }
    false
}

/// Byte-string equality.
pub fn bytes_eq(a: &[u8], b: &[u8]) -> (r: bool)
    ensures
        r == (a@ == b@),
{
    let n = a.len();
    if n != b.len() {
        proof {
            assert(a@.len() != b@.len());
        }
        return false;
    }
    let mut i: usize = 0;
    while i < n
        invariant
            n == a@.len(),
            n == b@.len(),
            i <= n,
            forall|k: int| 0 <= k < i ==> a@[k] == b@[k],
        decreases n - i,
    {
        if a[i] != b[i] {
            return false;
        }
        i = i + 1;
    }
    proof {
        assert(a@ =~= b@);
    }
    true
}

/// What HMAC-SHA-256 assigns to a key and message: a function of the two
/// alone, identical on every machine.
pub uninterp spec fn hmac_sha256_of(key: Seq<u8>, msg: Seq<u8>) -> Seq<u8>;

/// Relies on hmac's `Hmac<Sha256>`: the 32-byte HMAC-SHA-256 tag of the
/// message under the key.  Keys of any length are accepted.
#[verifier::external_body]
pub fn hmac_sha256(key: &[u8], msg: &[u8]) -> (r: Vec<u8>)
    ensures
        r@ == hmac_sha256_of(key@, msg@),
        r@.len() == 32,
{
    let mut mac = <hmac::Hmac<sha2::Sha256> as hmac::KeyInit>::new_from_slice(key)
        .expect("HMAC accepts keys of any length");
    hmac::Mac::update(&mut mac, msg);
    hmac::Mac::finalize(mac).into_bytes().to_vec()
}

/// Relies on hex's `encode`: the lowercase hexadecimal image of the bytes.
#[verifier::external_body]
pub fn hex_lower(b: &[u8]) -> (r: String)
    ensures
        r@ == hex_of(b@),
        r@.len() == 2 * b@.len(),
{
    hex::encode(b)
}

/// Relies on base64's standard engine: the padded base64 image of the
/// bytes under the standard alphabet.
#[verifier::external_body]
pub fn b64_standard(b: &[u8]) -> (r: String)
    ensures
        r@ == b64_of(b@),
{
    base64::Engine::encode(&base64::engine::general_purpose::STANDARD, b)
}

} // verus!
