use vstd::prelude::*;
use vstd::string::*;
use crate::domain::email::Email;
use crate::utils::constants::TOKEN_TTL_SECONDS;
use crate::utils::digits::{
    dec_str, is_digit, lemma_dec_str_digits, lemma_dec_val_dec_str, parse_u64, render_u64,
    spec_parse_u64,
};

verus! {

// ---------------------------------------------------------------------------
// Keyed tag
// ---------------------------------------------------------------------------
/// The HMAC-SHA-256 tag that the hmac crate computes over `payload` under
/// key `secret`; a function of the two strings alone.
pub uninterp spec fn mac_of(secret: Seq<char>, payload: Seq<char>) -> Seq<u8>;

/// Relies on hmac's Hmac<Sha256>: `new_from_slice` accepts a key of any
/// length, and `finalize().into_bytes()` is the 32-byte authentication tag
/// over the fed message, deterministic in key and message.
#[verifier::external_body]
fn hmac_sha256(secret: &str, payload: &str) -> (r: Vec<u8>)
    ensures
        r@ == mac_of(secret@, payload@),
        r@.len() == 32,
{
    let mut mac = <hmac::Hmac<sha2::Sha256> as hmac::Mac>::new_from_slice(secret.as_bytes())
        .expect("HMAC accepts a key of any length");
    hmac::Mac::update(&mut mac, payload.as_bytes());
    hmac::Mac::finalize(mac).into_bytes().to_vec()
}

/// The lowercase hex character for a value below 16.
pub open spec fn hex_char(d: nat) -> char {
    if d == 0 {
        '0'
    } else if d == 1 {
        '1'
    } else if d == 2 {
        '2'
    } else if d == 3 {
        '3'
    } else if d == 4 {
        '4'
    } else if d == 5 {
        '5'
    } else if d == 6 {
        '6'
    } else if d == 7 {
        '7'
    } else if d == 8 {
        '8'
    } else if d == 9 {
        '9'
    } else if d == 10 {
        'a'
    } else if d == 11 {
        'b'
    } else if d == 12 {
        'c'
    } else if d == 13 {
        'd'
    } else if d == 14 {
        'e'
    } else {
        'f'
    }
}

pub open spec fn hex_of_byte(b: u8) -> Seq<char> {
    seq![hex_char((b / 16) as nat), hex_char((b % 16) as nat)]
}

/// Lowercase hex rendering of a byte string.
pub open spec fn hex_of_bytes(s: Seq<u8>) -> Seq<char>
    decreases s.len(),
{
    if s.len() == 0 {
        Seq::<char>::empty()
    } else {
        hex_of_bytes(s.drop_last()) + hex_of_byte(s.last())
    }
}

/// Hex renderings hold two characters per byte and never a `'.'`.
pub proof fn lemma_hex_of_bytes(s: Seq<u8>)
    ensures
        hex_of_bytes(s).len() == 2 * s.len(),
        forall|i: int| 0 <= i < hex_of_bytes(s).len() ==> #[trigger] hex_of_bytes(s)[i] != '.',
    decreases s.len(),
{
    if s.len() > 0 {
        lemma_hex_of_bytes(s.drop_last());
        assert forall|i: int| 0 <= i < hex_of_bytes(s).len() implies #[trigger] hex_of_bytes(
            s,
        )[i] != '.' by {
            if i < hex_of_bytes(s).len() - 2 {
                assert(hex_of_bytes(s)[i] == hex_of_bytes(s.drop_last())[i]);
            } else {
                assert(hex_of_bytes(s)[i] == hex_of_byte(s.last())[i - (hex_of_bytes(s).len()
                    - 2)]);
            }
        }
    }
}

fn hex_str_of(d: u8) -> (r: &'static str)
    requires
        d < 16,
    ensures
        r@ =~= seq![hex_char(d as nat)],
{
    let r: &'static str = if d == 0 {
        "0"
    } else if d == 1 {
        "1"
    } else if d == 2 {
        "2"
    } else if d == 3 {
        "3"
    } else if d == 4 {
        "4"
    } else if d == 5 {
        "5"
    } else if d == 6 {
        "6"
    } else if d == 7 {
        "7"
    } else if d == 8 {
        "8"
    } else if d == 9 {
        "9"
    } else if d == 10 {
        "a"
    } else if d == 11 {
        "b"
    } else if d == 12 {
        "c"
    } else if d == 13 {
        "d"
    } else if d == 14 {
        "e"
    } else {
        "f"
    };
    proof {
        reveal_strlit("0");
        reveal_strlit("1");
        reveal_strlit("2");
        reveal_strlit("3");
        reveal_strlit("4");
        reveal_strlit("5");
        reveal_strlit("6");
        reveal_strlit("7");
        reveal_strlit("8");
        reveal_strlit("9");
        reveal_strlit("a");
        reveal_strlit("b");
        reveal_strlit("c");
        reveal_strlit("d");
        reveal_strlit("e");
        reveal_strlit("f");
    }
    r
}

fn bytes_to_hex(v: &Vec<u8>) -> (r: String)
    ensures
        r@ == hex_of_bytes(v@),
{
    let mut s = String::new();
    let mut i: usize = 0;
    proof {
        assert(v@.take(0) =~= Seq::<u8>::empty());
    }
    while i < v.len()
        invariant
            0 <= i <= v@.len(),
            s@ == hex_of_bytes(v@.take(i as int)),
        decreases v@.len() - i,
    {
        let b = v[i];
        s.append(hex_str_of(b / 16));
        s.append(hex_str_of(b % 16));
        i = i + 1;
        proof {
            assert(v@.take(i as int).drop_last() =~= v@.take(i as int - 1));
            assert(v@.take(i as int).last() == b);
            assert(s@ =~= hex_of_bytes(v@.take(i as int)));
        }
    }
    proof {
        assert(v@.take(v@.len() as int) =~= v@);
    }
    s
}

// ---------------------------------------------------------------------------
// Token text
// ---------------------------------------------------------------------------
/// The tag text of a token: the MAC over `<expiry text> '.' <subject>` under
/// the signing key, rendered in lowercase hex.
pub open spec fn spec_tag_text(secret: Seq<char>, exp_text: Seq<char>, sub: Seq<char>) -> Seq<
    char,
> {
    hex_of_bytes(mac_of(secret, exp_text + seq!['.'] + sub))
}

/// The token minted for `sub` with absolute expiry `exp`:
/// `<expiry digits> '.' <tag hex> '.' <subject>`.
pub open spec fn spec_token_of(secret: Seq<char>, sub: Seq<char>, exp: u64) -> Seq<char> {
    dec_str(exp as nat) + seq!['.'] + spec_tag_text(secret, dec_str(exp as nat), sub) + seq!['.']
        + sub
}

/// Index of the first `'.'`.
pub open spec fn dot_index(s: Seq<char>) -> Option<int>
    decreases s.len(),
{
    if s.len() == 0 {
        None
    } else if s[0] == '.' {
        Some(0)
    } else {
        match dot_index(s.drop_first()) {
            Some(i) => Some(i + 1),
            None => None,
        }
    }
}

pub proof fn lemma_dot_index_props(s: Seq<char>)
    ensures
        match dot_index(s) {
            Some(i) => 0 <= i < s.len() && s[i] == '.' && forall|j: int| 0 <= j < i ==> s[j] != '.',
            None => forall|j: int| 0 <= j < s.len() ==> s[j] != '.',
        },
    decreases s.len(),
{
    if s.len() > 0 && s[0] != '.' {
        lemma_dot_index_props(s.drop_first());
        match dot_index(s) {
            Some(i) => {
                assert forall|j: int| 0 <= j < i implies s[j] != '.' by {
                    if j > 0 {
                        assert(s.drop_first()[j - 1] != '.');
                    }
                }
            },
            None => {
                assert forall|j: int| 0 <= j < s.len() implies s[j] != '.' by {
                    if j > 0 {
                        assert(s.drop_first()[j - 1] != '.');
                    }
                }
            },
        }
    }
}

/// In `a ++ "." ++ b` with no dot in `a`, the first dot stands right after
/// `a`.
pub proof fn lemma_dot_index_first(a: Seq<char>, b: Seq<char>)
    requires
        forall|j: int| 0 <= j < a.len() ==> a[j] != '.',
    ensures
        dot_index(a + seq!['.'] + b) == Some(a.len() as int),
    decreases a.len(),
{
    let s = a + seq!['.'] + b;
    if a.len() == 0 {
        assert(s[0] == '.');
    } else {
        assert(s[0] == a[0]);
        assert(s.drop_first() =~= a.drop_first() + seq!['.'] + b);
        assert(forall|j: int| 0 <= j < a.drop_first().len() ==> a.drop_first()[j] != '.');
        lemma_dot_index_first(a.drop_first(), b);
    }
}

fn find_dot(s: &str) -> (r: Option<usize>)
    ensures
        match r {
            Some(i) => dot_index(s@) == Some(i as int),
            None => dot_index(s@) is None,
        },
{
    proof {
        lemma_dot_index_props(s@);
    }
    let len = s.unicode_len();
    let mut i: usize = 0;
    while i < len
        invariant
            0 <= i <= len,
            len == s@.len(),
            forall|j: int| 0 <= j < i ==> s@[j] != '.',
            match dot_index(s@) {
                Some(k) => 0 <= k < s@.len() && s@[k] == '.' && forall|j: int|
                    0 <= j < k ==> s@[j] != '.',
                None => forall|j: int| 0 <= j < s@.len() ==> s@[j] != '.',
            },
        decreases len - i,
    {
        if s.get_char(i) == '.' {
            proof {
                match dot_index(s@) {
                    Some(k) => {
                        assert(k >= i);
                        assert(k <= i);
                    },
                    None => {
                        assert(s@[i as int] == '.');
                    },
                }
            }
            return Some(i);
        }
        i = i + 1;
    }
    proof {
        match dot_index(s@) {
            Some(k) => {
                assert(s@[k] != '.');
            },
            None => {},
        }
    }
    None
}

// ---------------------------------------------------------------------------
// Claims and validation
// ---------------------------------------------------------------------------
/// What a well-signed token carries: its subject and its absolute expiry.
#[derive(Debug, PartialEq)]
pub struct Claims {
    pub sub: String,
    pub exp: u64,
}

#[derive(Debug, PartialEq, Eq)]
pub enum TokenError {
    Malformed,
    BadSignature,
    Expired,
}

/// Structural decomposition of a token: expiry value, expiry text, tag text,
/// and subject.
pub open spec fn spec_split_token(s: Seq<char>) -> Option<(u64, Seq<char>, Seq<char>, Seq<char>)> {
    match dot_index(s) {
        None => None,
        Some(i) => {
            let exp_text = s.take(i);
            let rest = s.skip(i + 1);
            match dot_index(rest) {
                None => None,
                Some(j) => {
                    let sig_text = rest.take(j);
                    let sub = rest.skip(j + 1);
                    match spec_parse_u64(exp_text) {
                        Some(e) => Some((e, exp_text, sig_text, sub)),
                        None => None,
                    }
                },
            }
        },
    }
}

/// The complete outcome of validating a token against a key at time `now`:
/// ill-formed text, a wrong tag, an expiry not after `now`, or the claims.
pub open spec fn spec_validate_token(tok: Seq<char>, secret: Seq<char>, now: u64) -> Result<
    (Seq<char>, u64),
    TokenError,
> {
    match spec_split_token(tok) {
        None => Err(TokenError::Malformed),
        Some((exp, exp_text, sig_text, sub)) => {
            if sig_text != spec_tag_text(secret, exp_text, sub) {
                Err(TokenError::BadSignature)
            } else if exp <= now {
                Err(TokenError::Expired)
            } else {
                Ok((sub, exp))
            }
        },
    }
}

/// Checks shape, tag and expiry of a token and returns its claims.
pub fn validate_token(token: &str, secret: &str, now: u64) -> (r: Result<Claims, TokenError>)
    ensures
        match r {
            Ok(c) => spec_validate_token(token@, secret@, now) == Ok::<
                (Seq<char>, u64),
                TokenError,
            >((c.sub@, c.exp)),
            Err(e) => spec_validate_token(token@, secret@, now) == Err::<
                (Seq<char>, u64),
                TokenError,
            >(e),
        },
{
    let len = token.unicode_len();
    let i = match find_dot(token) {
        None => {
            return Err(TokenError::Malformed);
        },
        Some(i) => i,
    };
    proof {
        lemma_dot_index_props(token@);
    }
    let exp_text = token.substring_char(0, i);
    let rest = token.substring_char(i + 1, len);
    proof {
        assert(exp_text@ =~= token@.take(i as int));
        assert(rest@ =~= token@.skip(i as int + 1));
    }
    let rest_len = rest.unicode_len();
    let j = match find_dot(rest) {
        None => {
            return Err(TokenError::Malformed);
        },
        Some(j) => j,
    };
    proof {
        lemma_dot_index_props(rest@);
    }
    let sig_text = rest.substring_char(0, j);
    let sub = rest.substring_char(j + 1, rest_len);
    proof {
        assert(sig_text@ =~= rest@.take(j as int));
        assert(sub@ =~= rest@.skip(j as int + 1));
    }
    let exp = match parse_u64(exp_text) {
        None => {
            return Err(TokenError::Malformed);
        },
        Some(e) => e,
    };
    let mut payload = String::from_str(exp_text);
    payload.append(".");
    payload.append(sub);
    proof {
        reveal_strlit(".");
        assert(payload@ =~= exp_text@ + seq!['.'] + sub@);
    }
    let tag = hmac_sha256(secret, payload.as_str());
    let expected = bytes_to_hex(&tag);
    if !(expected == sig_text.to_owned()) {
        return Err(TokenError::BadSignature);
    }
    if exp <= now {
        return Err(TokenError::Expired);
    }
    Ok(Claims { sub: sub.to_owned(), exp })
}

// ---------------------------------------------------------------------------
// Minting
// ---------------------------------------------------------------------------
/// Builds the signed token text for a subject and an absolute expiry.
pub fn mint_token(sub: &str, secret: &str, exp: u64) -> (r: String)
    ensures
        r@ == spec_token_of(secret@, sub@, exp),
{
    let exp_text = render_u64(exp);
    let mut payload = String::from_str(exp_text.as_str());
    payload.append(".");
    payload.append(sub);
    proof {
        reveal_strlit(".");
        assert(payload@ =~= dec_str(exp as nat) + seq!['.'] + sub@);
    }
    let tag = hmac_sha256(secret, payload.as_str());
    let tag_text = bytes_to_hex(&tag);
    let mut t = exp_text;
    t.append(".");
    t.append(tag_text.as_str());
    t.append(".");
    t.append(sub);
    proof {
        assert("."@ =~= seq!['.']);
        assert(t@ =~= spec_token_of(secret@, sub@, exp));
    }
    t
}

/// Mints the session token for an address: subject is the address, expiry is
/// `now` plus the fixed lifetime.
pub fn generate_auth_token(email: &Email, secret: &str, now: u64) -> (r: String)
    requires
        now + TOKEN_TTL_SECONDS <= u64::MAX,
    ensures
        r@ == spec_token_of(secret@, email@, (now + TOKEN_TTL_SECONDS) as u64),
{
    mint_token(email.as_str(), secret, now + TOKEN_TTL_SECONDS)
}

/// The full session cookie around a token, HTTP-only and host-wide.
pub open spec fn spec_cookie_of(token: Seq<char>) -> Seq<char> {
    "jwt="@ + token + "; HttpOnly; SameSite=Lax; Secure; Path=/"@
}

pub fn generate_auth_cookie(email: &Email, secret: &str, now: u64) -> (r: String)
    requires
        now + TOKEN_TTL_SECONDS <= u64::MAX,
    ensures
        r@ == spec_cookie_of(spec_token_of(secret@, email@, (now + TOKEN_TTL_SECONDS) as u64)),
{
    let token = generate_auth_token(email, secret, now);
    let mut s = String::from_str("jwt=");
    s.append(token.as_str());
    s.append("; HttpOnly; SameSite=Lax; Secure; Path=/");
    s
}

/// A token minted for `sub` with expiry `exp` validates, with exactly those
/// claims, at any time before `exp` and under the same key.
pub proof fn lemma_token_roundtrip(secret: Seq<char>, sub: Seq<char>, exp: u64, now: u64)
    requires
        now < exp,
    ensures
        spec_validate_token(spec_token_of(secret, sub, exp), secret, now) == Ok::<
            (Seq<char>, u64),
            TokenError,
        >((sub, exp)),
{
    let exp_s = dec_str(exp as nat);
    let sig_s = spec_tag_text(secret, exp_s, sub);
    let tok = spec_token_of(secret, sub, exp);
    lemma_dec_str_digits(exp as nat);
    lemma_hex_of_bytes(mac_of(secret, exp_s + seq!['.'] + sub));
    assert forall|k: int| 0 <= k < exp_s.len() implies exp_s[k] != '.' by {
        assert(is_digit(exp_s[k]));
    }
    assert(tok =~= exp_s + seq!['.'] + (sig_s + seq!['.'] + sub));
    lemma_dot_index_first(exp_s, sig_s + seq!['.'] + sub);
    let i = exp_s.len() as int;
    assert(tok.take(i) =~= exp_s);
    let rest = tok.skip(i + 1);
    assert(rest =~= sig_s + seq!['.'] + sub);
    lemma_dot_index_first(sig_s, sub);
    let j = sig_s.len() as int;
    assert(rest.take(j) =~= sig_s);
    assert(rest.skip(j + 1) =~= sub);
    lemma_dec_val_dec_str(exp as nat);
    assert(spec_parse_u64(exp_s) == Some(exp));
    assert(spec_split_token(tok) == Some((exp, exp_s, sig_s, sub)));
}

} // verus!
