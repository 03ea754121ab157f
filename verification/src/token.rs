//! Local token signing and checking.
//!
//! A token is the text `v1.<payload>.<sig>`: the payload bytes and their
//! keyed digest, each in unpadded URL-safe base64. The payload's meaning is
//! the caller's business; this module guarantees the signature and checks
//! the validity window of the claims the caller read out of a payload.

use vstd::prelude::*;

use base64::Engine;
use hmac::{KeyInit, Mac};

verus! {

/// The unpadded URL-safe base64 text of a byte string.
pub uninterp spec fn b64url_of(bytes: Seq<u8>) -> Seq<char>;

/// The HMAC-SHA256 tag of a message under a key.
pub uninterp spec fn hmac_sha256_of(key: Seq<u8>, msg: Seq<u8>) -> Seq<u8>;

/// Relies on base64's URL_SAFE_NO_PAD engine: the encoding is a function of
/// the bytes alone.
#[verifier::external_body]
fn b64url_encode(bytes: &Vec<u8>) -> (r: String)
    ensures
        r@ == b64url_of(bytes@),
{
    base64::engine::general_purpose::URL_SAFE_NO_PAD.encode(bytes)
}

/// Relies on base64's URL_SAFE_NO_PAD engine: decoding is strict — it
/// accepts exactly the canonical unpadded encodings (no padding, no stray
/// trailing bits), and decoding a canonical encoding yields the encoded
/// bytes, which determine it uniquely.
#[verifier::external_body]
fn b64url_decode(s: &String) -> (r: Option<Vec<u8>>)
    ensures
        match r {
            Some(v) => s@ == b64url_of(v@) && (forall|bs: Seq<u8>|
                s@ == b64url_of(bs) ==> bs == v@),
            None => forall|bs: Seq<u8>| s@ != b64url_of(bs),
        },
{
    match base64::engine::general_purpose::URL_SAFE_NO_PAD.decode(s.as_bytes()) {
        Ok(v) => Some(v),
        Err(_) => None,
    }
}

/// Relies on hmac with sha2's Sha256: the 32-byte tag is a function of key
/// and message alone. HMAC accepts keys of any length, so initialization
/// cannot fail.
#[verifier::external_body]
fn hmac_sha256(key: &Vec<u8>, msg: &Vec<u8>) -> (r: Vec<u8>)
    ensures
        r@ == hmac_sha256_of(key@, msg@),
        r@.len() == 32,
{
    let mut mac = <hmac::Hmac<sha2::Sha256>>::new_from_slice(key).expect(
        "HMAC accepts keys of any length",
    );
    mac.update(msg);
    mac.finalize().into_bytes().to_vec()
}

/// Whether two byte strings are equal.
fn bytes_eq(a: &Vec<u8>, b: &Vec<u8>) -> (r: bool)
    ensures
        r == (a@ == b@),
{
    if a.len() != b.len() {
        assert(a@.len() != b@.len());
        return false;
    }
    let mut i: usize = 0;
    while i < a.len()
        invariant
            0 <= i <= a@.len(),
            a@.len() == b@.len(),
            forall|j: int| 0 <= j < i ==> a@[j] == b@[j],
        decreases a@.len() - i,
    {
        if a[i] != b[i] {
            return false;
        }
        i = i + 1;
    }
    proof {
        assert(a@ =~= b@);
    }
    true
}

/// Why a token fails checking.
#[derive(Clone, Copy, Debug, PartialEq, Eq, Structural)]
pub enum TokenError {
    /// Not three dot-separated parts, or an unknown version tag.
    BadFormat,
    /// A part is not canonical unpadded URL-safe base64.
    Decode,
    /// The signature does not match the payload under the key.
    BadSignature,
    /// The claims' validity window has passed.
    Expired,
    /// The claims' validity window has not begun.
    NotYetValid,
}

/// The token text that signs a payload under a key.
pub open spec fn token_of(key: Seq<u8>, payload: Seq<u8>) -> Seq<char> {
    "v1."@ + b64url_of(payload) + "."@ + b64url_of(hmac_sha256_of(key, payload))
}

/// Signs payloads and checks tokens under one secret.
pub struct TokenIssuer {
    secret: Vec<u8>,
    product_code: String,
}

impl TokenIssuer {
    /// The signing key.
    pub closed spec fn secret(&self) -> Seq<u8> {
        self.secret@
    }

    /// The product identity written into issued claims.
    pub closed spec fn product(&self) -> Seq<char> {
        self.product_code@
    }

    /// An issuer over the given secret and product identity.
    pub fn new(secret: Vec<u8>, product_code: String) -> (r: TokenIssuer)
        ensures
            r.secret() == secret@,
            r.product() == product_code@,
    {
        TokenIssuer { secret, product_code }
    }

    /// The product identity, for embedding into claims.
    pub fn product_code(&self) -> (r: &String)
        ensures
            r@ == self.product(),
    {
        &self.product_code
    }

    /// Signs a payload: the token is the version tag, the payload and its
    /// keyed digest, dot-separated.
    pub fn sign_payload(&self, payload: &Vec<u8>) -> (r: String)
        ensures
            r@ == token_of(self.secret(), payload@),
    {
        let tag = hmac_sha256(&self.secret, payload);
        let mut s: String = "v1.".to_owned();
        s.append(b64url_encode(payload).as_str());
        s.append(".");
        s.append(b64url_encode(&tag).as_str());
        proof {
            assert(s@ =~= token_of(self.secret(), payload@));
        }
        s
    }

    /// Checks a token's shape and signature and yields its payload bytes.
    /// An accepted token is exactly the signed form of the yielded payload;
    /// each error names what broke: the dot-separated shape or version tag,
    /// a part that is not canonical base64, or a signature that does not
    /// match the payload under this issuer's key.
    pub fn verify_payload(&self, token: &String) -> (r: Result<Vec<u8>, TokenError>)
        ensures
            ({
                let parts = split_dots_spec(token@);
                match r {
                    Ok(p) => token@ == token_of(self.secret(), p@),
                    Err(TokenError::BadFormat) => parts.len() != 3 || parts[0] != "v1"@,
                    Err(TokenError::Decode) => parts.len() == 3 && parts[0] == "v1"@ && ((forall|
                        bs: Seq<u8>,
                    |
                        parts[1] != b64url_of(bs)) || (forall|bs: Seq<u8>|
                        parts[2] != b64url_of(bs))),
                    Err(TokenError::BadSignature) => parts.len() == 3 && parts[0] == "v1"@ && (
                    exists|p: Seq<u8>, s: Seq<u8>|
                        parts[1] == b64url_of(p) && parts[2] == b64url_of(s) && s
                            != hmac_sha256_of(self.secret(), p)),
                    Err(TokenError::Expired) => false,
                    Err(TokenError::NotYetValid) => false,
                }
            }),
    {
        let parts = split_dots(token);
        if parts.len() != 3 {
            return Err(TokenError::BadFormat);
        }
        let version_tag: String = "v1".to_owned();
        if !(parts[0] == version_tag) {
            return Err(TokenError::BadFormat);
        }
        let payload = match b64url_decode(&parts[1]) {
            Some(v) => v,
            None => {
                return Err(TokenError::Decode);
            },
        };
        let sig = match b64url_decode(&parts[2]) {
            Some(v) => v,
            None => {
                return Err(TokenError::Decode);
            },
        };
        let tag = hmac_sha256(&self.secret, &payload);
        if !bytes_eq(&sig, &tag) {
            proof {
                assert(split_dots_spec(token@)[1] == b64url_of(payload@) && split_dots_spec(
                    token@,
                )[2] == b64url_of(sig@) && sig@ != hmac_sha256_of(self.secret(), payload@));
            }
            return Err(TokenError::BadSignature);
        }
        proof {
            lemma_split_reconstruct(token@);
            let ps = split_dots_spec(token@);
            assert(ps == parts@.map_values(|p: String| p@));
            assert(ps[0] == parts@[0]@ && ps[1] == parts@[1]@ && ps[2] == parts@[2]@);
            assert(ps.skip(1).len() == 2 && ps.skip(1)[0] == ps[1]);
            assert(ps.skip(1).skip(1).len() == 1 && ps.skip(1).skip(1)[0] == ps[2]);
            assert(join_dots(ps.skip(1).skip(1)) == ps[2]);
            assert(join_dots(ps.skip(1)) == ps.skip(1)[0] + seq!['.'] + join_dots(
                ps.skip(1).skip(1),
            ));
            assert(join_dots(ps) == ps[0] + seq!['.'] + join_dots(ps.skip(1)));
            assert(join_dots(ps) =~= ps[0] + seq!['.'] + (ps[1] + seq!['.'] + ps[2]));
            reveal_strlit("v1");
            reveal_strlit("v1.");
            reveal_strlit(".");
            assert("v1."@ =~= "v1"@ + seq!['.']);
            assert("."@ =~= seq!['.']);
            assert(token@ =~= "v1."@ + b64url_of(payload@) + "."@ + b64url_of(
                hmac_sha256_of(self.secret(), payload@),
            ));
        }
        Ok(payload)
    }
}

/// Whether the claims' validity window, widened by the allowed clock skew
/// on both sides, contains the given time: not yet valid before it, expired
/// after it.
pub open spec fn window_check_spec(
    issued_at_unix: i64,
    expires_at_unix: i64,
    now_unix: i64,
    skew: i64,
) -> Result<(), TokenError> {
    if now_unix + skew < issued_at_unix {
        Err(TokenError::NotYetValid)
    } else if now_unix - skew > expires_at_unix {
        Err(TokenError::Expired)
    } else {
        Ok(())
    }
}

/// Checks a claim's validity window against the given time, allowing the
/// given clock skew on both sides.
pub fn check_time_window(issued_at_unix: i64, expires_at_unix: i64, now_unix: i64, skew: i64) -> (r:
    Result<(), TokenError>)
    requires
        0 <= skew,
        i64::MIN <= now_unix + skew <= i64::MAX,
        i64::MIN <= now_unix - skew <= i64::MAX,
    ensures
        r == window_check_spec(issued_at_unix, expires_at_unix, now_unix, skew),
{
    if now_unix + skew < issued_at_unix {
        Err(TokenError::NotYetValid)
    } else if now_unix - skew > expires_at_unix {
        Err(TokenError::Expired)
    } else {
        Ok(())
    }
}

/// The dot-separated parts of a text: one part more than there are dots,
/// split at every dot.
pub open spec fn split_dots_spec(s: Seq<char>) -> Seq<Seq<char>>
    decreases s.len(),
{
    if s.len() == 0 {
        seq![Seq::<char>::empty()]
    } else {
        let rest = split_dots_spec(s.skip(1));
        if s[0] == '.' {
            seq![Seq::<char>::empty()] + rest
        } else {
            seq![seq![s[0]] + rest[0]] + rest.skip(1)
        }
    }
}

/// A split has at least one part.
pub proof fn lemma_split_nonempty(s: Seq<char>)
    ensures
        split_dots_spec(s).len() >= 1,
    decreases s.len(),
{
    if s.len() > 0 {
        lemma_split_nonempty(s.skip(1));
    }
}

/// The text a list of parts denotes: the parts joined with dots.
pub open spec fn join_dots(ps: Seq<Seq<char>>) -> Seq<char>
    decreases ps.len(),
{
    if ps.len() == 0 {
        Seq::<char>::empty()
    } else if ps.len() == 1 {
        ps[0]
    } else {
        ps[0] + seq!['.'] + join_dots(ps.skip(1))
    }
}

/// Joining a split gives the text back.
pub proof fn lemma_split_reconstruct(s: Seq<char>)
    ensures
        join_dots(split_dots_spec(s)) == s,
    decreases s.len(),
{
    if s.len() == 0 {
    } else {
        lemma_split_reconstruct(s.skip(1));
        lemma_split_nonempty(s.skip(1));
        let rest = split_dots_spec(s.skip(1));
        if s[0] == '.' {
            let ps = seq![Seq::<char>::empty()] + rest;
            assert(ps.skip(1) =~= rest);
            assert(ps.len() >= 2);
            assert(join_dots(ps) =~= Seq::<char>::empty() + seq!['.'] + join_dots(rest));
            assert(Seq::<char>::empty() + seq!['.'] + join_dots(rest) =~= seq![s[0]] + s.skip(1));
            assert(seq![s[0]] + s.skip(1) =~= s);
        } else {
            let ps = seq![seq![s[0]] + rest[0]] + rest.skip(1);
            if rest.len() == 1 {
                assert(ps.len() == 1);
                assert(join_dots(ps) == seq![s[0]] + rest[0]);
                assert(join_dots(rest) == rest[0]);
                assert(seq![s[0]] + rest[0] =~= seq![s[0]] + s.skip(1));
                assert(seq![s[0]] + s.skip(1) =~= s);
            } else {
                assert(ps.len() >= 2);
                assert(ps.skip(1) =~= rest.skip(1));
                assert(join_dots(ps) == ps[0] + seq!['.'] + join_dots(rest.skip(1)));
                assert(join_dots(rest) == rest[0] + seq!['.'] + join_dots(rest.skip(1)));
                assert(ps[0] + seq!['.'] + join_dots(rest.skip(1)) =~= seq![s[0]] + (rest[0] + seq![
                    '.',
                ] + join_dots(rest.skip(1))));
                assert(seq![s[0]] + join_dots(rest) =~= seq![s[0]] + s.skip(1));
                assert(seq![s[0]] + s.skip(1) =~= s);
            }
        }
    }
}

/// The split with the first part extended by a prefix.
pub open spec fn prepend_first(prefix: Seq<char>, split: Seq<Seq<char>>) -> Seq<Seq<char>> {
    seq![prefix + split[0]] + split.skip(1)
}

/// Extending the pending part by one non-dot character commutes with the
/// split.
proof fn lemma_prepend_cons_char(cur_new: Seq<char>, c: char, tail: Seq<char>, tail1: Seq<char>)
    requires
        tail.len() > 0,
        tail[0] == c,
        c != '.',
        tail1 == tail.skip(1),
        cur_new.len() > 0,
        cur_new.last() == c,
    ensures
        prepend_first(cur_new.drop_last(), split_dots_spec(tail)) == prepend_first(
            cur_new,
            split_dots_spec(tail1),
        ),
{
    let rest = split_dots_spec(tail1);
    assert(split_dots_spec(tail) == seq![seq![c] + rest[0]] + rest.skip(1));
    assert((seq![seq![c] + rest[0]] + rest.skip(1))[0] == seq![c] + rest[0]);
    assert((seq![seq![c] + rest[0]] + rest.skip(1)).skip(1) =~= rest.skip(1));
    assert(prepend_first(cur_new.drop_last(), split_dots_spec(tail)) =~= seq![cur_new.drop_last()
        + (seq![c] + rest[0])] + rest.skip(1));
    assert(cur_new.drop_last() + (seq![c] + rest[0]) =~= cur_new + rest[0]);
    assert(prepend_first(cur_new, rest) =~= seq![cur_new + rest[0]] + rest.skip(1));
}

/// Meeting a dot closes the pending part.
proof fn lemma_prepend_cons_dot(cur: Seq<char>, tail: Seq<char>, tail1: Seq<char>)
    requires
        tail.len() > 0,
        tail[0] == '.',
        tail1 == tail.skip(1),
    ensures
        prepend_first(cur, split_dots_spec(tail)) == seq![cur] + prepend_first(
            Seq::<char>::empty(),
            split_dots_spec(tail1),
        ),
{
    let rest = split_dots_spec(tail1);
    lemma_split_nonempty(tail1);
    assert(split_dots_spec(tail) == seq![Seq::<char>::empty()] + rest);
    assert((seq![Seq::<char>::empty()] + rest)[0] == Seq::<char>::empty());
    assert((seq![Seq::<char>::empty()] + rest).skip(1) =~= rest);
    assert(prepend_first(cur, split_dots_spec(tail)) =~= seq![cur] + rest);
    assert(prepend_first(Seq::<char>::empty(), rest) =~= rest);
    assert(seq![cur] + prepend_first(Seq::<char>::empty(), rest) =~= seq![cur] + rest);
}

/// Splits a text at every dot.
pub fn split_dots(s: &String) -> (r: Vec<String>)
    ensures
        r@.map_values(|p: String| p@) == split_dots_spec(s@),
{
    let n = s.as_str().unicode_len();
    let mut parts: Vec<String> = Vec::new();
    let mut cur: String = String::new();
    let mut i: usize = 0;
    proof {
        lemma_split_nonempty(s@);
        assert(s@.skip(0) =~= s@);
        assert(parts@.map_values(|p: String| p@) =~= Seq::<Seq<char>>::empty());
        assert(prepend_first(cur@, split_dots_spec(s@)) =~= split_dots_spec(s@));
        assert(Seq::<Seq<char>>::empty() + prepend_first(cur@, split_dots_spec(s@))
            =~= split_dots_spec(s@));
    }
    while i < n
        invariant
            0 <= i <= n,
            n == s@.len(),
            split_dots_spec(s@) == parts@.map_values(|p: String| p@) + prepend_first(
                cur@,
                split_dots_spec(s@.skip(i as int)),
            ),
        decreases n - i,
    {
        let c = s.as_str().get_char(i);
        proof {
            assert(s@.skip(i as int)[0] == s@[i as int]);
            assert(s@.skip(i as int).skip(1) =~= s@.skip(i + 1));
        }
        if c == '.' {
            let ghost parts_before = parts@;
            let ghost cur_before = cur@;
            parts.push(cur);
            cur = String::new();
            proof {
                lemma_prepend_cons_dot(cur_before, s@.skip(i as int), s@.skip(i + 1));
                assert(parts@.map_values(|p: String| p@) =~= parts_before.map_values(
                    |p: String| p@,
                ).push(cur_before));
                assert(parts_before.map_values(|p: String| p@) + (seq![cur_before] + prepend_first(
                    cur@,
                    split_dots_spec(s@.skip(i + 1)),
                )) =~= parts@.map_values(|p: String| p@) + prepend_first(
                    cur@,
                    split_dots_spec(s@.skip(i + 1)),
                ));
            }
        } else {
            let piece = s.as_str().substring_char(i, i + 1);
            proof {
                assert(piece@ =~= seq![s@[i as int]]);
            }
            let ghost cur_before = cur@;
            cur.append(piece);
            proof {
                assert(cur@ =~= cur_before + seq![s@[i as int]]);
                assert(cur@.drop_last() =~= cur_before);
                lemma_prepend_cons_char(cur@, s@[i as int], s@.skip(i as int), s@.skip(i + 1));
            }
        }
        i = i + 1;
    }
    proof {
        assert(s@.skip(n as int) =~= Seq::<char>::empty());
    }
    let ghost parts_before = parts@;
    let ghost cur_before = cur@;
    parts.push(cur);
    proof {
        assert(parts@.map_values(|p: String| p@) =~= parts_before.map_values(|p: String| p@).push(
            cur_before,
        ));
        assert(prepend_first(cur_before, split_dots_spec(Seq::<char>::empty())) =~= seq![
            cur_before,
        ]);
        assert(parts_before.map_values(|p: String| p@) + seq![cur_before]
            =~= parts_before.map_values(|p: String| p@).push(cur_before));
    }
    parts
}

} // verus!
