//! The password hasher: salted digests under a versioned scheme.
//!
//! A stored digest has the form `#<scheme>#<hex>`: the two-digit identifier
//! of the scheme that produced it, then the digest in lower-case hex. Every
//! scheme ever used stays verifiable; a match under any scheme but the
//! current one is reported as outdated, so that the caller can re-hash.
pub mod digest;

use self::digest::{argon2id, argon2id_digest, hmac_sha512, hmac_sha512_digest};
use crate::text::{chars_of, push_char};
use vstd::prelude::*;
use vstd::utf8::encode_utf8;

verus! {

/// Why hashing failed.
#[derive(Debug, Clone, Copy, PartialEq, Eq, Structural)]
pub enum Error {
    /// The one-way function refused its inputs.
    HashingFailed,
}

pub type Result<T> = core::result::Result<T, Error>;

/// A generation of the hashing scheme.
#[derive(Debug, Clone, Copy, PartialEq, Eq, Structural)]
pub enum Scheme {
    /// HMAC-SHA512 keyed by the salt.
    Scheme01,
    /// Argon2id.
    Scheme02,
}

/// Whether a matched digest was made by the scheme now preferred.
#[derive(Debug, Clone, Copy, PartialEq, Eq, Structural)]
pub enum SchemeStatus {
    Current,
    Outdated,
}

/// The outcome of checking a password against a stored digest.
#[derive(Debug, Clone, Copy, PartialEq, Eq, Structural)]
pub enum Verdict {
    Match(SchemeStatus),
    Mismatch,
}

/// A password and the salt to hash it with.
#[derive(Debug)]
pub struct ContentToHash {
    /// The clear-text password.
    pub content: String,
    /// The principal's password salt.
    pub salt: String,
}

impl Scheme {
    /// The scheme that new digests are made with.
    pub open spec fn spec_current() -> Scheme {
        Scheme::Scheme02
    }

    /// The scheme's identifier inside a stored digest.
    pub open spec fn spec_id(self) -> Seq<char> {
        match self {
            Scheme::Scheme01 => seq!['0', '1'],
            Scheme::Scheme02 => seq!['0', '2'],
        }
    }

    /// The scheme that an identifier names.
    pub open spec fn of_id(id: Seq<char>) -> Option<Scheme> {
        if id == Scheme::Scheme01.spec_id() {
            Some(Scheme::Scheme01)
        } else if id == Scheme::Scheme02.spec_id() {
            Some(Scheme::Scheme02)
        } else {
            None
        }
    }

    /// `Current` for the preferred scheme, `Outdated` for every other.
    pub open spec fn spec_status(self) -> SchemeStatus {
        if self == Scheme::spec_current() {
            SchemeStatus::Current
        } else {
            SchemeStatus::Outdated
        }
    }

    /// The digest of `content` with `salt` under this scheme; `None` where
    /// the one-way function refuses the inputs.
    pub open spec fn spec_digest(self, content: Seq<char>, salt: Seq<char>) -> Option<Seq<u8>> {
        match self {
            Scheme::Scheme01 => hmac_sha512_digest(encode_utf8(salt), encode_utf8(content)),
            Scheme::Scheme02 => argon2id_digest(encode_utf8(content), encode_utf8(salt)),
        }
    }

    /// The scheme that new digests are made with.
    pub fn current() -> (s: Scheme)
        ensures
            s == Scheme::spec_current(),
    {
        Scheme::Scheme02
    }

    /// `Current` for the preferred scheme, `Outdated` for every other.
    pub fn status(self) -> (s: SchemeStatus)
        ensures
            s == self.spec_status(),
    {
        match self {
            Scheme::Scheme01 => SchemeStatus::Outdated,
            Scheme::Scheme02 => SchemeStatus::Current,
        }
    }

    /// The digest of `content` with `salt` under this scheme.
    pub fn digest(self, content: &str, salt: &str) -> (d: Option<Vec<u8>>)
        ensures
            match d {
                Some(bytes) => self.spec_digest(content@, salt@) == Some(bytes@),
                None => self.spec_digest(content@, salt@) is None,
            },
    {
        match self {
            Scheme::Scheme01 => hmac_sha512(salt.as_bytes(), content.as_bytes()),
            Scheme::Scheme02 => argon2id(content.as_bytes(), salt.as_bytes()),
        }
    }
}

/// The lower-case hex digit of a value below sixteen.
pub open spec fn hex_digit(n: u8) -> char {
    if n < 10 {
        (48 + n) as char
    } else {
        (87 + n) as char
    }
}

/// The lower-case hex text of `bytes`, two digits a byte.
pub open spec fn hex_of(bytes: Seq<u8>) -> Seq<char> {
    Seq::new(
        2 * bytes.len(),
        |i: int| if i % 2 == 0 {
            hex_digit(bytes[i / 2] / 16)
        } else {
            hex_digit(bytes[i / 2] % 16)
        },
    )
}

/// The stored form of a digest: `#`, the scheme's identifier, `#`, the hex.
pub open spec fn stored_form(scheme: Scheme, digest: Seq<u8>) -> Seq<char> {
    seq!['#'] + scheme.spec_id() + seq!['#'] + hex_of(digest)
}

/// The scheme and the hex text of a stored digest; `None` where the text
/// has not the stored form or names no known scheme.
pub open spec fn stored_parts(stored: Seq<char>) -> Option<(Scheme, Seq<char>)> {
    if stored.len() >= 4 && stored[0] == '#' && stored[3] == '#' {
        match Scheme::of_id(stored.subrange(1, 3)) {
            Some(scheme) => Some((scheme, stored.skip(4))),
            None => None,
        }
    } else {
        None
    }
}

/// What hashing under `scheme` returns.
pub open spec fn hashed(scheme: Scheme, content: Seq<char>, salt: Seq<char>) -> core::result::Result<
    Seq<char>,
    Error,
> {
    match scheme.spec_digest(content, salt) {
        Some(d) => Ok(stored_form(scheme, d)),
        None => Err(Error::HashingFailed),
    }
}

/// What checking a password against a stored digest returns: `Mismatch`
/// for a stored text that has not the stored form; `HashingFailed` where
/// the recorded scheme's function refuses the inputs; else a match, with
/// the scheme's status, exactly where the recomputed hex is the stored one.
pub open spec fn verified(content: Seq<char>, salt: Seq<char>, stored: Seq<char>) -> core::result::Result<
    Verdict,
    Error,
> {
    match stored_parts(stored) {
        None => Ok(Verdict::Mismatch),
        Some((scheme, hex)) => match scheme.spec_digest(content, salt) {
            None => Err(Error::HashingFailed),
            Some(d) => if hex_of(d) == hex {
                Ok(Verdict::Match(scheme.spec_status()))
            } else {
                Ok(Verdict::Mismatch)
            },
        },
    }
}

fn hex_char(n: u8) -> (c: char)
    requires
        n < 16,
    ensures
        c == hex_digit(n),
{
    if n < 10 {
        (48 + n) as char
    } else {
        (87 + n) as char
    }
}

/// Appends the lower-case hex text of `bytes` to `out`.
fn push_hex(out: &mut String, bytes: &Vec<u8>)
    ensures
        final(out)@ == old(out)@ + hex_of(bytes@),
{
    let ghost before = out@;
    let mut i: usize = 0;
    while i < bytes.len()
        invariant
            i <= bytes.len(),
            out@ == before + hex_of(bytes@).take(2 * i),
        decreases bytes.len() - i,
    {
        let b = bytes[i];
        push_char(out, hex_char(b / 16));
        push_char(out, hex_char(b % 16));
        assert(hex_of(bytes@).take(2 * (i + 1)) =~= hex_of(bytes@).take(2 * i).push(
            hex_digit(b / 16),
        ).push(hex_digit(b % 16)));
        i += 1;
    }
    assert(hex_of(bytes@).take(2 * bytes.len()) =~= hex_of(bytes@));
}

/// Whether `a[from..]` is `b`, looking at every character whatever the
/// earlier ones were, so that the time taken does not tell where two texts
/// of one length first differ.
fn same_tail(a: &Vec<char>, from: usize, b: &Vec<char>) -> (same: bool)
    requires
        from <= a.len(),
    ensures
        same == (a@.skip(from as int) == b@),
{
    if a.len() - from != b.len() {
        return false;
    }
    let mut seen: u32 = 0;
    let mut i: usize = 0;
    while i < b.len()
        invariant
            i <= b.len(),
            a.len() - from == b.len(),
            (seen == 0) == (forall|k: int| 0 <= k < i ==> a@[from + k] == b@[k]),
        decreases b.len() - i,
    {
        let x: u32 = a[from + i] as u32;
        let y: u32 = b[i] as u32;
        let ghost before = seen;
        assert(((seen | (x ^ y)) == 0) == (seen == 0 && x == y)) by (bit_vector);
        seen = seen | (x ^ y);
        proof {
            vstd::utf8::char_u32_cast(a@[from + i], x);
            vstd::utf8::char_u32_cast(b@[i as int], y);
            if before == 0 && x != y {
                assert(a@[from + i] != b@[i as int]);
            }
        }
        i += 1;
    }
    proof {
        if seen == 0 {
            assert(a@.skip(from as int) =~= b@);
        } else {
            let k = choose|k: int| 0 <= k < i && a@[from + k] != b@[k];
            assert(a@.skip(from as int)[k] != b@[k]);
        }
    }
    seen == 0
}

/// Reads the scheme out of a stored digest.
fn stored_scheme(stored: &Vec<char>) -> (scheme: Option<Scheme>)
    ensures
        match scheme {
            Some(s) => stored.len() >= 4 && stored_parts(stored@) == Some(
                (s, stored@.skip(4)),
            ),
            None => stored_parts(stored@) is None,
        },
{
    if stored.len() < 4 || stored[0] != '#' || stored[3] != '#' || stored[1] != '0' {
        proof {
            if stored.len() >= 4 && stored@[1] != '0' {
                assert(stored@.subrange(1, 3)[0] == stored@[1]);
            }
        }
        return None;
    }
    assert(stored@.subrange(1, 3) =~= seq![stored@[1], stored@[2]]);
    if stored[2] == '1' {
        Some(Scheme::Scheme01)
    } else if stored[2] == '2' {
        proof {
            assert(seq!['0', '2'][1] != seq!['0', '1'][1]);
        }
        Some(Scheme::Scheme02)
    } else {
        proof {
            assert(stored@.subrange(1, 3)[1] == stored@[2]);
        }
        None
    }
}

/// Hashes under a given scheme. The result is a stored digest that names
/// the scheme.
pub fn hash_pwd_with(scheme: Scheme, to_hash: &ContentToHash) -> (r: Result<String>)
    ensures
        match r {
            Ok(stored) => hashed(scheme, to_hash.content@, to_hash.salt@) == Ok::<Seq<char>, Error>(
                stored@,
            ),
            Err(e) => hashed(scheme, to_hash.content@, to_hash.salt@) == Err::<Seq<char>, Error>(e),
        },
{
    match scheme.digest(to_hash.content.as_str(), to_hash.salt.as_str()) {
        None => Err(Error::HashingFailed),
        Some(bytes) => {
            let mut stored = String::new();
            push_char(&mut stored, '#');
            push_char(&mut stored, '0');
            push_char(
                &mut stored,
                match scheme {
                    Scheme::Scheme01 => '1',
                    Scheme::Scheme02 => '2',
                },
            );
            push_char(&mut stored, '#');
            assert(stored@ =~= seq!['#'] + scheme.spec_id() + seq!['#']);
            push_hex(&mut stored, &bytes);
            Ok(stored)
        },
    }
}

/// Hashes under the current scheme.
pub fn hash_pwd(to_hash: &ContentToHash) -> (r: Result<String>)
    ensures
        match r {
            Ok(stored) => hashed(Scheme::spec_current(), to_hash.content@, to_hash.salt@) == Ok::<
                Seq<char>,
                Error,
            >(stored@),
            Err(e) => hashed(Scheme::spec_current(), to_hash.content@, to_hash.salt@) == Err::<
                Seq<char>,
                Error,
            >(e),
        },
{
    hash_pwd_with(Scheme::current(), to_hash)
}

/// Checks a password against a stored digest, under the scheme that the
/// digest names. Stored state is never changed: on `Match(Outdated)` it is
/// the caller who hashes again and stores the result.
pub fn validate_pwd(to_hash: &ContentToHash, pwd_ref: &str) -> (r: Result<Verdict>)
    ensures
        r == verified(to_hash.content@, to_hash.salt@, pwd_ref@),
{
    let stored = chars_of(pwd_ref);
    let scheme = match stored_scheme(&stored) {
        None => { return Ok(Verdict::Mismatch); },
        Some(s) => s,
    };
    match scheme.digest(to_hash.content.as_str(), to_hash.salt.as_str()) {
        None => Err(Error::HashingFailed),
        Some(bytes) => {
            let mut hex = String::new();
            push_hex(&mut hex, &bytes);
            let hex_chars = chars_of(hex.as_str());
            assert(hex_chars@ =~= hex_of(bytes@));
            if same_tail(&stored, 4, &hex_chars) {
                Ok(Verdict::Match(scheme.status()))
            } else {
                Ok(Verdict::Mismatch)
            }
        },
    }
}

/// Two byte strings with the same hex text are the same.
pub proof fn lemma_hex_injective(a: Seq<u8>, b: Seq<u8>)
    requires
        hex_of(a) == hex_of(b),
    ensures
        a == b,
{
    assert(hex_of(a).len() == 2 * a.len());
    assert(hex_of(b).len() == 2 * b.len());
    assert forall|i: int| 0 <= i < a.len() implies a[i] == b[i] by {
        assert(hex_of(a)[2 * i] == hex_of(b)[2 * i]);
        assert(hex_of(a)[2 * i + 1] == hex_of(b)[2 * i + 1]);
        assert(hex_of(a)[2 * i] == hex_digit(a[i] / 16));
        assert(hex_of(a)[2 * i + 1] == hex_digit(a[i] % 16));
        assert(hex_of(b)[2 * i] == hex_digit(b[i] / 16));
        assert(hex_of(b)[2 * i + 1] == hex_digit(b[i] % 16));
        assert(a[i] / 16 == b[i] / 16);
        assert(a[i] % 16 == b[i] % 16);
    }
    assert(a =~= b);
}

/// A stored digest is taken apart into the scheme and the hex text that it
/// was made of.
pub proof fn lemma_stored_round_trip(scheme: Scheme, digest: Seq<u8>)
    ensures
        stored_parts(stored_form(scheme, digest)) == Some((scheme, hex_of(digest))),
{
    let stored = stored_form(scheme, digest);
    assert(stored.len() >= 4);
    assert(stored[0] == '#');
    assert(stored[3] == '#');
    assert(stored.subrange(1, 3) =~= scheme.spec_id());
    assert(stored.skip(4) =~= hex_of(digest));
    assert(Scheme::Scheme01.spec_id()[1] != Scheme::Scheme02.spec_id()[1]);
}

/// A digest made under any scheme verifies, for the password and salt it
/// was made of, as a match that carries the scheme's status.
pub proof fn lemma_own_hash_matches(scheme: Scheme, content: Seq<char>, salt: Seq<char>)
    ensures
        hashed(scheme, content, salt) matches Ok(stored) ==> verified(content, salt, stored) == Ok::<
            Verdict,
            Error,
        >(Verdict::Match(scheme.spec_status())),
{
    if let Some(d) = scheme.spec_digest(content, salt) {
        lemma_stored_round_trip(scheme, d);
    }
}

/// Scheme upgrade: a password checked against its digest of the older
/// scheme matches as `Outdated`; hashed again under the current scheme and
/// checked against that digest, it matches as `Current`.
pub proof fn lemma_scheme_upgrade(content: Seq<char>, salt: Seq<char>)
    ensures
        hashed(Scheme::Scheme01, content, salt) matches Ok(old_stored) ==> verified(
            content,
            salt,
            old_stored,
        ) == Ok::<Verdict, Error>(Verdict::Match(SchemeStatus::Outdated)),
        hashed(Scheme::spec_current(), content, salt) matches Ok(new_stored) ==> verified(
            content,
            salt,
            new_stored,
        ) == Ok::<Verdict, Error>(Verdict::Match(SchemeStatus::Current)),
{
    lemma_own_hash_matches(Scheme::Scheme01, content, salt);
    lemma_own_hash_matches(Scheme::spec_current(), content, salt);
}

/// A password whose digest is not the stored one never matches, under any
/// scheme: the verdict is `Mismatch` wherever the scheme's function accepts
/// the password.
pub proof fn lemma_wrong_password_mismatches(
    scheme: Scheme,
    content: Seq<char>,
    wrong: Seq<char>,
    salt: Seq<char>,
)
    requires
        scheme.spec_digest(wrong, salt) != scheme.spec_digest(content, salt),
    ensures
        hashed(scheme, content, salt) matches Ok(stored) ==> verified(wrong, salt, stored) == (
        if scheme.spec_digest(wrong, salt) is Some {
            Ok::<Verdict, Error>(Verdict::Mismatch)
        } else {
            Err::<Verdict, Error>(Error::HashingFailed)
        }),
{
    if let Some(d) = scheme.spec_digest(content, salt) {
        lemma_stored_round_trip(scheme, d);
        if let Some(w) = scheme.spec_digest(wrong, salt) {
            if hex_of(w) == hex_of(d) {
                lemma_hex_injective(w, d);
            }
        }
    }
}

} // verus!
