//! The one-way functions behind the password schemes, from the `hmac`,
//! `sha2` and `argon2` crates. Nothing in this file is proved; each contract
//! says what the outside function is trusted to do.
use hmac::Mac;
use vstd::prelude::*;

verus! {

/// The HMAC-SHA512 tag of `message` under `key`, as the `hmac` and `sha2`
/// crates compute it; `None` where the crate refuses the key.
pub uninterp spec fn hmac_sha512_digest(key: Seq<u8>, message: Seq<u8>) -> Option<Seq<u8>>;

/// The Argon2id hash of `password` with `salt`, as the `argon2` crate
/// computes it with its default parameters and its default output length;
/// `None` where the crate refuses the inputs (a salt under eight bytes).
pub uninterp spec fn argon2id_digest(password: Seq<u8>, salt: Seq<u8>) -> Option<Seq<u8>>;

/// `Hmac::<Sha512>::new_from_slice`, `update`, `finalize`: a keyed digest,
/// a function of key and message alone.
#[verifier::external_body]
pub(crate) fn hmac_sha512(key: &[u8], message: &[u8]) -> (tag: Option<Vec<u8>>)
    ensures
        match tag {
            Some(t) => hmac_sha512_digest(key@, message@) == Some(t@),
            None => hmac_sha512_digest(key@, message@) is None,
        },
{
    let mut mac = hmac::Hmac::<sha2::Sha512>::new_from_slice(key).ok()?;
    mac.update(message);
    Some(mac.finalize().into_bytes().to_vec())
}

/// `Argon2::default().hash_password_into` with an output buffer of the
/// crate's default length: a memory-hard digest, a function of password and
/// salt alone.
#[verifier::external_body]
pub(crate) fn argon2id(password: &[u8], salt: &[u8]) -> (hash: Option<Vec<u8>>)
    ensures
        match hash {
            Some(h) => argon2id_digest(password@, salt@) == Some(h@),
            None => argon2id_digest(password@, salt@) is None,
        },
{
    let mut out = vec![0u8; argon2::Params::DEFAULT_OUTPUT_LEN];
    argon2::Argon2::default().hash_password_into(password, salt, &mut out).ok()?;
    Some(out)
}

} // verus!
