//! One-way hashing of passwords and their verification.

use crate::infrastructure::errors::{AppError, AppResult};
use vstd::prelude::*;
use vstd::utf8::encode_utf8;

verus! {

/// The self-describing hash string (algorithm, parameters, salt and digest)
/// that Argon2 with its default parameters computes for a password and a
/// salt; `None` where it refuses the salt or the password.
pub uninterp spec fn argon2_phc(password: Seq<u8>, salt: Seq<char>) -> Option<Seq<char>>;

/// Whether a hash string is well formed and its digest is the one that
/// Argon2 computes for the password with the parameters and the salt that
/// the string holds.
pub uninterp spec fn argon2_matches(password: Seq<u8>, phc: Seq<char>) -> bool;

/// The costs that a hash string asks of Argon2, as the algorithm reads them
/// from the string: memory in KiB, passes and lanes. `None` where the string
/// is no hash string or its parameters are not Argon2's.
pub uninterp spec fn argon2_costs(phc: Seq<char>) -> Option<(u32, u32, u32)>;

/// The parameters of a hash string, as `password_hash` reads them from the
/// string, in the order they stand there: each with its name and, where its
/// value is a decimal number, that number. `None` where the string is no
/// hash string.
pub uninterp spec fn argon2_params(phc: Seq<char>) -> Option<Seq<(Seq<char>, Option<u32>)>>;

/// The most memory, in KiB, that a stored hash may ask for: more is not
/// allocated for the verification of one password.
pub const MAX_MEMORY_KIB: u32 = 1_048_576;

/// The most passes that a stored hash may ask for: with more, over the
/// memory allowed, the verification of one password takes minutes and up
/// to years.
pub const MAX_PASSES: u32 = 16;

/// The most lanes that Argon2 takes.
pub const MAX_LANES: u32 = 0x00FF_FFFF;

/// The longest password, in bytes, that Argon2 hashes.
pub const MAX_PASSWORD_BYTES: usize = 0xFFFF_FFFF;

/// Whether the costs are within what this library is willing to spend on
/// one password: memory and passes are both bounded.
pub open spec fn affordable(costs: Option<(u32, u32, u32)>) -> bool {
    costs matches Some((memory, passes, lanes)) && memory <= MAX_MEMORY_KIB && passes
        <= MAX_PASSES
}

/// The names and numbers of `params`, in order.
pub open spec fn param_views(params: Seq<(String, Option<u32>)>) -> Seq<(Seq<char>, Option<u32>)> {
    Seq::new(params.len(), |i: int| (params[i].0@, params[i].1))
}

/// The value is a number of lanes that Argon2 takes.
pub open spec fn is_lanes(value: Option<u32>) -> bool {
    value matches Some(lanes) && lanes <= MAX_LANES
}

/// Every parameter named `p` is a number of lanes that Argon2 takes.
pub open spec fn lanes_fit(params: Seq<(Seq<char>, Option<u32>)>) -> bool {
    forall|i: int|
        0 <= i < params.len() && (#[trigger] params[i]).0 == "p"@ ==> is_lanes(params[i].1)
}

/// Whether a text is a hash string whose numbers of lanes Argon2 takes. The
/// costs of such a string can be read.
pub open spec fn readable(phc: Seq<char>) -> bool {
    argon2_params(phc) matches Some(params) && lanes_fit(params)
}

/// Calls `SaltString::generate` of `argon2::password_hash` with the
/// operating system's random number generator and hands out the salt as
/// text. Which salt comes out depends on chance. Whichever it is, it encodes
/// sixteen bytes, which Argon2 accepts as a salt: under it every password of
/// at most [`MAX_PASSWORD_BYTES`] bytes has a hash.
#[verifier::external_body]
fn fresh_salt() -> (salt: String)
    ensures
        forall|password: Seq<u8>|
            password.len() <= MAX_PASSWORD_BYTES ==> (#[trigger] argon2_phc(password, salt@))
                is Some,
{
    argon2::password_hash::SaltString::generate(&mut argon2::password_hash::rand_core::OsRng)
        .as_str()
        .to_owned()
}

/// Reads the salt with `SaltString::from_b64` and calls
/// `PasswordHasher::hash_password` on `Argon2::default()`, then writes the
/// hash as text. The contract names the result [`argon2_phc`] and states
/// that a hash computed here matches its own password and holds the default
/// costs, as its three parameters `m`, `t` and `p`: 19456 KiB of memory, two
/// passes and one lane.
#[verifier::external_body]
fn phc_hash(password: &[u8], salt: &str) -> (r: Option<String>)
    ensures
        match r {
            Some(h) => {
                &&& argon2_phc(password@, salt@) == Some(h@)
                &&& argon2_matches(password@, h@)
                &&& argon2_costs(h@) == Some((19456u32, 2u32, 1u32))
                &&& argon2_params(h@) == Some(
                    seq![("m"@, Some(19456u32)), ("t"@, Some(2u32)), ("p"@, Some(1u32))],
                )
            },
            None => argon2_phc(password@, salt@) is None,
        },
{
    let salt = argon2::password_hash::SaltString::from_b64(salt).ok()?;
    argon2::PasswordHasher::hash_password(&argon2::Argon2::default(), password, &salt)
        .ok()
        .map(|h| h.to_string())
}

/// Reads the hash string with `PasswordHash::new` and walks its parameters
/// with `ParamsString::iter`, handing out each name with `Ident::as_str` and
/// each value with `Value::decimal`. No costs are built from them. The
/// contract names the result [`argon2_params`].
#[verifier::external_body]
fn phc_params(phc: &str) -> (r: Option<Vec<(String, Option<u32>)>>)
    ensures
        match r {
            Some(params) => argon2_params(phc@) == Some(param_views(params@)),
            None => argon2_params(phc@) is None,
        },
{
    let parsed = argon2::PasswordHash::new(phc).ok()?;
    Some(
        parsed.params.iter().map(|(name, value)| (name.as_str().to_owned(), value.decimal().ok()))
            .collect(),
    )
}

/// Reads the hash string with `PasswordHash::new` and its parameters with
/// `argon2::Params::try_from`, as verification does, and hands out the costs
/// `m_cost`, `t_cost` and `p_cost`. The contract names the result
/// [`argon2_costs`]. The parameters are built with a multiplication that
/// overflows for more than [`MAX_LANES`] lanes, so the call is made for
/// readable strings only.
#[verifier::external_body]
fn phc_costs(phc: &str) -> (costs: Option<(u32, u32, u32)>)
    requires
        readable(phc@),
    ensures
        costs == argon2_costs(phc@),
{
    let parsed = argon2::PasswordHash::new(phc).ok()?;
    let params = argon2::Params::try_from(&parsed).ok()?;
    Some((params.m_cost(), params.t_cost(), params.p_cost()))
}

/// Reads the hash string with `PasswordHash::new` and calls
/// `PasswordVerifier::verify_password` on `Argon2::default()`. A string that
/// cannot be read counts as no match. The contract names the result
/// [`argon2_matches`]. The call builds the parameters as [`phc_costs`] does,
/// allocates the memory and runs the passes that the string asks for, so it
/// is made for readable strings of affordable costs only.
#[verifier::external_body]
fn phc_verify(password: &[u8], phc: &str) -> (ok: bool)
    requires
        readable(phc@),
        affordable(argon2_costs(phc@)),
    ensures
        ok == argon2_matches(password@, phc@),
{
    match argon2::PasswordHash::new(phc) {
        Ok(parsed) => argon2::PasswordVerifier::verify_password(
            &argon2::Argon2::default(),
            password,
            &parsed,
        ).is_ok(),
        Err(_) => false,
    }
}

/// Whether `hash` is a readable hash of the password `plaintext` at
/// affordable costs.
pub open spec fn password_matches(plaintext: Seq<char>, hash: Seq<char>) -> bool {
    readable(hash) && affordable(argon2_costs(hash)) && argon2_matches(
        encode_utf8(plaintext),
        hash,
    )
}

/// The hash of `plaintext` under `salt`, if there is one.
pub open spec fn salted_hash(plaintext: Seq<char>, salt: Seq<char>) -> Option<Seq<char>> {
    argon2_phc(encode_utf8(plaintext), salt)
}

/// Whether the costs are within what this library is willing to spend.
pub fn is_affordable(costs: Option<(u32, u32, u32)>) -> (r: bool)
    ensures
        r == affordable(costs),
{
    match costs {
        Some((memory, passes, _)) => memory <= MAX_MEMORY_KIB && passes <= MAX_PASSES,
        None => false,
    }
}

/// Whether every parameter named `p` is a number of lanes that Argon2 takes.
pub fn lanes_within(params: &Vec<(String, Option<u32>)>) -> (r: bool)
    ensures
        r == lanes_fit(param_views(params@)),
{
    let lanes_name = String::from_str("p");
    let mut i: usize = 0;
    while i < params.len()
        invariant
            i <= params.len(),
            lanes_name@ == "p"@,
            forall|k: int|
                0 <= k < i && (#[trigger] param_views(params@)[k]).0 == "p"@ ==> is_lanes(
                    param_views(params@)[k].1,
                ),
        decreases params.len() - i,
    {
        if params[i].0 == lanes_name {
            let fits = match params[i].1 {
                Some(lanes) => lanes <= MAX_LANES,
                None => false,
            };
            if !fits {
                assert(param_views(params@)[i as int].0 == "p"@);
                return false;
            }
        }
        i = i + 1;
    }
    true
}

/// Whether `hash` is a hash string whose numbers of lanes Argon2 takes.
pub fn is_readable(hash: &str) -> (r: bool)
    ensures
        r == readable(hash@),
{
    match phc_params(hash) {
        Some(params) => lanes_within(&params),
        None => false,
    }
}

/// Hashes `plaintext` under the given salt. The hash string holds the
/// algorithm, its parameters, the salt and the digest, and verifies against
/// `plaintext`. A salt or password that the algorithm refuses is an
/// internal error.
pub fn hash_with_salt(plaintext: &str, salt: &str) -> (r: AppResult<String>)
    ensures
        match salted_hash(plaintext@, salt@) {
            Some(h) => r matches Ok(text) && text@ == h && password_matches(plaintext@, h),
            None => r == Err::<String, AppError>(AppError::InternalServerError),
        },
{
    match phc_hash(plaintext.as_bytes(), salt) {
        Some(h) => {
            assert(lanes_fit(argon2_params(h@)->0));
            Ok(h)
        },
        None => Err(AppError::InternalServerError),
    }
}

/// Hashes `plaintext` under a fresh random salt. Every password that is not
/// longer than [`MAX_PASSWORD_BYTES`] bytes gets a hash; a longer one may be
/// refused, as an internal error. Whatever the salt, a hash that comes back
/// is the hash of `plaintext` under some salt and verifies against it.
pub fn hash(plaintext: &str) -> (r: AppResult<String>)
    ensures
        match r {
            Ok(h) => password_matches(plaintext@, h@) && exists|salt: Seq<char>|
                salted_hash(plaintext@, salt) == Some(h@),
            Err(e) => e == AppError::InternalServerError,
        },
        encode_utf8(plaintext@).len() <= MAX_PASSWORD_BYTES ==> r is Ok,
{
    let salt = fresh_salt();
    hash_with_salt(plaintext, salt.as_str())
}

/// Whether `hash` is a hash of `plaintext`. A malformed hash matches
/// nothing, and neither does one that asks for more than [`MAX_LANES`]
/// lanes, [`MAX_MEMORY_KIB`] of memory or [`MAX_PASSES`] passes: it is
/// refused, not computed.
pub fn verify(plaintext: &str, hash: &str) -> (ok: bool)
    ensures
        ok == password_matches(plaintext@, hash@),
{
    if !is_readable(hash) {
        return false;
    }
    if is_affordable(phc_costs(hash)) {
        phc_verify(plaintext.as_bytes(), hash)
    } else {
        false
    }
}

} // verus!
