//! The calls into the `argon2` crate, and what is taken on trust about them.
//!
//! Nothing in this module is proved. Each function with a body is a thin shell
//! around the crate: `fresh_salt` makes one call, `phc_parse` parses and reads
//! the result's fields, `derive_phc` turns the salt text into a `Salt` and then
//! hashes, and `argon2_verify` parses the stored string once more before it
//! verifies, because a parsed hash borrows from the string and cannot be
//! carried between two functions here. The last four functions only give an
//! error value of the crate. The contracts are what the rest of the crate is
//! verified against.

use argon2::password_hash::errors::InvalidValue;
use argon2::password_hash::rand_core::OsRng;
use argon2::password_hash::{Error as PhcError, PasswordHasher, PasswordVerifier, Salt, SaltString};
use argon2::{Argon2, PasswordHash};
use vstd::prelude::*;

verus! {

/// `argon2::password_hash::Error`, carried through the crate without being
/// looked into.
#[verifier::external_type_specification]
#[verifier::external_body]
pub struct ExPhcError(PhcError);

/// The longest secret, in bytes, that Argon2 takes.
pub const MAX_SECRET_LEN: u64 = 0xFFFF_FFFF;

/// The largest degree of parallelism, the parameter `p`, that Argon2 takes.
pub const MAX_LANES: u32 = 0xFF_FFFF;

/// The bytes of one block of Argon2's memory; the parameter `m` counts blocks.
pub const BLOCK_BYTES: u64 = 1024;

/// What this crate reads of a parsed PHC string.
pub struct PhcFields {
    /// The algorithm identifier, the text after the first `$`.
    pub algorithm: String,
    /// Whether the string holds a salt.
    pub has_salt: bool,
    /// Whether the string holds a digest.
    pub has_digest: bool,
    /// The names of the parameters, in the order in which they stand.
    pub names: Vec<String>,
    /// The first parameter `p`, where it is a decimal number of 32 bits.
    pub lanes: Option<u32>,
    /// The first parameter `m`, where it is a decimal number of 32 bits.
    pub memory: Option<u32>,
}

/// [`PhcFields`] with its texts as sequences.
pub struct PhcFieldsView {
    pub algorithm: Seq<char>,
    pub has_salt: bool,
    pub has_digest: bool,
    pub names: Seq<Seq<char>>,
    pub lanes: Option<u32>,
    pub memory: Option<u32>,
}

/// The strings of `list` as texts.
pub open spec fn texts(list: Seq<String>) -> Seq<Seq<char>> {
    Seq::new(list.len(), |i: int| list[i]@)
}

impl View for PhcFields {
    type V = PhcFieldsView;

    open spec fn view(&self) -> PhcFieldsView {
        PhcFieldsView {
            algorithm: self.algorithm@,
            has_salt: self.has_salt,
            has_digest: self.has_digest,
            names: texts(self.names@),
            lanes: self.lanes,
            memory: self.memory,
        }
    }
}

/// No name stands twice in `names`.
pub open spec fn distinct(names: Seq<Seq<char>>) -> bool {
    forall|i: int, j: int| 0 <= i < j < names.len() ==> names[i] != names[j]
}

/// The parameters can be handed to Argon2: no parameter stands twice, `p` is
/// no more than Argon2 takes, and the memory that `m` asks for can be
/// addressed on this machine. With two parameters of one name the last
/// counts for Argon2, and only the first is read here; a larger `p`
/// overflows in Argon2's own check of it; more memory than can be addressed
/// cannot even be asked for.
pub open spec fn params_fit(fields: PhcFieldsView) -> bool {
    &&& distinct(fields.names)
    &&& fields.lanes matches Some(p) ==> p <= MAX_LANES
    &&& fields.memory matches Some(m) ==> m * BLOCK_BYTES <= isize::MAX
}

/// How a verification of an attempt against a parsed hash string ended.
pub enum Verdict {
    /// The digest recomputed from the attempt equals the stored one.
    Match,
    /// `verify_password` reported `Error::Password`. For a string that holds a
    /// salt and a digest this means that the digests differ, or that the
    /// attempt is of more than 2^32 - 1 bytes and has no digest.
    Mismatch,
    /// The verification could not be carried out.
    Fault,
}

/// What `argon2_verify` hands back: the result of the verification, with the
/// crate's error where there is one.
#[derive(Debug)]
pub enum Checked {
    /// `verify_password` returned `Ok`.
    Match,
    /// `verify_password` returned `Error::Password`.
    Mismatch,
    /// `verify_password` returned any other error.
    Fault { err: PhcError },
}

impl Checked {
    /// The verdict that this result stands for.
    pub open spec fn verdict(self) -> Verdict {
        match self {
            Checked::Match => Verdict::Match,
            Checked::Mismatch => Verdict::Mismatch,
            Checked::Fault { .. } => Verdict::Fault,
        }
    }
}

/// The digest, in B64 text, that `Argon2::default().hash_password` derives from
/// `password` under the salt written as `salt`, or `None` where it returns an
/// error.
pub uninterp spec fn argon2id_digest(password: Seq<u8>, salt: Seq<char>) -> Option<Seq<char>>;

/// What `PasswordHash::new` makes of `text`: the fields that this crate reads,
/// or `None` where it refuses the string.
pub uninterp spec fn phc_fields(text: Seq<char>) -> Option<PhcFieldsView>;

/// The verdict of `Argon2::default().verify_password` on `attempt` and the
/// parsed form of `stored`. It has a meaning only where `stored` parses.
pub uninterp spec fn argon2_verdict(attempt: Seq<u8>, stored: Seq<char>) -> Verdict;

/// The characters of the B64 alphabet: `[A-Za-z0-9+/]`.
pub open spec fn is_b64_char(c: char) -> bool {
    ||| 'a' <= c <= 'z'
    ||| 'A' <= c <= 'Z'
    ||| '0' <= c <= '9'
    ||| c == '/'
    ||| c == '+'
}

/// `text` is made of characters of the B64 alphabet.
pub open spec fn is_b64_text(text: Seq<char>) -> bool {
    forall|i: int| 0 <= i < text.len() ==> is_b64_char(#[trigger] text[i])
}

/// The characters that a salt may hold: `[a-zA-Z0-9/+.-]`.
pub open spec fn is_salt_char(c: char) -> bool {
    ||| is_b64_char(c)
    ||| c == '.'
    ||| c == '-'
}

/// A salt as `Salt::from_b64` accepts it: 4 to 64 salt characters.
pub open spec fn is_salt_text(salt: Seq<char>) -> bool {
    &&& 4 <= salt.len() <= 64
    &&& forall|i: int| 0 <= i < salt.len() ==> is_salt_char(#[trigger] salt[i])
}

/// A salt as `SaltString::generate` draws it: the B64 text of 16 bytes, which
/// is 22 characters, and under which every secret that is not too long has a
/// digest.
pub open spec fn is_drawn_salt(salt: Seq<char>) -> bool {
    &&& salt.len() == 22
    &&& is_b64_text(salt)
    &&& forall|secret: Seq<u8>|
        secret.len() <= MAX_SECRET_LEN ==> (#[trigger] argon2id_digest(secret, salt)) is Some
}

/// What every hash string of this crate starts with: the algorithm, its
/// version and the default cost parameters.
pub open spec fn phc_head() -> Seq<char> {
    "$argon2id$v=19$m=19456,t=2,p=1$"@
}

/// The PHC string that holds `salt` and `digest` under the default parameters.
pub open spec fn phc_text(salt: Seq<char>, digest: Seq<char>) -> Seq<char> {
    phc_head() + salt + seq!['$'] + digest
}

/// `text` is what hashing `password` under `salt` gives, and it behaves as such
/// a string does. The digest is the B64 text of 32 bytes; the string parses as
/// an `argon2id` hash with salt, digest and the three default parameters; and
/// verifying any attempt against it comes to comparing the attempt's digest
/// under the same salt with the stored one, an attempt without digest being a
/// mismatch.
pub open spec fn hashed(password: Seq<u8>, salt: Seq<char>, text: Seq<char>) -> bool {
    &&& is_salt_text(salt)
    &&& password.len() <= MAX_SECRET_LEN
    &&& argon2id_digest(password, salt) is Some
    &&& argon2id_digest(password, salt)->0.len() == 43
    &&& is_b64_text(argon2id_digest(password, salt)->0)
    &&& text == phc_text(salt, argon2id_digest(password, salt)->0)
    &&& phc_fields(text) == Some(
        PhcFieldsView {
            algorithm: "argon2id"@,
            has_salt: true,
            has_digest: true,
            names: seq!["m"@, "t"@, "p"@],
            lanes: Some(1u32),
            memory: Some(19456u32),
        },
    )
    &&& forall|attempt: Seq<u8>| #[trigger]
        argon2_verdict(attempt, text) == (if argon2id_digest(attempt, salt) == argon2id_digest(
            password,
            salt,
        ) {
            Verdict::Match
        } else {
            Verdict::Mismatch
        })
}

/// Calls `SaltString::generate` on the operating system's random source.
///
/// Trusted: the result is the B64 text of 16 random bytes. That is 22
/// characters of the B64 alphabet, and a salt under which
/// `Argon2::default().hash_password` refuses no secret of at most 2^32 - 1
/// bytes. Which salt comes back is left open. The call panics where the
/// operating system has no random bytes to give.
#[verifier::external_body]
pub(crate) fn fresh_salt() -> (salt: String)
    ensures
        is_drawn_salt(salt@),
{
    SaltString::generate(&mut OsRng).as_str().to_owned()
}

/// Calls `Argon2::default().hash_password` and writes the result out as a PHC
/// string.
///
/// Trusted: the call succeeds exactly where `argon2id_digest` is `Some`, a salt
/// that `Salt::from_b64` refuses being one of the errors, a secret of more
/// than 2^32 - 1 bytes another. On success the text is
/// `$argon2id$v=19$m=19456,t=2,p=1$`, the salt, `$` and the digest of 43 B64
/// characters; it parses again, to the identifier `argon2id`, the parameters
/// `m`, `t` and `p`, a salt and a digest; and `verify_password` on it
/// recomputes the digest of the attempt with the salt and parameters found in
/// the string and compares, reporting `Error::Password` also for an attempt
/// that is too long to have a digest.
#[verifier::external_body]
pub(crate) fn derive_phc(password: &[u8], salt: &str) -> (r: Result<String, PhcError>)
    ensures
        r is Ok <==> argon2id_digest(password@, salt@) is Some,
        r matches Ok(text) ==> hashed(password@, salt@, text@),
{
    let salt = Salt::from_b64(salt)?;
    Ok(Argon2::default().hash_password(password, salt)?.to_string())
}

/// Calls `PasswordHash::new` on `stored` and hands back what this crate reads
/// of the result.
///
/// Trusted: the result is what `phc_fields` names. The parser takes any
/// well-formed identifier, a string without salt or without digest, a
/// parameter that stands twice and any value of a parameter.
#[verifier::external_body]
pub(crate) fn phc_parse(stored: &str) -> (r: Result<PhcFields, PhcError>)
    ensures
        match r {
            Ok(fields) => phc_fields(stored@) == Some(fields@),
            Err(_) => phc_fields(stored@) is None,
        },
{
    let hash = PasswordHash::new(stored)?;
    Ok(
        PhcFields {
            algorithm: hash.algorithm.as_str().to_owned(),
            has_salt: hash.salt.is_some(),
            has_digest: hash.hash.is_some(),
            names: hash.params.iter().map(|(name, _)| name.as_str().to_owned()).collect(),
            lanes: hash.params.get_decimal("p"),
            memory: hash.params.get_decimal("m"),
        },
    )
}

/// Calls `Argon2::default().verify_password` on `attempt` and on `stored`,
/// parsed by `PasswordHash::new`.
///
/// Trusted: for a string that parses and whose parameters fit, the call
/// returns, and the result tells the three ways in which the verification can
/// end apart, as `argon2_verdict` names them. The parameters have to fit
/// because Argon2 multiplies `p` by eight before it looks at its size, and
/// asks for all of the memory that `m` names at once.
#[verifier::external_body]
pub(crate) fn argon2_verify(attempt: &[u8], stored: &str) -> (r: Checked)
    requires
        phc_fields(stored@) matches Some(fields) && params_fit(fields),
    ensures
        r.verdict() == argon2_verdict(attempt@, stored@),
{
    let hash = match PasswordHash::new(stored) {
        Ok(hash) => hash,
        Err(err) => return Checked::Fault { err },
    };
    match Argon2::default().verify_password(attempt, &hash) {
        Ok(()) => Checked::Match,
        Err(PhcError::Password) => Checked::Mismatch,
        Err(err) => Checked::Fault { err },
    }
}

/// Gives `Error::Algorithm` of `password_hash`: the error for a hash string
/// of an algorithm that is not supported.
#[verifier::external_body]
pub(crate) fn unsupported_algorithm() -> PhcError {
    PhcError::Algorithm
}

/// Gives `Error::PhcStringField` of `password_hash`: the error for a hash
/// string that misses a field.
#[verifier::external_body]
pub(crate) fn missing_field() -> PhcError {
    PhcError::PhcStringField
}

/// Gives `Error::ParamNameDuplicated` of `password_hash`: the error for a
/// parameter that stands twice.
#[verifier::external_body]
pub(crate) fn duplicate_parameter() -> PhcError {
    PhcError::ParamNameDuplicated
}

/// Gives `Error::ParamValueInvalid(InvalidValue::TooLong)` of `password_hash`:
/// the error that Argon2 reports for a parameter that is too large.
#[verifier::external_body]
pub(crate) fn parameter_too_large() -> PhcError {
    PhcError::ParamValueInvalid(InvalidValue::TooLong)
}

} // verus!
