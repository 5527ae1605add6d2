//! Hashing a password with Argon2id under a fresh salt, and checking an attempt
//! against a stored hash.
//!
//! The functions on plain values ([`hash`], [`hash_with_salt`], [`verify`],
//! [`settle`]) say what a hash is and what a check answers. The traits
//! [`PasswordAuth`] and [`PasswordAuthExt`] put them on a user record of the
//! caller's own type; their contracts speak of the record through what its
//! own methods returned.

use crate::argon::{
    argon2_verdict, argon2_verify, argon2id_digest, derive_phc, distinct, duplicate_parameter,
    fresh_salt, hashed, is_salt_char, is_salt_text, missing_field, parameter_too_large,
    params_fit, phc_fields, phc_head, phc_parse, phc_text, texts, unsupported_algorithm, Checked,
    PhcFields, PhcFieldsView, Verdict, BLOCK_BYTES, MAX_LANES, MAX_SECRET_LEN,
};
use vstd::prelude::*;
use vstd::string::*;

verus! {

/// Errors of the password functions.
///
/// Each holds the error of the `argon2` crate that caused it; see
/// [`Error::source`].
#[derive(Debug)]
pub enum Error {
    /// Failed to compute the hash of the given password.
    HashCompute { err: argon2::password_hash::Error },
    /// Failed to parse the given password hash.
    HashParse { err: argon2::password_hash::Error },
    /// Failed to verify the given password against the internal hash.
    HashVerify { err: argon2::password_hash::Error },
}

impl Error {
    /// The text of [`Error::message`].
    pub open spec fn message_text(self) -> Seq<char> {
        match self {
            Error::HashCompute { .. } => "Failed to compute Argon2 hash"@,
            Error::HashParse { .. } => "Failed to parse internal Argon2 password hash"@,
            Error::HashVerify {
                ..
            } => "Failed to verify given attempt against internal Argon2 password hash"@,
        }
    }

    /// What went wrong, in one sentence and without the cause.
    pub fn message(&self) -> (text: String)
        ensures
            text@ == self.message_text(),
    {
        match self {
            Error::HashCompute { .. } => String::from_str("Failed to compute Argon2 hash"),
            Error::HashParse { .. } => String::from_str(
                "Failed to parse internal Argon2 password hash",
            ),
            Error::HashVerify { .. } => String::from_str(
                "Failed to verify given attempt against internal Argon2 password hash",
            ),
        }
    }

    /// The error of the `argon2` crate behind this one.
    pub open spec fn cause(self) -> argon2::password_hash::Error {
        match self {
            Error::HashCompute { err } => err,
            Error::HashParse { err } => err,
            Error::HashVerify { err } => err,
        }
    }

    /// The error of the `argon2` crate behind this one. Every variant has one.
    pub fn source(&self) -> (cause: Option<&argon2::password_hash::Error>)
        ensures
            cause == Some(&self.cause()),
    {
        match self {
            Error::HashCompute { err } => Some(err),
            Error::HashParse { err } => Some(err),
            Error::HashVerify { err } => Some(err),
        }
    }
}

/// The identifiers of the three variants of Argon2.
pub open spec fn is_argon2_tag(tag: Seq<char>) -> bool {
    tag == "argon2id"@ || tag == "argon2i"@ || tag == "argon2d"@
}

/// The parsed string is a whole Argon2 hash: it bears the identifier of an
/// Argon2 variant, holds a salt and a digest, and names no parameter twice.
pub open spec fn well_formed(fields: PhcFieldsView) -> bool {
    is_argon2_tag(fields.algorithm) && fields.has_salt && fields.has_digest && distinct(
        fields.names,
    )
}

/// `stored` is a hash string that [`verify`] takes: it parses as a PHC string
/// and is a whole Argon2 hash. Every other string is malformed.
pub open spec fn is_stored_hash(stored: Seq<char>) -> bool {
    phc_fields(stored) matches Some(fields) && well_formed(fields)
}

/// `stored` is a hash whose parameters Argon2 can be asked to work with.
pub open spec fn is_checkable(stored: Seq<char>) -> bool {
    phc_fields(stored) matches Some(fields) && well_formed(fields) && params_fit(fields)
}

/// [`verify`] answers `Ok(true)` on these arguments: the stored string is a
/// hash and the attempt's digest equals the one it holds.
pub open spec fn accepts(attempt: Seq<u8>, stored: Seq<char>) -> bool {
    is_checkable(stored) && argon2_verdict(attempt, stored) == Verdict::Match
}

/// [`verify`] answers `Ok(false)` on these arguments: the stored string is a
/// hash, and the attempt is turned down: its digest differs from the one the
/// string holds, or the attempt is too long to have one.
pub open spec fn rejects(attempt: Seq<u8>, stored: Seq<char>) -> bool {
    is_checkable(stored) && argon2_verdict(attempt, stored) == Verdict::Mismatch
}

/// [`verify`] answers `HashVerify` on these arguments: the stored string is a
/// hash, but its parameters are more than Argon2 can be asked to work with,
/// or the verification could not be carried out.
pub open spec fn faults(attempt: Seq<u8>, stored: Seq<char>) -> bool {
    is_stored_hash(stored) && (!is_checkable(stored) || argon2_verdict(attempt, stored)
        == Verdict::Fault)
}

/// `text` is the hash of some secret under some salt.
pub open spec fn is_hash(text: Seq<char>) -> bool {
    exists|secret: Seq<u8>, salt: Seq<char>| hashed(secret, salt, text)
}

/// `text` is the hash of `secret` under some salt.
pub open spec fn hash_of(secret: Seq<u8>, text: Seq<char>) -> bool {
    exists|salt: Seq<char>| hashed(secret, salt, text)
}

/// `r` is the answer of [`verify`] on `attempt` and `stored`.
pub open spec fn answers(attempt: Seq<u8>, stored: Seq<char>, r: Result<bool, Error>) -> bool {
    &&& r == Ok::<bool, Error>(true) <==> accepts(attempt, stored)
    &&& r == Ok::<bool, Error>(false) <==> rejects(attempt, stored)
    &&& (r matches Err(Error::HashParse { .. })) <==> !is_stored_hash(stored)
    &&& (r matches Err(Error::HashVerify { .. })) <==> faults(attempt, stored)
}

/// What [`settle`] returns.
pub open spec fn settled(checked: Checked) -> Result<bool, Error> {
    match checked {
        Checked::Match => Ok(true),
        Checked::Mismatch => Ok(false),
        Checked::Fault { err } => Err(Error::HashVerify { err }),
    }
}

/// Hashes `secret` under the given salt, written as B64 text.
///
/// The result is the PHC string of the salt and of the Argon2id digest under
/// the default parameters. It is an error, `HashCompute`, exactly where the
/// key-derivation function refuses the secret or the salt.
pub fn hash_with_salt(secret: &[u8], salt: &str) -> (r: Result<String, Error>)
    ensures
        r is Ok <==> argon2id_digest(secret@, salt@) is Some,
        r matches Ok(text) ==> hashed(secret@, salt@, text@),
        r matches Err(e) ==> e is HashCompute,
{
    match derive_phc(secret, salt) {
        Ok(text) => Ok(text),
        Err(err) => Err(Error::HashCompute { err }),
    }
}

/// Hashes `secret` under a salt drawn for this call.
///
/// It succeeds for every secret of at most 2^32 - 1 bytes, and for no other.
/// Whatever salt was drawn, the string that comes back is the hash of
/// `secret` under it, and [`verify`] accepts `secret` against it. The error
/// is `HashCompute`.
pub fn hash(secret: &[u8]) -> (r: Result<String, Error>)
    ensures
        r is Ok <==> secret@.len() <= MAX_SECRET_LEN,
        r matches Ok(text) ==> accepts(secret@, text@) && is_hash(text@) && hash_of(secret@, text@),
        r matches Err(e) ==> e is HashCompute,
{
    let salt = fresh_salt();
    let r = hash_with_salt(secret, salt.as_str());
    proof {
        if let Ok(text) = &r {
            law_hash_verifies(secret@, salt@, text@);
        }
    }
    r
}

/// Whether no name stands twice in `names`.
pub fn all_distinct(names: &Vec<String>) -> (found: bool)
    ensures
        found == distinct(texts(names@)),
{
    let mut j: usize = 0;
    while j < names.len()
        invariant
            j <= names.len(),
            forall|a: int, b: int| 0 <= a < b < j ==> names@[a]@ != names@[b]@,
        decreases names.len() - j,
    {
        let mut i: usize = 0;
        while i < j
            invariant
                i <= j < names.len(),
                forall|a: int| 0 <= a < i ==> names@[a]@ != names@[j as int]@,
            decreases j - i,
        {
            if names[i] == names[j] {
                proof {
                    assert(texts(names@)[i as int] == texts(names@)[j as int]);
                }
                return false;
            }
            i += 1;
        }
        j += 1;
    }
    proof {
        assert forall|a: int, b: int| 0 <= a < b < texts(names@).len() implies texts(names@)[a]
            != texts(names@)[b] by {
            assert(names@[a]@ != names@[b]@);
        }
    }
    true
}

/// Decides whether a parsed string is a hash that can be checked against.
///
/// It has to bear the identifier of an Argon2 variant, to hold a salt and a
/// digest, and to name no parameter twice: a string of another algorithm, a
/// string cut short and a string with a repeated parameter are `HashParse`,
/// as is one that does not parse at all. And its parameters must be such
/// that Argon2 can be asked to work with them: a `p` of more than 2^24 - 1,
/// or an `m` that asks for more memory than the machine can address, is
/// `HashVerify`.
pub fn vet(fields: &PhcFields) -> (r: Result<(), Error>)
    ensures
        r is Ok <==> well_formed(fields@) && params_fit(fields@),
        (r matches Err(Error::HashParse { .. })) <==> !well_formed(fields@),
        (r matches Err(Error::HashVerify { .. })) <==> well_formed(fields@) && !params_fit(
            fields@,
        ),
{
    let id = String::from_str("argon2id");
    let i = String::from_str("argon2i");
    let d = String::from_str("argon2d");
    if !(fields.algorithm == id || fields.algorithm == i || fields.algorithm == d) {
        return Err(Error::HashParse { err: unsupported_algorithm() });
    }
    if !fields.has_salt || !fields.has_digest {
        return Err(Error::HashParse { err: missing_field() });
    }
    if !all_distinct(&fields.names) {
        return Err(Error::HashParse { err: duplicate_parameter() });
    }
    let lanes_fit = match fields.lanes {
        Some(p) => p <= MAX_LANES,
        None => true,
    };
    let memory_fits = match fields.memory {
        Some(m) => m as u64 <= (usize::MAX / 2) as u64 / BLOCK_BYTES,
        None => true,
    };
    if !lanes_fit || !memory_fits {
        return Err(Error::HashVerify { err: parameter_too_large() });
    }
    Ok(())
}

/// Turns the result of the verification into the answer of [`verify`]: a
/// match is `true`, a mismatch is `false` and no error, and a verification
/// that could not be carried out is `HashVerify`.
pub fn settle(checked: Checked) -> (r: Result<bool, Error>)
    ensures
        r == settled(checked),
{
    match checked {
        Checked::Match => Ok(true),
        Checked::Mismatch => Ok(false),
        Checked::Fault { err } => Err(Error::HashVerify { err }),
    }
}

/// Checks `attempt` against the stored hash string.
///
/// A malformed string is `HashParse`, never `Ok(false)`: one that does not
/// parse as a PHC string, one of another algorithm than Argon2, one without
/// salt or without digest, one with a parameter that stands twice. A hash
/// gives `Ok(true)` or `Ok(false)` as the digests compare, or `HashVerify`
/// where the comparison could not be made; that is also the answer to
/// parameters that Argon2 cannot be asked to work with. The call returns for
/// every string.
pub fn verify(attempt: &[u8], stored: &str) -> (r: Result<bool, Error>)
    ensures
        r == Ok::<bool, Error>(true) <==> accepts(attempt@, stored@),
        r == Ok::<bool, Error>(false) <==> rejects(attempt@, stored@),
        r matches Err(Error::HashParse { .. }) <==> !is_stored_hash(stored@),
        r matches Err(Error::HashVerify { .. }) <==> faults(attempt@, stored@),
{
    let fields = match phc_parse(stored) {
        Ok(fields) => fields,
        Err(err) => {
            return Err(Error::HashParse { err });
        },
    };
    match vet(&fields) {
        Ok(()) => {},
        Err(err) => {
            return Err(err);
        },
    }
    settle(argon2_verify(attempt, stored))
}

/// The password of a user record: read it, replace it.
pub trait PasswordAuth {
    /// Returns the internal password: the plain one before
    /// [`PasswordAuthExt::hash_password`], the hashed one after.
    fn password(&self) -> &str;

    /// Returns the place where the internal password is kept.
    fn password_mut(&mut self) -> &mut String;
}

/// Hashing and checking for every [`PasswordAuth`].
pub trait PasswordAuthExt: PasswordAuth + Sized {
    /// Replaces the internal password by its hash, as [`hash`] gives it.
    ///
    /// On `Ok`, the record is as `password_mut` leaves it once the place that
    /// it hands out holds the hash of what `password` returned. It is an
    /// error, `HashCompute`, only where `password` returned more than
    /// 2^32 - 1 bytes, and the record is then as it was.
    fn hash_password(&mut self) -> (r: Result<(), Error>)
        ensures
            r matches Err(e) ==> e is HashCompute,
            r is Ok ==> exists|plain: &str, me: &mut Self, slot: &mut String|
                #![trigger
                    call_ensures(Self::password, (&*old(self),), plain),
                    call_ensures(Self::password_mut, (me,), slot)]
                {
                    &&& call_ensures(Self::password, (&*old(self),), plain)
                    &&& *me == *old(self)
                    &&& *final(me) == *final(self)
                    &&& call_ensures(Self::password_mut, (me,), slot)
                    &&& hash_of(plain.spec_bytes(), (*final(slot))@)
                },
            r is Err ==> *final(self) == *old(self) && exists|plain: &str|
                #[trigger] call_ensures(Self::password, (&*old(self),), plain)
                    && plain.spec_bytes().len() > MAX_SECRET_LEN,
    {
        match hash(self.password().as_bytes()) {
            Ok(text) => {
                *self.password_mut() = text;
                Ok(())
            },
            Err(err) => Err(err),
        }
    }

    /// Checks `attempt` against the internal password, which is taken to be a
    /// hash: the result is the answer of [`verify`] on `attempt` and on what
    /// `password` returned.
    fn check_password(&self, attempt: &[u8]) -> (r: Result<bool, Error>)
        ensures
            r matches Err(e) ==> e is HashParse || e is HashVerify,
            exists|stored: &str| #[trigger]
                call_ensures(Self::password, (self,), stored) && answers(attempt@, stored@, r),
    {
        verify(attempt, self.password())
    }
}

impl<T: PasswordAuth> PasswordAuthExt for T {

}

/// Hashing and then checking the same secret succeeds: a string that is the
/// hash of `secret` under some salt is accepted for `secret`.
pub proof fn law_hash_verifies(secret: Seq<u8>, salt: Seq<char>, text: Seq<char>)
    requires
        hashed(secret, salt, text),
    ensures
        accepts(secret, text),
{
    lemma_hash_is_checkable(secret, salt, text);
}

/// A hash of this crate is a whole Argon2 hash with parameters that fit.
pub proof fn lemma_hash_is_checkable(secret: Seq<u8>, salt: Seq<char>, text: Seq<char>)
    requires
        hashed(secret, salt, text),
    ensures
        is_checkable(text),
{
    reveal_strlit("m");
    reveal_strlit("t");
    reveal_strlit("p");
    let names = seq!["m"@, "t"@, "p"@];
    assert(names[0][0] == 'm' && names[1][0] == 't' && names[2][0] == 'p');
    assert(distinct(names));
}

/// Another secret is turned down: where the digest of `other` under the same
/// salt differs from the one of `secret`, or `other` is too long to have one,
/// checking `other` against the hash of `secret` is a mismatch, not an error.
pub proof fn law_other_secret_rejected(
    secret: Seq<u8>,
    other: Seq<u8>,
    salt: Seq<char>,
    text: Seq<char>,
)
    requires
        hashed(secret, salt, text),
        argon2id_digest(other, salt) != argon2id_digest(secret, salt),
    ensures
        rejects(other, text),
        !accepts(other, text),
{
    lemma_hash_is_checkable(secret, salt, text);
}

/// The salt can be read off a hash string: two strings of the PHC layout that
/// are equal hold the same salt.
pub proof fn lemma_phc_text_keeps_salt(
    salt_a: Seq<char>,
    digest_a: Seq<char>,
    salt_b: Seq<char>,
    digest_b: Seq<char>,
)
    requires
        is_salt_text(salt_a),
        is_salt_text(salt_b),
        phc_text(salt_a, digest_a) == phc_text(salt_b, digest_b),
    ensures
        salt_a == salt_b,
{
    let head = phc_head();
    let a = phc_text(salt_a, digest_a);
    let b = phc_text(salt_b, digest_b);
    let n = head.len() as int;
    assert forall|i: int| 0 <= i < salt_a.len() implies a[n + i] == salt_a[i] by {}
    assert forall|i: int| 0 <= i < salt_b.len() implies b[n + i] == salt_b[i] by {}
    assert(a[n + salt_a.len()] == '$');
    assert(b[n + salt_b.len()] == '$');
    if salt_a.len() < salt_b.len() {
        assert(is_salt_char(salt_b[salt_a.len() as int]));
        assert(b[n + salt_a.len()] == salt_b[salt_a.len() as int]);
        assert(false);
    }
    if salt_b.len() < salt_a.len() {
        assert(is_salt_char(salt_a[salt_b.len() as int]));
        assert(a[n + salt_b.len()] == salt_a[salt_b.len() as int]);
        assert(false);
    }
    assert forall|i: int| 0 <= i < salt_a.len() implies salt_a[i] == salt_b[i] by {
        assert(a[n + i] == b[n + i]);
    }
    assert(salt_a =~= salt_b);
}

/// Salts tell hashes apart: hashing one secret under two different salts gives
/// two different strings, and the secret is accepted against both.
pub proof fn law_salts_tell_hashes_apart(
    secret: Seq<u8>,
    salt_a: Seq<char>,
    salt_b: Seq<char>,
    text_a: Seq<char>,
    text_b: Seq<char>,
)
    requires
        hashed(secret, salt_a, text_a),
        hashed(secret, salt_b, text_b),
        salt_a != salt_b,
    ensures
        text_a != text_b,
        accepts(secret, text_a),
        accepts(secret, text_b),
{
    law_hash_verifies(secret, salt_a, text_a);
    law_hash_verifies(secret, salt_b, text_b);
    if text_a == text_b {
        lemma_phc_text_keeps_salt(
            salt_a,
            argon2id_digest(secret, salt_a)->0,
            salt_b,
            argon2id_digest(secret, salt_b)->0,
        );
    }
}

/// A hash begins with `$`: it is not the password it was made of, unless
/// that password itself begins with `$`.
pub proof fn law_hash_is_not_plain(
    secret: Seq<u8>,
    salt: Seq<char>,
    text: Seq<char>,
    plain: Seq<char>,
)
    requires
        hashed(secret, salt, text),
        plain.len() == 0 || plain[0] != '$',
    ensures
        text != plain,
        text.len() == 31 + salt.len() + 1 + 43,
{
    reveal_strlit("$argon2id$v=19$m=19456,t=2,p=1$");
    assert(phc_head().len() == 31);
    assert(phc_head()[0] == '$');
    assert(text[0] == phc_head()[0]);
}

} // verus!
