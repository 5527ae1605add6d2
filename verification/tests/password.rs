use argon2::password_hash::errors::InvalidValue;
use argon2::password_hash::Error as PhcError;
use argon2::{Argon2, PasswordHash, PasswordVerifier};
use auth::argon::{Checked, PhcFields};
use auth::password::{
    hash, hash_with_salt, settle, verify, vet, Error, PasswordAuth, PasswordAuthExt,
};

/// A hash of "password" under the salt `c29tZXNhbHQ`, with 256 KiB of memory.
const KNOWN_HASH: &str =
    "$argon2id$v=19$m=256,t=2,p=1$c29tZXNhbHQ$nf65EOgLrQMR/uIPnA4rEsF5h7TKyQwu9U1bMCHGi/4";

const HEAD: &str = "$argon2id$v=19$m=19456,t=2,p=1$";

struct User {
    name: String,
    pass: String,
}

impl PasswordAuth for User {
    fn password(&self) -> &str {
        self.pass.as_str()
    }

    fn password_mut(&mut self) -> &mut String {
        &mut self.pass
    }
}

#[test]
fn hash_with_salt_gives_the_known_string() {
    assert_eq!(
        hash_with_salt(b"hunter42", "examplesaltvalue").unwrap(),
        "$argon2id$v=19$m=19456,t=2,p=1$examplesaltvalue$m+8yTLTGdIJKfZWQaKpym8M2FDR6h4nsZuHZNcYECZQ"
    );
}

#[test]
fn hash_then_verify_accepts_the_secret() {
    let text = hash(b"s3cret!").unwrap();
    assert_eq!(verify(b"s3cret!", &text).unwrap(), true);
}

#[test]
fn verify_rejects_another_secret() {
    let text = hash(b"s3cret!").unwrap();
    assert_eq!(verify(b"s3cret?", &text).unwrap(), false);
    assert_eq!(verify(b"", &text).unwrap(), false);
}

#[test]
fn two_hashes_of_one_secret_differ_and_both_verify() {
    let first = hash(b"s3cret!").unwrap();
    let second = hash(b"s3cret!").unwrap();
    assert_ne!(first, second);
    assert_eq!(verify(b"s3cret!", &first).unwrap(), true);
    assert_eq!(verify(b"s3cret!", &second).unwrap(), true);
}

#[test]
fn hash_has_the_phc_layout() {
    let text = hash(b"s3cret!").unwrap();
    assert!(text.starts_with(HEAD));
    let fields: Vec<&str> = text.split('$').collect();
    assert_eq!(fields.len(), 6);
    assert_eq!(fields[0], "");
    assert_eq!(fields[1], "argon2id");
    assert_eq!(fields[2], "v=19");
    assert_eq!(fields[3], "m=19456,t=2,p=1");
    assert_eq!(fields[4].len(), 22);
    assert_eq!(fields[5].len(), 43);
    assert!(PasswordHash::new(&text).is_ok());
}

#[test]
fn hash_takes_the_empty_secret() {
    let text = hash(b"").unwrap();
    assert_eq!(verify(b"", &text).unwrap(), true);
    assert_eq!(verify(b" ", &text).unwrap(), false);
}

#[test]
fn hash_with_salt_holds_the_salt() {
    let text = hash_with_salt(b"hunter42", "examplesaltvalue").unwrap();
    assert!(text.starts_with("$argon2id$v=19$m=19456,t=2,p=1$examplesaltvalue$"));
    assert_eq!(verify(b"hunter42", &text).unwrap(), true);
    assert_eq!(verify(b"hunter43", &text).unwrap(), false);
}

#[test]
fn hash_with_salt_is_a_function_of_its_arguments() {
    let first = hash_with_salt(b"hunter42", "examplesaltvalue").unwrap();
    let second = hash_with_salt(b"hunter42", "examplesaltvalue").unwrap();
    assert_eq!(first, second);
}

#[test]
fn hash_with_salt_tells_salts_apart() {
    let first = hash_with_salt(b"hunter42", "examplesaltvalue").unwrap();
    let second = hash_with_salt(b"hunter42", "anothersaltvalue").unwrap();
    assert_ne!(first, second);
    assert_eq!(verify(b"hunter42", &first).unwrap(), true);
    assert_eq!(verify(b"hunter42", &second).unwrap(), true);
}

#[test]
fn hash_with_salt_agrees_with_the_verifier_of_argon2() {
    let text = hash_with_salt(b"hunter42", "examplesaltvalue").unwrap();
    let parsed = PasswordHash::new(&text).unwrap();
    assert_eq!(Argon2::default().verify_password(b"hunter42", &parsed), Ok(()));
    assert_eq!(parsed.salt.unwrap().as_str(), "examplesaltvalue");
}

#[test]
fn hash_with_salt_refuses_a_short_salt() {
    match hash_with_salt(b"hunter42", "abc") {
        Err(Error::HashCompute { err }) => {
            assert!(matches!(err, PhcError::SaltInvalid(_)));
        }
        other => panic!("{:?}", other),
    }
}

#[test]
fn hash_with_salt_refuses_a_salt_that_decodes_to_few_bytes() {
    // "somesalt" is eight characters, six bytes; Argon2 asks for eight bytes.
    assert!(matches!(
        hash_with_salt(b"hunter42", "somesalt"),
        Err(Error::HashCompute { .. })
    ));
}

#[test]
fn hash_with_salt_refuses_a_foreign_character() {
    match hash_with_salt(b"hunter42", "example$altvalue") {
        Err(Error::HashCompute { err }) => {
            assert!(matches!(err, PhcError::SaltInvalid(_)));
        }
        other => panic!("{:?}", other),
    }
}

#[test]
fn verify_accepts_a_known_hash() {
    assert_eq!(verify(b"password", KNOWN_HASH).unwrap(), true);
}

#[test]
fn verify_rejects_against_a_known_hash() {
    assert_eq!(verify(b"sassword", KNOWN_HASH).unwrap(), false);
    assert_eq!(verify(b"password ", KNOWN_HASH).unwrap(), false);
}

#[test]
fn verify_fails_to_parse_a_malformed_string() {
    for stored in ["", "s3cret!", "argon2id$v=19", "$", "$argon2id$v=x", "$Argon2id$v=19$m=256"] {
        assert!(
            matches!(verify(b"password", stored), Err(Error::HashParse { .. })),
            "{:?}",
            stored
        );
    }
}

#[test]
fn verify_fails_to_parse_trailing_data() {
    let stored = format!("{}$more", KNOWN_HASH);
    match verify(b"password", &stored) {
        Err(Error::HashParse { err }) => assert_eq!(err, PhcError::PhcStringTrailingData),
        other => panic!("{:?}", other),
    }
}

#[test]
fn verify_fails_to_parse_another_algorithm() {
    let stored = [
        "$scrypt$v=19$m=256,t=2,p=1$c29tZXNhbHQ$nf65EOgLrQMR/uIPnA4rEsF5h7TKyQwu9U1bMCHGi/4",
        "$pbkdf2-sha256$i=1000$c2FsdHNhbHQ$aGFzaGhhc2hoYXNo",
        "$argon2$v=19$m=256,t=2,p=1$c29tZXNhbHQ$nf65EOgLrQMR/uIPnA4rEsF5h7TKyQwu9U1bMCHGi/4",
        "$argon2idx$v=19$m=256,t=2,p=1$c29tZXNhbHQ$nf65EOgLrQMR/uIPnA4rEsF5h7TKyQwu9U1bMCHGi/4",
    ];
    for stored in stored {
        match verify(b"x", stored) {
            Err(Error::HashParse { err }) => assert_eq!(err, PhcError::Algorithm, "{:?}", stored),
            other => panic!("{:?}: {:?}", stored, other),
        }
    }
}

#[test]
fn verify_takes_the_other_variants_of_argon2() {
    let stored = "$argon2i$v=19$m=256,t=2,p=1$c29tZXNhbHQ$iekCn0Y3spW+sCcFanM2xBT63UP2sghkUoHLIUpWRS8";
    assert_eq!(verify(b"password", stored).unwrap(), true);
    assert_eq!(verify(b"sassword", stored).unwrap(), false);
}

#[test]
fn verify_fails_on_a_parameter_that_argon2_does_not_have() {
    let stored = "$argon2id$v=19$ln=16,r=8,p=1$c29tZXNhbHQ$nf65EOgLrQMR/uIPnA4rEsF5h7TKyQwu9U1bMCHGi/4";
    match verify(b"password", stored) {
        Err(Error::HashVerify { err }) => assert_eq!(err, PhcError::ParamNameInvalid),
        other => panic!("{:?}", other),
    }
}

#[test]
fn verify_fails_to_parse_a_string_without_salt_or_digest() {
    let stored = [
        "$argon2id",
        "$argon2id$v=19",
        "$argon2id$v=19$m=19456,t=2,p=1",
        "$argon2id$v=19$m=256,t=2,p=1$c29tZXNhbHQ",
    ];
    for stored in stored {
        for attempt in [&b"x"[..], &b"password"[..], &b""[..]] {
            match verify(attempt, stored) {
                Err(Error::HashParse { err }) => {
                    assert_eq!(err, PhcError::PhcStringField, "{:?}", stored)
                }
                other => panic!("{:?}: {:?}", stored, other),
            }
        }
    }
}

#[test]
fn verify_rejects_against_a_digest_cut_short() {
    // Sixteen characters of the digest are left: twelve bytes, which still parses.
    let stored = "$argon2id$v=19$m=256,t=2,p=1$c29tZXNhbHQ$nf65EOgLrQMR/uIP";
    assert_eq!(verify(b"password", stored).unwrap(), false);
}

#[test]
fn verify_fails_to_parse_a_digest_that_is_no_base64() {
    let stored = "$argon2id$v=19$m=256,t=2,p=1$c29tZXNhbHQ$nf65EOgLrQMR!uIPnA4rEsF5h7TKyQwu9U1bMCHGi/4";
    assert!(matches!(verify(b"password", stored), Err(Error::HashParse { .. })));
}

fn fields(algorithm: &str, has_salt: bool, has_digest: bool) -> PhcFields {
    PhcFields {
        algorithm: algorithm.to_string(),
        has_salt,
        has_digest,
        names: vec!["m".to_string(), "t".to_string(), "p".to_string()],
        lanes: Some(1),
        memory: Some(19456),
    }
}

#[test]
fn vet_takes_whole_argon2_hashes_only() {
    assert!(matches!(vet(&fields("argon2id", true, true)), Ok(())));
    assert!(matches!(vet(&fields("argon2i", true, true)), Ok(())));
    assert!(matches!(vet(&fields("argon2d", true, true)), Ok(())));
    for tag in ["scrypt", "argon2", "argon2ID", "", "pbkdf2-sha256"] {
        match vet(&fields(tag, true, true)) {
            Err(Error::HashParse { err }) => assert_eq!(err, PhcError::Algorithm),
            other => panic!("{:?}: {:?}", tag, other),
        }
    }
    for (has_salt, has_digest) in [(false, false), (true, false), (false, true)] {
        match vet(&fields("argon2id", has_salt, has_digest)) {
            Err(Error::HashParse { err }) => assert_eq!(err, PhcError::PhcStringField),
            other => panic!("{:?}", other),
        }
    }
    match vet(&fields("scrypt", false, false)) {
        Err(Error::HashParse { err }) => assert_eq!(err, PhcError::Algorithm),
        other => panic!("{:?}", other),
    }
}

#[test]
fn vet_refuses_a_parameter_that_stands_twice() {
    for names in [vec!["p", "p"], vec!["m", "t", "p", "m"], vec!["m", "m", "t"], vec!["x", "t", "x"]] {
        let mut parsed = fields("argon2id", true, true);
        parsed.names = names.iter().map(|name| name.to_string()).collect();
        match vet(&parsed) {
            Err(Error::HashParse { err }) => assert_eq!(err, PhcError::ParamNameDuplicated),
            other => panic!("{:?}: {:?}", names, other),
        }
    }
    for names in [vec![], vec!["p"], vec!["p", "m", "t"], vec!["m", "t", "p", "keyid", "data"]] {
        let mut parsed = fields("argon2id", true, true);
        parsed.names = names.iter().map(|name| name.to_string()).collect();
        assert!(matches!(vet(&parsed), Ok(())), "{:?}", names);
    }
}

#[test]
fn vet_refuses_more_lanes_than_argon2_takes() {
    for lanes in [None, Some(0), Some(1), Some(4), Some(0xFF_FFFF)] {
        let mut parsed = fields("argon2id", true, true);
        parsed.lanes = lanes;
        assert!(matches!(vet(&parsed), Ok(())), "{:?}", lanes);
    }
    for lanes in [0x100_0000, 0x1FFF_FFFF, 0x2000_0000, u32::MAX] {
        let mut parsed = fields("argon2id", true, true);
        parsed.lanes = Some(lanes);
        match vet(&parsed) {
            Err(Error::HashVerify { err }) => {
                assert_eq!(err, PhcError::ParamValueInvalid(InvalidValue::TooLong))
            }
            other => panic!("{:?}: {:?}", lanes, other),
        }
    }
}

#[test]
fn vet_refuses_memory_that_cannot_be_addressed() {
    let most = (isize::MAX as u64 / 1024).min(u32::MAX as u64) as u32;
    for memory in [None, Some(0), Some(8), Some(19456), Some(most)] {
        let mut parsed = fields("argon2id", true, true);
        parsed.memory = memory;
        assert!(matches!(vet(&parsed), Ok(())), "{:?}", memory);
    }
    if most < u32::MAX {
        let mut parsed = fields("argon2id", true, true);
        parsed.memory = Some(most + 1);
        assert!(matches!(vet(&parsed), Err(Error::HashVerify { .. })));
    }
}

#[test]
fn vet_names_the_malformed_string_before_the_parameters() {
    let mut parsed = fields("scrypt", true, true);
    parsed.lanes = Some(u32::MAX);
    assert!(matches!(vet(&parsed), Err(Error::HashParse { .. })));
    let mut parsed = fields("argon2id", true, false);
    parsed.lanes = Some(u32::MAX);
    assert!(matches!(vet(&parsed), Err(Error::HashParse { .. })));
}

#[test]
fn verify_returns_for_every_number_of_lanes() {
    let digest = "c29tZXNhbHQ$nf65EOgLrQMR/uIPnA4rEsF5h7TKyQwu9U1bMCHGi/4";
    for lanes in ["16777216", "268435456", "536870911", "536870912", "536870913", "4294967295"] {
        let stored = format!("$argon2id$v=19$m=256,t=2,p={}${}", lanes, digest);
        match verify(b"password", &stored) {
            Err(Error::HashVerify { err }) => assert_eq!(
                err,
                PhcError::ParamValueInvalid(InvalidValue::TooLong),
                "{:?}",
                stored
            ),
            other => panic!("{:?}: {:?}", stored, other),
        }
    }
    // Numbers that Argon2 is asked about, and turns down itself.
    for lanes in ["0", "33", "16777215", "4294967296", "99999999999", "01", "x", "1.5"] {
        let stored = format!("$argon2id$v=19$m=256,t=2,p={}${}", lanes, digest);
        assert!(
            matches!(verify(b"password", &stored), Err(Error::HashVerify { .. })),
            "{:?}",
            stored
        );
    }
    for lanes in ["1", "2", "32"] {
        let stored = format!("$argon2id$v=19$m=256,t=2,p={}${}", lanes, digest);
        assert!(matches!(verify(b"x", &stored), Ok(_)), "{:?}", stored);
    }
}

#[test]
fn verify_fails_to_parse_a_parameter_that_stands_twice() {
    let digest = "c29tZXNhbHQ$nf65EOgLrQMR/uIPnA4rEsF5h7TKyQwu9U1bMCHGi/4";
    for params in ["m=256,t=2,p=1,p=536870912", "m=256,t=2,p=536870912,p=1", "m=256,m=256,t=2,p=1"] {
        let stored = format!("$argon2id$v=19${}${}", params, digest);
        match verify(b"password", &stored) {
            Err(Error::HashParse { err }) => {
                assert_eq!(err, PhcError::ParamNameDuplicated, "{:?}", stored)
            }
            other => panic!("{:?}: {:?}", stored, other),
        }
    }
}

#[test]
fn verify_takes_a_hash_without_parameters_or_version() {
    // The defaults of Argon2 then count: the digest is another, the answer a mismatch.
    let stored = "$argon2id$c29tZXNhbHQ$nf65EOgLrQMR/uIPnA4rEsF5h7TKyQwu9U1bMCHGi/4";
    assert_eq!(verify(b"password", stored).unwrap(), false);
}

#[test]
fn settle_maps_each_result() {
    assert!(matches!(settle(Checked::Match), Ok(true)));
    assert!(matches!(settle(Checked::Mismatch), Ok(false)));
    match settle(Checked::Fault { err: PhcError::Crypto }) {
        Err(Error::HashVerify { err }) => assert_eq!(err, PhcError::Crypto),
        other => panic!("{:?}", other),
    }
}

#[test]
fn error_messages() {
    assert_eq!(
        Error::HashCompute { err: PhcError::Crypto }.message(),
        "Failed to compute Argon2 hash"
    );
    assert_eq!(
        Error::HashParse { err: PhcError::Crypto }.message(),
        "Failed to parse internal Argon2 password hash"
    );
    assert_eq!(
        Error::HashVerify { err: PhcError::Crypto }.message(),
        "Failed to verify given attempt against internal Argon2 password hash"
    );
}

#[test]
fn error_source_is_the_cause() {
    assert_eq!(Error::HashCompute { err: PhcError::Crypto }.source(), Some(&PhcError::Crypto));
    assert_eq!(Error::HashParse { err: PhcError::Version }.source(), Some(&PhcError::Version));
    assert_eq!(Error::HashVerify { err: PhcError::Algorithm }.source(), Some(&PhcError::Algorithm));
}

#[test]
fn password_auth_reads_and_writes() {
    let mut user = User { name: "Amy".into(), pass: "topsecretdontletdanread".into() };
    assert_eq!(user.password(), "topsecretdontletdanread");
    *user.password_mut() = "hacked".into();
    assert_eq!(user.password(), "hacked");
    assert_eq!(user.name, "Amy");
}

#[test]
fn hash_password_then_check_password() {
    let mut user = User { name: "Amy".into(), pass: "topsecretdontletdanread".into() };
    assert_eq!(user.password(), "topsecretdontletdanread");
    user.hash_password().unwrap();
    assert_eq!(&user.password()[..10], "$argon2id$");
    assert_eq!(user.name, "Amy");

    assert_eq!(user.check_password("topsecretdontletdanread".as_bytes()).unwrap(), true);
    assert_eq!(user.check_password("hacked".as_bytes()).unwrap(), false);
}

#[test]
fn check_password_on_a_plain_password_is_a_parse_error() {
    let user = User { name: "Amy".into(), pass: "topsecretdontletdanread".into() };
    assert!(matches!(
        user.check_password(b"topsecretdontletdanread"),
        Err(Error::HashParse { .. })
    ));
}

#[test]
fn check_password_answers_as_verify_does_on_the_stored_password() {
    let user = User { name: "Amy".into(), pass: KNOWN_HASH.into() };
    assert_eq!(user.check_password(b"password").unwrap(), verify(b"password", KNOWN_HASH).unwrap());
    assert_eq!(user.check_password(b"sassword").unwrap(), verify(b"sassword", KNOWN_HASH).unwrap());
    assert_eq!(user.check_password(b"password").unwrap(), true);
    assert_eq!(user.check_password(b"sassword").unwrap(), false);
    assert_eq!(user.name, "Amy");
}

#[test]
fn hash_takes_long_and_odd_secrets() {
    let long = vec![0xa5u8; 100_000];
    let text = hash(&long).unwrap();
    assert_eq!(verify(&long, &text).unwrap(), true);
    assert_eq!(verify(&long[1..], &text).unwrap(), false);

    let odd = "$argon2id$v=19$m=19456,t=2,p=1$".as_bytes();
    let text = hash(odd).unwrap();
    assert_ne!(text.as_bytes(), odd);
    assert_eq!(verify(odd, &text).unwrap(), true);
}

#[test]
fn hash_gives_a_digest_of_43_base64_characters() {
    let text = hash(b"s3cret!").unwrap();
    let fields: Vec<&str> = text.split('$').collect();
    let b64 = |c: char| c.is_ascii_alphanumeric() || c == '+' || c == '/';
    assert_eq!(fields[4].len(), 22);
    assert!(fields[4].chars().all(b64));
    assert_eq!(fields[5].len(), 43);
    assert!(fields[5].chars().all(b64));
    assert_eq!(text.len(), 31 + 22 + 1 + 43);
}

#[test]
fn check_password_fails_to_parse_what_is_no_whole_argon2_hash() {
    for pass in [
        "",
        "argon2id",
        "$argon2id$v=19$m=19456,t=2,p=1",
        "$pbkdf2-sha256$i=1000$c2FsdHNhbHQ$aGFzaGhhc2hoYXNo",
        "$argon2id$v=19$m=19456,t=2;p=1$c29tZXNhbHQ$nf65EOgLrQMR/uIPnA4rEsF5h7TKyQwu9U1bMCHGi/4",
    ] {
        let user = User { name: "Amy".into(), pass: pass.into() };
        assert!(
            matches!(user.check_password(b"x"), Err(Error::HashParse { .. })),
            "{:?}",
            pass
        );
    }
}
