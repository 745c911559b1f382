//! Password hashing with argon2 (default parameters, random salt), stored as
//! PHC strings.
use vstd::prelude::*;

verus! {

/// `argon2::password_hash::PasswordHash::new` accepts the PHC string.
pub uninterp spec fn phc_well_formed(phc: Seq<char>) -> bool;

/// The message (`Display`) of the error `PasswordHash::new` gives for a text
/// it refuses.
pub uninterp spec fn phc_error_text(phc: Seq<char>) -> Seq<char>;

/// `Argon2::default().verify_password` accepts the password (as its UTF-8
/// bytes) against the hash that the PHC string `phc` holds.
pub uninterp spec fn argon2_accepts(password: Seq<char>, phc: Seq<char>) -> bool;

/// The PHC string of `Argon2::default().hash_password` for the password (as
/// its UTF-8 bytes) and the base64 salt.
pub uninterp spec fn argon2_phc(password: Seq<char>, salt: Seq<char>) -> Seq<char>;

/// A salt `Argon2::hash_password` takes: `Salt::from_b64` accepts the text
/// (4 to 64 characters of `[a-zA-Z0-9/+.-]`) and its B64 decoding has
/// between 8 and 64 bytes.
pub uninterp spec fn argon2_salt_ok(salt: Seq<char>) -> bool;

/// How a PHC string of `Argon2::default()` starts: the algorithm, the
/// version and the default parameters, then the salt.
pub open spec fn default_phc_prefix(salt: Seq<char>) -> Seq<char> {
    "$argon2id$v=19$m=19456,t=2,p=1$"@ + salt + "$"@
}

/// The password's UTF-8 encoding is within argon2's limit of `u32::MAX`
/// bytes.
pub open spec fn hashable_password(password: Seq<char>) -> bool {
    vstd::utf8::encode_utf8(password).len() <= 0xFFFF_FFFF
}

/// A text's UTF-8 encoding has at most four bytes per character.
pub proof fn lemma_utf8_len_bound(s: Seq<char>)
    ensures
        vstd::utf8::encode_utf8(s).len() <= 4 * s.len(),
    decreases s.len(),
{
    if s.len() > 0 {
        lemma_utf8_len_bound(s.drop_first());
        assert(vstd::utf8::encode_scalar(s[0] as u32).len() <= 4);
    }
}

/// `SaltString::generate(&mut OsRng)`: a fresh random salt, in B64. Claimed:
/// it is the B64 text of 16 random bytes (22 characters of the standard
/// alphabet), which the hasher takes. Nothing else is stated of it.
#[verifier::external_body]
fn new_salt() -> (r: String)
    ensures
        argon2_salt_ok(r@),
{
    argon2::password_hash::SaltString::generate(&mut argon2::password_hash::rand_core::OsRng)
        .as_str()
        .to_string()
}

/// `Argon2::default().hash_password` with the salt read by `Salt::from_b64`,
/// as a PHC string; errors as their messages. Claimed: the hash is a
/// function of the password and the salt, the PHC string it gives parses,
/// starts with the algorithm (`argon2id`), version 19, the default
/// parameters and the salt, and the same password is accepted against it
/// (argon2 hashes again with the parameters and salt the string records and
/// compares). With a salt it takes, it fails exactly when the password is
/// longer than `u32::MAX` bytes.
#[verifier::external_body]
fn argon2_hash(password: &str, salt: &str) -> (r: Result<String, String>)
    ensures
        r matches Ok(h) ==> h@ == argon2_phc(password@, salt@),
        r matches Ok(h) ==> phc_well_formed(h@) && argon2_accepts(password@, h@),
        r matches Ok(h) ==> default_phc_prefix(salt@).is_prefix_of(h@),
        argon2_salt_ok(salt@) ==> (r is Ok <==> hashable_password(password@)),
{
    let salt = argon2::password_hash::Salt::from_b64(salt).map_err(|e| e.to_string())?;
    argon2::PasswordHasher::hash_password(&argon2::Argon2::default(), password.as_bytes(), salt)
        .map(|h| h.to_string())
        .map_err(|e| e.to_string())
}

/// `PasswordHash::new`: `None` when the PHC string parses, else the error's
/// message.
#[verifier::external_body]
fn phc_parse_error(phc: &str) -> (r: Option<String>)
    ensures
        r is None <==> phc_well_formed(phc@),
        r matches Some(m) ==> m@ == phc_error_text(phc@),
{
    argon2::PasswordHash::new(phc).err().map(|e| e.to_string())
}

/// `Argon2::default().verify_password` of the password against the parsed
/// PHC string.
#[verifier::external_body]
fn argon2_verify(password: &str, phc: &str) -> (r: bool)
    requires
        phc_well_formed(phc@),
    ensures
        r == argon2_accepts(password@, phc@),
{
    match argon2::PasswordHash::new(phc) {
        Ok(h) => argon2::PasswordVerifier::verify_password(&argon2::Argon2::default(), password.as_bytes(), &h).is_ok(),
        Err(_) => false,
    }
}

/// Hashes a password with a fresh random salt, as an argon2id PHC string
/// with the default parameters; fails (with argon2's message) only on a
/// password longer than `u32::MAX` bytes.
pub fn hash_password(password: &str) -> (r: Result<String, String>)
    ensures
        r is Ok <==> hashable_password(password@),
        r matches Ok(h) ==> password_matches(password@, h@),
        r matches Ok(h) ==> exists|salt: Seq<char>| h@ == #[trigger] argon2_phc(password@, salt)
            && argon2_salt_ok(salt) && default_phc_prefix(salt).is_prefix_of(h@),
        r matches Ok(h) ==> "$argon2id$v=19$m=19456,t=2,p=1$"@.is_prefix_of(h@),
{
    let salt = new_salt();
    let r = argon2_hash(password, salt.as_str());
    proof {
        if let Ok(h) = &r {
            let pre = "$argon2id$v=19$m=19456,t=2,p=1$"@;
            assert(h@ == argon2_phc(password@, salt@));
            assert(default_phc_prefix(salt@).subrange(0, pre.len() as int) =~= pre);
            assert(h@.subrange(0, pre.len() as int) =~= default_phc_prefix(salt@).subrange(0, pre.len() as int));
        }
    }
    r
}

/// The outcome of checking a password against a stored hash.
#[derive(Debug)]
pub enum PasswordCheck {
    Accepted,
    Rejected,
    /// The stored hash is not a PHC string; the parser's message.
    Malformed(String),
}

/// The password is accepted against the stored PHC string.
pub open spec fn password_matches(password: Seq<char>, phc: Seq<char>) -> bool {
    phc_well_formed(phc) && argon2_accepts(password, phc)
}

/// Checks a password against a stored PHC string.
pub fn check_password(password: &str, phc: &str) -> (r: PasswordCheck)
    ensures
        r is Malformed <==> !phc_well_formed(phc@),
        r matches PasswordCheck::Malformed(m) ==> m@ == phc_error_text(phc@),
        r is Accepted <==> password_matches(password@, phc@),
{
    match phc_parse_error(phc) {
        Some(e) => PasswordCheck::Malformed(e),
        None => {
            if argon2_verify(password, phc) {
                PasswordCheck::Accepted
            } else {
                PasswordCheck::Rejected
            }
        },
    }
}

} // verus!
