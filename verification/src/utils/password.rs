//! Password hashing with Argon2 (default parameters, a fresh random salt).
use vstd::prelude::*;
use vstd::string::*;
use crate::utils::response::AppError;

verus! {

/// The PHC text that `Argon2::default().hash_password` produces for a
/// password and a salt (given as its B64 text).
pub uninterp spec fn argon2_phc(password: Seq<char>, salt: Seq<char>) -> Seq<char>;

/// Whether `PasswordHash::new` accepts the text as a PHC hash.
pub uninterp spec fn phc_parses(hash: Seq<char>) -> bool;

/// Whether `Argon2::default().verify_password` accepts the password for the
/// parsed hash.
pub uninterp spec fn argon2_accepts(password: Seq<char>, hash: Seq<char>) -> bool;

/// A stored hash that the password verifies against.
pub open spec fn verifies_against(password: Seq<char>, hash: Seq<char>) -> bool {
    phc_parses(hash) && argon2_accepts(password, hash)
}

/// A character of the standard Base64 alphabet.
pub open spec fn is_b64_char(c: char) -> bool {
    ('A' <= c <= 'Z') || ('a' <= c <= 'z') || ('0' <= c <= '9') || c == '+' || c == '/'
}

/// The unpadded Base64 text of 16 bytes: 22 characters of the alphabet, the
/// last one carrying 2 bits of data and 4 zero bits (so `A`, `Q`, `g` or `w`).
pub open spec fn is_salt_text(s: Seq<char>) -> bool {
    &&& s.len() == 22
    &&& forall|i: int| 0 <= i < 22 ==> is_b64_char(#[trigger] s[i])
    &&& (s[21] == 'A' || s[21] == 'Q' || s[21] == 'g' || s[21] == 'w')
}

/// The start of the PHC text of an Argon2 hash with the default parameters
/// (Argon2id, version 19, 19456 KiB of memory, 2 passes, 1 lane).
pub open spec fn phc_head() -> Seq<char> {
    "$argon2id$v=19$m=19456,t=2,p=1$"@
}

/// Calls `SaltString::generate` with the operating system's random source and
/// returns the salt's B64 text. The bytes are random; claimed is only the
/// shape that `generate` gives every salt: 16 bytes in unpadded Base64.
#[verifier::external_body]
fn new_salt() -> (r: String)
    ensures
        is_salt_text(r@),
{
    argon2::password_hash::SaltString::generate(&mut rand::rngs::OsRng).as_str().to_string()
}

/// Calls `Argon2::default().hash_password` (after `SaltString::from_b64` on
/// the salt text) and renders the hash as PHC text; an error becomes its text.
/// Claimed: a hash is `argon2_phc` of the password and salt, it starts with
/// the default parameters and the salt, it parses as PHC text, and the same
/// password verifies against it (the verifier recomputes the hash with the
/// parameters and salt stored in it). Hashing succeeds for a salt of the shape
/// that `SaltString::generate` gives and a password of at most `0xFFFF_FFFF`
/// bytes (which at most `0x3FFF_FFFF` characters are): those are the only
/// inputs that Argon2 refuses.
#[verifier::external_body]
fn argon2_hash(password: &str, salt: &str) -> (r: Result<String, String>)
    ensures
        r matches Ok(h) ==> h@ == argon2_phc(password@, salt@) && verifies_against(password@, h@)
            && (phc_head() + salt@ + "$"@).is_prefix_of(h@),
        is_salt_text(salt@) && password@.len() <= 0x3FFF_FFFF ==> r is Ok,
{
    let salt = argon2::password_hash::SaltString::from_b64(salt).map_err(|e| e.to_string())?;
    argon2::PasswordHasher::hash_password(&argon2::Argon2::default(), password.as_bytes(), &salt)
        .map(|h| h.to_string())
        .map_err(|e| e.to_string())
}

/// Calls `PasswordHash::new` on the stored text and then
/// `Argon2::default().verify_password`; a parse error becomes its text.
/// Claimed: the parse succeeds exactly when `phc_parses` holds, and then the
/// answer is `argon2_accepts`.
#[verifier::external_body]
fn argon2_verify(password: &str, hash: &str) -> (r: Result<bool, String>)
    ensures
        r is Ok <==> phc_parses(hash@),
        r matches Ok(b) ==> b == argon2_accepts(password@, hash@),
{
    let parsed = argon2::PasswordHash::new(hash).map_err(|e| e.to_string())?;
    Ok(argon2::PasswordVerifier::verify_password(&argon2::Argon2::default(), password.as_bytes(), &parsed).is_ok())
}

/// The error for a failed hash: an internal error "hash error: <reason>".
pub fn hash_failure(reason: String) -> (r: AppError)
    ensures
        r matches AppError::Internal(m) && m@ == "hash error: "@ + reason@,
{
    let mut m = String::from_str("hash error: ");
    m.append(reason.as_str());
    AppError::Internal(m)
}

/// The error for a stored hash that does not parse: "bad hash: <reason>".
pub fn bad_hash(reason: String) -> (r: AppError)
    ensures
        r matches AppError::Internal(m) && m@ == "bad hash: "@ + reason@,
{
    let mut m = String::from_str("bad hash: ");
    m.append(reason.as_str());
    AppError::Internal(m)
}

/// Hashes a password with a fresh random salt. Hashing succeeds for every
/// password within Argon2's length limit; whatever salt was drawn, the hash is
/// the PHC text of Argon2id with the default parameters and that salt, and
/// this password verifies against it.
pub fn hash_password(plan_password: &str) -> (r: Result<String, AppError>)
    ensures
        plan_password@.len() <= 0x3FFF_FFFF ==> r is Ok,
        r matches Ok(h) ==> verifies_against(plan_password@, h@),
        r matches Ok(h) ==> exists|salt: Seq<char>|
            #![trigger argon2_phc(plan_password@, salt)]
            is_salt_text(salt) && h@ == argon2_phc(plan_password@, salt) && (phc_head() + salt
                + "$"@).is_prefix_of(h@),
        r matches Err(e) ==> e matches AppError::Internal(m) && "hash error: "@.is_prefix_of(m@),
{
    let salt = new_salt();
    match argon2_hash(plan_password, salt.as_str()) {
        Ok(h) => {
            assert(is_salt_text(salt@) && h@ == argon2_phc(plan_password@, salt@));
            Ok(h)
        },
        Err(reason) => {
            let ghost text = reason@;
            let e = hash_failure(reason);
            proof {
                let p = "hash error: "@;
                assert((p + text).subrange(0, p.len() as int) =~= p);
            }
            Err(e)
        },
    }
}

/// Checks a password against a stored hash: an error when the stored text is
/// not a PHC hash, otherwise whether the password matches.
pub fn verify_password(plain_password: &str, hash: &str) -> (r: Result<bool, AppError>)
    ensures
        r is Ok <==> phc_parses(hash@),
        r matches Ok(b) ==> b == argon2_accepts(plain_password@, hash@),
        r matches Err(e) ==> e matches AppError::Internal(m) && "bad hash: "@.is_prefix_of(m@),
{
    match argon2_verify(plain_password, hash) {
        Ok(b) => Ok(b),
        Err(reason) => {
            let ghost text = reason@;
            let e = bad_hash(reason);
            proof {
                let p = "bad hash: "@;
                assert((p + text).subrange(0, p.len() as int) =~= p);
            }
            Err(e)
        },
    }
}

/// Two hashes that hold different salts differ: the hash text holds its salt,
/// 22 characters long, right after the parameters. So two calls of
/// [`hash_password`] that drew different salts return different hashes.
pub proof fn different_salts_give_different_hashes(
    h1: Seq<char>,
    h2: Seq<char>,
    s1: Seq<char>,
    s2: Seq<char>,
)
    requires
        is_salt_text(s1),
        is_salt_text(s2),
        s1 != s2,
        (phc_head() + s1 + "$"@).is_prefix_of(h1),
        (phc_head() + s2 + "$"@).is_prefix_of(h2),
    ensures
        h1 != h2,
{
    let n = phc_head().len() as int;
    let p1 = phc_head() + s1 + "$"@;
    let p2 = phc_head() + s2 + "$"@;
    if h1 == h2 {
        assert forall|i: int| 0 <= i < 22 implies s1[i] == s2[i] by {
            assert(p1[n + i] == h1.subrange(0, p1.len() as int)[n + i]);
            assert(p2[n + i] == h2.subrange(0, p2.len() as int)[n + i]);
        }
        assert(s1 =~= s2);
    }
}

/// A password verifies against every hash made from it: if `hash_password`
/// returned `hash` for `password`, then `verify_password(password, hash)`
/// returns `Ok(true)`.
pub proof fn hash_then_verify(password: Seq<char>, hash: Seq<char>)
    requires
        verifies_against(password, hash),
    ensures
        phc_parses(hash),
        argon2_accepts(password, hash),
{
}

} // verus!
