use vstd::prelude::*;
use rand::Rng;
use crate::draws::DrawLog;
use crate::errors::AppError;
use crate::text::{is_blank, push_char, str_is_blank};

verus! {

/// An entry as a user types it, before it is sealed.
#[derive(Debug, Clone)]
pub struct PlainEntryInput {
    pub service: String,
    pub login: String,
    pub password: String,
    pub note: Option<String>,
}

/// An entry after it has been opened again.
#[derive(Debug, Clone)]
pub struct PlainEntryView {
    pub service: String,
    pub login: String,
    pub password: String,
    pub note: Option<String>,
}

/// What is stored about a user's master password.
#[derive(Debug, Clone)]
pub struct MasterRecord {
    pub hash: String,
    pub master_salt: Vec<u8>,
    pub key_salt: Vec<u8>,
}

/// One sealed value: the nonce it was sealed with and the ciphertext with its tag.
#[derive(Debug, Clone)]
pub struct EncryptedField {
    pub nonce: Vec<u8>,
    pub cipher: Vec<u8>,
}

/// An entry as it is stored: the service name in clear, the rest sealed.
#[derive(Debug, Clone)]
pub struct EncryptedEntry {
    pub service: String,
    pub login: EncryptedField,
    pub password: EncryptedField,
    pub note: Option<EncryptedField>,
}

/// The error, if any, that validating an entry with these texts gives.
pub open spec fn validation_error(service: Seq<char>, login: Seq<char>, password: Seq<char>) -> Option<AppError> {
    if is_blank(service) {
        Some(AppError::EmptyServiceName)
    } else if is_blank(login) {
        Some(AppError::EmptyLogin)
    } else if password.len() == 0 {
        Some(AppError::EmptyPassword)
    } else {
        None
    }
}

impl PlainEntryInput {
    /// Accepts an entry whose service and login hold something other than white
    /// space and whose password is not empty, and gives it back unchanged.
    pub fn validate(self) -> (r: Result<Self, AppError>)
        ensures
            match validation_error(self.service@, self.login@, self.password@) {
                Some(e) => r == Err::<Self, AppError>(e),
                None => r == Ok::<Self, AppError>(self),
            },
    {
        if str_is_blank(self.service.as_str()) {
            return Err(AppError::EmptyServiceName);
        }
        if str_is_blank(self.login.as_str()) {
            return Err(AppError::EmptyLogin);
        }
        if self.password.as_str().is_empty() {
            return Err(AppError::EmptyPassword);
        }
        Ok(self)
    }
}

/// The shortest password that can be generated.
pub const PASSWORD_MIN_LEN: usize = 8;

/// The longest password that can be generated.
pub const PASSWORD_MAX_LEN: usize = 128;

/// Whether a character is an ASCII letter or digit.
pub open spec fn is_alnum(c: char) -> bool {
    ('0' <= c <= '9') || ('A' <= c <= 'Z') || ('a' <= c <= 'z')
}

/// The characters of which one may be put into a generated password.
pub open spec fn special_chars() -> Seq<char> {
    "!@#$%^&*()-_=+[]{};:,.?"@
}

/// The message of the error for a length out of range.
pub open spec fn length_error_text() -> Seq<char> {
    "length must be in range 8..=128"@
}

/// Whether `p` has the shape of a generated password: `length` characters, all
/// ASCII letters or digits, except, with `with_special`, exactly one position
/// that holds one of the special characters.
pub open spec fn password_shape(p: Seq<char>, length: nat, with_special: bool) -> bool {
    &&& p.len() == length
    &&& if with_special {
        exists|k: int|
            0 <= k < p.len() && special_chars().contains(#[trigger] p[k]) && forall|j: int|
                0 <= j < p.len() && j != k ==> is_alnum(#[trigger] p[j])
    } else {
        forall|j: int| 0 <= j < p.len() ==> is_alnum(#[trigger] p[j])
    }
}

/// The password made of `draws`, read as characters, with the character at
/// `position` replaced by special character number `special` when
/// `with_special` holds.
pub open spec fn composed_password(draws: Seq<u8>, with_special: bool, position: int, special: int) -> Seq<char> {
    Seq::new(
        draws.len(),
        |i: int|
            if with_special && i == position {
                special_chars()[special]
            } else {
                draws[i] as char
            },
    )
}

/// Draws one byte from `rand`'s `Alphanumeric` distribution with the operating
/// system's generator (`Rng::sample`). The distribution only yields one of the
/// 62 bytes `A-Z`, `a-z`, `0-9`; nothing is claimed of which one. The byte is
/// entered at the end of the record of draws, whose numbers picked stay as they
/// were. The generator panics if the operating system refuses to give
/// randomness.
#[verifier::external_body]
fn sample_alphanumeric(log: &mut DrawLog) -> (b: u8)
    ensures
        is_alnum(b as char),
        final(log).bytes() == old(log).bytes().push(b),
        final(log).picks() == old(log).picks(),
{
    rand::rngs::OsRng.sample(rand::distributions::Alphanumeric)
}

/// Draws a number below `bound` with the operating system's generator
/// (`Rng::gen_range` on `0..bound`, which panics on an empty range). Nothing is
/// claimed of which number; it is entered at the end of the record's numbers
/// picked, whose bytes drawn stay as they were.
#[verifier::external_body]
fn random_below(bound: usize, log: &mut DrawLog) -> (r: usize)
    requires
        bound > 0,
    ensures
        r < bound,
        final(log).picks() == old(log).picks().push(r),
        final(log).bytes() == old(log).bytes(),
{
    rand::rngs::OsRng.gen_range(0..bound)
}

/// Builds the password from the characters drawn and, with `with_special`,
/// the position to replace and the special character to put there.
pub fn compose_password(draws: &[u8], with_special: bool, position: usize, special: usize) -> (p: String)
    requires
        with_special ==> position < draws@.len() && special < special_chars().len(),
    ensures
        p@ == composed_password(draws@, with_special, position as int, special as int),
{
    let specials = "!@#$%^&*()-_=+[]{};:,.?";
    proof {
        reveal_strlit("!@#$%^&*()-_=+[]{};:,.?");
    }
    let n = draws.len();
    let mut p = String::new();
    let mut i: usize = 0;
    while i < n
        invariant
            n == draws@.len(),
            i <= n,
            specials@ == special_chars(),
            with_special ==> position < n && special < specials@.len(),
            p@ =~= composed_password(draws@, with_special, position as int, special as int).take(i as int),
        decreases n - i,
    {
        if with_special && i == position {
            push_char(&mut p, specials.get_char(special));
        } else {
            push_char(&mut p, draws[i] as char);
        }
        i = i + 1;
    }
    p
}

/// Whether `p` was generated, with `with_special`, from the draws that were
/// entered in the record between `before` and `after`: one byte drawn for each of
/// its `length` characters, in order, and with `with_special` two numbers picked,
/// the first the position to replace and the second the special character put
/// there, each below the number of its choices.
pub open spec fn drawn_password(p: Seq<char>, length: nat, with_special: bool, before: DrawLog, after: DrawLog) -> bool {
    let n = before.bytes().len();
    let k = before.picks().len();
    &&& after.bytes().len() == n + length
    &&& after.bytes().take(n as int) == before.bytes()
    &&& after.picks().len() == k + if with_special { 2nat } else { 0nat }
    &&& after.picks().take(k as int) == before.picks()
    &&& if with_special {
        &&& after.picks()[k as int] < length
        &&& after.picks()[k + 1int] < special_chars().len()
        &&& p == composed_password(after.bytes().skip(n as int), true, after.picks()[k as int] as int, after.picks()[k + 1int] as int)
    } else {
        p == composed_password(after.bytes().skip(n as int), false, 0, 0)
    }
}

/// Generates a password of `length` ASCII letters and digits drawn one by one,
/// entering each draw in `log`; with `with_special`, a position and a character
/// of `!@#$%^&*()-_=+[]{};:,.?` are then picked, and the character is put at the
/// position. Lengths outside `8..=128` are refused, and then nothing is drawn.
pub fn generate_password_logged(length: usize, with_special: bool, log: &mut DrawLog) -> (r: Result<String, AppError>)
    ensures
        r is Ok <==> PASSWORD_MIN_LEN <= length <= PASSWORD_MAX_LEN,
        r matches Err(e) ==> e matches AppError::InvalidArgument(m) && m@ == length_error_text(),
        r is Err ==> final(log).bytes() == old(log).bytes() && final(log).picks() == old(log).picks(),
        r matches Ok(p) ==> password_shape(p@, length as nat, with_special),
        r matches Ok(p) ==> drawn_password(p@, length as nat, with_special, *old(log), *final(log)),
{
    if !(PASSWORD_MIN_LEN <= length && length <= PASSWORD_MAX_LEN) {
        return Err(AppError::InvalidArgument(String::from_str("length must be in range 8..=128")));
    }
    let ghost before = *log;
    let mut draws: Vec<u8> = Vec::new();
    let mut i: usize = 0;
    while i < length
        invariant
            i <= length,
            draws@.len() == i,
            forall|j: int| 0 <= j < i ==> is_alnum(#[trigger] draws@[j] as char),
            log.bytes() == before.bytes() + draws@,
            log.picks() == before.picks(),
        decreases length - i,
    {
        draws.push(sample_alphanumeric(log));
        i = i + 1;
    }
    let mut position: usize = 0;
    let mut special: usize = 0;
    if with_special {
        position = random_below(length, log);
        special = random_below(23, log);
        proof {
            reveal_strlit("!@#$%^&*()-_=+[]{};:,.?");
        }
    }
    let p = compose_password(draws.as_slice(), with_special, position, special);
    proof {
        reveal_strlit("!@#$%^&*()-_=+[]{};:,.?");
        let q = p@;
        let n = before.bytes().len();
        assert(log.bytes().skip(n as int) =~= draws@);
        assert(log.bytes().take(n as int) =~= before.bytes());
        assert(log.picks().take(before.picks().len() as int) =~= before.picks());
        if with_special {
            assert(special_chars().contains(q[position as int]));
            assert forall|j: int| 0 <= j < q.len() && j != position implies is_alnum(#[trigger] q[j]) by {
                assert(q[j] == draws@[j] as char);
            }
        } else {
            assert forall|j: int| 0 <= j < q.len() implies is_alnum(#[trigger] q[j]) by {
                assert(q[j] == draws@[j] as char);
            }
        }
    }
    Ok(p)
}

/// Generates a password of `length` random ASCII letters and digits; with
/// `with_special`, one random position of it then holds a random character of
/// `!@#$%^&*()-_=+[]{};:,.?`. Lengths outside `8..=128` are refused.
pub fn generate_password(length: usize, with_special: bool) -> (r: Result<String, AppError>)
    ensures
        r is Ok <==> PASSWORD_MIN_LEN <= length <= PASSWORD_MAX_LEN,
        r matches Err(e) ==> e matches AppError::InvalidArgument(m) && m@ == length_error_text(),
        r matches Ok(p) ==> password_shape(p@, length as nat, with_special),
{
    let mut log = DrawLog::new();
    generate_password_logged(length, with_special, &mut log)
}

} // verus!
