//! The questions of a session and the replies that each of them accepts.

use crate::codec::{base64_decoded, decode};
use crate::secret::SecretBytes;
use crate::text::{
    blank, decimal_u32, equals_ignoring_case, is_blank, lowered, parse_u32,
};
use vstd::prelude::*;
use vstd::utf8::encode_utf8;

verus! {

/// The Argon2 variant that derives the hash.
#[derive(Clone, Copy, Debug, PartialEq, Eq, Structural)]
pub enum Algorithm {
    Argon2d,
    Argon2i,
    Argon2id,
}

/// A question of the session, in the order in which they are asked.
#[derive(Clone, Copy, Debug, PartialEq, Eq, Structural)]
pub enum Field {
    Password,
    PasswordIsBase64,
    Algorithm,
    SaltLength,
    HashLength,
    Iterations,
    MemoryCost,
    Threads,
    Secret,
}

/// Why a reply was turned down.
#[derive(Clone, Copy, Debug, PartialEq, Eq, Structural)]
pub enum InputError {
    EmptyPassword,
    NotYesOrNo,
    PasswordNotBase64,
    UnknownAlgorithm,
    InvalidSaltLength,
    InvalidHashLength,
    InvalidIterations,
    InvalidMemoryCost,
    InvalidThreads,
    SecretNotBase64,
}

/// The salt length, in bytes, that an empty reply selects.
pub const DEFAULT_SALT_LENGTH: u32 = 16;

/// The hash length, in bytes, that an empty reply selects.
pub const DEFAULT_HASH_LENGTH: u32 = 32;

/// The iteration count that an empty reply selects.
pub const DEFAULT_ITERATIONS: u32 = 18;

/// The memory cost, in KiB, that an empty reply selects.
pub const DEFAULT_MEMORY_COST_KIB: u32 = 62500;

/// The thread count that an empty reply selects.
pub const DEFAULT_THREADS: u32 = 1;

impl Field {
    /// The text shown when the question is asked.
    pub open spec fn prompt_text(self) -> Seq<char> {
        match self {
            Field::Password => "Enter the password you would like to hash: "@,
            Field::PasswordIsBase64 => "Was the password base64 encoded? (y|n) [default: n] "@,
            Field::Algorithm => "Which algorithm should be used? (argon2id|argon2i|argon2d) [default: argon2id] "@,
            Field::SaltLength => "How long should the salt be (in bytes)? (positive integer) [default: 16] "@,
            Field::HashLength => "How long should the hash be (in bytes)? (positive integer) [default: 32] "@,
            Field::Iterations => "How many iterations should be required for hashing? (positive integer) [default: 18] "@,
            Field::MemoryCost => "How much memory should be required for hashing (in KiB)? (positive integer) [default: 62500] "@,
            Field::Threads => "How many threads should be required for hashing? (positive integer) [default: 1] "@,
            Field::Secret => "Enter a base64-encoded secret to be used for hashing (leave blank for no secret): "@,
        }
    }

    /// The text to show when asking the question.
    pub fn prompt(&self) -> (p: &'static str)
        ensures
            p@ == self.prompt_text(),
    {
        match self {
            Field::Password => "Enter the password you would like to hash: ",
            Field::PasswordIsBase64 => "Was the password base64 encoded? (y|n) [default: n] ",
            Field::Algorithm => "Which algorithm should be used? (argon2id|argon2i|argon2d) [default: argon2id] ",
            Field::SaltLength => "How long should the salt be (in bytes)? (positive integer) [default: 16] ",
            Field::HashLength => "How long should the hash be (in bytes)? (positive integer) [default: 32] ",
            Field::Iterations => "How many iterations should be required for hashing? (positive integer) [default: 18] ",
            Field::MemoryCost => "How much memory should be required for hashing (in KiB)? (positive integer) [default: 62500] ",
            Field::Threads => "How many threads should be required for hashing? (positive integer) [default: 1] ",
            Field::Secret => "Enter a base64-encoded secret to be used for hashing (leave blank for no secret): ",
        }
    }

    /// Whether the reply is secret material, to be read without echo.
    pub open spec fn sensitive(self) -> bool {
        self == Field::Password || self == Field::Secret
    }

    /// Whether the reply must be read without echo.
    pub fn is_sensitive(&self) -> (b: bool)
        ensures
            b == self.sensitive(),
    {
        match self {
            Field::Password => true,
            Field::Secret => true,
            _ => false,
        }
    }
}

impl InputError {
    /// The message shown for the error.
    pub open spec fn message_text(self) -> Seq<char> {
        match self {
            InputError::EmptyPassword => "Password cannot be empty!"@,
            InputError::NotYesOrNo => "Please enter \"y\" or \"n\""@,
            InputError::PasswordNotBase64 => "Password is not valid base64!"@,
            InputError::UnknownAlgorithm => "Invalid algorithm option"@,
            InputError::InvalidSaltLength => "Invalid salt length"@,
            InputError::InvalidHashLength => "Invalid hash length"@,
            InputError::InvalidIterations => "Invalid iteration count"@,
            InputError::InvalidMemoryCost => "Invalid memory cost"@,
            InputError::InvalidThreads => "Invalid thread count"@,
            InputError::SecretNotBase64 => "Secret is not valid base64!"@,
        }
    }

    /// The message to show for the error. It never holds any part of a reply.
    pub fn message(&self) -> (m: &'static str)
        ensures
            m@ == self.message_text(),
    {
        match self {
            InputError::EmptyPassword => "Password cannot be empty!",
            InputError::NotYesOrNo => "Please enter \"y\" or \"n\"",
            InputError::PasswordNotBase64 => "Password is not valid base64!",
            InputError::UnknownAlgorithm => "Invalid algorithm option",
            InputError::InvalidSaltLength => "Invalid salt length",
            InputError::InvalidHashLength => "Invalid hash length",
            InputError::InvalidIterations => "Invalid iteration count",
            InputError::InvalidMemoryCost => "Invalid memory cost",
            InputError::InvalidThreads => "Invalid thread count",
            InputError::SecretNotBase64 => "Secret is not valid base64!",
        }
    }
}

/// What a reply to a yes-or-no question means, whatever the case of its
/// letters: no for "n", "no" and the empty reply, yes for "y" and "yes".
pub open spec fn yes_no_reply(s: Seq<char>) -> Option<bool> {
    let l = lowered(s);
    if l == "n"@ || l == "no"@ || l == ""@ {
        Some(false)
    } else if l == "y"@ || l == "yes"@ {
        Some(true)
    } else {
        None
    }
}

/// Reads the reply to a yes-or-no question.
pub fn parse_yes_no(text: &str) -> (r: Result<bool, InputError>)
    ensures
        r == match yes_no_reply(text@) {
            Some(b) => Ok::<bool, InputError>(b),
            None => Err(InputError::NotYesOrNo),
        },
{
    if equals_ignoring_case(text, "n") || equals_ignoring_case(text, "no") || equals_ignoring_case(
        text,
        "",
    ) {
        Ok(false)
    } else if equals_ignoring_case(text, "y") || equals_ignoring_case(text, "yes") {
        Ok(true)
    } else {
        Err(InputError::NotYesOrNo)
    }
}

/// The variant that a reply names, whatever the case of its letters; the
/// empty reply names Argon2id.
pub open spec fn algorithm_reply(s: Seq<char>) -> Option<Algorithm> {
    let l = lowered(s);
    if l == "argon2id"@ || l == ""@ {
        Some(Algorithm::Argon2id)
    } else if l == "argon2i"@ {
        Some(Algorithm::Argon2i)
    } else if l == "argon2d"@ {
        Some(Algorithm::Argon2d)
    } else {
        None
    }
}

/// Reads the reply that chooses the variant.
pub fn parse_algorithm(text: &str) -> (r: Result<Algorithm, InputError>)
    ensures
        r == match algorithm_reply(text@) {
            Some(a) => Ok::<Algorithm, InputError>(a),
            None => Err(InputError::UnknownAlgorithm),
        },
{
    if equals_ignoring_case(text, "argon2id") || equals_ignoring_case(text, "") {
        Ok(Algorithm::Argon2id)
    } else if equals_ignoring_case(text, "argon2i") {
        Ok(Algorithm::Argon2i)
    } else if equals_ignoring_case(text, "argon2d") {
        Ok(Algorithm::Argon2d)
    } else {
        Err(InputError::UnknownAlgorithm)
    }
}

/// The number that a reply gives: `default` for the empty reply, else the
/// 32-bit number that the reply writes in base ten, else `error`.
pub open spec fn number_reply(s: Seq<char>, default: u32, error: InputError) -> Result<
    u32,
    InputError,
> {
    if s.len() == 0 {
        Ok(default)
    } else {
        match decimal_u32(s) {
            Some(n) => Ok(n),
            None => Err(error),
        }
    }
}

/// Reads the reply to a question that asks for a number.
pub fn parse_number(text: &str, default: u32, error: InputError) -> (r: Result<u32, InputError>)
    ensures
        r == number_reply(text@, default, error),
{
    if text.is_empty() {
        Ok(default)
    } else {
        match parse_u32(text) {
            Some(n) => Ok(n),
            None => Err(error),
        }
    }
}

/// Reads the salt length, in bytes.
pub fn parse_salt_length(text: &str) -> (r: Result<u32, InputError>)
    ensures
        r == number_reply(text@, DEFAULT_SALT_LENGTH, InputError::InvalidSaltLength),
{
    parse_number(text, DEFAULT_SALT_LENGTH, InputError::InvalidSaltLength)
}

/// Reads the hash length, in bytes.
pub fn parse_hash_length(text: &str) -> (r: Result<u32, InputError>)
    ensures
        r == number_reply(text@, DEFAULT_HASH_LENGTH, InputError::InvalidHashLength),
{
    parse_number(text, DEFAULT_HASH_LENGTH, InputError::InvalidHashLength)
}

/// Reads the iteration count.
pub fn parse_iterations(text: &str) -> (r: Result<u32, InputError>)
    ensures
        r == number_reply(text@, DEFAULT_ITERATIONS, InputError::InvalidIterations),
{
    parse_number(text, DEFAULT_ITERATIONS, InputError::InvalidIterations)
}

/// Reads the memory cost, in KiB.
pub fn parse_memory_cost(text: &str) -> (r: Result<u32, InputError>)
    ensures
        r == number_reply(text@, DEFAULT_MEMORY_COST_KIB, InputError::InvalidMemoryCost),
{
    parse_number(text, DEFAULT_MEMORY_COST_KIB, InputError::InvalidMemoryCost)
}

/// Reads the thread count.
pub fn parse_threads(text: &str) -> (r: Result<u32, InputError>)
    ensures
        r == number_reply(text@, DEFAULT_THREADS, InputError::InvalidThreads),
{
    parse_number(text, DEFAULT_THREADS, InputError::InvalidThreads)
}

/// The password line as typed: refused where empty, else its UTF-8 bytes.
pub open spec fn password_line(s: Seq<char>) -> Result<Seq<u8>, InputError> {
    if s.len() == 0 {
        Err(InputError::EmptyPassword)
    } else {
        Ok(encode_utf8(s))
    }
}

/// Takes the password line as typed, before it is known how it is encoded.
pub fn read_password_line(text: &str) -> (r: Result<SecretBytes, InputError>)
    ensures
        match r {
            Ok(raw) => password_line(text@) == Ok::<Seq<u8>, InputError>(raw@),
            Err(e) => password_line(text@) == Err::<Seq<u8>, InputError>(e),
        },
{
    if text.is_empty() {
        Err(InputError::EmptyPassword)
    } else {
        Ok(SecretBytes::from_text(text))
    }
}

/// What the decoder's outcome means for a reply: the bytes, or `error`.
pub open spec fn decoded_reply(decoded: Option<Seq<u8>>, error: InputError) -> Result<
    Seq<u8>,
    InputError,
> {
    match decoded {
        Some(bytes) => Ok(bytes),
        None => Err(error),
    }
}

/// Seals what the decoder returned, or reports `error` where it returned
/// nothing.
pub fn accept_decoded(decoded: Option<Vec<u8>>, error: InputError) -> (r: Result<
    SecretBytes,
    InputError,
>)
    ensures
        match r {
            Ok(secret) => decoded matches Some(bytes) && secret@ == bytes@,
            Err(e) => decoded.is_none() && e == error,
        },
{
    match decoded {
        Some(bytes) => Ok(SecretBytes::new(bytes)),
        None => Err(error),
    }
}

/// The password that the typed bytes `raw` stand for: `raw` itself, or what
/// it decodes to where the user said that it is base64.
pub open spec fn password_reply(raw: Seq<u8>, encoded: bool) -> Result<Seq<u8>, InputError> {
    if encoded {
        decoded_reply(base64_decoded(raw), InputError::PasswordNotBase64)
    } else {
        Ok(raw)
    }
}

/// Turns the typed password into the bytes to hash. Where it is not encoded
/// the buffer itself is handed on; no copy is made.
pub fn convert_password(raw: SecretBytes, encoded: bool) -> (r: Result<SecretBytes, InputError>)
    ensures
        match r {
            Ok(password) => password_reply(raw@, encoded) == Ok::<Seq<u8>, InputError>(password@),
            Err(e) => password_reply(raw@, encoded) == Err::<Seq<u8>, InputError>(e),
        },
{
    if encoded {
        accept_decoded(decode(raw.as_slice()), InputError::PasswordNotBase64)
    } else {
        Ok(raw)
    }
}

/// The secret that a reply gives: none for a blank reply, else what the
/// reply, blanks included, decodes to.
pub open spec fn secret_reply(s: Seq<char>) -> Result<Option<Seq<u8>>, InputError> {
    if blank(s) {
        Ok(None)
    } else {
        match base64_decoded(encode_utf8(s)) {
            Some(bytes) => Ok(Some(bytes)),
            None => Err(InputError::SecretNotBase64),
        }
    }
}

/// Reads the reply that gives the optional secret.
pub fn convert_secret(text: &str) -> (r: Result<Option<SecretBytes>, InputError>)
    ensures
        match r {
            Ok(Some(secret)) => secret_reply(text@) == Ok::<Option<Seq<u8>>, InputError>(
                Some(secret@),
            ),
            Ok(None) => secret_reply(text@) == Ok::<Option<Seq<u8>>, InputError>(None),
            Err(e) => secret_reply(text@) == Err::<Option<Seq<u8>>, InputError>(e),
        },
{
    if is_blank(text) {
        Ok(None)
    } else {
        match accept_decoded(decode(text.as_bytes()), InputError::SecretNotBase64) {
            Ok(secret) => Ok(Some(secret)),
            Err(e) => Err(e),
        }
    }
}

} // verus!
