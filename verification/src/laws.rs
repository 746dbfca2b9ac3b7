//! What holds of every session, whatever is typed.

use crate::codec::base64_decoded;
use crate::fields::{
    algorithm_reply, number_reply, secret_reply, yes_no_reply, Algorithm, Field, InputError,
};
use crate::session::{initial, step, SessionModel};
use crate::text::{blank, decimal_u32, lowered};
use vstd::prelude::*;
use vstd::utf8::encode_utf8;

verus! {

/// Whether the question asks for a number.
pub open spec fn asks_number(f: Field) -> bool {
    f == Field::SaltLength || f == Field::HashLength || f == Field::Iterations || f
        == Field::MemoryCost || f == Field::Threads
}

/// The error that a number question reports.
pub open spec fn number_error(f: Field) -> InputError {
    match f {
        Field::SaltLength => InputError::InvalidSaltLength,
        Field::HashLength => InputError::InvalidHashLength,
        Field::Iterations => InputError::InvalidIterations,
        Field::MemoryCost => InputError::InvalidMemoryCost,
        _ => InputError::InvalidThreads,
    }
}

/// The question that follows `f`, or `None` after the last.
pub open spec fn following(f: Field) -> Option<Field> {
    match f {
        Field::Password => Some(Field::PasswordIsBase64),
        Field::PasswordIsBase64 => Some(Field::Algorithm),
        Field::Algorithm => Some(Field::SaltLength),
        Field::SaltLength => Some(Field::HashLength),
        Field::HashLength => Some(Field::Iterations),
        Field::Iterations => Some(Field::MemoryCost),
        Field::MemoryCost => Some(Field::Threads),
        Field::Threads => Some(Field::Secret),
        Field::Secret => None,
    }
}

/// The empty reply means the default to every reader that takes one: no,
/// Argon2id, the number's default, no secret.
pub proof fn law_empty_reply_means_default(default: u32, error: InputError)
    ensures
        yes_no_reply(Seq::empty()) == Some(false),
        algorithm_reply(Seq::empty()) == Some(Algorithm::Argon2id),
        number_reply(Seq::empty(), default, error) == Ok::<u32, InputError>(default),
        secret_reply(Seq::empty()) == Ok::<Option<Seq<u8>>, InputError>(None),
{
    reveal_strlit("");
    assert(lowered(Seq::<char>::empty()) =~= ""@);
}

/// In a session, the empty reply to any question but the password is
/// accepted, opens the following question and stores the default: the
/// password as typed, Argon2id, 16, 32, 18, 62500, 1, no secret.
pub proof fn law_empty_line_selects_default(m: SessionModel, f: Field)
    requires
        m.asking == Some(f),
        f != Field::Password,
    ensures
        step(m, Seq::empty()).1.is_ok(),
        step(m, Seq::empty()).0 == match f {
            Field::PasswordIsBase64 => SessionModel {
                asking: following(f),
                pending: Seq::empty(),
                password: m.pending,
                ..m
            },
            Field::Algorithm => SessionModel {
                asking: following(f),
                algorithm: Algorithm::Argon2id,
                ..m
            },
            Field::SaltLength => SessionModel { asking: following(f), salt_length: 16, ..m },
            Field::HashLength => SessionModel { asking: following(f), hash_length: 32, ..m },
            Field::Iterations => SessionModel { asking: following(f), iterations: 18, ..m },
            Field::MemoryCost => SessionModel { asking: following(f), memory_cost_kib: 62500, ..m },
            Field::Threads => SessionModel { asking: following(f), threads: 1, ..m },
            _ => SessionModel { asking: following(f), secret: None, ..m },
        },
{
    law_empty_reply_means_default(0, InputError::InvalidThreads);
}

/// A reply to a number question that is neither empty nor a 32-bit number in
/// base ten is refused with that question's error, and the session stays as
/// it was: the same question is open.
pub proof fn law_unreadable_number_asks_again(m: SessionModel, f: Field, line: Seq<char>)
    requires
        m.asking == Some(f),
        asks_number(f),
        line.len() > 0,
        decimal_u32(line).is_none(),
    ensures
        step(m, line) == (m, Err::<(), InputError>(number_error(f))),
{
}

/// The empty password is refused and the password is asked for again. Any
/// other line is taken, and once the user answers that it is not base64, the
/// password is the line's UTF-8 bytes, unchanged.
pub proof fn law_plain_password_is_verbatim(m: SessionModel, line: Seq<char>, answer: Seq<char>)
    requires
        m.asking == Some(Field::Password),
    ensures
        line.len() == 0 ==> step(m, line) == (m, Err::<(), InputError>(InputError::EmptyPassword)),
        line.len() > 0 ==> step(m, line).1.is_ok() && step(m, line).0.asking == Some(
            Field::PasswordIsBase64,
        ),
        line.len() > 0 && yes_no_reply(answer) == Some(false) ==> {
            let after = step(step(m, line).0, answer);
            &&& after.1.is_ok()
            &&& after.0.asking == Some(Field::Algorithm)
            &&& after.0.password == encode_utf8(line)
        },
{
}

/// A password said to be base64 becomes exactly what the decoder makes of
/// the typed bytes. Where the decoder refuses them the user is told so and
/// the password is asked for again, with nothing kept of the refused line.
pub proof fn law_encoded_password_is_decoded(m: SessionModel, line: Seq<char>, answer: Seq<char>)
    requires
        m.asking == Some(Field::Password),
        line.len() > 0,
        yes_no_reply(answer) == Some(true),
    ensures
        ({
            let after = step(step(m, line).0, answer);
            match base64_decoded(encode_utf8(line)) {
                Some(bytes) => {
                    &&& after.1.is_ok()
                    &&& after.0.asking == Some(Field::Algorithm)
                    &&& after.0.password == bytes
                },
                None => {
                    &&& after.1 == Err::<(), InputError>(InputError::PasswordNotBase64)
                    &&& after.0 == SessionModel { pending: Seq::empty(), ..m }
                },
            }
        }),
{
}

/// A secret that is not blank becomes exactly what the decoder makes of the
/// reply's UTF-8 bytes; where the decoder refuses them the secret is asked
/// for again.
pub proof fn law_secret_is_decoded(m: SessionModel, line: Seq<char>)
    requires
        m.asking == Some(Field::Secret),
        !blank(line),
    ensures
        match base64_decoded(encode_utf8(line)) {
            Some(bytes) => step(m, line) == (
                SessionModel { asking: None, secret: Some(bytes), ..m },
                Ok::<(), InputError>(()),
            ),
            None => step(m, line) == (m, Err::<(), InputError>(InputError::SecretNotBase64)),
        },
{
}

/// An accepted reply opens the following question. A refused reply changes
/// no answer and leaves the question open, but for a refused base64 password,
/// which reopens the password question.
pub proof fn law_questions_come_in_order(m: SessionModel, f: Field, line: Seq<char>)
    requires
        m.asking == Some(f),
    ensures
        step(m, line).1.is_ok() ==> step(m, line).0.asking == following(f),
        step(m, line).1.is_err() ==> step(m, line).0 == m || (f == Field::PasswordIsBase64
            && step(m, line).0 == SessionModel {
            asking: Some(Field::Password),
            pending: Seq::empty(),
            ..m
        }),
{
}

/// Once every question is answered, further lines change nothing.
pub proof fn law_complete_session_is_settled(m: SessionModel, line: Seq<char>)
    requires
        m.asking.is_none(),
    ensures
        step(m, line) == (m, Ok::<(), InputError>(())),
{
}

/// A new session that is given a password line and then eight empty lines is
/// complete: it holds the line's UTF-8 bytes as the password and every
/// parameter at its default.
pub proof fn law_defaults_complete_the_session(line: Seq<char>)
    requires
        line.len() > 0,
    ensures
        ({
            let e = Seq::<char>::empty();
            let s1 = step(initial(), line).0;
            let s2 = step(s1, e).0;
            let s3 = step(s2, e).0;
            let s4 = step(s3, e).0;
            let s5 = step(s4, e).0;
            let s6 = step(s5, e).0;
            let s7 = step(s6, e).0;
            let s8 = step(s7, e).0;
            let s9 = step(s8, e).0;
            s9 == SessionModel { asking: None, password: encode_utf8(line), ..initial() }
        }),
{
    law_empty_reply_means_default(0, InputError::InvalidThreads);
    let e = Seq::<char>::empty();
    let s1 = step(initial(), line).0;
    let s2 = step(s1, e).0;
    let s3 = step(s2, e).0;
    let s4 = step(s3, e).0;
    let s5 = step(s4, e).0;
    let s6 = step(s5, e).0;
    let s7 = step(s6, e).0;
    let s8 = step(s7, e).0;
    law_empty_line_selects_default(s1, Field::PasswordIsBase64);
    law_empty_line_selects_default(s2, Field::Algorithm);
    law_empty_line_selects_default(s3, Field::SaltLength);
    law_empty_line_selects_default(s4, Field::HashLength);
    law_empty_line_selects_default(s5, Field::Iterations);
    law_empty_line_selects_default(s6, Field::MemoryCost);
    law_empty_line_selects_default(s7, Field::Threads);
    law_empty_line_selects_default(s8, Field::Secret);
}

} // verus!
