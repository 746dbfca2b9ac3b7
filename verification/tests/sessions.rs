use argon2_prompt::fields::{Algorithm, Field, InputError};
use argon2_prompt::session::Session;

fn answered(lines: &[&str]) -> Session {
    let mut s = Session::new();
    for line in lines {
        assert_eq!(s.submit(line), Ok(()), "{:?}", line);
    }
    s
}

#[test]
fn new_session_asks_for_the_password() {
    let s = Session::new();
    assert_eq!(s.asking(), Some(Field::Password));
    assert!(s.finish().is_none());
}

#[test]
fn all_defaults_end_to_end() {
    let mut s = Session::new();
    let order = [
        Field::Password,
        Field::PasswordIsBase64,
        Field::Algorithm,
        Field::SaltLength,
        Field::HashLength,
        Field::Iterations,
        Field::MemoryCost,
        Field::Threads,
        Field::Secret,
    ];
    let lines = ["hunter2", "", "", "", "", "", "", "", ""];
    for (field, line) in order.iter().zip(lines.iter()) {
        assert_eq!(s.asking(), Some(*field));
        assert_eq!(s.submit(line), Ok(()));
    }
    assert_eq!(s.asking(), None);
    let request = s.finish().unwrap();
    assert_eq!(request.password.as_slice(), b"hunter2");
    assert_eq!(request.config.algorithm, Algorithm::Argon2id);
    assert_eq!(request.config.salt_length, 16);
    assert_eq!(request.config.hash_length, 32);
    assert_eq!(request.config.iterations, 18);
    assert_eq!(request.config.memory_cost_kib, 62500);
    assert_eq!(request.config.threads, 1);
    assert!(request.config.secret.is_none());
}

#[test]
fn every_reply_is_stored() {
    let s = answered(&["aGk=", "YES", "Argon2D", "24", "42", "12", "125000", "2", "c2VjcmV0"]);
    let request = s.finish().unwrap();
    assert_eq!(request.password.as_slice(), b"hi");
    assert_eq!(request.config.algorithm, Algorithm::Argon2d);
    assert_eq!(request.config.salt_length, 24);
    assert_eq!(request.config.hash_length, 42);
    assert_eq!(request.config.iterations, 12);
    assert_eq!(request.config.memory_cost_kib, 125000);
    assert_eq!(request.config.threads, 2);
    assert_eq!(request.config.secret.unwrap().as_slice(), b"secret");
}

#[test]
fn empty_password_asks_again() {
    let mut s = Session::new();
    assert_eq!(s.submit(""), Err(InputError::EmptyPassword));
    assert_eq!(s.asking(), Some(Field::Password));
    assert_eq!(s.submit(""), Err(InputError::EmptyPassword));
    assert_eq!(s.asking(), Some(Field::Password));
    assert_eq!(s.submit(" "), Ok(()));
    assert_eq!(s.asking(), Some(Field::PasswordIsBase64));
}

#[test]
fn non_numeric_reply_asks_the_same_question() {
    let questions = [
        (Field::SaltLength, InputError::InvalidSaltLength),
        (Field::HashLength, InputError::InvalidHashLength),
        (Field::Iterations, InputError::InvalidIterations),
        (Field::MemoryCost, InputError::InvalidMemoryCost),
        (Field::Threads, InputError::InvalidThreads),
    ];
    let mut s = answered(&["pw", "n", "argon2i"]);
    for (field, error) in questions {
        assert_eq!(s.asking(), Some(field));
        assert_eq!(s.submit("twelve"), Err(error));
        assert_eq!(s.asking(), Some(field));
        assert_eq!(s.submit("-3"), Err(error));
        assert_eq!(s.asking(), Some(field));
        assert_eq!(s.submit("5"), Ok(()));
    }
    assert_eq!(s.asking(), Some(Field::Secret));
    assert_eq!(s.submit(""), Ok(()));
    let request = s.finish().unwrap();
    assert_eq!(request.password.as_slice(), b"pw");
    assert_eq!(request.config.algorithm, Algorithm::Argon2i);
    assert_eq!(request.config.salt_length, 5);
    assert_eq!(request.config.hash_length, 5);
    assert_eq!(request.config.iterations, 5);
    assert_eq!(request.config.memory_cost_kib, 5);
    assert_eq!(request.config.threads, 5);
}

#[test]
fn unknown_encoding_answer_asks_the_sub_question_again() {
    let mut s = answered(&["aGk="]);
    assert_eq!(s.submit("perhaps"), Err(InputError::NotYesOrNo));
    assert_eq!(s.asking(), Some(Field::PasswordIsBase64));
    assert_eq!(s.submit("y"), Ok(()));
    assert_eq!(s.asking(), Some(Field::Algorithm));
    for _ in 0..7 {
        assert_eq!(s.submit(""), Ok(()));
    }
    assert_eq!(s.finish().unwrap().password.as_slice(), b"hi");
}

#[test]
fn password_that_is_not_base64_is_asked_for_again() {
    let mut s = answered(&["not base64!!"]);
    assert_eq!(s.submit("yes"), Err(InputError::PasswordNotBase64));
    assert_eq!(s.asking(), Some(Field::Password));
    assert_eq!(s.submit("not base64!!"), Ok(()));
    assert_eq!(s.submit("no"), Ok(()));
    assert_eq!(s.asking(), Some(Field::Algorithm));
    for _ in 0..7 {
        assert_eq!(s.submit(""), Ok(()));
    }
    assert_eq!(s.finish().unwrap().password.as_slice(), b"not base64!!");
}

#[test]
fn unknown_algorithm_asks_again() {
    let mut s = answered(&["pw", ""]);
    assert_eq!(s.submit("argon2x"), Err(InputError::UnknownAlgorithm));
    assert_eq!(s.asking(), Some(Field::Algorithm));
    assert_eq!(s.submit("ARGON2I"), Ok(()));
    assert_eq!(s.asking(), Some(Field::SaltLength));
}

#[test]
fn invalid_secret_asks_again() {
    let mut s = answered(&["pw", "", "", "", "", "", "", ""]);
    assert_eq!(s.asking(), Some(Field::Secret));
    assert_eq!(s.submit("not base64!!"), Err(InputError::SecretNotBase64));
    assert_eq!(s.asking(), Some(Field::Secret));
    assert!(s.finish().is_none());
    let mut s = answered(&["pw", "", "", "", "", "", "", ""]);
    assert_eq!(s.submit("  "), Ok(()));
    assert_eq!(s.asking(), None);
    assert!(s.finish().unwrap().config.secret.is_none());
}

#[test]
fn finish_is_none_while_a_question_is_open() {
    let lines = ["pw", "", "", "", "", "", "", ""];
    for n in 0..=lines.len() {
        let s = answered(&lines[..n]);
        assert!(s.asking().is_some());
        assert!(s.finish().is_none());
    }
}

#[test]
fn complete_session_ignores_further_lines() {
    let mut s = answered(&["pw", "", "", "7", "", "", "", "", ""]);
    assert_eq!(s.asking(), None);
    assert_eq!(s.submit("argon2x"), Ok(()));
    assert_eq!(s.submit(""), Ok(()));
    assert_eq!(s.asking(), None);
    let request = s.finish().unwrap();
    assert_eq!(request.password.as_slice(), b"pw");
    assert_eq!(request.config.salt_length, 7);
}

#[test]
fn receive_drops_the_line_ending() {
    let mut s = Session::new();
    assert_eq!(s.receive("\r\n"), Err(InputError::EmptyPassword));
    assert_eq!(s.receive("hunter2\n"), Ok(()));
    assert_eq!(s.receive("N\r\n"), Ok(()));
    assert_eq!(s.receive("argon2d\r"), Ok(()));
    assert_eq!(s.receive("20\n"), Ok(()));
    assert_eq!(s.receive("20\n\n"), Err(InputError::InvalidHashLength));
    assert_eq!(s.receive("\n"), Ok(()));
    assert_eq!(s.receive("3"), Ok(()));
    assert_eq!(s.receive("1024\n"), Ok(()));
    assert_eq!(s.receive("4\n"), Ok(()));
    assert_eq!(s.receive("AQID\n"), Ok(()));
    let request = s.finish().unwrap();
    assert_eq!(request.password.as_slice(), b"hunter2");
    assert_eq!(request.config.algorithm, Algorithm::Argon2d);
    assert_eq!(request.config.salt_length, 20);
    assert_eq!(request.config.hash_length, 32);
    assert_eq!(request.config.iterations, 3);
    assert_eq!(request.config.memory_cost_kib, 1024);
    assert_eq!(request.config.threads, 4);
    assert_eq!(request.config.secret.unwrap().as_slice(), [1u8, 2, 3]);
}
