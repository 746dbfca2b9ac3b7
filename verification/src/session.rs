//! The session: nine questions asked in order, each asked again until its
//! reply is accepted, and the hashing request that the replies add up to.

use crate::fields::{
    algorithm_reply, convert_password, convert_secret, number_reply, parse_algorithm,
    parse_hash_length, parse_iterations, parse_memory_cost, parse_salt_length, parse_threads,
    parse_yes_no, password_line, password_reply, read_password_line, secret_reply, yes_no_reply,
    Algorithm, Field, InputError, DEFAULT_HASH_LENGTH, DEFAULT_ITERATIONS,
    DEFAULT_MEMORY_COST_KIB, DEFAULT_SALT_LENGTH, DEFAULT_THREADS,
};
use crate::secret::SecretBytes;
use crate::text::{strip_line_ending, without_line_ending};
use vstd::prelude::*;

verus! {

/// The parameters of one hashing call.
pub struct HashConfig {
    pub algorithm: Algorithm,
    pub salt_length: u32,
    pub hash_length: u32,
    pub iterations: u32,
    pub memory_cost_kib: u32,
    pub threads: u32,
    pub secret: Option<SecretBytes>,
}

/// What a completed session asks for: a password to hash, and how.
pub struct HashRequest {
    pub password: SecretBytes,
    pub config: HashConfig,
}

/// What a session knows, as plain values. `asking` is the question that is
/// open, or `None` once all are answered. `pending` is the password line as
/// typed, held while the session asks how it is encoded.
pub struct SessionModel {
    pub asking: Option<Field>,
    pub pending: Seq<u8>,
    pub password: Seq<u8>,
    pub algorithm: Algorithm,
    pub salt_length: u32,
    pub hash_length: u32,
    pub iterations: u32,
    pub memory_cost_kib: u32,
    pub threads: u32,
    pub secret: Option<Seq<u8>>,
}

/// A session before its first question: every parameter at its default.
pub open spec fn initial() -> SessionModel {
    SessionModel {
        asking: Some(Field::Password),
        pending: Seq::empty(),
        password: Seq::empty(),
        algorithm: Algorithm::Argon2id,
        salt_length: DEFAULT_SALT_LENGTH,
        hash_length: DEFAULT_HASH_LENGTH,
        iterations: DEFAULT_ITERATIONS,
        memory_cost_kib: DEFAULT_MEMORY_COST_KIB,
        threads: DEFAULT_THREADS,
        secret: None,
    }
}

/// The session after the line `line` was given in reply to the open question,
/// and whether the reply was accepted. An accepted reply is stored and opens
/// the next question; a refused one leaves the question open. The one
/// exception: a password that turns out not to be base64 is refused only after
/// the question about its encoding, and reopens the password question.
pub open spec fn step(m: SessionModel, line: Seq<char>) -> (SessionModel, Result<(), InputError>) {
    match m.asking {
        None => (m, Ok(())),
        Some(Field::Password) => match password_line(line) {
            Ok(raw) => (
                SessionModel { asking: Some(Field::PasswordIsBase64), pending: raw, ..m },
                Ok(()),
            ),
            Err(e) => (m, Err(e)),
        },
        Some(Field::PasswordIsBase64) => match yes_no_reply(line) {
            None => (m, Err(InputError::NotYesOrNo)),
            Some(encoded) => match password_reply(m.pending, encoded) {
                Ok(password) => (
                    SessionModel {
                        asking: Some(Field::Algorithm),
                        pending: Seq::empty(),
                        password: password,
                        ..m
                    },
                    Ok(()),
                ),
                Err(e) => (
                    SessionModel { asking: Some(Field::Password), pending: Seq::empty(), ..m },
                    Err(e),
                ),
            },
        },
        Some(Field::Algorithm) => match algorithm_reply(line) {
            Some(a) => (SessionModel { asking: Some(Field::SaltLength), algorithm: a, ..m }, Ok(())),
            None => (m, Err(InputError::UnknownAlgorithm)),
        },
        Some(Field::SaltLength) => match number_reply(line, DEFAULT_SALT_LENGTH, InputError::InvalidSaltLength) {
            Ok(n) => (SessionModel { asking: Some(Field::HashLength), salt_length: n, ..m }, Ok(())),
            Err(e) => (m, Err(e)),
        },
        Some(Field::HashLength) => match number_reply(line, DEFAULT_HASH_LENGTH, InputError::InvalidHashLength) {
            Ok(n) => (SessionModel { asking: Some(Field::Iterations), hash_length: n, ..m }, Ok(())),
            Err(e) => (m, Err(e)),
        },
        Some(Field::Iterations) => match number_reply(line, DEFAULT_ITERATIONS, InputError::InvalidIterations) {
            Ok(n) => (SessionModel { asking: Some(Field::MemoryCost), iterations: n, ..m }, Ok(())),
            Err(e) => (m, Err(e)),
        },
        Some(Field::MemoryCost) => match number_reply(line, DEFAULT_MEMORY_COST_KIB, InputError::InvalidMemoryCost) {
            Ok(n) => (SessionModel { asking: Some(Field::Threads), memory_cost_kib: n, ..m }, Ok(())),
            Err(e) => (m, Err(e)),
        },
        Some(Field::Threads) => match number_reply(line, DEFAULT_THREADS, InputError::InvalidThreads) {
            Ok(n) => (SessionModel { asking: Some(Field::Secret), threads: n, ..m }, Ok(())),
            Err(e) => (m, Err(e)),
        },
        Some(Field::Secret) => match secret_reply(line) {
            Ok(secret) => (SessionModel { asking: None, secret: secret, ..m }, Ok(())),
            Err(e) => (m, Err(e)),
        },
    }
}

/// The bytes of an optional secret.
pub open spec fn secret_view(secret: Option<SecretBytes>) -> Option<Seq<u8>> {
    match secret {
        Some(s) => Some(s@),
        None => None,
    }
}

/// A session in progress.
pub struct Session {
    asking: Option<Field>,
    pending: SecretBytes,
    password: SecretBytes,
    algorithm: Algorithm,
    salt_length: u32,
    hash_length: u32,
    iterations: u32,
    memory_cost_kib: u32,
    threads: u32,
    secret: Option<SecretBytes>,
}

impl View for Session {
    type V = SessionModel;

    closed spec fn view(&self) -> SessionModel {
        SessionModel {
            asking: self.asking,
            pending: self.pending@,
            password: self.password@,
            algorithm: self.algorithm,
            salt_length: self.salt_length,
            hash_length: self.hash_length,
            iterations: self.iterations,
            memory_cost_kib: self.memory_cost_kib,
            threads: self.threads,
            secret: secret_view(self.secret),
        }
    }
}

impl Session {
    /// A session that is about to ask for the password.
    pub fn new() -> (s: Session)
        ensures
            s@ == initial(),
    {
        Session {
            asking: Some(Field::Password),
            pending: SecretBytes::empty(),
            password: SecretBytes::empty(),
            algorithm: Algorithm::Argon2id,
            salt_length: DEFAULT_SALT_LENGTH,
            hash_length: DEFAULT_HASH_LENGTH,
            iterations: DEFAULT_ITERATIONS,
            memory_cost_kib: DEFAULT_MEMORY_COST_KIB,
            threads: DEFAULT_THREADS,
            secret: None,
        }
    }

    /// The question to ask next, or `None` once every question is answered.
    pub fn asking(&self) -> (f: Option<Field>)
        ensures
            f == self@.asking,
    {
        self.asking
    }

    /// Takes `line`, already without its line ending, as the reply to the
    /// open question. On `Err` the caller shows the error's message and asks
    /// the open question again.
    pub fn submit(&mut self, line: &str) -> (r: Result<(), InputError>)
        ensures
            final(self)@ == step(old(self)@, line@).0,
            r == step(old(self)@, line@).1,
    {
        match self.asking {
            None => Ok(()),
            Some(Field::Password) => match read_password_line(line) {
                Ok(raw) => {
                    self.pending = raw;
                    self.asking = Some(Field::PasswordIsBase64);
                    Ok(())
                },
                Err(e) => Err(e),
            },
            Some(Field::PasswordIsBase64) => match parse_yes_no(line) {
                Err(e) => Err(e),
                Ok(encoded) => {
                    let mut raw = SecretBytes::empty();
                    core::mem::swap(&mut self.pending, &mut raw);
                    match convert_password(raw, encoded) {
                        Ok(password) => {
                            self.password = password;
                            self.asking = Some(Field::Algorithm);
                            Ok(())
                        },
                        Err(e) => {
                            self.asking = Some(Field::Password);
                            Err(e)
                        },
                    }
                },
            },
            Some(Field::Algorithm) => match parse_algorithm(line) {
                Ok(a) => {
                    self.algorithm = a;
                    self.asking = Some(Field::SaltLength);
                    Ok(())
                },
                Err(e) => Err(e),
            },
            Some(Field::SaltLength) => match parse_salt_length(line) {
                Ok(n) => {
                    self.salt_length = n;
                    self.asking = Some(Field::HashLength);
                    Ok(())
                },
                Err(e) => Err(e),
            },
            Some(Field::HashLength) => match parse_hash_length(line) {
                Ok(n) => {
                    self.hash_length = n;
                    self.asking = Some(Field::Iterations);
                    Ok(())
                },
                Err(e) => Err(e),
            },
            Some(Field::Iterations) => match parse_iterations(line) {
                Ok(n) => {
                    self.iterations = n;
                    self.asking = Some(Field::MemoryCost);
                    Ok(())
                },
                Err(e) => Err(e),
            },
            Some(Field::MemoryCost) => match parse_memory_cost(line) {
                Ok(n) => {
                    self.memory_cost_kib = n;
                    self.asking = Some(Field::Threads);
                    Ok(())
                },
                Err(e) => Err(e),
            },
            Some(Field::Threads) => match parse_threads(line) {
                Ok(n) => {
                    self.threads = n;
                    self.asking = Some(Field::Secret);
                    Ok(())
                },
                Err(e) => Err(e),
            },
            Some(Field::Secret) => match convert_secret(line) {
                Ok(secret) => {
                    self.secret = secret;
                    self.asking = None;
                    Ok(())
                },
                Err(e) => Err(e),
            },
        }
    }

    /// Takes `raw`, a line as it was read, as the reply to the open question:
    /// the line ending is dropped and the rest is submitted.
    pub fn receive(&mut self, raw: &str) -> (r: Result<(), InputError>)
        ensures
            final(self)@ == step(old(self)@, without_line_ending(raw@)).0,
            r == step(old(self)@, without_line_ending(raw@)).1,
    {
        self.submit(strip_line_ending(raw))
    }

    /// The request that the replies add up to, once every question is
    /// answered; `None` while one is open.
    pub fn finish(self) -> (r: Option<HashRequest>)
        ensures
            self@.asking.is_some() ==> r.is_none(),
            self@.asking.is_none() ==> r.is_some() && request_matches(r.unwrap(), self@),
    {
        match self.asking {
            Some(_) => None,
            None => Some(
                HashRequest {
                    password: self.password,
                    config: HashConfig {
                        algorithm: self.algorithm,
                        salt_length: self.salt_length,
                        hash_length: self.hash_length,
                        iterations: self.iterations,
                        memory_cost_kib: self.memory_cost_kib,
                        threads: self.threads,
                        secret: self.secret,
                    },
                },
            ),
        }
    }
}

/// Whether `request` asks for exactly what the session `m` has collected.
pub open spec fn request_matches(request: HashRequest, m: SessionModel) -> bool {
    &&& request.password@ == m.password
    &&& request.config.algorithm == m.algorithm
    &&& request.config.salt_length == m.salt_length
    &&& request.config.hash_length == m.hash_length
    &&& request.config.iterations == m.iterations
    &&& request.config.memory_cost_kib == m.memory_cost_kib
    &&& request.config.threads == m.threads
    &&& secret_view(request.config.secret) == m.secret
}

} // verus!
