use vstd::prelude::*;

use crate::compatible::{FormatKind, StorageCompatible};
use crate::error::StorageError;

verus! {

/// A name and an age: the record the formats are compared on.
#[derive(Debug, Clone, PartialEq, Eq)]
pub struct Person {
    pub name: String,
    pub age: u8,
}

impl View for Person {
    /// `(name, age)`.
    type V = (Seq<char>, u8);

    open spec fn view(&self) -> (Seq<char>, u8) {
        (self.name@, self.age)
    }
}

/// What `borsh::to_vec` writes for the pair `(name, age)`, or `None` where it
/// refuses it (a name whose length does not fit in 32 bits).
pub uninterp spec fn borsh_person(name: Seq<char>, age: u8) -> Option<Seq<u8>>;

/// What `wincode::serialize` writes for the pair `(name, age)`, or `None`
/// where it refuses it (a name over its preallocation limit).
pub uninterp spec fn wincode_person(name: Seq<char>, age: u8) -> Option<Seq<u8>>;

/// What `serde_json::to_vec` writes for the pair `(name, age)`, or `None`
/// where it refuses it.
pub uninterp spec fn json_person(name: Seq<char>, age: u8) -> Option<Seq<u8>>;

/// Relies on `borsh::to_vec` on the tuple `(name, age)`, whose bytes are
/// those of a struct with these fields in this order: the bytes, or the
/// error's message.
#[verifier::external_body]
fn borsh_write(p: &Person) -> (r: Result<Vec<u8>, String>)
    ensures
        match r {
            Ok(b) => borsh_person(p.name@, p.age) == Some(b@),
            Err(_) => borsh_person(p.name@, p.age) is None,
        },
{
    borsh::to_vec(&(p.name.as_str(), p.age)).map_err(|e| e.to_string())
}

/// Relies on `borsh::from_slice` for a `(String, u8)` tuple: the bytes that
/// `borsh::to_vec` wrote for a pair read back as exactly that pair.
#[verifier::external_body]
fn borsh_read(bytes: &[u8]) -> (r: Result<(String, u8), String>)
    ensures
        forall|name: Seq<char>, age: u8|
            #[trigger] borsh_person(name, age) == Some(bytes@) ==> r is Ok && r->Ok_0.0@ == name
                && r->Ok_0.1 == age,
{
    borsh::from_slice::<(String, u8)>(bytes).map_err(|e| e.to_string())
}

/// Relies on `wincode::serialize` on the tuple `(name, age)`, whose bytes are
/// those of a struct with these fields in this order: the bytes, or the
/// error's message.
#[verifier::external_body]
fn wincode_write(p: &Person) -> (r: Result<Vec<u8>, String>)
    ensures
        match r {
            Ok(b) => wincode_person(p.name@, p.age) == Some(b@),
            Err(_) => wincode_person(p.name@, p.age) is None,
        },
{
    wincode::serialize(&(p.name.clone(), p.age)).map_err(|e| e.to_string())
}

/// Relies on `wincode::deserialize` for a `(String, u8)` tuple: the bytes
/// that `wincode::serialize` wrote for a pair read back as exactly that pair
/// (the writer enforces the same length limit as the reader).
#[verifier::external_body]
fn wincode_read(bytes: &[u8]) -> (r: Result<(String, u8), String>)
    ensures
        forall|name: Seq<char>, age: u8|
            #[trigger] wincode_person(name, age) == Some(bytes@) ==> r is Ok && r->Ok_0.0@ == name
                && r->Ok_0.1 == age,
{
    wincode::deserialize::<(String, u8)>(bytes).map_err(|e| e.to_string())
}

/// Relies on `serde_json::to_vec` on the tuple `(name, age)`, written as the
/// array `[name, age]`: the bytes, or the error's message.
#[verifier::external_body]
fn json_write(p: &Person) -> (r: Result<Vec<u8>, String>)
    ensures
        match r {
            Ok(b) => json_person(p.name@, p.age) == Some(b@),
            Err(_) => json_person(p.name@, p.age) is None,
        },
{
    serde_json::to_vec(&(p.name.as_str(), p.age)).map_err(|e| e.to_string())
}

/// Relies on `serde_json::from_slice` for a `(String, u8)` tuple: the bytes
/// that `serde_json::to_vec` wrote for a pair read back as exactly that pair.
#[verifier::external_body]
fn json_read(bytes: &[u8]) -> (r: Result<(String, u8), String>)
    ensures
        forall|name: Seq<char>, age: u8|
            #[trigger] json_person(name, age) == Some(bytes@) ==> r is Ok && r->Ok_0.0@ == name
                && r->Ok_0.1 == age,
{
    serde_json::from_slice::<(String, u8)>(bytes).map_err(|e| e.to_string())
}

/// The error of `format` that carries `msg`.
pub open spec fn format_error(format: FormatKind, msg: String) -> StorageError {
    match format {
        FormatKind::Borsh => StorageError::Borsh(msg),
        FormatKind::Wincode => StorageError::Wincode(msg),
        FormatKind::Json => StorageError::Json(msg),
    }
}

/// A pair read back by one of the formats, as a `Person`, or that format's
/// error carrying the reader's message.
pub fn person_from(read: Result<(String, u8), String>, format: FormatKind) -> (r: Result<
    Person,
    StorageError,
>)
    ensures
        match read {
            Ok(p) => r matches Ok(x) && x.name == p.0 && x.age == p.1,
            Err(msg) => r matches Err(e) && e == format_error(format, msg),
        },
        r matches Err(e) ==> e.is_from(format),
{
    match read {
        Ok((name, age)) => Ok(Person { name, age }),
        Err(msg) => Err(
            match format {
                FormatKind::Borsh => StorageError::Borsh(msg),
                FormatKind::Wincode => StorageError::Wincode(msg),
                FormatKind::Json => StorageError::Json(msg),
            },
        ),
    }
}

impl StorageCompatible for Person {
    open spec fn encoding(format: FormatKind, v: (Seq<char>, u8)) -> Option<Seq<u8>> {
        match format {
            FormatKind::Borsh => borsh_person(v.0, v.1),
            FormatKind::Wincode => wincode_person(v.0, v.1),
            FormatKind::Json => json_person(v.0, v.1),
        }
    }

    fn encode(&self, format: FormatKind) -> (r: Result<Vec<u8>, StorageError>) {
        match format {
            FormatKind::Borsh => match borsh_write(self) {
                Ok(b) => Ok(b),
                Err(msg) => Err(StorageError::Borsh(msg)),
            },
            FormatKind::Wincode => match wincode_write(self) {
                Ok(b) => Ok(b),
                Err(msg) => Err(StorageError::Wincode(msg)),
            },
            FormatKind::Json => match json_write(self) {
                Ok(b) => Ok(b),
                Err(msg) => Err(StorageError::Json(msg)),
            },
        }
    }

    fn decode(format: FormatKind, bytes: &[u8]) -> (r: Result<Person, StorageError>) {
        let read = match format {
            FormatKind::Borsh => borsh_read(bytes),
            FormatKind::Wincode => wincode_read(bytes),
            FormatKind::Json => json_read(bytes),
        };
        person_from(read, format)
    }
}

} // verus!
