use vstd::prelude::*;

use crate::compatible::{FormatKind, StorageCompatible};
use crate::error::StorageError;
use crate::serializer::Serializer;

verus! {

/// The compact binary format (borsh).
pub struct Borsh;

impl Serializer for Borsh {
    open spec fn format(&self) -> FormatKind {
        FormatKind::Borsh
    }

    fn to_bytes<T: StorageCompatible>(&self, value: &T) -> (r: Result<Vec<u8>, StorageError>) {
        value.encode(FormatKind::Borsh)
    }

    fn from_bytes<T: StorageCompatible>(&self, bytes: &[u8]) -> (r: Result<T, StorageError>) {
        T::decode(FormatKind::Borsh, bytes)
    }
}

/// The fast schema-based binary format (wincode, bincode-compatible).
pub struct Wincode;

impl Serializer for Wincode {
    open spec fn format(&self) -> FormatKind {
        FormatKind::Wincode
    }

    fn to_bytes<T: StorageCompatible>(&self, value: &T) -> (r: Result<Vec<u8>, StorageError>) {
        value.encode(FormatKind::Wincode)
    }

    fn from_bytes<T: StorageCompatible>(&self, bytes: &[u8]) -> (r: Result<T, StorageError>) {
        T::decode(FormatKind::Wincode, bytes)
    }
}

/// The textual structured format (JSON).
pub struct Json;

impl Serializer for Json {
    open spec fn format(&self) -> FormatKind {
        FormatKind::Json
    }

    fn to_bytes<T: StorageCompatible>(&self, value: &T) -> (r: Result<Vec<u8>, StorageError>) {
        value.encode(FormatKind::Json)
    }

    fn from_bytes<T: StorageCompatible>(&self, bytes: &[u8]) -> (r: Result<T, StorageError>) {
        T::decode(FormatKind::Json, bytes)
    }
}

} // verus!
