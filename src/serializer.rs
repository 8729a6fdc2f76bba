use vstd::prelude::*;

use crate::compatible::{decodes, encodes, FormatKind, StorageCompatible};
use crate::error::StorageError;

verus! {

/// A byte format that values are written in and read from.
pub trait Serializer {
    /// The format this serializer writes.
    spec fn format(&self) -> FormatKind;

    /// Converts a value into bytes in this format.
    fn to_bytes<T: StorageCompatible>(&self, value: &T) -> (r: Result<Vec<u8>, StorageError>)
        ensures
            encodes::<T>(self.format(), value@, r),
    ;

    /// Converts bytes in this format back into a value; the format must be
    /// the one the bytes were written in.
    fn from_bytes<T: StorageCompatible>(&self, bytes: &[u8]) -> (r: Result<T, StorageError>)
        ensures
            decodes::<T>(self.format(), bytes@, r),
    ;
}

} // verus!
