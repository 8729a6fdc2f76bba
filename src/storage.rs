use vstd::prelude::*;

use crate::compatible::{FormatKind, StorageCompatible};
use crate::error::StorageError;
use crate::serializer::Serializer;

verus! {

/// A store that holds at most one value of type `T`, kept as the bytes that
/// the serializer `S` wrote for it.
pub struct Storage<T: StorageCompatible, S: Serializer> {
    // How bytes are written and read.
    serializer: S,
    // The payload; `None` until a value is saved.
    bytes: Option<Vec<u8>>,
    // The view of the value the payload was written for.
    value: Ghost<Option<T::V>>,
}

impl<T: StorageCompatible, S: Serializer> Storage<T, S> {
    /// The payload is present exactly when a value was saved, and it is that
    /// value's encoding in the store's format.
    pub closed spec fn wf(&self) -> bool {
        match self.bytes {
            None => self.value@ is None,
            Some(b) => self.value@ matches Some(v) && T::encoding(self.format(), v) == Some(b@),
        }
    }

    /// The view of the value last saved, if any.
    pub closed spec fn stored(&self) -> Option<T::V> {
        self.value@
    }

    /// The format the store writes.
    pub closed spec fn format(&self) -> FormatKind {
        self.serializer.format()
    }

    /// What loading gives: the stored value, or `EmptyStorage`.
    pub open spec fn load_outcome(&self) -> Result<T::V, StorageError> {
        match self.stored() {
            None => Err(StorageError::EmptyStorage),
            Some(v) => Ok(v),
        }
    }

    /// Creates an empty store that uses `serializer`.
    pub fn new(serializer: S) -> (s: Self)
        ensures
            s.wf(),
            s.stored() is None,
            s.format() == serializer.format(),
    {
        Storage { serializer, bytes: None, value: Ghost(None) }
    }

    /// Writes `value` and keeps its bytes in place of any earlier payload.
    /// Fails, leaving the store as it was, where the format refuses it.
    pub fn save(&mut self, value: &T) -> (r: Result<(), StorageError>)
        requires
            old(self).wf(),
        ensures
            final(self).wf(),
            final(self).format() == old(self).format(),
            r is Ok <==> T::encoding(old(self).format(), value@) is Some,
            r is Ok ==> final(self).stored() == Some(value@),
            r matches Err(e) ==> final(self).stored() == old(self).stored() && e.is_from(
                old(self).format(),
            ),
    {
        match self.serializer.to_bytes(value) {
            Ok(b) => {
                self.bytes = Some(b);
                self.value = Ghost(Some(value@));
                Ok(())
            },
            Err(e) => Err(e),
        }
    }

    /// Reads the stored value back; `EmptyStorage` when nothing was saved.
    pub fn load(&self) -> (r: Result<T, StorageError>)
        requires
            self.wf(),
        ensures
            match r {
                Ok(x) => self.load_outcome() == Ok::<T::V, StorageError>(x@),
                Err(e) => self.load_outcome() == Err::<T::V, StorageError>(e),
            },
    {
        match &self.bytes {
            None => Err(StorageError::EmptyStorage),
            Some(b) => self.serializer.from_bytes(b.as_slice()),
        }
    }

    /// True when a value was saved.
    pub fn has_data(&self) -> (b: bool)
        requires
            self.wf(),
        ensures
            b == self.stored() is Some,
    {
        self.bytes.is_some()
    }

    /// Loads the stored value and saves it into a new store that uses
    /// `serializer`. The source store is left as it is.
    pub fn convert_to<S2: Serializer>(&self, serializer: S2) -> (r: Result<
        Storage<T, S2>,
        StorageError,
    >)
        requires
            self.wf(),
        ensures
            converts(self, serializer.format(), r),
    {
        let value = match self.load() {
            Ok(v) => v,
            Err(e) => {
                return Err(e);
            },
        };
        let mut converted = Storage::<T, S2>::new(serializer);
        match converted.save(&value) {
            Ok(()) => Ok(converted),
            Err(e) => Err(e),
        }
    }
}

/// `r` is what converting `src` to `format` gives: `EmptyStorage` when `src`
/// holds nothing; otherwise a store in `format` that holds the same value,
/// or an error of `format` exactly where it refuses the value.
pub open spec fn converts<T: StorageCompatible, S: Serializer, S2: Serializer>(
    src: &Storage<T, S>,
    format: FormatKind,
    r: Result<Storage<T, S2>, StorageError>,
) -> bool {
    match src.stored() {
        None => r matches Err(e) && e == StorageError::EmptyStorage,
        Some(v) => match r {
            Ok(dst) => dst.wf() && dst.format() == format && dst.stored() == Some(v),
            Err(e) => T::encoding(format, v) is None && e.is_from(format),
        },
    }
}

/// Conversion keeps the value: loading from a store converted from `src`
/// gives what loading from `src` gives.
pub proof fn lemma_convert_preserves_value<T: StorageCompatible, S: Serializer, S2: Serializer>(
    src: &Storage<T, S>,
    format: FormatKind,
    dst: Storage<T, S2>,
)
    requires
        converts(src, format, Ok(dst)),
    ensures
        dst.load_outcome() == src.load_outcome(),
{
}

} // verus!
