use vstd::prelude::*;

use crate::error::StorageError;

verus! {

/// The byte formats a value can be stored in.
#[derive(Debug, Clone, Copy, PartialEq, Eq)]
pub enum FormatKind {
    /// Compact binary (borsh).
    Borsh,
    /// Fast schema-based binary (wincode, bincode-compatible).
    Wincode,
    /// Textual structured (JSON).
    Json,
}

/// A value that every format can write and read back: its fields are
/// written in a fixed order, reading what a format wrote for a value gives
/// that value again, and values are compared by their view.
pub trait StorageCompatible: Sized + View {
    /// The bytes that `format` writes for a value whose view is `v`, or
    /// `None` where the format refuses it.
    spec fn encoding(format: FormatKind, v: Self::V) -> Option<Seq<u8>>;

    /// Writes the value in `format`.
    fn encode(&self, format: FormatKind) -> (r: Result<Vec<u8>, StorageError>)
        ensures
            match r {
                Ok(b) => Self::encoding(format, self@) == Some(b@),
                Err(e) => Self::encoding(format, self@) is None && e.is_from(format),
            },
    ;

    /// Reads a value in `format` from `bytes`.
    fn decode(format: FormatKind, bytes: &[u8]) -> (r: Result<Self, StorageError>)
        ensures
            forall|v: Self::V|
                #[trigger] Self::encoding(format, v) == Some(bytes@) ==> (r matches Ok(x) && x@
                    == v),
            r matches Err(e) ==> e.is_from(format),
    ;
}

/// `r` is what writing a value with view `v` in `format` gives: the value's
/// encoding, or an error of that format exactly where it has none.
pub open spec fn encodes<T: StorageCompatible>(
    format: FormatKind,
    v: T::V,
    r: Result<Vec<u8>, StorageError>,
) -> bool {
    match r {
        Ok(b) => T::encoding(format, v) == Some(b@),
        Err(e) => T::encoding(format, v) is None && e.is_from(format),
    }
}

/// `r` is what reading `bytes` in `format` gives: the value itself where the
/// bytes are its encoding, and otherwise any value or an error of that
/// format.
pub open spec fn decodes<T: StorageCompatible>(
    format: FormatKind,
    bytes: Seq<u8>,
    r: Result<T, StorageError>,
) -> bool {
    &&& forall|v: T::V| #[trigger] T::encoding(format, v) == Some(bytes) ==> (r matches Ok(x) && x@ == v)
    &&& r matches Err(e) ==> e.is_from(format)
}

/// Round trip: reading back what a format wrote for a value gives that value.
pub proof fn lemma_round_trip<T: StorageCompatible>(
    format: FormatKind,
    v: T::V,
    written: Result<Vec<u8>, StorageError>,
    read: Result<T, StorageError>,
)
    requires
        encodes::<T>(format, v, written),
        written is Ok,
        decodes::<T>(format, written->Ok_0@, read),
    ensures
        read matches Ok(x) && x@ == v,
{
    assert(T::encoding(format, v) == Some(written->Ok_0@));
}

} // verus!
