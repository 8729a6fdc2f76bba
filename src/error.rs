use vstd::prelude::*;
use vstd::string::StringExecFns;

use crate::compatible::FormatKind;

verus! {

/// Why a store could not save or load a value.
#[derive(Debug)]
pub enum StorageError {
    /// Nothing was ever saved.
    EmptyStorage,
    /// The borsh format failed; carries its message.
    Borsh(String),
    /// The wincode format failed; carries its message.
    Wincode(String),
    /// The JSON format failed; carries its message.
    Json(String),
}

impl StorageError {
    /// The error came from `format`.
    pub open spec fn is_from(&self, format: FormatKind) -> bool {
        match format {
            FormatKind::Borsh => self is Borsh,
            FormatKind::Wincode => self is Wincode,
            FormatKind::Json => self is Json,
        }
    }

    /// The error as a line of text.
    pub open spec fn spec_message(&self) -> Seq<char> {
        match self {
            StorageError::EmptyStorage => "storage has no data"@,
            StorageError::Borsh(m) => "borsh error: "@ + m@,
            StorageError::Wincode(m) => "wincode error: "@ + m@,
            StorageError::Json(m) => "json error: "@ + m@,
        }
    }

    /// The error as a line of text: which format failed and its message.
    pub fn message(&self) -> (r: String)
        ensures
            r@ == self.spec_message(),
    {
        match self {
            StorageError::EmptyStorage => String::from_str("storage has no data"),
            StorageError::Borsh(m) => {
                let mut r = String::from_str("borsh error: ");
                r.append(m.as_str());
                r
            },
            StorageError::Wincode(m) => {
                let mut r = String::from_str("wincode error: ");
                r.append(m.as_str());
                r
            },
            StorageError::Json(m) => {
                let mut r = String::from_str("json error: ");
                r.append(m.as_str());
                r
            },
        }
    }
}

} // verus!
