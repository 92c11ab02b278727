//! The error taxonomy of this model. Every failure is returned to the
//! immediate caller; nothing is retried or silently recovered.

use vstd::prelude::*;

verus! {

/// The raw discriminant value found in a wire record, carried in
/// [`Error::UnknownVariant`] for diagnostics.
#[derive(Clone, Debug, PartialEq, Eq)]
pub enum RawDiscriminant {
    /// A numeric discriminant, as in a channel record's type field.
    Number(u64),
    /// A textual discriminant, as in a permission overwrite's kind field.
    Text(String),
}

/// A failure of this model's own making. Failures reported by the remote
/// collaborator are opaque to this model and are propagated unchanged by the
/// code that drives it; they have no representation here.
#[derive(Clone, Debug, PartialEq, Eq)]
pub enum Error {
    /// A required discriminant or identifier field was absent from a decoded
    /// record.
    MissingField,
    /// A discriminant value outside the known set, carrying the offending
    /// raw value.
    UnknownVariant(RawDiscriminant),
    /// An operation attempted by a bot-type account where the domain forbids
    /// it; raised before any remote call is attempted.
    InvalidOperationAsBot,
}

} // verus!
