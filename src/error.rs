//! Errors that encoding and installing a policy can return.
use vstd::prelude::*;

verus! {

#[derive(Debug, PartialEq, Eq, Structural, Clone, Copy)]
pub enum EbpfguardError {
    /// A binary or path resolved to inode 0, which is reserved for the
    /// wildcard subject.
    ReservedInode,
    /// A set lists more elements than its record has slots.
    TooManyEntries,
    /// A set lists port 0 or the all-zero address, which are reserved for the
    /// "all" sentinel.
    ReservedValue,
}

} // verus!
