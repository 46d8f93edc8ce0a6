//! A revocation registry for account-scoped, named authorization permits.
//!
//! The registry records, inside a durable key-value store supplied by the
//! caller, the fact that a given account's named permit has been revoked.
//! Presence of a record under the derived key *is* the fact: absence means
//! the permit is still valid, presence means it has been revoked, and this
//! library never removes a record once written.

use vstd::prelude::*;

pub mod metadata;
pub mod state;
pub mod storage;

verus! {

/// The character sequence from which a permit's storage key is derived:
/// the namespace prefix, the account identifier and the permit name,
/// concatenated in that fixed order with no separator.
///
/// The absence of a separator means two distinct (account, permit name)
/// pairs can alias to the same key when both components differ and a
/// boundary shifts (for example, accounts "ab"/"a" with names "c"/"bc").
/// Callers must choose a prefix discipline that rules such collisions out.
pub open spec fn permit_key_chars(
    prefix: Seq<char>,
    account: Seq<char>,
    permit_name: Seq<char>,
) -> Seq<char> {
    prefix + account + permit_name
}

} // verus!
