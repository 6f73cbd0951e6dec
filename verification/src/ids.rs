//! Plain identities for the parties and records the engine speaks of.
//!
//! The hosting environment addresses accounts by opaque keys; the engine only
//! ever compares them and derives grant identifiers from them, so a plain
//! integer stands for each key here.

use vstd::prelude::*;

verus! {

/// The identity of an account: an authority, a recipient, an asset kind, or a
/// custody account holding a grant's funds.
#[derive(Clone, Copy, Debug, PartialEq, Eq, Hash, Structural)]
pub struct AccountId {
    pub value: u128,
}

/// Which of the two grant records an identifier names.
#[derive(Clone, Copy, Debug, PartialEq, Eq, Hash, Structural)]
pub enum GrantKind {
    Stream,
    Vesting,
}

/// The deterministic identifier of a grant: one stream and one vesting grant
/// may exist for each recipient under each treasury, so the triple of kind,
/// treasury and recipient locates a grant exactly.
#[derive(Clone, Copy, Debug, PartialEq, Eq, Hash, Structural)]
pub struct GrantId {
    pub kind: GrantKind,
    pub treasury: AccountId,
    pub recipient: AccountId,
}

/// Derives the identifier under which a grant is stored and under whose own
/// custody authorization its funds are released. Purely a lookup key: it
/// carries no ownership semantics.
pub fn derive_id(kind: GrantKind, treasury: AccountId, recipient: AccountId) -> (id: GrantId)
    ensures
        id == (GrantId { kind, treasury, recipient }),
{
    GrantId { kind, treasury, recipient }
}

} // verus!
