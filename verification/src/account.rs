//! Account identifiers and token movements shared by the contracts.

use vstd::prelude::*;

verus! {

/// A Stellar account or contract, identified by its strkey text
/// (`G...` for accounts, `C...` for contracts).
#[derive(Debug, PartialEq, Eq)]
pub struct AccountId {
    pub key: String,
}

impl View for AccountId {
    type V = Seq<char>;

    open spec fn view(&self) -> Seq<char> {
        self.key@
    }
}

impl AccountId {
    /// Wraps a strkey.
    pub fn new(key: String) -> (r: AccountId)
        ensures
            r.key == key,
    {
        AccountId { key }
    }

    /// Whether both identifiers name the same account.
    pub fn same_as(&self, other: &AccountId) -> (r: bool)
        ensures
            r == (self@ == other@),
    {
        self.key == other.key
    }
}

impl Clone for AccountId {
    fn clone(&self) -> (r: Self)
        ensures
            r == *self,
    {
        AccountId { key: self.key.clone() }
    }
}

/// Hash of an uploaded contract WASM.
pub type WasmHash = [u8; 32];

/// A movement of the contract's token that the host must carry out.
#[derive(Debug, PartialEq, Eq)]
pub enum TokenTransfer {
    /// `amount` moves from `from` into the contract.
    Deposit { from: AccountId, amount: i128 },
    /// `amount` moves from the contract to `to`.
    Payout { to: AccountId, amount: i128 },
}

} // verus!
