//! Wallets and their addresses.

use vstd::prelude::*;

verus! {

/// The name under which a chain's key store holds a wallet.
#[derive(Debug, Clone, PartialEq, Eq)]
pub struct WalletId(pub String);

/// The address of a wallet on its chain.
#[derive(Debug, Clone, PartialEq, Eq)]
pub struct WalletAddress(pub String);

impl View for WalletAddress {
    type V = Seq<char>;

    /// The address as text.
    open spec fn view(&self) -> Seq<char> {
        self.0@
    }
}

impl WalletAddress {
    /// The address as a string slice.
    pub fn as_str(&self) -> (address: &str)
        ensures
            address@ == self@,
    {
        self.0.as_str()
    }
}

/// A wallet that can sign transactions on its chain.
#[derive(Debug, Clone, PartialEq, Eq)]
pub struct Wallet {
    /// The name of the wallet in the key store.
    pub id: WalletId,
    /// The address of the wallet.
    pub address: WalletAddress,
    /// The signing key, in the encoding of the key store.
    pub key: Vec<u8>,
}

} // verus!
