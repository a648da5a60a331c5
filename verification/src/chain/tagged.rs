//! The operations of a chain driver, restricted to values of its own chain.

use crate::chain::driver::ChainDriver;
use crate::error::Error;
use crate::ibc::denom::Denom;
use crate::types::id::{ChainId, TaggedChainIdRef};
use crate::types::tagged::MonoTagged;
use crate::types::wallet::{Wallet, WalletAddress};
use ibc_proto::google::protobuf::Any;
use ibc_relayer::chain::cosmos::types::config::TxConfig;
use serde_json::Value;
use vstd::prelude::*;

verus! {

/// Whether `txs` is an answer of `Driver`'s transaction query to the question
/// that `driver` and `recipient_address` make up: the chain identifier, the
/// command path and the RPC listen address are answers that `driver` gave of
/// itself, the identifier and the two addresses are handed over as text, and
/// `txs` is what the query admits for these four arguments.
pub open spec fn queried_from<Driver: ChainDriver>(
    driver: &Driver,
    recipient_address: &WalletAddress,
    txs: Result<Value, Error>,
) -> bool {
    exists|
        chain_id: &ChainId,
        rpc_listen_address: String,
        id: &str,
        command_path: &str,
        address: &str,
        recipient: &str,
    |
        #![trigger
            call_ensures(Driver::chain_id, (driver,), chain_id),
            call_ensures(Driver::rpc_listen_address, (driver,), rpc_listen_address),
            call_ensures(
                Driver::query_recipient_transactions,
                (id, command_path, address, recipient),
                txs,
            ),
        ]
        call_ensures(Driver::chain_id, (driver,), chain_id)
            && call_ensures(Driver::command_path, (driver,), command_path)
            && call_ensures(Driver::rpc_listen_address, (driver,), rpc_listen_address)
            && id@ == chain_id@
            && address@ == rpc_listen_address@
            && recipient@ == recipient_address@
            && call_ensures(
                Driver::query_recipient_transactions,
                (id, command_path, address, recipient),
                txs,
            )
}

/// A chain driver tagged with the marker `Chain` offers the driver's
/// operations for values that carry the same marker.
///
/// Each operation takes the marker off its arguments, hands them to the
/// driver behind the tag, and returns what the driver returned: tagged with
/// `Chain` where the result belongs to the chain, as it is otherwise. No
/// operation retries, and none replaces or hides a failure.
///
/// A driver talks to a running chain and may answer the same question
/// differently each time, so no contract below names the answer. Each says
/// `call_ensures(operation, arguments, result)`: the result is one that the
/// driver's operation admits for exactly these untagged arguments, so that
/// whatever a driver's own contract says of its answer, a success or a
/// failure, holds of what is returned here.
pub trait TaggedChainDriverExt<Chain> {
    /// The type of the driver behind the tag.
    type Driver: ChainDriver;

    /// The driver behind the tag.
    spec fn driver(&self) -> &Self::Driver;

    /// The identifier of the chain as the driver gives it, tagged with the
    /// chain.
    fn chain_id(&self) -> (id: TaggedChainIdRef<'_, Chain>)
        ensures
            call_ensures(<Self::Driver as ChainDriver>::chain_id, (self.driver(),), id@),
    ;

    /// The settings for submitting transactions to the chain as the driver
    /// gives them, tagged with the chain.
    fn tx_config(&self) -> (config: MonoTagged<Chain, &TxConfig>)
        ensures
            call_ensures(<Self::Driver as ChainDriver>::tx_config, (self.driver(),), config@),
    ;

    /// Submits `messages` as one transaction signed by `wallet`, a wallet of
    /// this chain. Succeeds or fails as the driver does.
    fn send_tx(&self, wallet: &MonoTagged<Chain, &Wallet>, messages: Vec<Any>) -> (sent: Result<
        (),
        Error,
    >)
        ensures
            call_ensures(
                <Self::Driver as ChainDriver>::send_tx,
                (self.driver(), wallet@, messages),
                sent,
            ),
    ;

    /// The balance of `wallet_id`, a wallet of this chain, in `denom`, a
    /// denomination of this chain: the amount or the failure that the driver
    /// returns for the untagged address and denomination. The amount carries
    /// no marker.
    fn query_balance(
        &self,
        wallet_id: &MonoTagged<Chain, &WalletAddress>,
        denom: &MonoTagged<Chain, &Denom>,
    ) -> (balance: Result<u64, Error>)
        ensures
            call_ensures(
                <Self::Driver as ChainDriver>::query_balance,
                (self.driver(), wallet_id@, denom@),
                balance,
            ),
    ;

    /// Waits until `user`, a wallet of this chain, holds `target_amount` in
    /// `denom`, a denomination of this chain. How long to wait and how often
    /// to look is the driver's decision, and its failure is returned as it
    /// is.
    fn assert_eventual_wallet_amount(
        &self,
        user: &MonoTagged<Chain, &WalletAddress>,
        target_amount: u64,
        denom: &MonoTagged<Chain, &Denom>,
    ) -> (reached: Result<(), Error>)
        ensures
            call_ensures(
                <Self::Driver as ChainDriver>::assert_eventual_wallet_amount,
                (self.driver(), user@, target_amount, denom@),
                reached,
            ),
    ;

    /// The transactions on this chain that transferred tokens to
    /// `recipient_address`, a wallet of this chain: the document or the
    /// failure that the driver's transaction query returns for the chain
    /// identifier, command path and RPC listen address of the driver and the
    /// untagged address. The document carries no marker.
    fn query_recipient_transactions(
        &self,
        recipient_address: &MonoTagged<Chain, &WalletAddress>,
    ) -> (txs: Result<Value, Error>)
        ensures
            queried_from(self.driver(), recipient_address@, txs),
    ;
}

impl<'a, Chain, D: ChainDriver> TaggedChainDriverExt<Chain> for MonoTagged<Chain, &'a D> {
    type Driver = D;

    open spec fn driver(&self) -> &D {
        self@
    }

    fn chain_id(&self) -> (id: TaggedChainIdRef<'_, Chain>)
        ensures
            id.marker() == self.marker(),
    {
        let project = |driver: &&'a D| -> (id: &ChainId)
            ensures
                call_ensures(D::chain_id, (*driver,), id),
            {
                driver.chain_id()
            };
        self.map_ref(project)
    }

    fn tx_config(&self) -> (config: MonoTagged<Chain, &TxConfig>)
        ensures
            config.marker() == self.marker(),
    {
        let project = |driver: &&'a D| -> (config: &TxConfig)
            ensures
                call_ensures(D::tx_config, (*driver,), config),
            {
                driver.tx_config()
            };
        self.map_ref(project)
    }

    fn send_tx(&self, wallet: &MonoTagged<Chain, &Wallet>, messages: Vec<Any>) -> (sent: Result<
        (),
        Error,
    >) {
        self.value().send_tx(wallet.value(), messages)
    }

    fn query_balance(
        &self,
        wallet_id: &MonoTagged<Chain, &WalletAddress>,
        denom: &MonoTagged<Chain, &Denom>,
    ) -> (balance: Result<u64, Error>) {
        self.value().query_balance(wallet_id.value(), denom.value())
    }

    fn assert_eventual_wallet_amount(
        &self,
        user: &MonoTagged<Chain, &WalletAddress>,
        target_amount: u64,
        denom: &MonoTagged<Chain, &Denom>,
    ) -> (reached: Result<(), Error>) {
        self.value().assert_eventual_wallet_amount(user.value(), target_amount, denom.value())
    }

    fn query_recipient_transactions(
        &self,
        recipient_address: &MonoTagged<Chain, &WalletAddress>,
    ) -> (txs: Result<Value, Error>) {
        let driver = *self.value();
        let chain_id = driver.chain_id();
        let command_path = driver.command_path();
        let rpc_listen_address = driver.rpc_listen_address();
        D::query_recipient_transactions(
            chain_id.as_str(),
            command_path,
            rpc_listen_address.as_str(),
            recipient_address.value().as_str(),
        )
    }
}

} // verus!
