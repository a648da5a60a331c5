//! What a test needs from the driver of one running chain.

use crate::error::Error;
use crate::ibc::denom::Denom;
use crate::types::id::ChainId;
use crate::types::wallet::{Wallet, WalletAddress};
use vstd::prelude::*;

verus! {

/// `ibc_proto::google::protobuf::Any`, a protobuf message of any type, which
/// `ibc_proto` takes over from `tendermint_proto`. A transaction is a list of
/// these. The type is declared without its fields: nothing here looks inside
/// a message.
#[verifier::external_type_specification]
#[verifier::external_body]
pub struct ExAny(ibc_proto::google::protobuf::Any);

/// `ibc_relayer::chain::cosmos::types::config::TxConfig`, the relayer's
/// settings for signing and submitting transactions to one chain. The type is
/// declared without its fields: nothing here looks inside the settings.
#[verifier::external_type_specification]
#[verifier::external_body]
pub struct ExTxConfig(ibc_relayer::chain::cosmos::types::config::TxConfig);

/// `serde_json::Value`, a JSON document. The type is declared without its
/// variants: nothing here looks inside a document.
#[verifier::external_type_specification]
#[verifier::external_body]
pub struct ExValue(serde_json::Value);

/// The driver of one running chain: the process, its command line client
/// and its RPC endpoint.
///
/// The methods carry no contract. They talk to a running chain, and nothing
/// is assumed here of what they return: what is proved of a tagged driver
/// holds for every implementation.
pub trait ChainDriver {
    /// The identifier of the chain.
    fn chain_id(&self) -> &ChainId;

    /// The settings for signing and submitting transactions to the chain.
    fn tx_config(&self) -> &ibc_relayer::chain::cosmos::types::config::TxConfig;

    /// The path of the chain's command line client.
    fn command_path(&self) -> &str;

    /// The address on which the chain's RPC endpoint listens.
    fn rpc_listen_address(&self) -> String;

    /// Signs `messages` with `wallet` and submits them as one transaction.
    fn send_tx(&self, wallet: &Wallet, messages: Vec<ibc_proto::google::protobuf::Any>) -> Result<
        (),
        Error,
    >;

    /// The balance of `wallet_id` in `denom`.
    fn query_balance(&self, wallet_id: &WalletAddress, denom: &Denom) -> Result<u64, Error>;

    /// Waits until the balance of `user` in `denom` is `target_amount`, and
    /// fails if that does not come about in the time the driver allows.
    fn assert_eventual_wallet_amount(
        &self,
        user: &WalletAddress,
        target_amount: u64,
        denom: &Denom,
    ) -> Result<(), Error>;

    /// Asks the node at `rpc_listen_address`, through the command line client
    /// at `command_path`, for the transactions on chain `chain_id` that
    /// transferred tokens to `recipient_address`. The query takes no driver:
    /// it knows of the chain what its arguments say.
    fn query_recipient_transactions(
        chain_id: &str,
        command_path: &str,
        rpc_listen_address: &str,
        recipient_address: &str,
    ) -> Result<serde_json::Value, Error>;
}

} // verus!
