//! The tagged container on concrete values.

use std::any::TypeId;
use std::mem::size_of;

use tagged_chain::types::id::{ChainId, TaggedChainIdRef};
use tagged_chain::types::tagged::MonoTagged;
use tagged_chain::types::wallet::{Wallet, WalletAddress, WalletId};

struct ChainA;

struct ChainB;

fn alice() -> Wallet {
    Wallet {
        id: WalletId("alice".to_string()),
        address: WalletAddress("cosmos1alice".to_string()),
        key: vec![1, 2, 3],
    }
}

/// Accepts only what belongs to chain A.
fn address_on_a(address: &MonoTagged<ChainA, &WalletAddress>) -> String {
    address.value().as_str().to_string()
}

/// Accepts only what belongs to chain B.
fn address_on_b(address: &MonoTagged<ChainB, &WalletAddress>) -> String {
    address.value().as_str().to_string()
}

#[test]
fn new_then_value_gives_the_value_back() {
    let tagged: MonoTagged<ChainA, u64> = MonoTagged::new(42);
    assert_eq!(*tagged.value(), 42);
}

#[test]
fn new_then_into_value_gives_the_value_back() {
    let tagged: MonoTagged<ChainA, String> = MonoTagged::new("samoleans".to_string());
    assert_eq!(tagged.into_value(), "samoleans".to_string());
}

#[test]
fn new_keeps_an_empty_value() {
    let tagged: MonoTagged<ChainA, Vec<u8>> = MonoTagged::new(Vec::new());
    assert!(tagged.value().is_empty());
    assert_eq!(tagged.into_value(), Vec::<u8>::new());
}

#[test]
fn value_borrows_without_moving() {
    let tagged: MonoTagged<ChainA, Wallet> = MonoTagged::new(alice());
    assert_eq!(tagged.value(), &alice());
    assert_eq!(tagged.value(), &alice());
    assert_eq!(tagged.into_value(), alice());
}

#[test]
fn as_ref_refers_to_the_same_value() {
    let tagged: MonoTagged<ChainA, Wallet> = MonoTagged::new(alice());
    let borrowed: MonoTagged<ChainA, &Wallet> = tagged.as_ref();
    assert_eq!(*borrowed.value(), &alice());
    assert!(std::ptr::eq(*borrowed.value(), tagged.value()));
}

#[test]
fn map_applies_the_function_once_to_the_value() {
    let tagged: MonoTagged<ChainA, u64> = MonoTagged::new(20);
    let mut calls = 0;
    let doubled: MonoTagged<ChainA, u64> = tagged.map(|amount| {
        calls += 1;
        *amount * 2
    });
    assert_eq!(*doubled.value(), 40);
    assert_eq!(calls, 1);
    assert_eq!(*tagged.value(), 20);
}

#[test]
fn map_may_change_the_type_of_the_value() {
    let tagged: MonoTagged<ChainA, Wallet> = MonoTagged::new(alice());
    let key_length: MonoTagged<ChainA, usize> = tagged.map(|wallet| wallet.key.len());
    assert_eq!(key_length.into_value(), 3);
}

#[test]
fn map_ref_selects_a_field() {
    let tagged: MonoTagged<ChainA, Wallet> = MonoTagged::new(alice());
    let address: MonoTagged<ChainA, &WalletAddress> = tagged.map_ref(|wallet| &wallet.address);
    assert_eq!(*address.value(), &WalletAddress("cosmos1alice".to_string()));
    assert!(std::ptr::eq(*address.value(), &tagged.value().address));
}

#[test]
fn map_ref_may_select_an_unsized_value() {
    let tagged: MonoTagged<ChainA, ChainId> = MonoTagged::new(ChainId("ibc-0".to_string()));
    let text: MonoTagged<ChainA, &str> = tagged.map_ref(|id| id.as_str());
    assert_eq!(*text.value(), "ibc-0");
}

#[test]
fn map_into_consumes_the_value() {
    let tagged: MonoTagged<ChainA, Wallet> = MonoTagged::new(alice());
    let address: MonoTagged<ChainA, WalletAddress> = tagged.map_into(|wallet| wallet.address);
    assert_eq!(address.into_value(), WalletAddress("cosmos1alice".to_string()));
}

#[test]
fn projections_keep_the_marker() {
    let wallet: MonoTagged<ChainA, Wallet> = MonoTagged::new(alice());
    let by_reference = wallet.as_ref();
    let by_field = by_reference.map_ref(|wallet| &wallet.address);
    assert_eq!(address_on_a(&by_field), "cosmos1alice");
    let by_value = wallet.map(|wallet| wallet.address.clone());
    assert_eq!(address_on_a(&by_value.as_ref()), "cosmos1alice");
    let by_move = wallet.map_into(|wallet| wallet.address);
    assert_eq!(address_on_a(&by_move.as_ref()), "cosmos1alice");
}

#[test]
fn retag_keeps_the_value_and_changes_the_marker() {
    let on_a: MonoTagged<ChainA, WalletAddress> =
        MonoTagged::new(WalletAddress("cosmos1alice".to_string()));
    assert_eq!(address_on_a(&on_a.as_ref()), "cosmos1alice");
    let on_b: MonoTagged<ChainB, WalletAddress> = on_a.retag();
    assert_eq!(address_on_b(&on_b.as_ref()), "cosmos1alice");
    assert_eq!(on_b.into_value(), WalletAddress("cosmos1alice".to_string()));
}

#[test]
fn chain_id_as_str_is_the_identifier() {
    assert_eq!(ChainId("ibc-0".to_string()).as_str(), "ibc-0");
    assert_eq!(ChainId(String::new()).as_str(), "");
}

#[test]
fn wallet_address_as_str_is_the_address() {
    assert_eq!(WalletAddress("cosmos1alice".to_string()).as_str(), "cosmos1alice");
    assert_eq!(WalletAddress(String::new()).as_str(), "");
}

#[test]
fn tagged_chain_id_ref_is_a_tagged_reference() {
    let id = ChainId("ibc-1".to_string());
    let tagged: TaggedChainIdRef<'_, ChainB> = MonoTagged::new(&id);
    assert_eq!(tagged.value().as_str(), "ibc-1");
}

#[test]
fn values_of_two_chains_have_different_types() {
    assert_ne!(
        TypeId::of::<MonoTagged<ChainA, WalletAddress>>(),
        TypeId::of::<MonoTagged<ChainB, WalletAddress>>()
    );
    assert_eq!(
        TypeId::of::<MonoTagged<ChainA, WalletAddress>>(),
        TypeId::of::<MonoTagged<ChainA, WalletAddress>>()
    );
}

#[test]
fn the_marker_takes_no_room() {
    assert_eq!(size_of::<MonoTagged<ChainA, u64>>(), size_of::<u64>());
    assert_eq!(size_of::<MonoTagged<ChainB, Wallet>>(), size_of::<Wallet>());
    assert_eq!(size_of::<MonoTagged<ChainA, &Wallet>>(), size_of::<&Wallet>());
}
