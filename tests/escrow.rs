use sea_escrow::address::Address;
use sea_escrow::escrow::{
    deposit_handler, deposit_request, init_order_handler, release_handler, release_request,
};
use sea_escrow::order::{
    order_signer_seeds, Authority, EscrowError, EscrowOrder, OrderState, TokenAccountInfo,
};

fn addr(tag: u8) -> Address {
    let mut bytes = [0u8; 32];
    bytes[0] = tag;
    bytes[31] = tag.wrapping_mul(3);
    Address::new(bytes)
}

const SELLER: u8 = 1;
const SELLER_ACCT: u8 = 2;
const BUYER: u8 = 3;
const BUYER_ACCT: u8 = 4;
const MINT: u8 = 5;
const VAULT: u8 = 6;
const OTHER: u8 = 9;

fn account(key: u8, owner: u8, amount: u64) -> TokenAccountInfo {
    TokenAccountInfo { key: addr(key), owner: addr(owner), amount }
}

fn new_order() -> EscrowOrder {
    init_order_handler(
        addr(SELLER),
        account(SELLER_ACCT, SELLER, 0),
        addr(MINT),
        addr(VAULT),
        7,
        100,
        254,
        false,
    )
    .unwrap()
}

fn deposited_order() -> EscrowOrder {
    let mut order = new_order();
    deposit_handler(&mut order, addr(BUYER), addr(BUYER_ACCT), addr(VAULT), true).unwrap();
    order
}

fn same(a: &Address, b: &Address) -> bool {
    a.bytes == b.bytes
}

/// A tiny ledger of balances, keyed by account tag, that performs requested transfers.
struct Ledger {
    balances: Vec<(Address, u64)>,
}

impl Ledger {
    fn balance(&self, a: &Address) -> u64 {
        self.balances.iter().find(|(k, _)| same(k, a)).map(|(_, v)| *v).unwrap_or(0)
    }

    fn set(&mut self, a: &Address, v: u64) {
        match self.balances.iter_mut().find(|(k, _)| same(k, a)) {
            Some(entry) => entry.1 = v,
            None => self.balances.push((*a, v)),
        }
    }

    fn perform(&mut self, from: &Address, to: &Address, amount: u64) -> bool {
        let have = self.balance(from);
        if have < amount {
            return false;
        }
        self.set(from, have - amount);
        let dest = self.balance(to);
        self.set(to, dest + amount);
        true
    }
}

#[test]
fn create_sets_pending_order() {
    let order = new_order();
    assert_eq!(order.state, OrderState::Pending);
    assert!(same(&order.seller, &addr(SELLER)));
    assert!(same(&order.seller_token_account, &addr(SELLER_ACCT)));
    assert!(same(&order.mint, &addr(MINT)));
    assert!(same(&order.vault, &addr(VAULT)));
    assert_eq!(order.order_id, 7);
    assert_eq!(order.amount, 100);
    assert_eq!(order.bump, 254);
    assert_eq!(order.buyer.bytes, [0u8; 32]);
    assert_eq!(order.buyer_token_account.bytes, [0u8; 32]);
}

#[test]
fn create_rejects_existing_order() {
    let r = init_order_handler(
        addr(SELLER),
        account(SELLER_ACCT, SELLER, 0),
        addr(MINT),
        addr(VAULT),
        7,
        100,
        254,
        true,
    );
    assert_eq!(r.err(), Some(EscrowError::DuplicateOrder));
}

#[test]
fn create_rejects_payout_account_of_someone_else() {
    let r = init_order_handler(
        addr(SELLER),
        account(SELLER_ACCT, OTHER, 0),
        addr(MINT),
        addr(VAULT),
        7,
        100,
        254,
        false,
    );
    assert_eq!(r.err(), Some(EscrowError::AccountOwnershipMismatch));
}

#[test]
fn create_rejects_zero_amount() {
    let r = init_order_handler(
        addr(SELLER),
        account(SELLER_ACCT, SELLER, 0),
        addr(MINT),
        addr(VAULT),
        7,
        0,
        255,
        false,
    );
    assert_eq!(r.err(), Some(EscrowError::ZeroAmount));
}

#[test]
fn create_accepts_smallest_amount() {
    let r = init_order_handler(
        addr(SELLER),
        account(SELLER_ACCT, SELLER, 0),
        addr(MINT),
        addr(VAULT),
        7,
        1,
        255,
        false,
    );
    assert_eq!(r.unwrap().amount, 1);
}

#[test]
fn scenario_full_settlement() {
    let mut ledger = Ledger { balances: Vec::new() };
    ledger.set(&addr(BUYER_ACCT), 500);
    let mut order = new_order();
    assert_eq!(order.state, OrderState::Pending);

    let t = deposit_request(&order, addr(BUYER), addr(BUYER_ACCT), addr(VAULT)).unwrap();
    assert!(same(&t.from, &addr(BUYER_ACCT)));
    assert!(same(&t.to, &addr(VAULT)));
    assert_eq!(t.amount, 100);
    match &t.authority {
        Authority::Signer(a) => assert!(same(a, &addr(BUYER))),
        Authority::Derived(_) => panic!("a deposit is signed by the buyer"),
    }
    let ok = ledger.perform(&t.from, &t.to, t.amount);
    assert!(ok);
    assert_eq!(deposit_handler(&mut order, addr(BUYER), addr(BUYER_ACCT), addr(VAULT), ok), Ok(()));
    assert_eq!(order.state, OrderState::Deposited);
    assert!(same(&order.buyer, &addr(BUYER)));
    assert!(same(&order.buyer_token_account, &addr(BUYER_ACCT)));
    assert_eq!(ledger.balance(&addr(VAULT)), 100);

    let vault = account(VAULT, VAULT, ledger.balance(&addr(VAULT)));
    let t = release_request(&order, vault, addr(SELLER_ACCT)).unwrap();
    assert!(same(&t.from, &addr(VAULT)));
    assert!(same(&t.to, &addr(SELLER_ACCT)));
    assert_eq!(t.amount, 100);
    match &t.authority {
        Authority::Derived(seeds) => {
            let mut seller = vec![0u8; 32];
            seller[0] = SELLER;
            seller[31] = SELLER.wrapping_mul(3);
            assert_eq!(seeds, &vec![b"order".to_vec(), seller, vec![7u8, 0u8], vec![254u8]]);
        }
        Authority::Signer(_) => panic!("a release is authorized by the order's derived authority"),
    }
    let ok = ledger.perform(&t.from, &t.to, t.amount);
    assert!(ok);
    assert_eq!(release_handler(&mut order, vault, addr(SELLER_ACCT), ok), Ok(()));
    assert_eq!(order.state, OrderState::Settled);
    assert_eq!(ledger.balance(&addr(SELLER_ACCT)), 100);
    assert_eq!(ledger.balance(&addr(VAULT)), 0);
}

#[test]
fn scenario_second_deposit_fails() {
    let mut ledger = Ledger { balances: Vec::new() };
    ledger.set(&addr(BUYER_ACCT), 500);
    let mut order = new_order();
    let t = deposit_request(&order, addr(BUYER), addr(BUYER_ACCT), addr(VAULT)).unwrap();
    let ok = ledger.perform(&t.from, &t.to, t.amount);
    deposit_handler(&mut order, addr(BUYER), addr(BUYER_ACCT), addr(VAULT), ok).unwrap();
    assert_eq!(ledger.balance(&addr(VAULT)), 100);

    let before = order;
    let r = deposit_request(&order, addr(BUYER), addr(BUYER_ACCT), addr(VAULT));
    assert_eq!(r.err(), Some(EscrowError::InvalidStateTransition));
    let r = deposit_handler(&mut order, addr(BUYER), addr(BUYER_ACCT), addr(VAULT), true);
    assert_eq!(r, Err(EscrowError::InvalidStateTransition));
    assert_eq!(ledger.balance(&addr(VAULT)), 100);
    assert_eq!(order.state, before.state);
    assert!(same(&order.buyer, &before.buyer));
}

#[test]
fn scenario_release_before_deposit_fails() {
    let mut order = new_order();
    let vault = account(VAULT, VAULT, 0);
    let r = release_request(&order, vault, addr(SELLER_ACCT));
    assert_eq!(r.err(), Some(EscrowError::InvalidStateTransition));
    let r = release_handler(&mut order, vault, addr(SELLER_ACCT), true);
    assert_eq!(r, Err(EscrowError::InvalidStateTransition));
    assert_eq!(order.state, OrderState::Pending);
}

#[test]
fn scenario_deposit_to_wrong_vault_fails() {
    let mut order = new_order();
    let r = deposit_request(&order, addr(BUYER), addr(BUYER_ACCT), addr(OTHER));
    assert_eq!(r.err(), Some(EscrowError::VaultMismatch));
    let r = deposit_handler(&mut order, addr(BUYER), addr(BUYER_ACCT), addr(OTHER), true);
    assert_eq!(r, Err(EscrowError::VaultMismatch));
    assert_eq!(order.state, OrderState::Pending);
    assert_eq!(order.buyer.bytes, [0u8; 32]);
}

#[test]
fn deposit_with_failed_transfer_changes_nothing() {
    let mut order = new_order();
    let r = deposit_handler(&mut order, addr(BUYER), addr(BUYER_ACCT), addr(VAULT), false);
    assert_eq!(r, Err(EscrowError::TransferFailed));
    assert_eq!(order.state, OrderState::Pending);
    assert_eq!(order.buyer.bytes, [0u8; 32]);
}

#[test]
fn release_to_wrong_account_fails() {
    let mut order = deposited_order();
    let vault = account(VAULT, VAULT, 100);
    let r = release_request(&order, vault, addr(OTHER));
    assert_eq!(r.err(), Some(EscrowError::AccountOwnershipMismatch));
    let r = release_handler(&mut order, vault, addr(OTHER), true);
    assert_eq!(r, Err(EscrowError::AccountOwnershipMismatch));
    assert_eq!(order.state, OrderState::Deposited);
}

#[test]
fn release_from_wrong_vault_fails() {
    let mut order = deposited_order();
    let vault = account(OTHER, VAULT, 100);
    let r = release_handler(&mut order, vault, addr(SELLER_ACCT), true);
    assert_eq!(r, Err(EscrowError::VaultMismatch));
    assert_eq!(order.state, OrderState::Deposited);
}

#[test]
fn release_with_failed_transfer_changes_nothing() {
    let mut order = deposited_order();
    let vault = account(VAULT, VAULT, 100);
    let r = release_handler(&mut order, vault, addr(SELLER_ACCT), false);
    assert_eq!(r, Err(EscrowError::TransferFailed));
    assert_eq!(order.state, OrderState::Deposited);
}

#[test]
fn settled_order_accepts_no_more_operations() {
    let mut order = deposited_order();
    let vault = account(VAULT, VAULT, 100);
    release_handler(&mut order, vault, addr(SELLER_ACCT), true).unwrap();
    let r = deposit_handler(&mut order, addr(BUYER), addr(BUYER_ACCT), addr(VAULT), true);
    assert_eq!(r, Err(EscrowError::InvalidStateTransition));
    let r = release_handler(&mut order, vault, addr(SELLER_ACCT), true);
    assert_eq!(r, Err(EscrowError::InvalidStateTransition));
    assert_eq!(order.state, OrderState::Settled);
}

#[test]
fn repeated_failures_give_the_same_error() {
    let mut order = new_order();
    for _ in 0..5 {
        let r = deposit_handler(&mut order, addr(BUYER), addr(BUYER_ACCT), addr(OTHER), true);
        assert_eq!(r, Err(EscrowError::VaultMismatch));
        assert_eq!(order.state, OrderState::Pending);
        assert_eq!(order.buyer.bytes, [0u8; 32]);
        let r = release_handler(&mut order, account(VAULT, VAULT, 0), addr(SELLER_ACCT), true);
        assert_eq!(r, Err(EscrowError::InvalidStateTransition));
        assert_eq!(order.state, OrderState::Pending);
    }
}

#[test]
fn buyer_is_not_rewritten_after_deposit() {
    let mut order = deposited_order();
    let r = deposit_handler(&mut order, addr(OTHER), addr(OTHER), addr(VAULT), true);
    assert_eq!(r, Err(EscrowError::InvalidStateTransition));
    assert!(same(&order.buyer, &addr(BUYER)));
    assert!(same(&order.buyer_token_account, &addr(BUYER_ACCT)));
}

#[test]
fn signer_seeds_encode_identifier_little_endian() {
    let mut order = new_order();
    order.order_id = 0x1234;
    order.bump = 3;
    let seeds = order_signer_seeds(&order);
    assert_eq!(seeds.len(), 4);
    assert_eq!(seeds[0], b"order".to_vec());
    assert_eq!(seeds[1], addr(SELLER).bytes.to_vec());
    assert_eq!(seeds[2], vec![0x34u8, 0x12u8]);
    assert_eq!(seeds[3], vec![3u8]);
}

#[test]
fn default_state_is_pending() {
    assert_eq!(OrderState::default(), OrderState::Pending);
}

#[test]
fn addresses_compare_by_bytes() {
    assert!(addr(1).same_as(&addr(1)));
    assert!(!addr(1).same_as(&addr(2)));
    let mut b = addr(1).bytes;
    b[17] = 9;
    assert!(!addr(1).same_as(&Address::new(b)));
    assert!(Address::zero().bytes.iter().all(|x| *x == 0));
}
