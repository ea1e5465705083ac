use vstd::prelude::*;
use crate::address::Address;

verus! {

/// Where an order stands in its lifecycle.
///
/// `Dispute` and `Refunded` are part of the stored format, but no operation of
/// this library enters them.
#[derive(Clone, Copy, Debug, PartialEq, Eq, Structural)]
pub enum OrderState {
    Pending,
    Deposited,
    Dispute,
    Settled,
    Refunded,
}

impl Default for OrderState {
    fn default() -> (r: OrderState)
        ensures
            r == OrderState::Pending,
    {
        OrderState::Pending
    }
}

/// How far along the lifecycle a state lies; a state may only move to one of
/// equal or higher rank.
pub open spec fn state_rank(s: OrderState) -> nat {
    match s {
        OrderState::Pending => 0,
        OrderState::Deposited => 1,
        OrderState::Dispute => 2,
        OrderState::Settled => 3,
        OrderState::Refunded => 3,
    }
}

/// The transitions that the lifecycle allows: staying put, or one step forward.
pub open spec fn allowed_step(from: OrderState, to: OrderState) -> bool {
    ||| to == from
    ||| (from == OrderState::Pending && to == OrderState::Deposited)
    ||| (from == OrderState::Deposited && to == OrderState::Settled)
    ||| (from == OrderState::Deposited && to == OrderState::Dispute)
    ||| (from == OrderState::Dispute && to == OrderState::Settled)
    ||| (from == OrderState::Dispute && to == OrderState::Refunded)
}

/// The persistent record of one escrow.
///
/// `seller_token_account` is the payout account that released funds must reach;
/// `buyer` and `buyer_token_account` stay zero until the deposit is recorded.
/// `bump` is the disambiguation byte of the order's derived vault authority.
#[derive(Clone, Copy, Debug)]
pub struct EscrowOrder {
    pub seller: Address,
    pub order_id: u16,
    pub bump: u8,
    pub seller_token_account: Address,
    pub buyer: Address,
    pub buyer_token_account: Address,
    pub mint: Address,
    pub amount: u64,
    pub vault: Address,
    pub state: OrderState,
}

impl EscrowOrder {
    /// The fields that never change after creation are equal in both records.
    pub open spec fn same_terms(&self, other: &EscrowOrder) -> bool {
        &&& self.seller == other.seller
        &&& self.order_id == other.order_id
        &&& self.bump == other.bump
        &&& self.seller_token_account == other.seller_token_account
        &&& self.mint == other.mint
        &&& self.amount == other.amount
        &&& self.vault == other.vault
    }

    /// The record after a deposit by `buyer` from `source` has been recorded.
    pub open spec fn with_deposit(self, buyer: Address, source: Address) -> EscrowOrder {
        EscrowOrder { buyer, buyer_token_account: source, state: OrderState::Deposited, ..self }
    }

    /// The record after its funds have been released to the seller.
    pub open spec fn with_settlement(self) -> EscrowOrder {
        EscrowOrder { state: OrderState::Settled, ..self }
    }
}

/// What the logic reads of a token account: its address, the identity that owns
/// it and its balance.
#[derive(Clone, Copy, Debug)]
pub struct TokenAccountInfo {
    pub key: Address,
    pub owner: Address,
    pub amount: u64,
}

/// Why an operation on an order was refused.
#[derive(Clone, Copy, Debug, PartialEq, Eq, Structural)]
pub enum EscrowError {
    InvalidStateTransition,
    VaultMismatch,
    AccountOwnershipMismatch,
    DuplicateOrder,
    TransferFailed,
    AuthorizationFailed,
    ZeroAmount,
}

/// Who authorizes a token transfer.
#[derive(Debug)]
pub enum Authority {
    /// The owner of the source account, by its signature on the call.
    Signer(Address),
    /// The order's derived authority, reproduced from these seeds.
    Derived(Vec<Vec<u8>>),
}

/// A token transfer that an operation asks the token program to perform.
#[derive(Debug)]
pub struct Transfer {
    pub from: Address,
    pub to: Address,
    pub amount: u64,
    pub authority: Authority,
}

/// The seeds as byte sequences.
pub open spec fn seeds_view(seeds: Seq<Vec<u8>>) -> Seq<Seq<u8>> {
    seeds.map_values(|v: Vec<u8>| v@)
}

impl Authority {
    pub open spec fn is_signer(&self, who: Address) -> bool {
        match self {
            Authority::Signer(a) => *a == who,
            Authority::Derived(_) => false,
        }
    }

    pub open spec fn is_derived_from(&self, seeds: Seq<Seq<u8>>) -> bool {
        match self {
            Authority::Signer(_) => false,
            Authority::Derived(s) => seeds_view(s@) == seeds,
        }
    }
}

/// The ASCII bytes of `order`, the first seed of every order's authority.
pub open spec fn order_seed_prefix() -> Seq<u8> {
    seq![0x6fu8, 0x72u8, 0x64u8, 0x65u8, 0x72u8]
}

/// A 16-bit integer as two little-endian bytes.
pub open spec fn le_bytes_u16(x: u16) -> Seq<u8> {
    seq![(x % 256) as u8, (x / 256) as u8]
}

/// The seeds from which an order's vault authority is derived:
/// `order`, the seller, the order identifier and the disambiguation byte.
pub open spec fn authority_seeds(order: EscrowOrder) -> Seq<Seq<u8>> {
    seq![order_seed_prefix(), order.seller.bytes@, le_bytes_u16(order.order_id), seq![order.bump]]
}

fn prefix_seed() -> (r: Vec<u8>)
    ensures
        r@ == order_seed_prefix(),
{
    let r: Vec<u8> = vec![0x6fu8, 0x72u8, 0x64u8, 0x65u8, 0x72u8];
    proof {
        assert(r@ =~= order_seed_prefix());
    }
    r
}

fn address_seed(a: &Address) -> (r: Vec<u8>)
    ensures
        r@ == a.bytes@,
{
    let mut r: Vec<u8> = Vec::new();
    let mut i: usize = 0;
    while i < 32
        invariant
            0 <= i <= 32,
            r@ == a.bytes@.subrange(0, i as int),
        decreases 32 - i,
    {
        r.push(a.bytes[i]);
        i = i + 1;
        proof {
            assert(r@ =~= a.bytes@.subrange(0, i as int));
        }
    }
    proof {
        assert(a.bytes@ =~= a.bytes@.subrange(0, 32));
    }
    r
}

/// Builds the seeds that reproduce the order's derived vault authority.
pub fn order_signer_seeds(order: &EscrowOrder) -> (r: Vec<Vec<u8>>)
    ensures
        seeds_view(r@) == authority_seeds(*order),
{
    let id_lo: u8 = (order.order_id % 256) as u8;
    let id_hi: u8 = (order.order_id / 256) as u8;
    let id: Vec<u8> = vec![id_lo, id_hi];
    let bump: Vec<u8> = vec![order.bump];
    let r: Vec<Vec<u8>> = vec![prefix_seed(), address_seed(&order.seller), id, bump];
    proof {
        assert(id@ =~= le_bytes_u16(order.order_id));
        assert(bump@ =~= seq![order.bump]);
        assert(seeds_view(r@) =~= authority_seeds(*order));
    }
    r
}

} // verus!
