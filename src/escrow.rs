use vstd::prelude::*;
use crate::address::Address;
use crate::order::{
    authority_seeds, order_signer_seeds, Authority, EscrowError, EscrowOrder, OrderState,
    TokenAccountInfo, Transfer,
};

verus! {

/// What `init_order_handler` returns.
pub open spec fn init_result(
    seller: Address,
    seller_token_account: TokenAccountInfo,
    amount: u64,
    order_exists: bool,
) -> Result<(), EscrowError> {
    if order_exists {
        Err(EscrowError::DuplicateOrder)
    } else if seller_token_account.owner != seller {
        Err(EscrowError::AccountOwnershipMismatch)
    } else if amount == 0 {
        Err(EscrowError::ZeroAmount)
    } else {
        Ok(())
    }
}

/// Whether a deposit into `vault` may go ahead on `order`.
pub open spec fn deposit_check(order: EscrowOrder, vault: Address) -> Result<(), EscrowError> {
    if order.state != OrderState::Pending {
        Err(EscrowError::InvalidStateTransition)
    } else if vault != order.vault {
        Err(EscrowError::VaultMismatch)
    } else {
        Ok(())
    }
}

/// What `deposit_handler` returns, given whether the transfer went through.
pub open spec fn deposit_result(order: EscrowOrder, vault: Address, transferred: bool) -> Result<
    (),
    EscrowError,
> {
    match deposit_check(order, vault) {
        Err(e) => Err(e),
        Ok(()) => if transferred {
            Ok(())
        } else {
            Err(EscrowError::TransferFailed)
        },
    }
}

/// The record after `deposit_handler`: changed only when the result is `Ok`.
pub open spec fn deposit_effect(
    order: EscrowOrder,
    buyer: Address,
    source: Address,
    vault: Address,
    transferred: bool,
) -> EscrowOrder {
    if deposit_result(order, vault, transferred) is Ok {
        order.with_deposit(buyer, source)
    } else {
        order
    }
}

/// Whether a release out of `vault` to `destination` may go ahead on `order`.
pub open spec fn release_check(order: EscrowOrder, vault: Address, destination: Address) -> Result<
    (),
    EscrowError,
> {
    if order.state != OrderState::Deposited {
        Err(EscrowError::InvalidStateTransition)
    } else if vault != order.vault {
        Err(EscrowError::VaultMismatch)
    } else if destination != order.seller_token_account {
        Err(EscrowError::AccountOwnershipMismatch)
    } else {
        Ok(())
    }
}

/// What `release_handler` returns, given whether the transfer went through.
pub open spec fn release_result(
    order: EscrowOrder,
    vault: Address,
    destination: Address,
    transferred: bool,
) -> Result<(), EscrowError> {
    match release_check(order, vault, destination) {
        Err(e) => Err(e),
        Ok(()) => if transferred {
            Ok(())
        } else {
            Err(EscrowError::TransferFailed)
        },
    }
}

/// The record after `release_handler`: changed only when the result is `Ok`.
pub open spec fn release_effect(
    order: EscrowOrder,
    vault: Address,
    destination: Address,
    transferred: bool,
) -> EscrowOrder {
    if release_result(order, vault, destination, transferred) is Ok {
        order.with_settlement()
    } else {
        order
    }
}

/// Creates the record of a new order for `seller`, in state `Pending`.
///
/// `order_exists` tells whether a live order is already bound to
/// `(seller, order_id)`; the payout account must belong to the seller, and the
/// amount held in escrow must be positive.
pub fn init_order_handler(
    seller: Address,
    seller_token_account: TokenAccountInfo,
    mint: Address,
    vault: Address,
    order_id: u16,
    amount: u64,
    bump: u8,
    order_exists: bool,
) -> (r: Result<EscrowOrder, EscrowError>)
    ensures
        r is Err <==> init_result(seller, seller_token_account, amount, order_exists) is Err,
        r is Err ==> r->Err_0 == init_result(seller, seller_token_account, amount, order_exists)->Err_0,
        amount == 0 ==> r is Err,
        r is Ok ==> {
            let o = r->Ok_0;
            &&& o.amount > 0
            &&& o.seller == seller
            &&& o.seller_token_account == seller_token_account.key
            &&& o.mint == mint
            &&& o.vault == vault
            &&& o.order_id == order_id
            &&& o.amount == amount
            &&& o.bump == bump
            &&& o.buyer.is_zero()
            &&& o.buyer_token_account.is_zero()
            &&& o.state == OrderState::Pending
        },
{
    if order_exists {
        return Err(EscrowError::DuplicateOrder);
    }
    if !seller_token_account.owner.same_as(&seller) {
        return Err(EscrowError::AccountOwnershipMismatch);
    }
    if amount == 0 {
        return Err(EscrowError::ZeroAmount);
    }
    Ok(
        EscrowOrder {
            seller,
            order_id,
            bump,
            seller_token_account: seller_token_account.key,
            buyer: Address::zero(),
            buyer_token_account: Address::zero(),
            mint,
            amount,
            vault,
            state: OrderState::Pending,
        },
    )
}

/// Decides whether `buyer` may deposit into the order from `buyer_token_account`
/// through `vault`, and if so, which transfer to request: the order's full amount,
/// from the buyer's account into the order's vault, signed by the buyer.
pub fn deposit_request(
    order: &EscrowOrder,
    buyer: Address,
    buyer_token_account: Address,
    vault: Address,
) -> (r: Result<Transfer, EscrowError>)
    ensures
        r is Err <==> deposit_check(*order, vault) is Err,
        r is Err ==> r->Err_0 == deposit_check(*order, vault)->Err_0,
        r is Ok ==> {
            let t = r->Ok_0;
            &&& t.from == buyer_token_account
            &&& t.to == order.vault
            &&& t.amount == order.amount
            &&& t.authority.is_signer(buyer)
        },
{
    if order.state != OrderState::Pending {
        return Err(EscrowError::InvalidStateTransition);
    }
    if !vault.same_as(&order.vault) {
        return Err(EscrowError::VaultMismatch);
    }
    Ok(
        Transfer {
            from: buyer_token_account,
            to: order.vault,
            amount: order.amount,
            authority: Authority::Signer(buyer),
        },
    )
}

/// Records a deposit once the transfer that `deposit_request` asked for has been
/// attempted: `transferred` tells whether it went through. The record changes
/// only on success; then the buyer and its account are set and the state is
/// `Deposited`.
pub fn deposit_handler(
    order: &mut EscrowOrder,
    buyer: Address,
    buyer_token_account: Address,
    vault: Address,
    transferred: bool,
) -> (r: Result<(), EscrowError>)
    ensures
        r == deposit_result(*old(order), vault, transferred),
        *final(order) == deposit_effect(*old(order), buyer, buyer_token_account, vault, transferred),
{
    match deposit_request(order, buyer, buyer_token_account, vault) {
        Err(e) => Err(e),
        Ok(_) => {
            if !transferred {
                return Err(EscrowError::TransferFailed);
            }
            order.buyer = buyer;
            order.buyer_token_account = buyer_token_account;
            order.state = OrderState::Deposited;
            Ok(())
        },
    }
}

/// Decides whether the order's funds may be released out of `vault` to
/// `seller_token_account`, and if so, which transfer to request: the vault's
/// whole balance, to the seller's payout account, authorized by the order's
/// derived authority. Any caller may ask.
pub fn release_request(
    order: &EscrowOrder,
    vault: TokenAccountInfo,
    seller_token_account: Address,
) -> (r: Result<Transfer, EscrowError>)
    ensures
        r is Err <==> release_check(*order, vault.key, seller_token_account) is Err,
        r is Err ==> r->Err_0 == release_check(*order, vault.key, seller_token_account)->Err_0,
        r is Ok ==> {
            let t = r->Ok_0;
            &&& t.from == order.vault
            &&& t.to == order.seller_token_account
            &&& t.amount == vault.amount
            &&& t.authority.is_derived_from(authority_seeds(*order))
        },
{
    if order.state != OrderState::Deposited {
        return Err(EscrowError::InvalidStateTransition);
    }
    if !vault.key.same_as(&order.vault) {
        return Err(EscrowError::VaultMismatch);
    }
    if !seller_token_account.same_as(&order.seller_token_account) {
        return Err(EscrowError::AccountOwnershipMismatch);
    }
    Ok(
        Transfer {
            from: order.vault,
            to: order.seller_token_account,
            amount: vault.amount,
            authority: Authority::Derived(order_signer_seeds(order)),
        },
    )
}

/// Records a release once the transfer that `release_request` asked for has been
/// attempted: `transferred` tells whether it went through. The record changes
/// only on success; then the state is `Settled`.
pub fn release_handler(
    order: &mut EscrowOrder,
    vault: TokenAccountInfo,
    seller_token_account: Address,
    transferred: bool,
) -> (r: Result<(), EscrowError>)
    ensures
        r == release_result(*old(order), vault.key, seller_token_account, transferred),
        *final(order) == release_effect(*old(order), vault.key, seller_token_account, transferred),
{
    match release_request(order, vault, seller_token_account) {
        Err(e) => Err(e),
        Ok(_) => {
            if !transferred {
                return Err(EscrowError::TransferFailed);
            }
            order.state = OrderState::Settled;
            Ok(())
        },
    }
}

} // verus!
