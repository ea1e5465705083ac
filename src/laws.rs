use vstd::prelude::*;
use crate::address::Address;
use crate::escrow::{
    deposit_check, deposit_effect, deposit_result, release_check, release_effect, release_result,
};
use crate::order::{allowed_step, state_rank, EscrowError, EscrowOrder, OrderState};

verus! {

/// One call of an operation on an existing order, with its inputs and whether
/// the transfer that it asked for went through.
pub enum Operation {
    Deposit { buyer: Address, source: Address, vault: Address, transferred: bool },
    Release { vault: Address, destination: Address, transferred: bool },
}

/// The record after one operation.
pub open spec fn apply(order: EscrowOrder, op: Operation) -> EscrowOrder {
    match op {
        Operation::Deposit { buyer, source, vault, transferred } => deposit_effect(
            order,
            buyer,
            source,
            vault,
            transferred,
        ),
        Operation::Release { vault, destination, transferred } => release_effect(
            order,
            vault,
            destination,
            transferred,
        ),
    }
}

/// The record after a sequence of operations, applied in order.
pub open spec fn run(order: EscrowOrder, ops: Seq<Operation>) -> EscrowOrder
    decreases ops.len(),
{
    if ops.len() == 0 {
        order
    } else {
        run(apply(order, ops[0]), ops.drop_first())
    }
}

/// The record after the same deposit has been attempted `n` times.
pub open spec fn repeat_deposit(
    order: EscrowOrder,
    buyer: Address,
    source: Address,
    vault: Address,
    transferred: bool,
    n: nat,
) -> EscrowOrder
    decreases n,
{
    if n == 0 {
        order
    } else {
        deposit_effect(
            repeat_deposit(order, buyer, source, vault, transferred, (n - 1) as nat),
            buyer,
            source,
            vault,
            transferred,
        )
    }
}

/// The record after the same release has been attempted `n` times.
pub open spec fn repeat_release(
    order: EscrowOrder,
    vault: Address,
    destination: Address,
    transferred: bool,
    n: nat,
) -> EscrowOrder
    decreases n,
{
    if n == 0 {
        order
    } else {
        release_effect(
            repeat_release(order, vault, destination, transferred, (n - 1) as nat),
            vault,
            destination,
            transferred,
        )
    }
}

/// An allowed step never lowers the rank of the state.
pub proof fn lemma_allowed_step_keeps_rank(from: OrderState, to: OrderState)
    requires
        allowed_step(from, to),
    ensures
        state_rank(to) >= state_rank(from),
{
}

/// Every operation moves the state by an allowed step, keeps the terms fixed at
/// creation, and leaves the buyer alone once a deposit has been recorded.
pub proof fn lemma_operation_steps_forward(order: EscrowOrder, op: Operation)
    ensures
        allowed_step(order.state, apply(order, op).state),
        state_rank(apply(order, op).state) >= state_rank(order.state),
        apply(order, op).same_terms(&order),
        order.state != OrderState::Pending ==> apply(order, op).buyer == order.buyer
            && apply(order, op).buyer_token_account == order.buyer_token_account,
{
}

/// No sequence of operations moves an order's state backward: its rank never
/// falls, the terms fixed at creation never change, and once a deposit has been
/// recorded the buyer and its account are never rewritten.
pub proof fn lemma_state_never_goes_back(order: EscrowOrder, ops: Seq<Operation>)
    ensures
        state_rank(run(order, ops).state) >= state_rank(order.state),
        run(order, ops).same_terms(&order),
        order.state != OrderState::Pending ==> run(order, ops).buyer == order.buyer
            && run(order, ops).buyer_token_account == order.buyer_token_account,
    decreases ops.len(),
{
    if ops.len() > 0 {
        let next = apply(order, ops[0]);
        lemma_operation_steps_forward(order, ops[0]);
        lemma_state_never_goes_back(next, ops.drop_first());
    }
}

/// A deposit on an order that is not `Pending` fails with
/// `InvalidStateTransition`, asks for no transfer, and leaves the record unchanged.
pub proof fn lemma_deposit_only_when_pending(
    order: EscrowOrder,
    buyer: Address,
    source: Address,
    vault: Address,
    transferred: bool,
)
    requires
        order.state != OrderState::Pending,
    ensures
        deposit_check(order, vault) == Err::<(), EscrowError>(EscrowError::InvalidStateTransition),
        deposit_result(order, vault, transferred) == Err::<(), EscrowError>(
            EscrowError::InvalidStateTransition,
        ),
        deposit_effect(order, buyer, source, vault, transferred) == order,
{
}

/// A release on an order that is not `Deposited` fails with
/// `InvalidStateTransition`, asks for no transfer, and leaves the record unchanged.
pub proof fn lemma_release_only_when_deposited(
    order: EscrowOrder,
    vault: Address,
    destination: Address,
    transferred: bool,
)
    requires
        order.state != OrderState::Deposited,
    ensures
        release_check(order, vault, destination) == Err::<(), EscrowError>(
            EscrowError::InvalidStateTransition,
        ),
        release_result(order, vault, destination, transferred) == Err::<(), EscrowError>(
            EscrowError::InvalidStateTransition,
        ),
        release_effect(order, vault, destination, transferred) == order,
{
}

/// On a deposited order, a release to any account other than the seller's payout
/// account fails with `VaultMismatch` or `AccountOwnershipMismatch`, asks for no
/// transfer, and leaves the record unchanged.
pub proof fn lemma_release_only_to_payout_account(
    order: EscrowOrder,
    vault: Address,
    destination: Address,
    transferred: bool,
)
    requires
        order.state == OrderState::Deposited,
        destination != order.seller_token_account,
    ensures
        release_check(order, vault, destination) is Err,
        release_result(order, vault, destination, transferred) == Err::<(), EscrowError>(
            EscrowError::VaultMismatch,
        ) || release_result(order, vault, destination, transferred) == Err::<(), EscrowError>(
            EscrowError::AccountOwnershipMismatch,
        ),
        release_effect(order, vault, destination, transferred) == order,
{
}

/// A deposit that failed fails again with the same error however often it is
/// repeated with the same inputs, and the record stays as it was.
pub proof fn lemma_failed_deposit_repeats(
    order: EscrowOrder,
    buyer: Address,
    source: Address,
    vault: Address,
    transferred: bool,
    n: nat,
)
    requires
        deposit_result(order, vault, transferred) is Err,
    ensures
        repeat_deposit(order, buyer, source, vault, transferred, n) == order,
        deposit_result(repeat_deposit(order, buyer, source, vault, transferred, n), vault, transferred)
            == deposit_result(order, vault, transferred),
    decreases n,
{
    if n > 0 {
        lemma_failed_deposit_repeats(order, buyer, source, vault, transferred, (n - 1) as nat);
    }
}

/// A release that failed fails again with the same error however often it is
/// repeated with the same inputs, and the record stays as it was.
pub proof fn lemma_failed_release_repeats(
    order: EscrowOrder,
    vault: Address,
    destination: Address,
    transferred: bool,
    n: nat,
)
    requires
        release_result(order, vault, destination, transferred) is Err,
    ensures
        repeat_release(order, vault, destination, transferred, n) == order,
        release_result(repeat_release(order, vault, destination, transferred, n), vault, destination, transferred)
            == release_result(order, vault, destination, transferred),
    decreases n,
{
    if n > 0 {
        lemma_failed_release_repeats(order, vault, destination, transferred, (n - 1) as nat);
    }
}

} // verus!
