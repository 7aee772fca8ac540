//! The capabilities a token variant may have, each a trait of its own; a variant
//! implements those it supports.
use vstd::prelude::*;

use crate::error::TokenError;
use crate::msg::{Coin, CosmosOp, SubMsg};

verus! {

/// A token that can be sent from the contract to an address.
pub trait Token: Sized {
    /// The token's identity passed validation; every capability asks for it.
    spec fn is_checked(&self) -> bool;

    /// `op` moves `amount` of this token from the contract to `to`.
    spec fn is_transfer(&self, op: CosmosOp, to: Seq<char>, amount: u128) -> bool;

    /// The single operation that sends `amount` to `to`.
    fn transfer(&self, to: String, amount: u128) -> (r: Vec<CosmosOp>)
        requires
            self.is_checked(),
        ensures
            r@.len() == 1,
            self.is_transfer(r@[0], to@, amount),
    ;

    /// Whether tokens of this kind are held by the bank module rather than by a
    /// contract.
    spec fn native_spec() -> bool;

    /// Whether the token is held by the bank module rather than by a contract.
    fn is_native() -> (r: bool)
        ensures
            r == Self::native_spec(),
    ;
}

/// A token that the contract can mint.
pub trait Mint: Token {
    /// `op` mints `amount` of this token, credited to `sender`.
    spec fn is_mint(&self, op: CosmosOp, sender: Seq<char>, amount: u128) -> bool;

    /// `sender` is allowed to mint this token.
    spec fn may_mint(&self, sender: Seq<char>) -> bool;

    /// Mints `amount` to `sender`, then sends it on to `recipient`: two
    /// operations, in this order. A sender that may not mint gets
    /// `Unauthorized` and no operation.
    fn mint(&self, sender: String, recipient: String, amount: u128) -> (r: Result<
        Vec<CosmosOp>,
        TokenError,
    >)
        requires
            self.is_checked(),
        ensures
            r is Ok <==> self.may_mint(sender@),
            r is Err ==> r == Err::<Vec<CosmosOp>, TokenError>(TokenError::Unauthorized),
            r matches Ok(ops) ==> ops@.len() == 2 && self.is_mint(ops@[0], sender@, amount)
                && self.is_transfer(ops@[1], recipient@, amount),
    ;
}

/// A token that the contract can burn.
pub trait Burn: Token {
    /// `op` burns `amount` of this token held by `sender`.
    spec fn is_burn(&self, op: CosmosOp, sender: Seq<char>, amount: u128) -> bool;

    /// `sender` is allowed to burn this token.
    spec fn may_burn(&self, sender: Seq<char>) -> bool;

    /// The single operation that burns `amount` held by `sender`. A sender that
    /// may not burn gets `Unauthorized` and no operation.
    fn burn(&self, sender: String, amount: u128) -> (r: Result<Vec<CosmosOp>, TokenError>)
        requires
            self.is_checked(),
        ensures
            r is Ok <==> self.may_burn(sender@),
            r is Err ==> r == Err::<Vec<CosmosOp>, TokenError>(TokenError::Unauthorized),
            r matches Ok(ops) ==> ops@.len() == 1 && self.is_burn(ops@[0], sender@, amount),
    ;
}

/// A token whose receipt by the contract can be checked.
pub trait AssertReceived: Token {
    /// How much of this token `funds` holds.
    spec fn received_amount(&self, funds: Seq<Coin>) -> int;

    /// Succeeds where at least `amount` was received, else fails with
    /// `InsufficientFunds`.
    fn assert_received(&self, funds: &Vec<Coin>, amount: u128) -> (r: Result<(), TokenError>)
        requires
            self.is_checked(),
        ensures
            r is Ok <==> self.received_amount(funds@) >= amount,
            r is Err ==> r == Err::<(), TokenError>(TokenError::InsufficientFunds),
    ;
}

/// A token that is created by an operation whose acknowledgment comes later.
pub trait Instantiate: Token {
    /// What the creation needs from the caller.
    type InitInfo;

    /// What waits for the acknowledgment.
    type Pending;

    /// `sub` creates this token.
    spec fn is_creation(&self, sub: SubMsg) -> bool;

    /// `p` is the continuation that `init_info` asks for.
    spec fn is_pending_for(&self, init_info: Self::InitInfo, p: Self::Pending) -> bool;

    /// The sub-message that creates the token, with the continuation registered
    /// in `pending`.
    fn instantiate(&self, init_info: Self::InitInfo, pending: &mut Option<Self::Pending>) -> (r:
        SubMsg)
        requires
            self.is_checked(),
        ensures
            self.is_creation(r),
            *final(pending) matches Some(p) && self.is_pending_for(init_info, p),
    ;
}

/// A token that can be sent to a contract together with a message for it.
pub trait Send: Token {
    /// Sends `amount` to `contract`, which receives `msg`.
    fn send(&self, contract: String, amount: u128, msg: Vec<u8>) -> Result<
        Vec<CosmosOp>,
        TokenError,
    >;

    /// Sends `amount` of `owner`'s tokens to `contract`, which receives `msg`,
    /// under an allowance that `owner` gave.
    fn send_from(&self, owner: String, contract: String, amount: u128, msg: Vec<u8>) -> Result<
        Vec<CosmosOp>,
        TokenError,
    >;
}

/// A token that can be moved between two other addresses under an allowance.
pub trait TransferFrom: Token {
    /// Moves `amount` from `from` to `to`.
    fn transfer_from(&self, from: String, to: String, amount: u128) -> Result<
        Vec<CosmosOp>,
        TokenError,
    >;
}

} // verus!
