//! A counter owned by the user who created it.
use crate::errors::ConstraintError;
use crate::keys::Address;
use vstd::prelude::*;

verus! {

/// The counter account: its owner and its count.
#[derive(Clone, Copy, Debug, PartialEq, Eq)]
pub struct Counter {
    pub user: Address,
    pub count: u8,
}

/// Accounts of `create_counter`: the signer and the freshly allocated counter.
#[derive(Clone, Copy, Debug, PartialEq, Eq)]
pub struct CreateCounter {
    pub user: Address,
    pub counter: Counter,
}

/// Accounts of `increment_counter` and `decrement_counter`: the signer and
/// the counter, which must name the signer as its user.
#[derive(Clone, Copy, Debug, PartialEq, Eq)]
pub struct UpdateCounter {
    pub user: Address,
    pub counter: Counter,
}

/// Whether the counter names the signer as its user (`has_one = user`).
pub open spec fn owned_by_signer(accounts: UpdateCounter) -> bool {
    accounts.counter.user@ == accounts.user@
}

/// The counter that `create_counter` leaves for `user`.
pub open spec fn created_counter(user: Address) -> Counter {
    Counter { user, count: 0 }
}

/// The counter after one increment.
pub open spec fn incremented(c: Counter) -> Counter {
    Counter { count: (c.count + 1) as u8, ..c }
}

/// The counter after one decrement.
pub open spec fn decremented(c: Counter) -> Counter {
    Counter { count: (c.count - 1) as u8, ..c }
}

/// Starts the counter at zero, owned by the signer.
pub fn create_counter(accounts: &mut CreateCounter)
    ensures
        final(accounts).counter == created_counter(old(accounts).user),
        final(accounts).user == old(accounts).user,
{
    accounts.counter.count = 0;
    accounts.counter.user = accounts.user;
}

/// Adds one to the count, once the signer is checked to be the counter's user.
pub fn increment_counter(accounts: &mut UpdateCounter) -> (r: Result<(), ConstraintError>)
    requires
        owned_by_signer(*old(accounts)) ==> old(accounts).counter.count < u8::MAX,
    ensures
        r is Ok <==> owned_by_signer(*old(accounts)),
        r is Ok ==> final(accounts).counter == incremented(old(accounts).counter),
        r matches Err(e) ==> e == ConstraintError::ConstraintHasOne && *final(accounts) == *old(accounts),
        final(accounts).user == old(accounts).user,
{
    if !accounts.counter.user.same_as(&accounts.user) {
        return Err(ConstraintError::ConstraintHasOne);
    }
    accounts.counter.count = accounts.counter.count + 1;
    Ok(())
}

/// Takes one from the count, once the signer is checked to be the counter's user.
pub fn decrement_counter(accounts: &mut UpdateCounter) -> (r: Result<(), ConstraintError>)
    requires
        owned_by_signer(*old(accounts)) ==> old(accounts).counter.count > 0,
    ensures
        r is Ok <==> owned_by_signer(*old(accounts)),
        r is Ok ==> final(accounts).counter == decremented(old(accounts).counter),
        r matches Err(e) ==> e == ConstraintError::ConstraintHasOne && *final(accounts) == *old(accounts),
        final(accounts).user == old(accounts).user,
{
    if !accounts.counter.user.same_as(&accounts.user) {
        return Err(ConstraintError::ConstraintHasOne);
    }
    accounts.counter.count = accounts.counter.count - 1;
    Ok(())
}

/// A decrement undoes an increment.
pub proof fn lemma_decrement_undoes_increment(c: Counter)
    requires
        c.count < u8::MAX,
    ensures
        decremented(incremented(c)) == c,
{
}

/// An increment undoes a decrement.
pub proof fn lemma_increment_undoes_decrement(c: Counter)
    requires
        c.count > 0,
    ensures
        incremented(decremented(c)) == c,
{
}

/// An increment adds exactly one to the count and keeps the owner.
pub proof fn lemma_increment_adds_one(c: Counter)
    requires
        c.count < u8::MAX,
    ensures
        incremented(c).count == c.count + 1,
        incremented(c).user == c.user,
{
}

/// A decrement takes exactly one from the count and keeps the owner.
pub proof fn lemma_decrement_takes_one(c: Counter)
    requires
        c.count > 0,
    ensures
        decremented(c).count == c.count - 1,
        decremented(c).user == c.user,
{
}

/// A new counter starts at zero, owned by its creator.
pub proof fn lemma_created_counter_starts_at_zero(user: Address)
    ensures
        created_counter(user).count == 0,
        created_counter(user).user == user,
{
}

} // verus!
