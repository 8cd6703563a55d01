//! The two checks that weigh three states against each other: the state that
//! is wanted, the state that was witnessed before remediation began, and the
//! state that is observed now.

use vstd::prelude::*;

verus! {

/// Whether an administrator check passes.
///
/// It passes where the user is an administrator, should be one and was one;
/// where the privilege was rightly added; and where it was rightly removed.
/// Every other combination fails, among them a user who never was an
/// administrator, should not be one and is none.
pub open spec fn administrator_passes(should_be: bool, initial_admin: bool, is_admin: bool) -> bool {
    ||| should_be && initial_admin && is_admin
    ||| is_admin && !initial_admin && should_be
    ||| !is_admin && initial_admin && !should_be
}

/// Whether a user check passes.
///
/// It passes where the account exists, should exist, did exist and is not the
/// primary user's; where the account was rightly created; and where it was
/// rightly removed. Every other combination fails, among them an account that
/// never existed, should not exist and does not, and the primary user's
/// account where it was there from the start.
pub open spec fn user_passes(
    should_exist: bool,
    is_primary_user: bool,
    does_exist: bool,
    exists_now: bool,
) -> bool {
    ||| should_exist && does_exist && exists_now && !is_primary_user
    ||| exists_now && !does_exist && should_exist
    ||| !exists_now && does_exist && !should_exist
}

/// Whether the first rule of the user check applies: the account exists,
/// should exist, did exist and is not the primary user's.
pub open spec fn user_kept(
    should_exist: bool,
    is_primary_user: bool,
    does_exist: bool,
    exists_now: bool,
) -> bool {
    should_exist && does_exist && exists_now && !is_primary_user
}

/// Whether the user directory lists an account of exactly this name.
pub open spec fn account_listed(accounts: Seq<Option<Seq<char>>>, user: Seq<char>) -> bool {
    accounts.contains(Some(user))
}

/// Decides an administrator check from its three states.
pub fn administrator_outcome(should_be: bool, initial_admin: bool, is_admin: bool) -> (passes: bool)
    ensures
        passes == administrator_passes(should_be, initial_admin, is_admin),
{
    if should_be && initial_admin && is_admin {
        true
    } else if is_admin && !initial_admin && should_be {
        true
    } else if is_admin && initial_admin && !should_be {
        false
    } else if !is_admin && initial_admin && !should_be {
        true
    } else {
        false
    }
}

/// Decides a user check from its four states.
pub fn user_outcome(
    should_exist: bool,
    is_primary_user: bool,
    does_exist: bool,
    exists_now: bool,
) -> (passes: bool)
    ensures
        passes == user_passes(should_exist, is_primary_user, does_exist, exists_now),
{
    if should_exist && does_exist && exists_now && !is_primary_user {
        true
    } else if exists_now && !does_exist && should_exist {
        true
    } else if exists_now && does_exist && !should_exist {
        false
    } else if !exists_now && does_exist && !should_exist {
        true
    } else {
        false
    }
}

/// Looks an account up in the entries of the user directory, by its exact
/// name.
pub fn user_listed(accounts: &Vec<Option<String>>, user: &String) -> (listed: bool)
    ensures
        listed == account_listed(accounts.deep_view(), user@),
{
    let mut at: usize = 0;
    while at < accounts.len()
        invariant
            at <= accounts@.len(),
            forall|j: int| 0 <= j < at ==> accounts.deep_view()[j] != Some(user@),
        decreases accounts@.len() - at,
    {
        match &accounts[at] {
            Some(name) => {
                if *name == *user {
                    assert(accounts.deep_view()[at as int] == Some(user@));
                    return true;
                }
            },
            None => {},
        }
        at += 1;
    }
    false
}

/// A check on administrator status asks only one thing of each wanted state:
/// where the user should be an administrator, that it is one now; where it
/// should not, that it was one and no longer is.
pub proof fn lemma_administrator_by_wanted_state(
    should_be: bool,
    initial_admin: bool,
    is_admin: bool,
)
    ensures
        should_be ==> administrator_passes(should_be, initial_admin, is_admin) == is_admin,
        !should_be ==> administrator_passes(should_be, initial_admin, is_admin) == (initial_admin
            && !is_admin),
{
}

/// A check on a user account, by wanted state: where the account should
/// exist, it passes when the account exists now, unless it is the primary
/// user's and was there from the start; where it should not, it passes when
/// the account existed and no longer does.
pub proof fn lemma_user_by_wanted_state(
    should_exist: bool,
    is_primary_user: bool,
    does_exist: bool,
    exists_now: bool,
)
    ensures
        should_exist ==> user_passes(should_exist, is_primary_user, does_exist, exists_now) == (
        exists_now && !(does_exist && is_primary_user)),
        !should_exist ==> user_passes(should_exist, is_primary_user, does_exist, exists_now) == (
        does_exist && !exists_now),
{
}

/// A state that was compliant from the start and never touched earns
/// nothing: with nothing wanted, nothing witnessed and nothing observed, both
/// checks fail.
pub proof fn lemma_untouched_absence_fails(is_primary_user: bool)
    ensures
        !administrator_passes(false, false, false),
        !user_passes(false, is_primary_user, false, false),
{
}

} // verus!
