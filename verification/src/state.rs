//! The global control state: who administers the contract, and whether it is
//! paused.

use vstd::prelude::*;
use crate::error::VIOPStakingError;
use crate::identity::Identity;

verus! {

/// The one record that gates every other operation.
#[derive(Debug, Clone, Copy, PartialEq, Eq)]
pub struct State {
    /// The administrator, who alone may pause and unpause.
    pub admin: Identity,
    /// While set, staking, claiming and withdrawing are refused.
    pub paused: bool,
}

/// What `pause` answers to `signer` in `state`.
pub open spec fn spec_pause(state: State, signer: Identity) -> Result<State, VIOPStakingError> {
    if state.paused {
        Err(VIOPStakingError::ContractPaused)
    } else if state.admin != signer {
        Err(VIOPStakingError::Unauthorized)
    } else {
        Ok(State { admin: state.admin, paused: true })
    }
}

/// What `un_pause` answers to `signer` in `state`.
pub open spec fn spec_un_pause(state: State, signer: Identity) -> Result<State, VIOPStakingError> {
    if !state.paused {
        Err(VIOPStakingError::ContractNotPaused)
    } else if state.admin != signer {
        Err(VIOPStakingError::Unauthorized)
    } else {
        Ok(State { admin: state.admin, paused: false })
    }
}

/// Creates the control state: `admin` administers it, and it is not paused.
pub fn initialize(admin: Identity) -> (state: State)
    ensures
        state.admin == admin,
        !state.paused,
{
    State { admin, paused: false }
}

/// Pauses the contract on behalf of `signer`.
///
/// Fails with `ContractPaused` when the contract is paused already, else with
/// `Unauthorized` when `signer` is not the administrator. A failed call
/// leaves `state` as it was.
pub fn pause(state: &mut State, signer: &Identity) -> (result: Result<(), VIOPStakingError>)
    ensures
        match spec_pause(*old(state), *signer) {
            Ok(next) => result == Ok::<(), VIOPStakingError>(()) && *final(state) == next,
            Err(e) => result == Err::<(), VIOPStakingError>(e) && *final(state) == *old(state),
        },
        result is Ok ==> final(state).paused && final(state).admin == old(state).admin,
{
    if state.paused {
        return Err(VIOPStakingError::ContractPaused);
    }
    if state.admin != *signer {
        return Err(VIOPStakingError::Unauthorized);
    }
    state.paused = true;
    Ok(())
}

/// Lifts the pause on behalf of `signer`.
///
/// Fails with `ContractNotPaused` when the contract is not paused, else with
/// `Unauthorized` when `signer` is not the administrator. A failed call
/// leaves `state` as it was.
pub fn un_pause(state: &mut State, signer: &Identity) -> (result: Result<(), VIOPStakingError>)
    ensures
        match spec_un_pause(*old(state), *signer) {
            Ok(next) => result == Ok::<(), VIOPStakingError>(()) && *final(state) == next,
            Err(e) => result == Err::<(), VIOPStakingError>(e) && *final(state) == *old(state),
        },
        result is Ok ==> !final(state).paused && final(state).admin == old(state).admin,
{
    if !state.paused {
        return Err(VIOPStakingError::ContractNotPaused);
    }
    if state.admin != *signer {
        return Err(VIOPStakingError::Unauthorized);
    }
    state.paused = false;
    Ok(())
}

} // verus!
