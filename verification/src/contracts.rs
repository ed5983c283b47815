//! The Soroban contracts that ship beside the analyzer as examples and fixtures.
use vstd::prelude::*;

verus! {

/// A fixture contract that calls another contract in the two ways the S022 rule
/// tells apart: with a call that aborts when the callee fails, and with one that
/// hands the failure back.
pub struct RawInvokeFixture;

/// A vesting contract: creating, claiming and revoking vesting schedules.
pub struct VestingContract;

} // verus!
