//! The governance parameters and the rules that change them.
use vstd::prelude::*;
use crate::text::{parse_u64, parse_u64_spec};

verus! {

/// Nanoseconds in one day: the clock counts nanoseconds, durations are
/// given in days.
pub const NANOS_PER_DAY: u64 = 86_400_000_000_000;

/// The mutable parameters of the governance engine.
#[derive(Clone, Copy, Debug, PartialEq, Eq, Structural)]
pub struct GovernanceConfig {
    /// Voting power needed to create a proposal.
    pub minimum_proposal_threshold: u64,
    /// Total weight in favour needed for a proposal to pass.
    pub minimum_voting_threshold: u64,
    /// Default length of a voting period, in days.
    pub voting_period_days: u64,
    /// Wait after the voting deadline before a passed proposal may run, in days.
    pub execution_delay_days: u64,
    /// Fee in tokens for creating a proposal.
    pub proposal_fee: u64,
}

/// The configuration in force when the engine starts.
pub open spec fn default_config() -> GovernanceConfig {
    GovernanceConfig {
        minimum_proposal_threshold: 1000,
        minimum_voting_threshold: 10000,
        voting_period_days: 7,
        execution_delay_days: 2,
        proposal_fee: 10,
    }
}

impl Default for GovernanceConfig {
    fn default() -> (r: Self)
        ensures
            r == default_config(),
    {
        GovernanceConfig {
            minimum_proposal_threshold: 1000,
            minimum_voting_threshold: 10000,
            voting_period_days: 7,
            execution_delay_days: 2,
            proposal_fee: 10,
        }
    }
}

/// A number of days on the nanosecond clock.
pub open spec fn nanos_of_days(days: u64) -> int {
    days as int * NANOS_PER_DAY as int
}

/// Converts a number of days to nanoseconds.
pub fn days_to_nanoseconds(days: u64) -> (r: u64)
    requires
        nanos_of_days(days) <= u64::MAX,
    ensures
        r == nanos_of_days(days),
{
    days * NANOS_PER_DAY
}

/// The configuration that a parameter-change proposal asks for, or `None`
/// when the parameter is not one that may be changed or the value is not a
/// `u64` numeral. Only the two thresholds and the voting period can change.
pub open spec fn parameter_change(
    c: GovernanceConfig,
    parameter: Seq<char>,
    new_value: Seq<char>,
) -> Option<GovernanceConfig> {
    match parse_u64_spec(new_value) {
        None => None,
        Some(v) => if parameter == "minimum_proposal_threshold"@ {
            Some(GovernanceConfig { minimum_proposal_threshold: v, ..c })
        } else if parameter == "minimum_voting_threshold"@ {
            Some(GovernanceConfig { minimum_voting_threshold: v, ..c })
        } else if parameter == "voting_period_days"@ {
            Some(GovernanceConfig { voting_period_days: v, ..c })
        } else {
            None
        },
    }
}

/// Applies a parameter change to `config`. Returns whether it applied; when
/// it did not, `config` is left as it was.
pub fn execute_governance_parameter_change(
    config: &mut GovernanceConfig,
    parameter: &String,
    new_value: &String,
) -> (r: bool)
    ensures
        r == parameter_change(*old(config), parameter@, new_value@) is Some,
        r ==> *final(config) == parameter_change(*old(config), parameter@, new_value@)->0,
        !r ==> *final(config) == *old(config),
{
    let value = match parse_u64(new_value.as_str()) {
        Some(v) => v,
        None => return false,
    };
    if *parameter == String::from_str("minimum_proposal_threshold") {
        config.minimum_proposal_threshold = value;
        true
    } else if *parameter == String::from_str("minimum_voting_threshold") {
        config.minimum_voting_threshold = value;
        true
    } else if *parameter == String::from_str("voting_period_days") {
        config.voting_period_days = value;
        true
    } else {
        false
    }
}

} // verus!
