//! Global configuration and the generic amount validator.

use vstd::prelude::*;

use core::cmp::Ordering;

use crate::errors::ContractError;

verus! {

use vstd::std_specs::cmp::PartialEqSpec;
use vstd::std_specs::cmp::PartialOrdSpec;

/// Program-wide settings, created once and then changed only through
/// [`configure`] by the recorded authority.
#[derive(Clone, Copy, Debug, PartialEq, Eq, Structural)]
pub struct Config {
    /// Identity allowed to reconfigure the program.
    pub authority: u64,
    /// Identity that must co-authorize reward payouts.
    pub payer_wallet: u64,
    /// Identity that receives platform fees.
    pub team_wallet: u64,
    /// Number of the next round to be created; increases by one per round
    /// and is never reused.
    pub game_round: u64,
    /// Platform fee in basis points.
    pub platform_fee: u64,
    /// Default minimum deposit amount for a round.
    pub min_deposit_amount: u64,
    /// Hard ceiling on the participant count a round may be created with.
    pub max_joiner_count: u64,
    /// Whether the configuration has been initialized.
    pub initialized: bool,
}

/// Whether some listed option compares equal to `value`.
pub open spec fn allows<T: PartialEq>(options: Seq<T>, value: T) -> bool {
    exists|i: int| 0 <= i < options.len() && value.eq_spec(&options[i])
}

/// A validity rule for amounts: either a closed range with independently
/// optional bounds, or an explicit set of allowed values, over any ordered,
/// comparable value type.
#[derive(Clone, Debug)]
pub enum AmountConfig<T: PartialEq + PartialOrd> {
    /// Accept any value between the given optional bounds, inclusive.
    Range { min: Option<T>, max: Option<T> },
    /// Accept exactly the listed values.
    Enum(Vec<T>),
}

impl<T: PartialEq + PartialOrd> AmountConfig<T> {
    /// What [`AmountConfig::validate`] decides for `value`, in terms of the
    /// type's comparison order.
    pub open spec fn validate_spec(self, value: T) -> Result<(), ContractError> {
        match self {
            AmountConfig::Range { min, max } => {
                if min matches Some(m) && value.partial_cmp_spec(&m) == Some(Ordering::Less) {
                    Err(ContractError::ValueTooSmall)
                } else if max matches Some(m) && value.partial_cmp_spec(&m) == Some(
                    Ordering::Greater,
                ) {
                    Err(ContractError::ValueTooLarge)
                } else {
                    Ok(())
                }
            },
            AmountConfig::Enum(options) => {
                if allows(options@, value) {
                    Ok(())
                } else {
                    Err(ContractError::ValueInvalid)
                }
            },
        }
    }

    /// Checks `value` against this rule: below an explicit lower bound is
    /// too small, above an explicit upper bound is too large, and a value
    /// missing from an explicit allow-set is invalid. Exact whenever the
    /// type's comparisons obey their specification, as every primitive
    /// integer's do.
    pub fn validate(&self, value: &T) -> (r: Result<(), ContractError>)
        requires
            T::obeys_eq_spec(),
            T::obeys_partial_cmp_spec(),
        ensures
            r == self.validate_spec(*value),
    {
        match self {
            AmountConfig::Range { min, max } => {
                if let Some(m) = min {
                    if value < m {
                        return Err(ContractError::ValueTooSmall);
                    }
                }
                if let Some(m) = max {
                    if value > m {
                        return Err(ContractError::ValueTooLarge);
                    }
                }
                Ok(())
            },
            AmountConfig::Enum(options) => {
                let n = options.len();
                let mut i: usize = 0;
                while i < n
                    invariant
                        T::obeys_eq_spec(),
                        self is Enum,
                        self->Enum_0@ == options@,
                        n == options@.len(),
                        i <= n,
                        forall|k: int| 0 <= k < i ==> !value.eq_spec(&options@[k]),
                    decreases n - i,
                {
                    if value.eq(&options[i]) {
                        proof {
                            assert(value.eq_spec(&options@[i as int]));
                            assert(allows(options@, *value));
                        }
                        return Ok(());
                    }
                    i = i + 1;
                }
                Err(ContractError::ValueInvalid)
            },
        }
    }
}

/// Replaces the global configuration with `new_config`.
///
/// Once the configuration is initialized, only the recorded authority may
/// reconfigure it; the round counter is preserved across reconfiguration so
/// that round numbers stay monotonically increasing.
pub fn configure(config: &mut Config, caller: u64, new_config: Config) -> (r: Result<
    (),
    ContractError,
>)
    ensures
        old(config).initialized && caller != old(config).authority ==> r == Err::<
            (),
            ContractError,
        >(ContractError::IncorrectAuthority) && *final(config) == *old(config),
        !(old(config).initialized && caller != old(config).authority) ==> r == Ok::<
            (),
            ContractError,
        >(()) && *final(config) == (Config {
            game_round: if old(config).initialized {
                old(config).game_round
            } else {
                new_config.game_round
            },
            initialized: true,
            ..new_config
        }),
{
    if config.initialized && caller != config.authority {
        return Err(ContractError::IncorrectAuthority);
    }
    let round = if config.initialized {
        config.game_round
    } else {
        new_config.game_round
    };
    *config = new_config;
    config.game_round = round;
    config.initialized = true;
    Ok(())
}

} // verus!
