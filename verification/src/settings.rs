//! The one configuration value this layer exposes to the host's
//! settings system: whether modal editing is enabled, with layered
//! resolution — the most recent explicit user value wins, then the
//! registered default, and the absence of both is a hard registration
//! failure.

use vstd::prelude::*;

verus! {

/// Whether or not to enable modal editing.
///
/// Default: false
#[derive(Clone, Copy, Debug, PartialEq, Eq, Structural)]
pub struct HelixModeSetting(pub bool);

/// The configuration error: the setting has neither an explicit user
/// value nor a registered default, which indicates a packaging defect
/// rather than a runtime condition.
#[derive(Clone, Copy, Debug, PartialEq, Eq, Structural)]
pub enum SettingError {
    MissingDefault,
}

/// The most recent explicit user value among the layered settings
/// files, scanning from the last layer backwards.
pub open spec fn last_user_value(user_values: Seq<Option<bool>>) -> Option<bool>
    decreases user_values.len(),
{
    if user_values.len() == 0 {
        None
    } else {
        match user_values.last() {
            Some(value) => Some(value),
            None => last_user_value(user_values.drop_last()),
        }
    }
}

/// How the setting resolves: the most recent explicit user value, else
/// the registered default, else the registration failure.
pub open spec fn resolved_setting(
    default_value: Option<bool>,
    user_values: Seq<Option<bool>>,
) -> Result<bool, SettingError> {
    match last_user_value(user_values) {
        Some(value) => Ok(value),
        None => match default_value {
            Some(value) => Ok(value),
            None => Err(SettingError::MissingDefault),
        },
    }
}

impl HelixModeSetting {
    /// Resolves the setting from the registered default and the user
    /// values of the layered settings files, later layers taking
    /// precedence. Fails exactly when no layer sets a value and no
    /// default was registered.
    pub fn load(default_value: &Option<bool>, user_values: &Vec<Option<bool>>) -> (r: Result<
        HelixModeSetting,
        SettingError,
    >)
        ensures
            match resolved_setting(*default_value, user_values@) {
                Ok(value) => r == Ok::<HelixModeSetting, SettingError>(HelixModeSetting(value)),
                Err(e) => r == Err::<HelixModeSetting, SettingError>(e),
            },
    {
        let mut i: usize = user_values.len();
        proof {
            assert(user_values@.take(i as int) =~= user_values@);
        }
        while i > 0
            invariant
                i <= user_values@.len(),
                last_user_value(user_values@) == last_user_value(user_values@.take(i as int)),
            decreases i,
        {
            proof {
                assert(user_values@.take(i as int).drop_last() =~= user_values@.take(i - 1));
            }
            match user_values[i - 1] {
                Some(value) => {
                    assert(last_user_value(user_values@.take(i as int)) == Some(value));
                    return Ok(HelixModeSetting(value));
                },
                None => {
                    i = i - 1;
                },
            }
        }
        assert(user_values@.take(0) =~= Seq::<Option<bool>>::empty());
        match default_value {
            Some(value) => Ok(HelixModeSetting(*value)),
            None => Err(SettingError::MissingDefault),
        }
    }
}

} // verus!
