use vstd::prelude::*;

use crate::api::settings::{CategoryId, SettingId};
use crate::devices::soundcore::common::packet::Command;

verus! {

/// How an on/off setting is shown and written: its category and id, the command that sets it,
/// the command that reports it (if any), and whether the device's value is the opposite of the
/// shown one.
#[derive(Debug, Clone, Copy, PartialEq, Eq, Structural)]
pub struct FlagConfiguration {
    pub category_id: CategoryId,
    pub setting_id: SettingId,
    pub set_command: Command,
    pub update_command: Option<Command>,
    pub is_inverted: bool,
}

} // verus!
