use vstd::prelude::*;

use crate::devices::soundcore::common::modules::module_collection::ModuleCollection;

verus! {

/// Collects the modules of a device while it is being set up.
#[derive(Debug, Clone)]
pub struct SoundcoreDeviceBuilder {
    pub module_collection: ModuleCollection,
}

impl SoundcoreDeviceBuilder {
    pub fn new() -> (r: Self)
        ensures
            r.module_collection.setting_handlers@.len() == 0,
            r.module_collection.state_modifiers@.len() == 0,
    {
        SoundcoreDeviceBuilder { module_collection: ModuleCollection::new() }
    }
}

} // verus!
