use vstd::prelude::*;

verus! {

/// A setting that is one on/off switch.
pub trait Flag {
    spec fn spec_get_bool(&self) -> bool;

    fn get_bool(&self) -> (r: bool)
        ensures
            r == self.spec_get_bool(),
    ;

    fn set_bool(&mut self, value: bool)
        ensures
            final(self).spec_get_bool() == value,
    ;
}

} // verus!
