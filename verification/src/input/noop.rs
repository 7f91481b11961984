use vstd::prelude::*;

verus! {

pub fn platform_name() -> (name: &'static str)
    ensures
        name@ == "noop"@,
{
    "noop"
}

/// The input platform of systems without pointer capture or injection.
#[derive(Debug, Clone, Copy)]
pub struct NoopInputPlatform;

} // verus!
