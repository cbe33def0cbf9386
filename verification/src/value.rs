//! Script values as this crate sees them: opaque, copyable handles.

use vstd::prelude::*;

verus! {

/// A value of the scripting engine. The crate copies such values and hands
/// them on; it never looks at the bits.
#[derive(Clone, Copy, Debug, PartialEq, Eq, Structural)]
pub struct JSVal {
    pub v: u64,
}

} // verus!
