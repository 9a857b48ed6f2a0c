//! The two-valued appearance preference.

use vstd::prelude::*;

verus! {

/// The desktop's appearance preference, and with it the theme that should
/// be active.
#[derive(Clone, Copy, Debug, PartialEq, Eq, Structural)]
pub enum Theme {
    Light,
    Dark,
}

} // verus!
