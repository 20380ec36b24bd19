//! Mach-O family: the section lives in the `__DATA` segment and the loader binds raw `section$start`/`section$end` symbols to it.

use vstd::prelude::*;
use crate::name::{spec_section, spec_start, spec_stop};
use crate::platform::Platform;

verus! {

/// The data-section name for collection identifier `ident`.
pub fn section(ident: &str) -> (r: String)
    ensures
        r@ == spec_section(Platform::MacOs, ident@),
{
    crate::name::section(Platform::MacOs, ident)
}

/// The start-boundary name for collection identifier `ident`.
pub fn section_start(ident: &str) -> (r: String)
    ensures
        r@ == spec_start(Platform::MacOs, ident@),
{
    crate::name::section_start(Platform::MacOs, ident)
}

/// The stop-boundary name for collection identifier `ident`.
pub fn section_stop(ident: &str) -> (r: String)
    ensures
        r@ == spec_stop(Platform::MacOs, ident@),
{
    crate::name::section_stop(Platform::MacOs, ident)
}

} // verus!
