//! COFF family without native boundary symbols: the three grouped sub-sections are laid out in ascending suffix order, so the `$a` and `$c` markers' addresses are the boundaries.

use vstd::prelude::*;
use crate::name::{spec_section, spec_start, spec_stop};
use crate::platform::Platform;

verus! {

/// The data-section name for collection identifier `ident`.
pub fn section(ident: &str) -> (r: String)
    ensures
        r@ == spec_section(Platform::Windows, ident@),
{
    crate::name::section(Platform::Windows, ident)
}

/// The start-boundary name for collection identifier `ident`.
pub fn section_start(ident: &str) -> (r: String)
    ensures
        r@ == spec_start(Platform::Windows, ident@),
{
    crate::name::section_start(Platform::Windows, ident)
}

/// The stop-boundary name for collection identifier `ident`.
pub fn section_stop(ident: &str) -> (r: String)
    ensures
        r@ == spec_stop(Platform::Windows, ident@),
{
    crate::name::section_stop(Platform::Windows, ident)
}

} // verus!
