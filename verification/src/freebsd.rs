//! ELF family with native boundary symbols: the link editor synthesizes `__start_*`/`__stop_*` symbols for every retained named section.

use vstd::prelude::*;
use crate::name::{spec_section, spec_start, spec_stop};
use crate::platform::Platform;

verus! {

/// The data-section name for collection identifier `ident`.
pub fn section(ident: &str) -> (r: String)
    ensures
        r@ == spec_section(Platform::FreeBsd, ident@),
{
    crate::name::section(Platform::FreeBsd, ident)
}

/// The start-boundary name for collection identifier `ident`.
pub fn section_start(ident: &str) -> (r: String)
    ensures
        r@ == spec_start(Platform::FreeBsd, ident@),
{
    crate::name::section_start(Platform::FreeBsd, ident)
}

/// The stop-boundary name for collection identifier `ident`.
pub fn section_stop(ident: &str) -> (r: String)
    ensures
        r@ == spec_stop(Platform::FreeBsd, ident@),
{
    crate::name::section_stop(Platform::FreeBsd, ident)
}

} // verus!
