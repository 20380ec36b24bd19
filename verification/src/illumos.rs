//! ELF family using the link editor's "sets" feature, which synthesizes `__start_*`/`__stop_*` symbols for `set_*` sections.

use vstd::prelude::*;
use crate::name::{spec_section, spec_start, spec_stop};
use crate::platform::Platform;

verus! {

/// The data-section name for collection identifier `ident`.
pub fn section(ident: &str) -> (r: String)
    ensures
        r@ == spec_section(Platform::Illumos, ident@),
{
    crate::name::section(Platform::Illumos, ident)
}

/// The start-boundary name for collection identifier `ident`.
pub fn section_start(ident: &str) -> (r: String)
    ensures
        r@ == spec_start(Platform::Illumos, ident@),
{
    crate::name::section_start(Platform::Illumos, ident)
}

/// The stop-boundary name for collection identifier `ident`.
pub fn section_stop(ident: &str) -> (r: String)
    ensures
        r@ == spec_stop(Platform::Illumos, ident@),
{
    crate::name::section_stop(Platform::Illumos, ident)
}

} // verus!
