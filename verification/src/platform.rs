use vstd::prelude::*;

verus! {

/// The closed set of supported target platforms. The platform is fixed for
/// the life of a build, so the naming and layout rules are selected once,
/// at build configuration time.
#[derive(Clone, Copy, PartialEq, Eq, Structural, Debug)]
pub enum Platform {
    Linux,
    FreeBsd,
    MacOs,
    Windows,
    Illumos,
}

/// The object-file/linker families that share one section layout policy.
#[derive(Clone, Copy, PartialEq, Eq, Structural, Debug)]
pub enum Family {
    /// ELF whose link editor synthesizes `__start_*`/`__stop_*` boundary
    /// symbols for every retained named section.
    ElfNative,
    /// ELF using the link editor's "sets" feature, which synthesizes the
    /// same boundary symbols for `set_*` sections.
    ElfSets,
    /// Mach-O, whose loader binds `section$start`/`section$end` symbols to a
    /// segment/section pair.
    MachO,
    /// COFF-style images without native boundary symbols: boundaries come
    /// from the documented ascending-suffix ordering of grouped sub-sections.
    CoffSubsections,
}

/// Which layout family a platform's toolchain belongs to.
pub open spec fn spec_family(p: Platform) -> Family {
    match p {
        Platform::Linux => Family::ElfNative,
        Platform::FreeBsd => Family::ElfNative,
        Platform::MacOs => Family::MachO,
        Platform::Windows => Family::CoffSubsections,
        Platform::Illumos => Family::ElfSets,
    }
}

pub fn family(p: Platform) -> (r: Family)
    ensures
        r == spec_family(p),
{
    match p {
        Platform::Linux => Family::ElfNative,
        Platform::FreeBsd => Family::ElfNative,
        Platform::MacOs => Family::MachO,
        Platform::Windows => Family::CoffSubsections,
        Platform::Illumos => Family::ElfSets,
    }
}

} // verus!
