use vstd::prelude::*;
use vstd::string::*;
use crate::platform::Platform;

verus! {

/// The three strings the naming resolver derives from a collection
/// identifier. They are a de-facto linker-level ABI: external tooling that
/// inspects the image sees them bit-for-bit.
pub struct SectionNames {
    /// Name of the data section holding the contributed elements. On Mach-O
    /// this is the `segment,section` pair in one string.
    pub section: String,
    /// Symbol (or sub-section, on COFF) whose address is the first element's
    /// address. Only its address is meaningful; it is never dereferenced.
    pub start: String,
    /// Symbol (or sub-section, on COFF) whose address is one past the last
    /// element. Only its address is meaningful; it is never dereferenced.
    pub stop: String,
}

/// The data-section name for collection identifier `id` on platform `p`.
pub open spec fn spec_section(p: Platform, id: Seq<char>) -> Seq<char> {
    match p {
        Platform::Linux => "linkme_"@ + id,
        Platform::FreeBsd => "linkme_"@ + id,
        Platform::MacOs => "__DATA,__"@ + id,
        Platform::Windows => ".linkme_"@ + id + "$b"@,
        Platform::Illumos => "set_linkme_"@ + id,
    }
}

/// The start-boundary name for collection identifier `id` on platform `p`.
/// On Mach-O the leading control byte asks the toolchain to take the symbol
/// name raw, bypassing ordinary symbol-name decoration.
pub open spec fn spec_start(p: Platform, id: Seq<char>) -> Seq<char> {
    match p {
        Platform::Linux => "__start_linkme_"@ + id,
        Platform::FreeBsd => "__start_linkme_"@ + id,
        Platform::MacOs => "\x01section$start$__DATA$__"@ + id,
        Platform::Windows => ".linkme_"@ + id + "$a"@,
        Platform::Illumos => "__start_set_linkme_"@ + id,
    }
}

/// The stop-boundary name for collection identifier `id` on platform `p`.
pub open spec fn spec_stop(p: Platform, id: Seq<char>) -> Seq<char> {
    match p {
        Platform::Linux => "__stop_linkme_"@ + id,
        Platform::FreeBsd => "__stop_linkme_"@ + id,
        Platform::MacOs => "\x01section$end$__DATA$__"@ + id,
        Platform::Windows => ".linkme_"@ + id + "$c"@,
        Platform::Illumos => "__stop_set_linkme_"@ + id,
    }
}

/// `prefix` followed by `ident`.
fn prefixed(prefix: &str, ident: &str) -> (r: String)
    ensures
        r@ == prefix@ + ident@,
{
    let mut s = prefix.to_string();
    s.append(ident);
    s
}

/// `prefix`, then `ident`, then `suffix`.
fn wrapped(prefix: &str, ident: &str, suffix: &str) -> (r: String)
    ensures
        r@ == prefix@ + ident@ + suffix@,
{
    let mut s = prefix.to_string();
    s.append(ident);
    s.append(suffix);
    s
}

/// The data-section name for collection identifier `ident` on platform `p`.
pub fn section(p: Platform, ident: &str) -> (r: String)
    ensures
        r@ == spec_section(p, ident@),
{
    match p {
        Platform::Linux => prefixed("linkme_", ident),
        Platform::FreeBsd => prefixed("linkme_", ident),
        Platform::MacOs => prefixed("__DATA,__", ident),
        Platform::Windows => wrapped(".linkme_", ident, "$b"),
        Platform::Illumos => prefixed("set_linkme_", ident),
    }
}

/// The start-boundary name for collection identifier `ident` on platform `p`.
pub fn section_start(p: Platform, ident: &str) -> (r: String)
    ensures
        r@ == spec_start(p, ident@),
{
    match p {
        Platform::Linux => prefixed("__start_linkme_", ident),
        Platform::FreeBsd => prefixed("__start_linkme_", ident),
        Platform::MacOs => prefixed("\x01section$start$__DATA$__", ident),
        Platform::Windows => wrapped(".linkme_", ident, "$a"),
        Platform::Illumos => prefixed("__start_set_linkme_", ident),
    }
}

/// The stop-boundary name for collection identifier `ident` on platform `p`.
pub fn section_stop(p: Platform, ident: &str) -> (r: String)
    ensures
        r@ == spec_stop(p, ident@),
{
    match p {
        Platform::Linux => prefixed("__stop_linkme_", ident),
        Platform::FreeBsd => prefixed("__stop_linkme_", ident),
        Platform::MacOs => prefixed("\x01section$end$__DATA$__", ident),
        Platform::Windows => wrapped(".linkme_", ident, "$c"),
        Platform::Illumos => prefixed("__stop_set_linkme_", ident),
    }
}

/// All three names for collection identifier `ident` on platform `p`.
pub fn name(p: Platform, ident: &str) -> (r: SectionNames)
    ensures
        r.section@ == spec_section(p, ident@),
        r.start@ == spec_start(p, ident@),
        r.stop@ == spec_stop(p, ident@),
{
    SectionNames {
        section: section(p, ident),
        start: section_start(p, ident),
        stop: section_stop(p, ident),
    }
}

/// Determinism of the naming resolver: the three names are a pure function
/// of the platform and the identifier, so any two results computed for the
/// same pair are identical, string for string.
pub proof fn lemma_name_deterministic(
    p: Platform,
    id: Seq<char>,
    a: (Seq<char>, Seq<char>, Seq<char>),
    b: (Seq<char>, Seq<char>, Seq<char>),
)
    requires
        a == (spec_section(p, id), spec_start(p, id), spec_stop(p, id)),
        b == (spec_section(p, id), spec_start(p, id), spec_stop(p, id)),
    ensures
        a == b,
{
}

} // verus!
