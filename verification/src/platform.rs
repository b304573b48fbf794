//! The platform a release asset is built for.
use crate::text::{optional_slice, str_eq};
use vstd::prelude::*;

verus! {

/// The variant of a release asset.
#[derive(Clone, Copy, Debug, PartialEq, Eq, Structural)]
pub enum Platform {
    Linux,
    Mac,
}

/// The platform that an operating-system identifier stands for: `Darwin` is
/// the Mac, `Linux` and every identifier that is not recognised are Linux.
pub open spec fn platform_of(os_name: Seq<char>) -> Platform {
    if os_name == "Darwin"@ {
        Platform::Mac
    } else {
        Platform::Linux
    }
}

/// Maps an operating-system identifier to its platform.
pub fn platform_from_os_name(os_name: &str) -> (platform: Platform)
    ensures
        platform == platform_of(os_name@),
{
    if str_eq(os_name, "Darwin") {
        Platform::Mac
    } else {
        Platform::Linux
    }
}

/// The identifier that the running operating system reports, if it can be
/// looked up.
///
/// Calls `sys_info::os_type`.  What comes back depends on the machine, so
/// nothing is claimed of it; a failed lookup is handed on as `None`.
#[verifier::external_body]
fn os_type_name() -> (name: Option<String>) {
    sys_info::os_type().ok()
}

/// The platform that a looked-up identifier stands for; a lookup that failed
/// counts as Linux.
pub open spec fn platform_of_lookup(os_name: Option<Seq<char>>) -> Platform {
    match os_name {
        Some(name) => platform_of(name),
        None => Platform::Linux,
    }
}

/// Decides the platform from the outcome of an operating-system lookup.
pub fn platform_from_lookup(os_name: Option<&str>) -> (platform: Platform)
    ensures
        platform == platform_of_lookup(optional_slice(os_name)),
{
    match os_name {
        Some(name) => platform_from_os_name(name),
        None => Platform::Linux,
    }
}

/// The platform of the machine the program runs on.  Never fails: whatever
/// the lookup gives, the answer is the one `platform_of_lookup` assigns to it.
pub fn resolve_platform() -> (platform: Platform)
    ensures
        exists|os_name: Option<Seq<char>>| platform == #[trigger] platform_of_lookup(os_name),
{
    match os_type_name() {
        Some(name) => platform_from_lookup(Some(name.as_str())),
        None => platform_from_lookup(None),
    }
}

/// Every identifier has a platform: `Darwin` is the Mac, `Linux` is Linux,
/// and an identifier that is neither is Linux too.
pub proof fn lemma_every_identifier_has_a_platform(os_name: Seq<char>)
    ensures
        os_name == "Darwin"@ ==> platform_of(os_name) == Platform::Mac,
        os_name == "Linux"@ ==> platform_of(os_name) == Platform::Linux,
        os_name != "Darwin"@ && os_name != "Linux"@ ==> platform_of(os_name) == Platform::Linux,
{
    reveal_strlit("Darwin");
    reveal_strlit("Linux");
    assert("Linux"@.len() == 5);
}

} // verus!
