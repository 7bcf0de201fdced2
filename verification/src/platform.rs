use vstd::prelude::*;

verus! {

/// The operating-system family the supervisor runs on, resolved once from
/// the running platform. It determines the separator of the PATH variable,
/// the directory separator, the executable suffix and the ordered list of
/// candidate directories.
#[derive(Clone, Copy, PartialEq, Eq, Structural, Debug)]
pub enum PlatformProfile {
    Windows,
    MacOs,
    UnixLike,
}

/// The string that separates entries of the PATH variable.
pub open spec fn path_separator_spec(profile: PlatformProfile) -> Seq<char> {
    if profile is Windows {
        ";"@
    } else {
        ":"@
    }
}

/// The string that separates a directory from a file name inside a path.
pub open spec fn dir_separator_spec(profile: PlatformProfile) -> Seq<char> {
    if profile is Windows {
        "\\"@
    } else {
        "/"@
    }
}

/// The suffix appended to the bare name of an executable file.
pub open spec fn exe_suffix_spec(profile: PlatformProfile) -> Seq<char> {
    if profile is Windows {
        ".exe"@
    } else {
        ""@
    }
}

/// The name of the platform's native locate-on-PATH utility.
pub open spec fn lookup_tool_spec(profile: PlatformProfile) -> Seq<char> {
    if profile is Windows {
        "where"@
    } else {
        "which"@
    }
}

pub fn path_separator(profile: PlatformProfile) -> (r: &'static str)
    ensures
        r@ == path_separator_spec(profile),
{
    if profile == PlatformProfile::Windows {
        ";"
    } else {
        ":"
    }
}

pub fn dir_separator(profile: PlatformProfile) -> (r: &'static str)
    ensures
        r@ == dir_separator_spec(profile),
{
    if profile == PlatformProfile::Windows {
        "\\"
    } else {
        "/"
    }
}

pub fn exe_suffix(profile: PlatformProfile) -> (r: &'static str)
    ensures
        r@ == exe_suffix_spec(profile),
{
    if profile == PlatformProfile::Windows {
        ".exe"
    } else {
        ""
    }
}

pub fn lookup_tool(profile: PlatformProfile) -> (r: &'static str)
    ensures
        r@ == lookup_tool_spec(profile),
{
    if profile == PlatformProfile::Windows {
        "where"
    } else {
        "which"
    }
}

} // verus!
