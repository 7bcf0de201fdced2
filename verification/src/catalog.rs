use vstd::prelude::*;
use crate::platform::PlatformProfile;

verus! {

/// The fixed, per-platform table of additional binary search directories,
/// checked in order. It is an allow-list, not a filesystem scan, so that
/// resolution stays deterministic.
pub open spec fn catalog(profile: PlatformProfile) -> Seq<Seq<char>> {
    match profile {
        PlatformProfile::Windows => seq![
            "C:\\ffmpeg\\bin"@,
            "C:\\Program Files\\ffmpeg\\bin"@,
            "C:\\Program Files (x86)\\ffmpeg\\bin"@,
            "C:\\tools\\ffmpeg\\bin"@,
            "C:\\ProgramData\\chocolatey\\bin"@,
        ],
        PlatformProfile::MacOs => seq![
            "/usr/local/bin"@,
            "/opt/homebrew/bin"@,
            "/usr/bin"@,
            "/bin"@,
            "/opt/local/bin"@,
        ],
        PlatformProfile::UnixLike => seq![
            "/usr/local/bin"@,
            "/usr/bin"@,
            "/bin"@,
            "/snap/bin"@,
            "/opt/bin"@,
            "/usr/local/sbin"@,
        ],
    }
}

/// The views of a sequence of strings.
pub open spec fn seq_views(s: Seq<String>) -> Seq<Seq<char>> {
    Seq::new(s.len(), |i: int| s[i]@)
}

/// The catalog is never empty, on any platform: the resolver's fallback
/// always has at least one directory to inspect, and enhancing a PATH
/// always prepends at least one entry.
pub proof fn lemma_catalog_nonempty(profile: PlatformProfile)
    ensures
        catalog(profile).len() > 0,
{
}

/// Returns the additional binary search directories for `profile`, exactly
/// the fixed catalog, in its order.
pub fn get_additional_binary_paths(profile: PlatformProfile) -> (r: Vec<String>)
    ensures
        seq_views(r@) == catalog(profile),
        r@.len() == catalog(profile).len(),
        r@.len() > 0,
{
    let mut v: Vec<String> = Vec::new();
    match profile {
        PlatformProfile::Windows => {
            v.push("C:\\ffmpeg\\bin".to_owned());
            v.push("C:\\Program Files\\ffmpeg\\bin".to_owned());
            v.push("C:\\Program Files (x86)\\ffmpeg\\bin".to_owned());
            v.push("C:\\tools\\ffmpeg\\bin".to_owned());
            v.push("C:\\ProgramData\\chocolatey\\bin".to_owned());
        },
        PlatformProfile::MacOs => {
            v.push("/usr/local/bin".to_owned());
            v.push("/opt/homebrew/bin".to_owned());
            v.push("/usr/bin".to_owned());
            v.push("/bin".to_owned());
            v.push("/opt/local/bin".to_owned());
        },
        PlatformProfile::UnixLike => {
            v.push("/usr/local/bin".to_owned());
            v.push("/usr/bin".to_owned());
            v.push("/bin".to_owned());
            v.push("/snap/bin".to_owned());
            v.push("/opt/bin".to_owned());
            v.push("/usr/local/sbin".to_owned());
        },
    }
    proof {
        assert(seq_views(v@) =~~= catalog(profile));
    }
    v
}

} // verus!
