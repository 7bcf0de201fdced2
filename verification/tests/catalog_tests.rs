use sidecar_supervisor::catalog::get_additional_binary_paths;
use sidecar_supervisor::platform::PlatformProfile;

const ALL_PROFILES: [PlatformProfile; 3] =
    [PlatformProfile::Windows, PlatformProfile::MacOs, PlatformProfile::UnixLike];

#[test]
fn catalog_is_nonempty_for_all_platforms() {
    for p in ALL_PROFILES {
        assert!(!get_additional_binary_paths(p).is_empty());
    }
}

#[test]
fn catalog_is_fixed_and_order_stable() {
    for p in ALL_PROFILES {
        let a = get_additional_binary_paths(p);
        let b = get_additional_binary_paths(p);
        assert_eq!(a, b);
    }
}

#[test]
fn catalog_windows_entries() {
    let dirs = get_additional_binary_paths(PlatformProfile::Windows);
    assert_eq!(
        dirs,
        vec![
            "C:\\ffmpeg\\bin".to_string(),
            "C:\\Program Files\\ffmpeg\\bin".to_string(),
            "C:\\Program Files (x86)\\ffmpeg\\bin".to_string(),
            "C:\\tools\\ffmpeg\\bin".to_string(),
            "C:\\ProgramData\\chocolatey\\bin".to_string(),
        ]
    );
}

#[test]
fn catalog_macos_entries() {
    let dirs = get_additional_binary_paths(PlatformProfile::MacOs);
    assert_eq!(
        dirs,
        vec![
            "/usr/local/bin".to_string(),
            "/opt/homebrew/bin".to_string(),
            "/usr/bin".to_string(),
            "/bin".to_string(),
            "/opt/local/bin".to_string(),
        ]
    );
}

#[test]
fn catalog_unix_entries() {
    let dirs = get_additional_binary_paths(PlatformProfile::UnixLike);
    assert_eq!(
        dirs,
        vec![
            "/usr/local/bin".to_string(),
            "/usr/bin".to_string(),
            "/bin".to_string(),
            "/snap/bin".to_string(),
            "/opt/bin".to_string(),
            "/usr/local/sbin".to_string(),
        ]
    );
}
