use sidecar_supervisor::platform::PlatformProfile;
use sidecar_supervisor::resolver::{
    next_probe, resolve_begin, resolve_step, ProbeOutcome, ProbeRequest, ResolveState,
};

fn finished_result(state: ResolveState) -> Option<String> {
    match state {
        ResolveState::Finished { result } => result,
        _ => panic!("resolution should be finished"),
    }
}

#[test]
fn resolve_missing_everywhere_is_absent() {
    let p = PlatformProfile::UnixLike;
    let name = "definitely-not-a-real-executable-xyz";
    let mut st = resolve_begin();
    st = resolve_step(p, name, st, ProbeOutcome::SpawnAttempted { spawned: false });
    st = resolve_step(
        p,
        name,
        st,
        ProbeOutcome::LookupFinished { ran: true, exit_success: false, stdout: Vec::new() },
    );
    for _ in 0..6 {
        st = resolve_step(p, name, st, ProbeOutcome::FileChecked { exists: false });
    }
    assert_eq!(finished_result(st), None);
}

#[test]
fn resolve_direct_probe_hit_returns_bare_name() {
    let p = PlatformProfile::UnixLike;
    let st = resolve_step(p, "ffmpeg", resolve_begin(), ProbeOutcome::SpawnAttempted {
        spawned: true,
    });
    assert_eq!(finished_result(st), Some("ffmpeg".to_string()));
}

#[test]
fn resolve_lookup_hit_returns_trimmed_output() {
    let p = PlatformProfile::UnixLike;
    let mut st = resolve_begin();
    st = resolve_step(p, "ffmpeg", st, ProbeOutcome::SpawnAttempted { spawned: false });
    st = resolve_step(
        p,
        "ffmpeg",
        st,
        ProbeOutcome::LookupFinished {
            ran: true,
            exit_success: true,
            stdout: b"/usr/bin/ffmpeg\n".to_vec(),
        },
    );
    assert_eq!(finished_result(st), Some("/usr/bin/ffmpeg".to_string()));
}

#[test]
fn resolve_lookup_with_blank_output_falls_through() {
    let p = PlatformProfile::UnixLike;
    let mut st = resolve_begin();
    st = resolve_step(p, "mytool", st, ProbeOutcome::SpawnAttempted { spawned: false });
    st = resolve_step(
        p,
        "mytool",
        st,
        ProbeOutcome::LookupFinished { ran: true, exit_success: true, stdout: b"  \n".to_vec() },
    );
    assert!(matches!(st, ResolveState::CatalogProbe { index: 0 }));
}

#[test]
fn resolve_catalog_hit_returns_candidate_path() {
    let p = PlatformProfile::UnixLike;
    let name = "mytool";
    let mut st = resolve_begin();
    st = resolve_step(p, name, st, ProbeOutcome::SpawnAttempted { spawned: false });
    st = resolve_step(
        p,
        name,
        st,
        ProbeOutcome::LookupFinished { ran: false, exit_success: false, stdout: Vec::new() },
    );
    // misses in /usr/local/bin, /usr/bin, /bin; hit in /snap/bin
    for _ in 0..3 {
        st = resolve_step(p, name, st, ProbeOutcome::FileChecked { exists: false });
    }
    st = resolve_step(p, name, st, ProbeOutcome::FileChecked { exists: true });
    assert_eq!(finished_result(st), Some("/snap/bin/mytool".to_string()));
}

#[test]
fn next_probe_requests_follow_the_tie_break_order() {
    let p = PlatformProfile::UnixLike;
    let st = resolve_begin();
    match next_probe(p, "ffmpeg", &st) {
        ProbeRequest::SpawnVersionProbe { program } => assert_eq!(program, "ffmpeg"),
        _ => panic!("expected the direct probe first"),
    }
    let st = resolve_step(p, "ffmpeg", st, ProbeOutcome::SpawnAttempted { spawned: false });
    match next_probe(p, "ffmpeg", &st) {
        ProbeRequest::RunLookupTool { tool, name } => {
            assert_eq!(tool, "which");
            assert_eq!(name, "ffmpeg");
        },
        _ => panic!("expected the lookup probe second"),
    }
    let st = resolve_step(
        p,
        "ffmpeg",
        st,
        ProbeOutcome::LookupFinished { ran: false, exit_success: false, stdout: Vec::new() },
    );
    match next_probe(p, "ffmpeg", &st) {
        ProbeRequest::CheckFileExists { path } => assert_eq!(path, "/usr/local/bin/ffmpeg"),
        _ => panic!("expected a catalog probe third"),
    }
}

#[test]
fn windows_probes_use_where_and_exe_suffix() {
    let p = PlatformProfile::Windows;
    let mut st = resolve_begin();
    st = resolve_step(p, "ffmpeg", st, ProbeOutcome::SpawnAttempted { spawned: false });
    match next_probe(p, "ffmpeg", &st) {
        ProbeRequest::RunLookupTool { tool, .. } => assert_eq!(tool, "where"),
        _ => panic!("expected the lookup probe"),
    }
    st = resolve_step(
        p,
        "ffmpeg",
        st,
        ProbeOutcome::LookupFinished { ran: false, exit_success: false, stdout: Vec::new() },
    );
    match next_probe(p, "ffmpeg", &st) {
        ProbeRequest::CheckFileExists { path } => {
            assert_eq!(path, "C:\\ffmpeg\\bin\\ffmpeg.exe");
        },
        _ => panic!("expected a catalog probe"),
    }
    st = resolve_step(p, "ffmpeg", st, ProbeOutcome::FileChecked { exists: true });
    assert_eq!(finished_result(st), Some("C:\\ffmpeg\\bin\\ffmpeg.exe".to_string()));
}
