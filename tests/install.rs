use lobe_chat_client::install::{
    channel_name, Action, Event, FailReason, InstallTarget, Installer, Notice, Phase, TargetKind,
};
use lobe_chat_client::layout::{HostOs, Layout};
use lobe_chat_client::state::AppState;

fn runtime_target() -> InstallTarget {
    let layout = Layout::new("/home/u", "/home/u/.lobe_chat_client", HostOs::Linux, true);
    layout.runtime_target()
}

fn bundle_target() -> InstallTarget {
    let layout = Layout::new("/home/u", "/home/u/.lobe_chat_client", HostOs::Linux, true);
    layout.bundle_target()
}

fn notices(actions: &[Action]) -> Vec<Notice> {
    let mut out = Vec::new();
    for a in actions {
        if let Action::Emit(n) = a {
            out.push(n.clone());
        }
    }
    out
}

fn percents(actions: &[Action]) -> Vec<f64> {
    let mut out = Vec::new();
    for n in notices(actions) {
        if let Notice::Percent { downloaded, total } = n {
            out.push(downloaded as f64 / total as f64 * 100.0);
        }
    }
    out
}

/// Feeds the events in order and gathers every action asked for.
fn drive(inst: &mut Installer, events: &[Event]) -> Vec<Action> {
    let mut all = inst.ensure();
    for e in events {
        all.extend(inst.step(*e));
    }
    all
}

#[test]
fn installed_target_only_reports_ready() {
    let mut inst = Installer::new(runtime_target(), false);
    let acts = drive(&mut inst, &[Event::Probed { installed: true, archive_exists: false }]);
    assert_eq!(
        acts,
        vec![
            Action::Probe {
                installed_path: "/home/u/.deno/bin/deno".to_string(),
                archive_path: "/home/u/.lobe_chat_client/deno-2.1.4-x86_64-unknown-linux-gnu.zip"
                    .to_string(),
            },
            Action::Emit(Notice::Ready { path: "/home/u/.deno/bin/deno".to_string() }),
        ]
    );
    assert_eq!(inst.phase, Phase::Ready);
    assert!(inst.installed);
    assert!(!inst.downloading);
}

#[test]
fn ten_megabytes_in_one_megabyte_chunks() {
    let mut inst = Installer::new(runtime_target(), false);
    let mut events = vec![
        Event::Probed { installed: false, archive_exists: false },
        Event::Responded { success: true, content_length: Some(10_000_000) },
        Event::CacheOpened,
    ];
    for _ in 0..10 {
        events.push(Event::Chunk { len: 1_000_000 });
    }
    events.push(Event::StreamEnded);
    events.push(Event::Extracted { ok: true });
    let acts = drive(&mut inst, &events);
    let p = percents(&acts);
    assert_eq!(p.len(), 10);
    for (k, v) in p.iter().enumerate() {
        assert!((v - 10.0 * (k as f64 + 1.0)).abs() < 1e-9);
    }
    let ns = notices(&acts);
    let n = ns.len();
    assert_eq!(
        ns[n - 2],
        Notice::UnzipStart {
            file: "/home/u/.lobe_chat_client/deno-2.1.4-x86_64-unknown-linux-gnu.zip".to_string()
        }
    );
    assert_eq!(ns[n - 1], Notice::Ready { path: "/home/u/.deno/bin/deno".to_string() });
    assert_eq!(ns[0], Notice::DownloadStart {
        uri: "https://ghp.ci/https://github.com/denoland/deno/releases/download/v2.1.4/deno-x86_64-unknown-linux-gnu.zip".to_string(),
        target: "/home/u/.lobe_chat_client/deno-2.1.4-x86_64-unknown-linux-gnu.zip".to_string(),
    });
    assert!(acts.contains(&Action::Extract {
        archive: "/home/u/.lobe_chat_client/deno-2.1.4-x86_64-unknown-linux-gnu.zip".to_string(),
        dest: "/home/u/.deno/bin".to_string(),
    }));
    assert!(acts.contains(&Action::MakeExecutable { path: "/home/u/.deno/bin/deno".to_string() }));
    assert_eq!(inst.phase, Phase::Ready);
    assert!(!inst.downloading);
    assert!(!inst.partial);
}

#[test]
fn not_found_fails_once_without_cache_file() {
    let mut inst = Installer::new(runtime_target(), false);
    let acts = drive(
        &mut inst,
        &[
            Event::Probed { installed: false, archive_exists: false },
            Event::Responded { success: false, content_length: Some(9) },
        ],
    );
    let fails: Vec<Notice> = notices(&acts)
        .into_iter()
        .filter(|n| matches!(n, Notice::Failed { .. }))
        .collect();
    assert_eq!(fails.len(), 1);
    if let Notice::Failed { reason, .. } = &fails[0] {
        assert_eq!(*reason, FailReason::RequestFailed);
        assert_eq!(reason.text(), "request failed");
    }
    assert!(!acts.iter().any(|a| matches!(a, Action::OpenCache { .. })));
    assert!(!inst.downloading);
    assert_eq!(inst.phase, Phase::Failed);
}

#[test]
fn progress_never_goes_back() {
    let mut inst = Installer::new(bundle_target(), false);
    let acts = drive(
        &mut inst,
        &[
            Event::Probed { installed: false, archive_exists: false },
            Event::Responded { success: true, content_length: Some(7) },
            Event::CacheOpened,
            Event::Chunk { len: 3 },
            Event::Chunk { len: 0 },
            Event::Chunk { len: 4 },
            Event::StreamEnded,
            Event::Extracted { ok: true },
        ],
    );
    let p = percents(&acts);
    assert_eq!(p.len(), 3);
    assert!(p.windows(2).all(|w| w[0] <= w[1]));
    assert!((p[2] - 100.0).abs() < 1e-9);
    assert_eq!(
        notices(&acts).last().unwrap(),
        &Notice::Ready { path: "/home/u/.lobe_chat_client/lobe-chat_v1.36.11".to_string() }
    );
    assert!(!acts.iter().any(|a| matches!(a, Action::MakeExecutable { .. })));
}

#[test]
fn broken_download_is_started_over() {
    let mut inst = Installer::new(bundle_target(), false);
    drive(
        &mut inst,
        &[
            Event::Probed { installed: false, archive_exists: false },
            Event::Responded { success: true, content_length: Some(10) },
            Event::CacheOpened,
            Event::Chunk { len: 4 },
            Event::Broken,
        ],
    );
    assert_eq!(inst.phase, Phase::Failed);
    assert!(inst.partial);
    assert!(!inst.downloading);
    let acts = drive(
        &mut inst,
        &[
            Event::Probed { installed: false, archive_exists: true },
            Event::Responded { success: true, content_length: Some(10) },
            Event::CacheOpened,
            Event::Chunk { len: 6 },
            Event::Chunk { len: 4 },
            Event::StreamEnded,
            Event::Extracted { ok: true },
        ],
    );
    assert!(acts.contains(&Action::Request {
        url: "https://ghp.ci/https://github.com/ltaoo/LobeChatClient/releases/download/v1.36.11/lobe-chat_v1.36.11.zip".to_string()
    }));
    let firsts: Vec<u64> = notices(&acts)
        .into_iter()
        .filter_map(|n| match n {
            Notice::Percent { downloaded, .. } => Some(downloaded),
            _ => None,
        })
        .collect();
    assert_eq!(firsts, vec![6, 10]);
    assert_eq!(inst.phase, Phase::Ready);
    assert!(!inst.partial);
}

#[test]
fn complete_archive_is_unpacked_without_download() {
    let mut inst = Installer::new(bundle_target(), false);
    let acts = drive(&mut inst, &[Event::Probed { installed: false, archive_exists: true }]);
    assert_eq!(inst.phase, Phase::Extracting);
    assert!(!acts.iter().any(|a| matches!(a, Action::Request { .. })));
    assert_eq!(
        acts.last().unwrap(),
        &Action::Extract {
            archive: "/home/u/.lobe_chat_client/lobe-chat_v1.36.11.zip".to_string(),
            dest: "/home/u/.lobe_chat_client/lobe-chat_v1.36.11".to_string(),
        }
    );
}

#[test]
fn missing_length_fails() {
    let mut inst = Installer::new(runtime_target(), false);
    let acts = drive(
        &mut inst,
        &[
            Event::Probed { installed: false, archive_exists: false },
            Event::Responded { success: true, content_length: None },
        ],
    );
    let last = notices(&acts).pop().unwrap();
    match last {
        Notice::Failed { reason, .. } => {
            assert_eq!(reason, FailReason::NoContentLength);
            assert_eq!(reason.text(), "no content length");
        }
        other => panic!("unexpected {:?}", other),
    }
    assert!(!inst.downloading);
}

#[test]
fn bad_archive_is_removed() {
    let mut inst = Installer::new(bundle_target(), false);
    let acts = drive(
        &mut inst,
        &[
            Event::Probed { installed: false, archive_exists: true },
            Event::Extracted { ok: false },
        ],
    );
    let n = acts.len();
    assert_eq!(
        acts[n - 2],
        Action::RemoveFile { path: "/home/u/.lobe_chat_client/lobe-chat_v1.36.11.zip".to_string() }
    );
    match &acts[n - 1] {
        Action::Emit(Notice::Failed { reason, .. }) => {
            assert_eq!(*reason, FailReason::UnzipFailed);
            assert_eq!(reason.text(), "unzip failed");
        }
        other => panic!("unexpected {:?}", other),
    }
    assert_eq!(inst.phase, Phase::Failed);
}

#[test]
fn connection_error_fails_request() {
    let mut inst = Installer::new(runtime_target(), false);
    let acts = drive(
        &mut inst,
        &[Event::Probed { installed: false, archive_exists: false }, Event::Broken],
    );
    assert!(matches!(
        notices(&acts).pop().unwrap(),
        Notice::Failed { reason: FailReason::RequestFailed, .. }
    ));
    assert!(!inst.downloading);
}

#[test]
fn second_ensure_attaches_to_run_in_flight() {
    let mut inst = Installer::new(runtime_target(), false);
    inst.ensure();
    inst.step(Event::Probed { installed: false, archive_exists: false });
    assert!(inst.is_busy());
    assert!(inst.downloading);
    let before = inst.clone();
    assert!(inst.ensure().is_empty());
    assert_eq!(inst, before);
}

#[test]
fn event_out_of_phase_is_ignored() {
    let mut inst = Installer::new(runtime_target(), false);
    let before = inst.clone();
    assert!(inst.step(Event::Chunk { len: 5 }).is_empty());
    assert_eq!(inst, before);
}

#[test]
fn oversized_stream_fails() {
    let mut inst = Installer::new(runtime_target(), false);
    let acts = drive(
        &mut inst,
        &[
            Event::Probed { installed: false, archive_exists: false },
            Event::Responded { success: true, content_length: Some(u64::MAX) },
            Event::CacheOpened,
            Event::Chunk { len: u64::MAX },
            Event::Chunk { len: 1 },
        ],
    );
    assert!(matches!(
        notices(&acts).pop().unwrap(),
        Notice::Failed { reason: FailReason::RequestFailed, .. }
    ));
    assert_eq!(inst.downloaded, u64::MAX);
    assert!(inst.partial);
}

#[test]
fn channel_names_by_kind() {
    let ready = Notice::Ready { path: String::new() };
    let pct = Notice::Percent { downloaded: 1, total: 2 };
    assert_eq!(channel_name(TargetKind::Runtime, &ready), "can_download_lobe_chat");
    assert_eq!(channel_name(TargetKind::Bundle, &ready), "can_start_lobe_chat_server");
    assert_eq!(channel_name(TargetKind::Runtime, &pct), "deno_download_percent");
    assert_eq!(channel_name(TargetKind::Bundle, &pct), "lobe_chat_download_percent");
    assert_eq!(
        channel_name(TargetKind::Runtime, &Notice::UnzipStart { file: String::new() }),
        "unzip_deno"
    );
    assert_eq!(TargetKind::Runtime.ready_field(), "bin_path");
    assert_eq!(TargetKind::Bundle.ready_field(), "lobe_chat_path");
}

#[test]
fn cleanup_covers_downloads_in_flight() {
    let layout = Layout::new("/home/u", "/home/u/.lobe_chat_client", HostOs::Linux, true);
    let mut state = AppState::new(layout, false, true);
    assert!(state.cleanup_paths().is_empty());
    state.ensure(TargetKind::Bundle);
    state.step(TargetKind::Bundle, Event::Probed { installed: false, archive_exists: false });
    assert_eq!(
        state.cleanup_paths(),
        vec!["/home/u/.lobe_chat_client/lobe-chat_v1.36.11.zip".to_string()]
    );
    let status = state.fetch_status();
    assert_eq!(status.runtime_path, "/home/u/.deno/bin/deno");
    assert!(!status.runtime_ready);
    assert_eq!(status.bundle_path, "/home/u/.lobe_chat_client/lobe-chat_v1.36.11");
    assert!(status.bundle_ready);
}
