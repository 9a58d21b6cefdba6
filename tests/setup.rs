use lobe_chat_client::layout::{application_dir, host_os, os_target, HostOs, Layout};
use lobe_chat_client::paths::{entry_steps, get_file_parent_directory, FsStep};
use lobe_chat_client::text::{join_path, same_text};

#[test]
fn targets_by_system() {
    assert_eq!(os_target(HostOs::Windows, true), "x86_64-pc-windows-msvc");
    assert_eq!(os_target(HostOs::MacOs, true), "x86_64-apple-darwin");
    assert_eq!(os_target(HostOs::MacOs, false), "aarch64-apple-darwin");
    assert_eq!(os_target(HostOs::Linux, true), "x86_64-unknown-linux-gnu");
    assert_eq!(os_target(HostOs::Linux, false), "aarch64-unknown-linux-gnu");
    assert_eq!(os_target(HostOs::Other, false), "x86_64-unknown-linux-gnu");
}

#[test]
fn system_names() {
    assert_eq!(host_os("windows"), HostOs::Windows);
    assert_eq!(host_os("macos"), HostOs::MacOs);
    assert_eq!(host_os("linux"), HostOs::Linux);
    assert_eq!(host_os("freebsd"), HostOs::Other);
    assert_eq!(host_os(""), HostOs::Other);
}

#[test]
fn application_directory() {
    assert_eq!(application_dir(Some("/home/u")), "/home/u/.lobe_chat_client");
    assert_eq!(application_dir(Some("/home/u/")), "/home/u/.lobe_chat_client");
    assert_eq!(application_dir(None), "./.lobe_chat_client");
}

#[test]
fn layout_paths() {
    let l = Layout::new("/home/u", "/home/u/.lobe_chat_client", HostOs::MacOs, false);
    assert_eq!(l.os_target, "aarch64-apple-darwin");
    assert_eq!(l.runtime_dir, "/home/u/.deno");
    assert_eq!(l.runtime_bin_dir, "/home/u/.deno/bin");
    assert_eq!(l.runtime_bin, "/home/u/.deno/bin/deno");
    assert_eq!(
        l.runtime_archive,
        "/home/u/.lobe_chat_client/deno-2.1.4-aarch64-apple-darwin.zip"
    );
    assert_eq!(
        l.runtime_url,
        "https://ghp.ci/https://github.com/denoland/deno/releases/download/v2.1.4/deno-aarch64-apple-darwin.zip"
    );
    assert_eq!(l.bundle_dir, "/home/u/.lobe_chat_client/lobe-chat_v1.36.11");
    assert_eq!(l.bundle_archive, "/home/u/.lobe_chat_client/lobe-chat_v1.36.11.zip");
    assert_eq!(
        l.bundle_url,
        "https://ghp.ci/https://github.com/ltaoo/LobeChatClient/releases/download/v1.36.11/lobe-chat_v1.36.11.zip"
    );
    assert_eq!(
        l.directories(),
        vec![
            "/home/u/.deno".to_string(),
            "/home/u/.deno/bin".to_string(),
            "/home/u/.lobe_chat_client".to_string()
        ]
    );
}

#[test]
fn parent_directories() {
    assert_eq!(get_file_parent_directory("/a/b"), Some("/a".to_string()));
    assert_eq!(get_file_parent_directory("/a"), Some("/".to_string()));
    assert_eq!(get_file_parent_directory("a"), Some(String::new()));
    assert_eq!(get_file_parent_directory("/"), None);
    assert_eq!(get_file_parent_directory(""), None);
}

#[test]
fn joining_paths() {
    assert_eq!(join_path("/a", "b"), "/a/b");
    assert_eq!(join_path("/a/", "b"), "/a/b");
    assert_eq!(join_path("", "b"), "b");
    assert_eq!(join_path("/a", "/b"), "/b");
    assert_eq!(join_path("/a", ""), "/a/");
}

#[test]
fn comparing_texts() {
    assert!(same_text("abc", "abc"));
    assert!(!same_text("abc", "abd"));
    assert!(!same_text("abc", "ab"));
    assert!(same_text("", ""));
}

#[test]
fn steps_for_archive_entries() {
    assert_eq!(
        entry_steps("/out", "x/y.txt", false),
        vec![
            FsStep::MakeDirs("/out/x".to_string()),
            FsStep::WriteFile("/out/x/y.txt".to_string())
        ]
    );
    assert_eq!(
        entry_steps("/out", "x/", true),
        vec![FsStep::MakeDirs("/out".to_string()), FsStep::MakeDirs("/out/x/".to_string())]
    );
}
