use lobe_chat_client::session::{exit_code_on_shell_exit, shell_for, Session, SessionError, SessionPhase};

#[test]
fn two_starts_spawn_one_shell() {
    let mut s = Session::new(24, 80);
    let first = s.start_request(false).expect("first start spawns");
    assert_eq!(first.program, "bash");
    assert_eq!(first.term, "xterm-256color");
    assert!(s.record_spawn(Ok(())).is_ok());
    assert!(s.start_request(false).is_none());
    assert_eq!(s.phase, SessionPhase::Running);
}

#[test]
fn input_before_start_is_rejected() {
    let mut s = Session::new(24, 80);
    assert_eq!(s.check_write(), Err(SessionError::NotStarted));
    assert_eq!(
        s.record_spawn(Err("no shell".to_string())),
        Err(SessionError::Spawn("no shell".to_string()))
    );
    assert_eq!(s.check_write(), Err(SessionError::NotStarted));
    s.record_spawn(Ok(())).unwrap();
    assert_eq!(s.check_write(), Ok(()));
}

#[test]
fn windows_shell() {
    let c = shell_for(true);
    assert_eq!(c.program, "powershell.exe");
    assert_eq!(c.term, "cygwin");
}

#[test]
fn resize_records_size() {
    let mut s = Session::new(24, 80);
    s.resize(50, 120);
    assert_eq!((s.rows, s.cols), (50, 120));
}

#[test]
fn pump_appends_output() {
    let mut s = Session::new(24, 80);
    assert!(!s.absorb(&[]));
    assert!(s.absorb(b"ab"));
    assert!(s.absorb(b"c"));
    assert_eq!(s.transcript, b"abc".to_vec());
}

#[test]
fn shell_exit_code_passes_through() {
    assert_eq!(exit_code_on_shell_exit(0), 0);
    assert_eq!(exit_code_on_shell_exit(3), 3);
    assert_eq!(exit_code_on_shell_exit(0xffff_ffff), -1);
    assert_eq!(exit_code_on_shell_exit(0x8000_0000), i32::MIN);
    let mut s = Session::new(24, 80);
    s.record_spawn(Ok(())).unwrap();
    assert_eq!(s.shell_exited(2), 2);
    assert_eq!(s.phase, SessionPhase::Terminated);
    assert!(s.start_request(false).is_none());
}
