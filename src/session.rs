//! The terminal session bridge: at most one shell per session, input only
//! once the shell runs, a recorded window size, the transcript of what the
//! shell printed, and what the application does when the shell exits.

use vstd::prelude::*;

verus! {

/// The life of a session. A terminated shell ends the application, so there
/// is no way back to `NotStarted`.
#[derive(Clone, Copy, Debug, PartialEq, Eq)]
pub enum SessionPhase {
    NotStarted,
    Running,
    Terminated,
}

/// The shell to spawn on the terminal's slave side.
#[derive(Clone, Debug, PartialEq, Eq)]
pub struct ShellCommand {
    /// The program to run.
    pub program: String,
    /// The value of the `TERM` variable, so that the shell enables its
    /// full-screen features.
    pub term: String,
}

/// Why a session request failed.
#[derive(Clone, Debug, PartialEq, Eq)]
pub enum SessionError {
    /// Input came before a shell was running; it is dropped, not buffered.
    NotStarted,
    /// The shell could not be spawned; the message says why.
    Spawn(String),
    /// Writing to the terminal failed; the input is lost.
    WriteFailed,
}

/// One pseudo-terminal session.
#[derive(Clone, Debug)]
pub struct Session {
    pub phase: SessionPhase,
    pub rows: u16,
    pub cols: u16,
    /// Everything the shell has printed so far.
    pub transcript: Vec<u8>,
}

/// The shell program: PowerShell on Windows, bash elsewhere.
pub open spec fn shell_program(windows: bool) -> Seq<char> {
    if windows {
        "powershell.exe"@
    } else {
        "bash"@
    }
}

/// The terminal type announced to the shell.
pub open spec fn shell_term(windows: bool) -> Seq<char> {
    if windows {
        "cygwin"@
    } else {
        "xterm-256color"@
    }
}

/// A start request spawns a shell only when none was ever spawned.
pub open spec fn needs_shell(s: Session) -> bool {
    s.phase == SessionPhase::NotStarted
}

/// The session once the spawn of a requested shell succeeded or failed.
pub open spec fn after_spawn(s: Session, spawned: bool) -> Session {
    if needs_shell(s) && spawned {
        Session { phase: SessionPhase::Running, ..s }
    } else {
        s
    }
}

/// Input is accepted only while the shell runs.
pub open spec fn accepts_input(s: Session) -> bool {
    s.phase == SessionPhase::Running
}

/// The code the application exits with when the shell exits with `status`:
/// the same 32 bits, read as a signed number.
pub open spec fn exit_code_for(status: u32) -> int {
    if status <= 0x7fff_ffff {
        status as int
    } else {
        status - 0x1_0000_0000
    }
}

/// The shell command for the platform.
pub fn shell_for(windows: bool) -> (r: ShellCommand)
    ensures
        r.program@ == shell_program(windows),
        r.term@ == shell_term(windows),
{
    if windows {
        ShellCommand {
            program: String::from_str("powershell.exe"),
            term: String::from_str("cygwin"),
        }
    } else {
        ShellCommand { program: String::from_str("bash"), term: String::from_str("xterm-256color") }
    }
}

/// The decision taken when the shell exits: the whole application exits
/// with the shell's status.
pub fn exit_code_on_shell_exit(status: u32) -> (r: i32)
    ensures
        r as int == exit_code_for(status),
{
    if status <= 0x7fff_ffff {
        status as i32
    } else {
        (status as i64 - 0x1_0000_0000i64) as i32
    }
}

impl Session {
    /// A session with no shell yet, for a terminal of the given size.
    pub fn new(rows: u16, cols: u16) -> (r: Session)
        ensures
            r.phase == SessionPhase::NotStarted,
            r.rows == rows,
            r.cols == cols,
            r.transcript@ == Seq::<u8>::empty(),
    {
        Session { phase: SessionPhase::NotStarted, rows, cols, transcript: Vec::new() }
    }

    /// What a start request must spawn: the platform's shell, or nothing when
    /// a shell was already spawned (the request then succeeds as it is).
    pub fn start_request(&self, windows: bool) -> (r: Option<ShellCommand>)
        ensures
            r is Some <==> needs_shell(*self),
            r matches Some(c) ==> c.program@ == shell_program(windows) && c.term@ == shell_term(
                windows,
            ),
    {
        match self.phase {
            SessionPhase::NotStarted => Some(shell_for(windows)),
            _ => None,
        }
    }

    /// Records how the spawn of a requested shell went. Success starts the
    /// session; a failure leaves it unstarted and returns the spawn message.
    pub fn record_spawn(&mut self, outcome: Result<(), String>) -> (r: Result<(), SessionError>)
        ensures
            *final(self) == after_spawn(*old(self), outcome is Ok),
            match outcome {
                Ok(()) => r is Ok,
                Err(m) => r == Err::<(), SessionError>(SessionError::Spawn(m)),
            },
    {
        match outcome {
            Ok(()) => {
                if let SessionPhase::NotStarted = self.phase {
                    self.phase = SessionPhase::Running;
                }
                Ok(())
            },
            Err(m) => Err(SessionError::Spawn(m)),
        }
    }

    /// Whether input may be written now; before the shell runs it is rejected.
    pub fn check_write(&self) -> (r: Result<(), SessionError>)
        ensures
            r is Ok <==> accepts_input(*self),
            r is Err ==> r == Err::<(), SessionError>(SessionError::NotStarted),
    {
        match self.phase {
            SessionPhase::Running => Ok(()),
            _ => Err(SessionError::NotStarted),
        }
    }

    /// Records the new window size.
    pub fn resize(&mut self, rows: u16, cols: u16)
        ensures
            *final(self) == (Session { rows, cols, ..*old(self) }),
    {
        self.rows = rows;
        self.cols = cols;
    }

    /// Takes in what the terminal printed since the last drain: appends it
    /// to the transcript and says whether there is anything to publish.
    pub fn absorb(&mut self, chunk: &[u8]) -> (r: bool)
        ensures
            final(self).transcript@ == old(self).transcript@ + chunk@,
            final(self).phase == old(self).phase,
            final(self).rows == old(self).rows,
            final(self).cols == old(self).cols,
            r == (chunk@.len() > 0),
    {
        let n = chunk.len();
        let mut i: usize = 0;
        while i < n
            invariant
                n == chunk@.len(),
                i <= n,
                self.transcript@ == old(self).transcript@ + chunk@.take(i as int),
                self.phase == old(self).phase,
                self.rows == old(self).rows,
                self.cols == old(self).cols,
            decreases n - i,
        {
            self.transcript.push(chunk[i]);
            assert(chunk@.take(i as int).push(chunk@[i as int]) =~= chunk@.take(i + 1));
            i += 1;
        }
        assert(chunk@.take(n as int) =~= chunk@);
        n > 0
    }

    /// The shell exited: the session is over and the application exits with
    /// the returned code.
    pub fn shell_exited(&mut self, status: u32) -> (r: i32)
        ensures
            final(self).phase == SessionPhase::Terminated,
            final(self).rows == old(self).rows,
            final(self).cols == old(self).cols,
            final(self).transcript == old(self).transcript,
            r as int == exit_code_for(status),
    {
        self.phase = SessionPhase::Terminated;
        exit_code_on_shell_exit(status)
    }
}

/// Two start requests in a row spawn one shell: the first asks for it, and
/// once it is spawned the second asks for nothing and succeeds as it is.
pub proof fn lemma_single_shell(s: Session)
    requires
        s.phase == SessionPhase::NotStarted,
    ensures
        needs_shell(s),
        !needs_shell(after_spawn(s, true)),
        after_spawn(after_spawn(s, true), true) == after_spawn(s, true),
{
}

/// Input is rejected until a spawn has succeeded, also after a failed one,
/// and accepted from then on.
pub proof fn lemma_write_after_start(s: Session)
    requires
        s.phase == SessionPhase::NotStarted,
    ensures
        !accepts_input(s),
        !accepts_input(after_spawn(s, false)),
        accepts_input(after_spawn(s, true)),
{
}

} // verus!
