//! The PTY host's own rules: which shell to start and how, and what its
//! control loop and its reader do with each thing they receive.

use vstd::prelude::*;
use vstd::string::StringExecFns;
use crate::protocol::{CommandView, PtyCommand, TermCommand};
use crate::text::str_eq;

verus! {

/// Columns of a new PTY.
pub const INITIAL_COLS: u16 = 80;

/// Rows of a new PTY.
pub const INITIAL_ROWS: u16 = 24;

/// Most bytes that the reader takes from the PTY master at a time.
pub const READ_CHUNK: usize = 4096;

/// How many shells are tried when `$SHELL` names none that exists.
pub const SHELL_CANDIDATES: usize = 6;

/// The shells that are tried in turn, by position.
pub open spec fn candidate_path(i: int) -> Seq<char> {
    if i == 0 {
        "/bin/zsh"@
    } else if i == 1 {
        "/usr/bin/zsh"@
    } else if i == 2 {
        "/bin/bash"@
    } else if i == 3 {
        "/usr/bin/bash"@
    } else if i == 4 {
        "/bin/sh"@
    } else {
        "/usr/bin/sh"@
    }
}

/// The shell tried at position `i`.
pub fn shell_candidate(i: usize) -> (path: String)
    ensures
        path@ == candidate_path(i as int),
{
    if i == 0 {
        String::from_str("/bin/zsh")
    } else if i == 1 {
        String::from_str("/usr/bin/zsh")
    } else if i == 2 {
        String::from_str("/bin/bash")
    } else if i == 3 {
        String::from_str("/usr/bin/bash")
    } else if i == 4 {
        String::from_str("/bin/sh")
    } else {
        String::from_str("/usr/bin/sh")
    }
}

/// Whether the candidate at position `i` is reported to exist.
pub open spec fn candidate_found(exists: Seq<bool>, i: int) -> bool {
    0 <= i < SHELL_CANDIDATES && i < exists.len() && exists[i]
}

/// The first candidate at or after position `from` that exists, or
/// `/bin/sh` if none does.
pub open spec fn first_candidate(exists: Seq<bool>, from: int) -> Seq<char>
    decreases SHELL_CANDIDATES - from,
{
    if from < 0 || from >= SHELL_CANDIDATES {
        "/bin/sh"@
    } else if candidate_found(exists, from) {
        candidate_path(from)
    } else {
        first_candidate(exists, from + 1)
    }
}

/// The shell to start: `$SHELL` if it is set and exists, else the first
/// candidate that exists, else `/bin/sh`.
pub open spec fn resolved_shell(env_shell: Option<Seq<char>>, env_shell_exists: bool, exists: Seq<bool>) -> Seq<char> {
    match env_shell {
        Some(shell) if env_shell_exists => shell,
        _ => first_candidate(exists, 0),
    }
}

/// The first candidate shell that is reported to exist, or `/bin/sh`.
pub fn first_existing_candidate(candidate_exists: &Vec<bool>) -> (shell: String)
    ensures
        shell@ == first_candidate(candidate_exists@, 0),
{
    let mut i: usize = 0;
    while i < SHELL_CANDIDATES
        invariant
            i <= SHELL_CANDIDATES,
            first_candidate(candidate_exists@, 0) == first_candidate(candidate_exists@, i as int),
        decreases SHELL_CANDIDATES - i,
    {
        if i < candidate_exists.len() && candidate_exists[i] {
            return shell_candidate(i);
        }
        i = i + 1;
    }
    String::from_str("/bin/sh")
}

/// Chooses the shell to start. `env_shell` is the value of `$SHELL`, if
/// set, and `env_shell_exists` says whether that path exists;
/// `candidate_exists[i]` says whether the candidate at position `i` does.
pub fn resolve_shell(
    env_shell: Option<String>,
    env_shell_exists: bool,
    candidate_exists: &Vec<bool>,
) -> (shell: String)
    ensures
        shell@ == resolved_shell(
            match env_shell {
                Some(s) => Some(s@),
                None => None,
            },
            env_shell_exists,
            candidate_exists@,
        ),
{
    if let Some(shell) = env_shell {
        if env_shell_exists {
            return shell;
        }
    }
    first_existing_candidate(candidate_exists)
}

/// The final component of a path as `std::path::Path::file_name` gives it
/// for the target's path syntax, as text; `None` where the path has none.
pub uninterp spec fn path_file_name(path: Seq<char>) -> Option<Seq<char>>;

/// The final component of a path.
///
/// Wraps `std::path::Path::file_name`: the result is what that function
/// returns for `path`, as text. Nothing more is claimed of it.
#[verifier::external_body]
fn file_name_of(path: &str) -> (name: Option<String>)
    ensures
        path_file_name(path@) == (match name {
            Some(n) => Some(n@),
            None => None,
        }),
{
    match std::path::Path::new(path).file_name() {
        Some(name) => match name.to_str() {
            Some(text) => Some(text.to_string()),
            None => None,
        },
        None => None,
    }
}

/// The extra arguments for a shell of the given base name: `-l -i` for
/// `zsh`, `bash` and `fish`, `-i` for `sh`, none for any other.
pub open spec fn args_for(name: Seq<char>) -> Seq<Seq<char>> {
    if name == "zsh"@ || name == "bash"@ || name == "fish"@ {
        seq!["-l"@, "-i"@]
    } else if name == "sh"@ {
        seq!["-i"@]
    } else {
        Seq::<Seq<char>>::empty()
    }
}

/// The extra arguments for a shell, given its base name.
pub fn shell_args_for_name(name: &str) -> (args: Vec<String>)
    ensures
        args.deep_view() == args_for(name@),
{
    let mut args: Vec<String> = Vec::new();
    if str_eq(name, "zsh") || str_eq(name, "bash") || str_eq(name, "fish") {
        args.push(String::from_str("-l"));
        args.push(String::from_str("-i"));
    } else if str_eq(name, "sh") {
        args.push(String::from_str("-i"));
    }
    args
}

/// The base name that decides a shell's arguments: the final component of
/// its path, or the whole path where it has none.
pub open spec fn shell_base_name(shell: Seq<char>) -> Seq<char> {
    match path_file_name(shell) {
        Some(name) => name,
        None => shell,
    }
}

/// The extra arguments with which a shell is started, by its base name.
pub fn configure_shell_command(shell: &str) -> (args: Vec<String>)
    ensures
        args.deep_view() == args_for(shell_base_name(shell@)),
{
    match file_name_of(shell) {
        Some(name) => shell_args_for_name(name.as_str()),
        None => shell_args_for_name(shell),
    }
}

/// The environment that the shell is given besides what it inherits. The
/// default search path is added only where none is inherited.
pub open spec fn shell_env(path_inherited: bool) -> Seq<(Seq<char>, Seq<char>)> {
    let fixed = seq![
        ("TERM"@, "xterm-256color"@),
        ("COLORTERM"@, "truecolor"@),
        ("LANG"@, "en_US.UTF-8"@),
    ];
    if path_inherited {
        fixed
    } else {
        fixed.push(("PATH"@, "/usr/local/bin:/usr/bin:/bin:/usr/sbin:/sbin"@))
    }
}

/// The variables to set for the shell, as names and values.
pub fn shell_environment(path_inherited: bool) -> (vars: Vec<(String, String)>)
    ensures
        vars.deep_view() == shell_env(path_inherited),
{
    let mut vars: Vec<(String, String)> = Vec::new();
    vars.push((String::from_str("TERM"), String::from_str("xterm-256color")));
    vars.push((String::from_str("COLORTERM"), String::from_str("truecolor")));
    vars.push((String::from_str("LANG"), String::from_str("en_US.UTF-8")));
    if !path_inherited {
        vars.push(
            (String::from_str("PATH"), String::from_str("/usr/local/bin:/usr/bin:/bin:/usr/sbin:/sbin")),
        );
    }
    vars
}

/// What the control loop of the PTY host observed.
#[derive(Debug, PartialEq, Eq)]
pub enum HostEvent {
    /// A command from a transport.
    Command(PtyCommand),
    /// The last write to the PTY master failed.
    WriteFailed,
    /// The command queue closed.
    Closed,
}

/// A host event as contracts see it.
pub enum HostEventView {
    Command(CommandView),
    WriteFailed,
    Closed,
}

impl View for HostEvent {
    type V = HostEventView;

    open spec fn view(&self) -> HostEventView {
        match *self {
            HostEvent::Command(cmd) => HostEventView::Command(cmd@),
            HostEvent::WriteFailed => HostEventView::WriteFailed,
            HostEvent::Closed => HostEventView::Closed,
        }
    }
}

/// What the control loop does next.
#[derive(Debug, PartialEq, Eq)]
pub enum HostStep {
    /// Write all the bytes to the PTY master, retrying short writes.
    Write(Vec<u8>),
    /// Resize the PTY master to these columns and rows, then send the
    /// command to the emulator loop.
    Resize(u16, u16, TermCommand),
    /// Send the command to the emulator loop.
    Notify(TermCommand),
    /// Leave the loop; the session ends.
    Stop,
}

/// A host step as contracts see it.
pub enum HostStepView {
    Write(Seq<u8>),
    Resize(u16, u16, CommandView),
    Notify(CommandView),
    Stop,
}

impl View for HostStep {
    type V = HostStepView;

    open spec fn view(&self) -> HostStepView {
        match *self {
            HostStep::Write(bytes) => HostStepView::Write(bytes@),
            HostStep::Resize(cols, rows, cmd) => HostStepView::Resize(cols, rows, cmd@),
            HostStep::Notify(cmd) => HostStepView::Notify(cmd@),
            HostStep::Stop => HostStepView::Stop,
        }
    }
}

/// The step that an event calls for: data is written to the shell, a
/// resize is applied to the PTY and passed on, a scroll is passed on, and
/// a failed write or the end of the queue ends the loop.
pub open spec fn host_step_for(event: HostEventView) -> HostStepView {
    match event {
        HostEventView::Command(CommandView::Data(bytes)) => HostStepView::Write(bytes),
        HostEventView::Command(CommandView::Resize(cols, rows)) => HostStepView::Resize(
            cols,
            rows,
            CommandView::Resize(cols, rows),
        ),
        HostEventView::Command(CommandView::Scroll(delta)) => HostStepView::Notify(
            CommandView::Scroll(delta),
        ),
        HostEventView::WriteFailed => HostStepView::Stop,
        HostEventView::Closed => HostStepView::Stop,
    }
}

/// Decides what the control loop does with one event.
pub fn host_step(event: HostEvent) -> (step: HostStep)
    ensures
        step@ == host_step_for(event@),
{
    match event {
        HostEvent::Command(PtyCommand::Data(bytes)) => HostStep::Write(bytes),
        HostEvent::Command(PtyCommand::Resize(cols, rows)) => HostStep::Resize(
            cols,
            rows,
            TermCommand::Resize(cols, rows),
        ),
        HostEvent::Command(PtyCommand::Scroll(delta)) => HostStep::Notify(
            TermCommand::Scroll(delta),
        ),
        HostEvent::WriteFailed => HostStep::Stop,
        HostEvent::Closed => HostStep::Stop,
    }
}

/// What a read from the PTY master gave.
#[derive(Clone, Copy, Debug, PartialEq, Eq, Structural)]
pub enum ReadOutcome {
    /// This many bytes were placed at the start of the buffer; zero at end
    /// of file.
    Read(usize),
    /// The read failed.
    Failed,
}

/// The command that a read calls for, if the reader goes on: the bytes
/// read, as data for the emulator loop. End of file and a failed read end
/// the reader.
pub open spec fn reader_command(buf: Seq<u8>, outcome: ReadOutcome) -> Option<CommandView> {
    match outcome {
        ReadOutcome::Read(n) => if n == 0 {
            None
        } else if n <= buf.len() {
            Some(CommandView::Data(buf.subrange(0, n as int)))
        } else {
            Some(CommandView::Data(buf))
        },
        ReadOutcome::Failed => None,
    }
}

/// Decides what the reader does after one read into `buf`: forward the
/// bytes read, or stop (`None`).
pub fn reader_step(buf: &[u8], outcome: ReadOutcome) -> (cmd: Option<TermCommand>)
    ensures
        reader_command(buf@, outcome) == (match cmd {
            Some(c) => Some(c@),
            None => None,
        }),
{
    match outcome {
        ReadOutcome::Failed => None,
        ReadOutcome::Read(n) => {
            if n == 0 {
                return None;
            }
            let take: usize = if n <= buf.len() {
                n
            } else {
                buf.len()
            };
            let mut bytes: Vec<u8> = Vec::new();
            let mut i: usize = 0;
            while i < take
                invariant
                    i <= take,
                    take <= buf@.len(),
                    bytes@ == buf@.subrange(0, i as int),
                decreases take - i,
            {
                bytes.push(buf[i]);
                i = i + 1;
            }
            assert(take == buf@.len() ==> buf@.subrange(0, take as int) =~= buf@);
            Some(TermCommand::Data(bytes))
        },
    }
}

} // verus!
