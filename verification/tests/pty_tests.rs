use noirtty::protocol::{PtyCommand, TermCommand};
use noirtty::pty::{
    configure_shell_command, first_existing_candidate, host_step, reader_step, resolve_shell,
    shell_args_for_name, shell_candidate, shell_environment, HostEvent, HostStep, ReadOutcome,
    INITIAL_COLS, INITIAL_ROWS, READ_CHUNK, SHELL_CANDIDATES,
};

fn strings(items: &[&str]) -> Vec<String> {
    items.iter().map(|s| s.to_string()).collect()
}

#[test]
fn pty_starts_at_80_by_24() {
    assert_eq!((INITIAL_COLS, INITIAL_ROWS), (80, 24));
    assert_eq!(READ_CHUNK, 4096);
}

#[test]
fn shell_candidates_in_order() {
    assert_eq!(SHELL_CANDIDATES, 6);
    let all: Vec<String> = (0..6).map(shell_candidate).collect();
    assert_eq!(all, strings(&["/bin/zsh", "/usr/bin/zsh", "/bin/bash", "/usr/bin/bash", "/bin/sh", "/usr/bin/sh"]));
}

#[test]
fn shell_from_the_environment_wins_if_it_exists() {
    let all = vec![true; 6];
    assert_eq!(resolve_shell(Some("/opt/fish".to_string()), true, &all), "/opt/fish");
    assert_eq!(resolve_shell(Some("/opt/fish".to_string()), false, &all), "/bin/zsh");
    assert_eq!(resolve_shell(None, true, &all), "/bin/zsh");
    assert_eq!(resolve_shell(None, false, &all), "/bin/zsh");
}

#[test]
fn first_existing_candidate_is_taken() {
    assert_eq!(first_existing_candidate(&vec![false, false, true, true, true, true]), "/bin/bash");
    assert_eq!(first_existing_candidate(&vec![false, true, false, false, false, false]), "/usr/bin/zsh");
    assert_eq!(first_existing_candidate(&vec![false, false, false, false, false, true]), "/usr/bin/sh");
    assert_eq!(first_existing_candidate(&vec![false; 6]), "/bin/sh");
    assert_eq!(first_existing_candidate(&Vec::new()), "/bin/sh");
    assert_eq!(first_existing_candidate(&vec![false, false, false]), "/bin/sh");
    // What is reported beyond the candidates does not count.
    assert_eq!(first_existing_candidate(&vec![false, false, false, false, false, false, true]), "/bin/sh");
    assert_eq!(resolve_shell(Some("/nope".to_string()), false, &vec![false, false, false, true]), "/usr/bin/bash");
}

#[test]
fn arguments_by_base_name() {
    assert_eq!(shell_args_for_name("zsh"), strings(&["-l", "-i"]));
    assert_eq!(shell_args_for_name("bash"), strings(&["-l", "-i"]));
    assert_eq!(shell_args_for_name("fish"), strings(&["-l", "-i"]));
    assert_eq!(shell_args_for_name("sh"), strings(&["-i"]));
    assert_eq!(shell_args_for_name("dash"), Vec::<String>::new());
    assert_eq!(shell_args_for_name("Bash"), Vec::<String>::new());
    assert_eq!(shell_args_for_name(""), Vec::<String>::new());
    assert_eq!(shell_args_for_name("/bin/zsh"), Vec::<String>::new());
}

#[test]
fn arguments_by_path() {
    assert_eq!(configure_shell_command("/bin/zsh"), strings(&["-l", "-i"]));
    assert_eq!(configure_shell_command("/usr/local/bin/bash"), strings(&["-l", "-i"]));
    assert_eq!(configure_shell_command("/usr/bin/fish"), strings(&["-l", "-i"]));
    assert_eq!(configure_shell_command("/bin/sh"), strings(&["-i"]));
    assert_eq!(configure_shell_command("sh"), strings(&["-i"]));
    assert_eq!(configure_shell_command("/bin/zsh/"), strings(&["-l", "-i"]));
    assert_eq!(configure_shell_command("/usr/bin/nu"), Vec::<String>::new());
    assert_eq!(configure_shell_command("/bin/bash-5"), Vec::<String>::new());
    // A path without a final component counts as a whole.
    assert_eq!(configure_shell_command("/"), Vec::<String>::new());
    assert_eq!(configure_shell_command(".."), Vec::<String>::new());
    assert_eq!(configure_shell_command(""), Vec::<String>::new());
}

#[test]
fn shell_environment_adds_a_path_only_if_none_is_inherited() {
    let pairs = |items: &[(&str, &str)]| -> Vec<(String, String)> {
        items.iter().map(|(k, v)| (k.to_string(), v.to_string())).collect()
    };
    assert_eq!(
        shell_environment(true),
        pairs(&[("TERM", "xterm-256color"), ("COLORTERM", "truecolor"), ("LANG", "en_US.UTF-8")])
    );
    assert_eq!(
        shell_environment(false),
        pairs(&[
            ("TERM", "xterm-256color"),
            ("COLORTERM", "truecolor"),
            ("LANG", "en_US.UTF-8"),
            ("PATH", "/usr/local/bin:/usr/bin:/bin:/usr/sbin:/sbin")
        ])
    );
}

#[test]
fn control_loop_steps() {
    assert_eq!(host_step(HostEvent::Command(PtyCommand::Data(b"ls\n".to_vec()))), HostStep::Write(b"ls\n".to_vec()));
    assert_eq!(
        host_step(HostEvent::Command(PtyCommand::Resize(132, 43))),
        HostStep::Resize(132, 43, TermCommand::Resize(132, 43))
    );
    assert_eq!(host_step(HostEvent::Command(PtyCommand::Scroll(-2))), HostStep::Notify(TermCommand::Scroll(-2)));
    assert_eq!(host_step(HostEvent::WriteFailed), HostStep::Stop);
    assert_eq!(host_step(HostEvent::Closed), HostStep::Stop);
}

#[test]
fn reader_forwards_what_it_read() {
    let mut buf = [0u8; 16];
    buf[..5].copy_from_slice(b"hello");
    assert_eq!(reader_step(&buf, ReadOutcome::Read(5)), Some(TermCommand::Data(b"hello".to_vec())));
    assert_eq!(reader_step(&buf, ReadOutcome::Read(1)), Some(TermCommand::Data(b"h".to_vec())));
    assert_eq!(reader_step(&buf, ReadOutcome::Read(16)), Some(TermCommand::Data(buf.to_vec())));
    // End of file and errors end the reader.
    assert_eq!(reader_step(&buf, ReadOutcome::Read(0)), None);
    assert_eq!(reader_step(&buf, ReadOutcome::Failed), None);
    // A count beyond the buffer is cut to the buffer.
    assert_eq!(reader_step(&buf, ReadOutcome::Read(17)), Some(TermCommand::Data(buf.to_vec())));
    assert_eq!(reader_step(&[], ReadOutcome::Read(3)), Some(TermCommand::Data(Vec::new())));
}
