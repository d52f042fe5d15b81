use alarm::scheduler::Event;
use alarm::speech::{shell_event, shell_warning, speech_command, Platform, ShellStatus};

#[test]
fn unix_like_platforms_pass_the_message_as_one_argument() {
    let mac = speech_command(Platform::MacOs, "time's up; rm -rf").unwrap();
    assert_eq!(mac.program, "say");
    assert_eq!(mac.args, vec!["time's up; rm -rf".to_string()]);
    assert!(mac.stdin_text.is_none());
    let linux = speech_command(Platform::Linux, "wake up").unwrap();
    assert_eq!(linux.program, "espeak");
    assert_eq!(linux.args, vec!["wake up".to_string()]);
}

#[test]
fn windows_reads_the_message_from_stdin() {
    let msg = "it's '); Remove-Item x; ('";
    let win = speech_command(Platform::Windows, msg).unwrap();
    assert_eq!(win.program, "powershell");
    assert_eq!(win.args.len(), 2);
    assert_eq!(win.args[0], "-Command");
    assert!(win.args[1].contains("System.Speech"));
    assert!(win.args.iter().all(|a| !a.contains(msg)));
    assert_eq!(win.stdin_text.as_deref(), Some(msg));
}

#[test]
fn unsupported_platform_is_a_quiet_success() {
    assert!(speech_command(Platform::Other, "hello").is_none());
    assert_eq!(shell_event(ShellStatus::Unsupported), Event::Delivered);
    assert_eq!(shell_warning(ShellStatus::Unsupported), Some("Unsupported operating system for TTS"));
}

#[test]
fn failed_speech_program_still_counts_as_delivered() {
    assert_eq!(shell_event(ShellStatus::SpawnFailed), Event::Delivered);
    assert_eq!(shell_event(ShellStatus::Exited { success: false }), Event::Delivered);
    assert_eq!(shell_event(ShellStatus::Exited { success: true }), Event::Delivered);
    assert!(shell_warning(ShellStatus::SpawnFailed).is_some());
    assert!(shell_warning(ShellStatus::Exited { success: false }).is_some());
    assert!(shell_warning(ShellStatus::Exited { success: true }).is_none());
}
