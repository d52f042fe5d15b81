//! Spoken notifications through the host's own speech program: which program
//! to run for a platform, and what its outcome means for the alarm. The message
//! is always handed over whole, as one argument or on standard input, and is
//! never pasted into script text.
use crate::scheduler::{after_delivery, transition, AlarmConfig, Event, Phase};
use vstd::prelude::*;
use vstd::string::*;

verus! {

/// The host platforms that have a known speech program, and the rest.
#[derive(Clone, Copy, Debug, PartialEq, Eq, Structural)]
pub enum Platform {
    MacOs,
    Windows,
    Linux,
    Other,
}

/// A program invocation: the program, its arguments, and the text to write to
/// its standard input, if any.
pub struct SpeechCommand {
    pub program: String,
    pub args: Vec<String>,
    pub stdin_text: Option<String>,
}

impl SpeechCommand {
    pub open spec fn args_view(&self) -> Seq<Seq<char>> {
        self.args@.map_values(|a: String| a@)
    }

    pub open spec fn stdin_view(&self) -> Option<Seq<char>> {
        match self.stdin_text {
            Some(t) => Some(t@),
            None => None,
        }
    }
}

/// The PowerShell script that speaks what it reads from standard input.
pub open spec fn windows_script() -> Seq<char> {
    "Add-Type -AssemblyName System.Speech; (New-Object System.Speech.Synthesis.SpeechSynthesizer).Speak([Console]::In.ReadToEnd())"@
}

/// The invocation for each platform, as (program, arguments, standard input).
pub open spec fn speech_command_spec(platform: Platform, message: Seq<char>) -> Option<
    (Seq<char>, Seq<Seq<char>>, Option<Seq<char>>),
> {
    match platform {
        Platform::MacOs => Some(("say"@, seq![message], None)),
        Platform::Linux => Some(("espeak"@, seq![message], None)),
        Platform::Windows => Some(
            (
                "powershell"@,
                seq!["-Command"@, windows_script()],
                Some(message),
            ),
        ),
        Platform::Other => None,
    }
}

fn one_arg(a: &str) -> (r: Vec<String>)
    ensures
        r@.map_values(|s: String| s@) == seq![a@],
{
    let mut v: Vec<String> = Vec::new();
    v.push(String::from_str(a));
    assert(v@.map_values(|s: String| s@) =~= seq![a@]);
    v
}

/// The speech program to run on `platform` to say `message`, or `None` where
/// the platform has none.
pub fn speech_command(platform: Platform, message: &str) -> (r: Option<SpeechCommand>)
    ensures
        r is None <==> speech_command_spec(platform, message@) is None,
        r matches Some(cmd) ==> speech_command_spec(platform, message@) == Some(
            (cmd.program@, cmd.args_view(), cmd.stdin_view()),
        ),
{
    match platform {
        Platform::MacOs => Some(
            SpeechCommand { program: String::from_str("say"), args: one_arg(message), stdin_text: None },
        ),
        Platform::Linux => Some(
            SpeechCommand {
                program: String::from_str("espeak"),
                args: one_arg(message),
                stdin_text: None,
            },
        ),
        Platform::Windows => {
            let mut args: Vec<String> = Vec::new();
            args.push(String::from_str("-Command"));
            args.push(
                String::from_str(
                    "Add-Type -AssemblyName System.Speech; (New-Object System.Speech.Synthesis.SpeechSynthesizer).Speak([Console]::In.ReadToEnd())",
                ),
            );
            let cmd = SpeechCommand {
                program: String::from_str("powershell"),
                args,
                stdin_text: Some(String::from_str(message)),
            };
            assert(cmd.args_view() =~= seq!["-Command"@, windows_script()]);
            Some(cmd)
        },
        Platform::Other => None,
    }
}

/// How running the speech program went.
#[derive(Clone, Copy, Debug, PartialEq, Eq, Structural)]
pub enum ShellStatus {
    /// The platform has no speech program.
    Unsupported,
    /// The program could not be started.
    SpawnFailed,
    /// The program ran and exited, successfully or not.
    Exited { success: bool },
}

/// The event for the scheduler after a spoken notification. Speech through a
/// shell program is best effort: whatever happened (no speech program on this
/// platform, a program that fails to start or exits with a failure) the
/// delivery succeeds, and only the warning from `shell_warning` tells of it.
pub fn shell_event(status: ShellStatus) -> (e: Event)
    ensures
        e == Event::Delivered,
{
    Event::Delivered
}

/// The warning to log after a spoken notification, if any.
pub fn shell_warning(status: ShellStatus) -> (r: Option<&'static str>)
    ensures
        r matches Some(w) ==> w@ == match status {
            ShellStatus::Unsupported => "Unsupported operating system for TTS"@,
            ShellStatus::SpawnFailed => "Failed to start the speech program"@,
            _ => "The speech program exited with a failure"@,
        },
        r is None <==> status == (ShellStatus::Exited { success: true }),
{
    match status {
        ShellStatus::Unsupported => Some("Unsupported operating system for TTS"),
        ShellStatus::SpawnFailed => Some("Failed to start the speech program"),
        ShellStatus::Exited { success } => if success {
            None
        } else {
            Some("The speech program exited with a failure")
        },
    }
}

/// On a platform without a speech program, a spoken delivery is a no-op that
/// succeeds: there is no command to run, the outcome is a delivered
/// notification, and the scheduler carries on exactly as after one.
pub proof fn lemma_unsupported_platform_is_noop(c: AlarmConfig, done: usize, message: Seq<char>)
    requires
        c.wf(),
        done < c.times_per_fire,
    ensures
        speech_command_spec(Platform::Other, message) is None,
        transition(c, Phase::Firing { done }, Event::Delivered) == after_delivery(c, done),
{
}

} // verus!
