use setup_tool::arch::{classify_machine, detect_from_output, ArchTag};
use setup_tool::error::SetupError;
use setup_tool::flow::{advance, command_for, first_phase, log_line, Outcome, Phase};
use setup_tool::install::{apply_install, download_url, install_script, plan_install, release_dir, CacheState, InstallSteps};
use setup_tool::session::{cleanup_action, record_from_quoted, session_dir, session_file, session_record, CleanupAction, SERVER_PORT};
use setup_tool::supervisor::{kill_time, launch_script, supervisor_step, tunnel_arg, SupervisorAction, SupervisorEvent, SupervisorState};

fn outcome(success: bool, output: &str, errors: &str) -> Outcome {
    Outcome { success, output: output.to_string(), errors: errors.to_string() }
}

#[test]
fn mapping_listed_identifiers() {
    assert_eq!(classify_machine("x86_64"), (ArchTag::LinuxX64, true));
    assert_eq!(classify_machine("aarch64"), (ArchTag::LinuxArm64, true));
    assert_eq!(classify_machine("arm64"), (ArchTag::LinuxArm64, true));
}

#[test]
fn mapping_unknown_identifier_defaults_with_warning() {
    assert_eq!(classify_machine("riscv64"), (ArchTag::LinuxX64, false));
    assert_eq!(classify_machine(""), (ArchTag::LinuxX64, false));
    let d = detect_from_output("mips\n");
    assert_eq!(d.tag, ArchTag::LinuxX64);
    assert!(!d.recognized);
    assert_eq!(d.machine, "mips");
}

#[test]
fn detection_trims_and_lowercases() {
    let d = detect_from_output("  AARCH64\n");
    assert_eq!(d.machine, "aarch64");
    assert_eq!(d.tag, ArchTag::LinuxArm64);
    assert!(d.recognized);
    let d = detect_from_output("ARM64\r\n");
    assert_eq!(d.tag, ArchTag::LinuxArm64);
    let d = detect_from_output("X86_64\n");
    assert_eq!(d.machine, "x86_64");
    assert_eq!(d.tag, ArchTag::LinuxX64);
    assert!(d.recognized);
}

#[test]
fn tag_names_round_trip() {
    assert_eq!(ArchTag::LinuxX64.name(), "linux-x64");
    assert_eq!(ArchTag::LinuxArm64.name(), "linux-arm64");
    assert_eq!(ArchTag::from_name("linux-x64"), Some(ArchTag::LinuxX64));
    assert_eq!(ArchTag::from_name("linux-arm64"), Some(ArchTag::LinuxArm64));
    assert_eq!(ArchTag::from_name("linux-ppc"), None);
}

#[test]
fn install_twice_only_first_run_works() {
    let empty = CacheState { archive: false, unpacked: false };
    let first = plan_install(empty, false);
    assert_eq!(first, InstallSteps { clear: false, download: true, extract: true });
    let after = apply_install(empty, first);
    assert_eq!(after, CacheState { archive: true, unpacked: true });
    let second = plan_install(after, false);
    assert_eq!(second, InstallSteps { clear: false, download: false, extract: false });
    assert_eq!(apply_install(after, second), after);
}

#[test]
fn install_skips_what_is_present() {
    let s = CacheState { archive: true, unpacked: false };
    assert_eq!(plan_install(s, false), InstallSteps { clear: false, download: false, extract: true });
}

#[test]
fn clear_cache_reinstalls() {
    let full = CacheState { archive: true, unpacked: true };
    let steps = plan_install(full, true);
    assert_eq!(steps, InstallSteps { clear: true, download: true, extract: true });
    assert_eq!(apply_install(full, steps), full);
    let script = install_script(ArchTag::LinuxX64, true);
    assert!(script.contains("rm -rf openvscode-server.tar.gz openvscode-server\n"));
    let script = install_script(ArchTag::LinuxX64, false);
    assert!(!script.contains("rm -rf openvscode-server.tar.gz"));
}

#[test]
fn install_script_names_the_artifact() {
    assert_eq!(release_dir(ArchTag::LinuxArm64), "openvscode-server-v1.103.1-linux-arm64");
    assert_eq!(
        download_url(ArchTag::LinuxX64),
        "https://github.com/gitpod-io/openvscode-server/releases/download/openvscode-server-v1.103.1/openvscode-server-v1.103.1-linux-x64.tar.gz"
    );
    let script = install_script(ArchTag::LinuxArm64, false);
    assert!(script.starts_with("set -e\nmkdir -p ~/.socratic-shell/theoldswitcheroo/\n"));
    assert!(script.contains("if [ ! -f openvscode-server.tar.gz ]; then"));
    assert!(script.contains("if [ ! -d openvscode-server ]; then"));
    assert!(script.contains("openvscode-server-v1.103.1-linux-arm64.tar.gz"));
    assert!(script.contains("mv openvscode-server.partial/openvscode-server-v1.103.1-linux-arm64 openvscode-server\n"));
}

#[test]
fn failed_start_never_supervises() {
    let (s, a) = supervisor_step(SupervisorState::Starting, SupervisorEvent::StartupChecked { server_alive: false });
    assert_eq!(s, SupervisorState::Failed);
    assert_eq!(a, SupervisorAction::ReportStartFailure);
    let (s2, a2) = supervisor_step(s, SupervisorEvent::ParentPolled { parent_alive: true });
    assert_eq!(s2, SupervisorState::Failed);
    assert_eq!(a2, SupervisorAction::Ignore);
    let (s3, a3) = supervisor_step(s2, SupervisorEvent::ParentPolled { parent_alive: false });
    assert_eq!(s3, SupervisorState::Failed);
    assert_eq!(a3, SupervisorAction::Ignore);
}

#[test]
fn failed_start_is_server_start_error() {
    let r = advance(Phase::Launch, None, &outcome(false, "ERROR: openvscode-server failed to start", "boom"));
    assert_eq!(r, Err(SetupError::ServerStart("boom".to_string())));
    let msg = r.unwrap_err().message();
    assert!(msg.contains("architecture mismatch"));
    assert!(msg.ends_with("boom"));
}

#[test]
fn supervision_kills_when_parent_dies() {
    let (s, a) = supervisor_step(SupervisorState::Starting, SupervisorEvent::StartupChecked { server_alive: true });
    assert_eq!((s, a), (SupervisorState::Supervising, SupervisorAction::PollAgain));
    let (s, a) = supervisor_step(s, SupervisorEvent::ParentPolled { parent_alive: true });
    assert_eq!((s, a), (SupervisorState::Supervising, SupervisorAction::PollAgain));
    let (s, a) = supervisor_step(s, SupervisorEvent::ParentPolled { parent_alive: false });
    assert_eq!((s, a), (SupervisorState::Terminated, SupervisorAction::KillServer));
}

#[test]
fn teardown_within_one_interval() {
    // polls every 1000 ms from 0; the parent dies at 2300 ms: killed at 3000 ms
    assert_eq!(kill_time(0, 1000, 2300), 3000);
    assert_eq!(kill_time(0, 1000, 2000), 2000);
    assert_eq!(kill_time(500, 1000, 500), 500);
    assert_eq!(kill_time(500, 1000, 501), 1500);
    assert_eq!(kill_time(0, 10, u64::MAX), 18446744073709551620u128);
    for death in 0..5000u64 {
        let k = kill_time(0, 1000, death);
        assert!(k >= death as u128 && k < death as u128 + 1000);
    }
}

#[test]
fn session_record_holds_host_and_port() {
    assert_eq!(session_record("localhost", 8765), "{\"host\":\"localhost\",\"port\":8765}");
    assert_eq!(session_record("a\"b", 7), "{\"host\":\"a\\\"b\",\"port\":7}");
    assert_eq!(session_record("h\u{e9}\\\n", 1), "{\"host\":\"h\u{e9}\\\\\\n\",\"port\":1}");
    assert_eq!(record_from_quoted("\"h\"", 0), "{\"host\":\"h\",\"port\":0}");
    assert_eq!(record_from_quoted("\"h\"", 65535), "{\"host\":\"h\",\"port\":65535}");
}

#[test]
fn session_paths() {
    assert_eq!(session_dir("/home/op"), "/home/op/.socratic-shell/theoldswitcheroo");
    assert_eq!(session_file("/home/op"), "/home/op/.socratic-shell/theoldswitcheroo/session.json");
}

#[test]
fn cleanup_of_absent_record_is_no_error() {
    assert_eq!(cleanup_action(true), CleanupAction::RemoveAndConfirm);
    assert_eq!(cleanup_action(false), CleanupAction::Nothing);
}

#[test]
fn launch_script_and_tunnel_use_the_port() {
    assert_eq!(tunnel_arg(8765), "8765:localhost:8765");
    assert_eq!(tunnel_arg(80), "80:localhost:80");
    let s = launch_script(8765);
    assert!(s.contains("--port 8765 --without-connection-token &"));
    assert!(s.contains("sleep 2\n"));
    assert!(s.contains("while kill -0 $PPID 2>/dev/null; do sleep 1; done\nkill $SERVER_PID"));
    assert!(s.contains("exit 1"));
}

#[test]
fn probe_failure_is_connection_error() {
    let r = advance(Phase::Probe, None, &outcome(false, "", "no route to host"));
    assert_eq!(r, Err(SetupError::Connection("no route to host".to_string())));
    assert_eq!(r.unwrap_err().message(), "connection failed: no route to host");
}

#[test]
fn detect_and_install_failures() {
    let r = advance(Phase::Detect, None, &outcome(false, "", "lost"));
    assert_eq!(r, Err(SetupError::Detection("lost".to_string())));
    let r = advance(Phase::Install(ArchTag::LinuxX64), None, &outcome(false, "", "curl: 404"));
    assert_eq!(r, Err(SetupError::Install("curl: 404".to_string())));
}

#[test]
fn given_architecture_skips_detection() {
    let r = advance(Phase::Probe, Some(ArchTag::LinuxArm64), &outcome(true, "ok", ""));
    assert_eq!(r, Ok(Phase::Install(ArchTag::LinuxArm64)));
}

#[test]
fn end_to_end_devbox() {
    let p = first_phase();
    assert_eq!(p, Phase::Probe);
    assert_eq!(command_for(p, false), "echo 'SSH connection successful'");
    let p = advance(p, None, &outcome(true, "SSH connection successful\n", "")).unwrap();
    assert_eq!(p, Phase::Detect);
    assert_eq!(command_for(p, false), "uname -m");
    let p = advance(p, None, &outcome(true, "x86_64\n", "")).unwrap();
    assert_eq!(p, Phase::Install(ArchTag::LinuxX64));
    let present = CacheState { archive: true, unpacked: true };
    let steps = plan_install(present, false);
    assert!(!steps.clear && !steps.download && !steps.extract);
    assert_eq!(command_for(p, false), install_script(ArchTag::LinuxX64, false));
    let p = advance(p, None, &outcome(true, "", "")).unwrap();
    assert_eq!(p, Phase::Launch);
    assert_eq!(SERVER_PORT, 8765);
    assert_eq!(session_record("localhost", SERVER_PORT), "{\"host\":\"localhost\",\"port\":8765}");
    assert_eq!(command_for(p, false), launch_script(8765));
    assert_eq!(cleanup_action(true), CleanupAction::RemoveAndConfirm);
    let p = advance(p, None, &outcome(true, "", "")).unwrap();
    assert_eq!(p, Phase::Finished);
    assert_eq!(advance(p, None, &outcome(false, "", "")), Ok(Phase::Finished));
}

#[test]
fn log_lines_are_stamped() {
    assert_eq!(log_line("2024-01-02 03:04:05", "ready"), "[2024-01-02 03:04:05] ready");
}
