use proxy_supervisor::{kill_outcome, LaunchConfig, Mode, Supervisor, SupervisorError};

#[derive(Debug, PartialEq)]
struct FakeChild(u32);

fn args_of(v: &[&str]) -> Vec<String> {
    v.iter().map(|s| s.to_string()).collect()
}

fn started(pid: u32) -> Supervisor<FakeChild> {
    let mut s = Supervisor::new();
    s.begin_start(None, None, None).unwrap();
    assert_eq!(s.finish_start(Ok((pid, FakeChild(pid)))), Ok(pid));
    s
}

#[test]
fn new_supervisor_is_idle() {
    let s: Supervisor<FakeChild> = Supervisor::new();
    assert!(!s.is_running());
    assert!(!s.is_starting());
    assert_eq!(s.pid(), None);
}

#[test]
fn default_arguments_are_substituted() {
    let mut s: Supervisor<FakeChild> = Supervisor::new();
    let args = s.begin_start(None, None, None).unwrap();
    assert_eq!(args, args_of(&["--text", "ws-l:0.0.0.0:12346", "tcp:127.0.0.1:12345"]));
    let cfg = LaunchConfig::resolve(None, None, None);
    assert_eq!(cfg.ws_port, 12346);
    assert_eq!(cfg.tcp_host, "127.0.0.1");
    assert_eq!(cfg.tcp_port, 12345);
}

#[test]
fn scenario_custom_endpoints() {
    let mut s: Supervisor<FakeChild> = Supervisor::new();
    let args = s
        .begin_start(Some(9000), Some("10.0.0.5".to_string()), Some(9999))
        .unwrap();
    assert_eq!(args, args_of(&["--text", "ws-l:0.0.0.0:9000", "tcp:10.0.0.5:9999"]));
    assert_eq!(s.finish_start(Ok((4321, FakeChild(4321)))), Ok(4321));
    assert_eq!(s.pid(), Some(4321));
}

#[test]
fn partial_defaults() {
    let cfg = LaunchConfig::resolve(None, Some("example.org".to_string()), Some(80));
    assert_eq!(cfg.args(), args_of(&["--text", "ws-l:0.0.0.0:12346", "tcp:example.org:80"]));
    let cfg = LaunchConfig::resolve(Some(0), None, Some(65535));
    assert_eq!(cfg.args(), args_of(&["--text", "ws-l:0.0.0.0:0", "tcp:127.0.0.1:65535"]));
}

#[test]
fn scenario_second_start_refused() {
    let mut s = started(100);
    assert_eq!(s.begin_start(None, None, None), Err(SupervisorError::AlreadyRunning));
    assert!(s.is_running());
    assert_eq!(s.pid(), Some(100));
    assert_eq!(s.stop(), Ok(FakeChild(100)));
}

#[test]
fn start_while_starting_refused() {
    let mut s: Supervisor<FakeChild> = Supervisor::new();
    s.begin_start(None, None, None).unwrap();
    assert!(s.is_starting());
    assert!(!s.is_running());
    assert_eq!(s.begin_start(Some(1), None, None), Err(SupervisorError::AlreadyRunning));
    assert!(s.is_starting());
}

#[test]
fn simultaneous_starts_one_wins() {
    let mut s: Supervisor<FakeChild> = Supervisor::new();
    let outcomes: Vec<bool> = (0..5).map(|_| s.begin_start(None, None, None).is_ok()).collect();
    assert_eq!(outcomes, vec![true, false, false, false, false]);
    assert_eq!(s.finish_start(Ok((7, FakeChild(7)))), Ok(7));
    assert_eq!(s.begin_start(None, None, None), Err(SupervisorError::AlreadyRunning));
    assert_eq!(s.pid(), Some(7));
}

#[test]
fn stop_when_idle_refused() {
    let mut s: Supervisor<FakeChild> = Supervisor::new();
    assert_eq!(s.stop(), Err(SupervisorError::NotRunning));
    assert!(!s.is_running());
}

#[test]
fn stop_while_starting_refused() {
    let mut s: Supervisor<FakeChild> = Supervisor::new();
    s.begin_start(None, None, None).unwrap();
    assert_eq!(s.stop(), Err(SupervisorError::NotRunning));
    assert!(s.is_starting());
}

#[test]
fn start_reports_status_and_pid() {
    let s = started(31337);
    assert!(s.is_running());
    assert_eq!(s.pid(), Some(31337));
}

#[test]
fn stop_reports_idle() {
    let mut s = started(55);
    assert_eq!(s.stop(), Ok(FakeChild(55)));
    assert!(!s.is_running());
    assert_eq!(s.pid(), None);
}

#[test]
fn scenario_stop_twice() {
    let mut s = started(9);
    assert!(s.stop().is_ok());
    assert_eq!(s.stop(), Err(SupervisorError::NotRunning));
}

#[test]
fn failed_spawn_returns_to_idle() {
    let mut s: Supervisor<FakeChild> = Supervisor::new();
    s.begin_start(None, None, None).unwrap();
    assert_eq!(
        s.finish_start(Err("no such file".to_string())),
        Err(SupervisorError::SpawnFailed("no such file".to_string()))
    );
    assert!(!s.is_running());
    assert!(!s.is_starting());
    assert!(s.begin_start(None, None, None).is_ok());
}

#[test]
fn restart_after_stop() {
    let mut s = started(1);
    assert!(s.stop().is_ok());
    s.begin_start(None, None, None).unwrap();
    assert_eq!(s.finish_start(Ok((2, FakeChild(2)))), Ok(2));
    assert_eq!(s.pid(), Some(2));
}

#[test]
fn kill_outcomes() {
    assert_eq!(kill_outcome(Ok(())), Ok(()));
    assert_eq!(
        kill_outcome(Err("permission denied".to_string())),
        Err(SupervisorError::KillFailed("permission denied".to_string()))
    );
}

#[test]
fn mode_values_are_plain() {
    assert_ne!(Mode::Running(1), Mode::Running(2));
    assert_ne!(Mode::Idle, Mode::Starting);
}
