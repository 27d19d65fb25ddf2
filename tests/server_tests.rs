use vacuum_launcher::server::{
    already_running_message, socket_path, startup_step, Server, ServerAction, ServerEvent, StartupStep,
};

#[test]
fn second_instance_refused() {
    assert_eq!(startup_step(true, true), StartupStep::AlreadyRunning);
    assert_eq!(already_running_message(), "Daemon already running");
}

#[test]
fn stale_socket_removed_then_bound() {
    assert_eq!(startup_step(true, false), StartupStep::RemoveStaleThenBind);
    assert_eq!(startup_step(false, false), StartupStep::Bind);
    assert_eq!(startup_step(false, true), StartupStep::Bind);
}

#[test]
fn accept_loop_and_shutdown() {
    let mut s = Server::new();
    assert_eq!(s.on_event(ServerEvent::Accepted), ServerAction::SpawnHandler);
    assert_eq!(s.on_event(ServerEvent::AcceptFailed), ServerAction::LogAndContinue);
    assert_eq!(s.on_event(ServerEvent::Accepted), ServerAction::SpawnHandler);
    assert_eq!(s.on_event(ServerEvent::ShutdownSignal), ServerAction::StopAndRemoveSocket);
    assert_eq!(s.on_event(ServerEvent::Accepted), ServerAction::Refuse);
    assert_eq!(s.on_event(ServerEvent::ShutdownSignal), ServerAction::Refuse);
}

#[test]
fn socket_path_choice() {
    assert_eq!(
        socket_path(Some("/run/user/1000".to_string()), Some("/home/u/.cache".to_string())),
        "/run/user/1000/vacuum-launcher.sock"
    );
    assert_eq!(socket_path(None, Some("/home/u/.cache/".to_string())), "/home/u/.cache/vacuum-launcher.sock");
    assert_eq!(socket_path(None, None), "/tmp/vacuum-launcher.sock");
}
