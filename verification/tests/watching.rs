use bevy_cli::files::{
    changed_files, paths_to_watch, plan_file_changes, should_forward, watch_targets, EventKind,
    FileChangePlan, PathProbe,
};
use bevy_cli::message::{BuilderUpdate, Message};
use bevy_cli::watch::{build_step, native_executable_path, next_action, open_step, BuildStep, OpenStep, WatchAction};
use bevy_cli::web::{reload_message, web_bundle_dir, SERVER_PORT, RELOAD_CHANNEL_CAPACITY};

fn s(x: &str) -> String {
    x.to_string()
}

#[test]
fn forwards_only_changes() {
    assert!(should_forward(EventKind::Create));
    assert!(should_forward(EventKind::Modify));
    assert!(should_forward(EventKind::Remove));
    assert!(!should_forward(EventKind::Access));
    assert!(!should_forward(EventKind::Any));
    assert!(!should_forward(EventKind::Other));
}

#[test]
fn empty_files_do_not_count() {
    let probes = vec![
        PathProbe { path: s("a.rs"), size: Some(10) },
        PathProbe { path: s("b.rs"), size: Some(0) },
        PathProbe { path: s("gone.rs"), size: None },
    ];
    assert_eq!(changed_files(&probes), vec![s("a.rs"), s("gone.rs")]);
    assert!(changed_files(&vec![]).is_empty());
}

#[test]
fn rust_sources_ask_for_rebuild() {
    let plan = plan_file_changes(&vec![s("/ws/src/main.rs")], &s("/ws/Cargo.toml"));
    assert_eq!(plan, FileChangePlan { config_reloads: 0, rebuild: true });
}

#[test]
fn other_files_do_not() {
    let plan = plan_file_changes(
        &vec![s("/ws/README.md"), s("/ws/assets/x.png"), s("/ws/.rs"), s("/ws/src/rs")],
        &s("/ws/Cargo.toml"),
    );
    assert_eq!(plan, FileChangePlan { config_reloads: 0, rebuild: false });
    let none = plan_file_changes(&vec![], &s("/ws/Cargo.toml"));
    assert_eq!(none, FileChangePlan { config_reloads: 0, rebuild: false });
}

#[test]
fn manifest_changes_reload_config() {
    let plan = plan_file_changes(
        &vec![s("/ws/Cargo.toml"), s("/ws/README.md"), s("/ws//Cargo.toml")],
        &s("/ws/Cargo.toml"),
    );
    assert_eq!(plan, FileChangePlan { config_reloads: 2, rebuild: true });
}

#[test]
fn cargo_dirs_are_not_watched() {
    let manifests = vec![
        s("/ws/game/Cargo.toml"),
        s("/home/u/.cargo/git/checkouts/dep/Cargo.toml"),
        s("/ws/tools/Cargo.toml"),
    ];
    assert_eq!(paths_to_watch(&manifests), vec![s("/ws/game"), s("/ws/tools")]);
}

#[test]
fn watch_targets_end_with_manifest() {
    let manifests = vec![s("/ws/game/Cargo.toml"), s("/ws/.cargo/Cargo.toml")];
    let targets = watch_targets(&manifests, &s("/ws/game/Cargo.toml")).unwrap();
    assert_eq!(targets.len(), 2);
    assert_eq!(targets[0].path, "/ws/game");
    assert!(targets[0].recursive);
    assert_eq!(targets[1].path, "/ws/game/Cargo.toml");
    assert!(!targets[1].recursive);
    assert!(watch_targets(&vec![s("/")], &s("/Cargo.toml")).is_none());
}

#[test]
fn loop_reacts_to_messages() {
    assert_eq!(next_action(Message::FilesChanged { files: vec![] }, true), WatchAction::Ignore);
    assert_eq!(
        next_action(Message::FilesChanged { files: vec![s("a.rs")] }, false),
        WatchAction::HandleFileChanges(vec![s("a.rs")])
    );
    assert_eq!(next_action(Message::BuildUpdate(BuilderUpdate::BuildStartet), false), WatchAction::BuildStarted);
    assert_eq!(next_action(Message::BuildUpdate(BuilderUpdate::BuildFinished), false), WatchAction::OpenApp);
    assert_eq!(next_action(Message::BuildUpdate(BuilderUpdate::ReloadWeb), false), WatchAction::Ignore);
    assert_eq!(next_action(Message::BuildUpdate(BuilderUpdate::ConfigChange(s("cfg"))), false), WatchAction::ConfigChanged(s("cfg")));
}

#[test]
fn finished_web_build_reaches_clients() {
    assert_eq!(next_action(Message::BuildUpdate(BuilderUpdate::BuildFinished), true), WatchAction::OpenApp);
    assert_eq!(open_step(true, false, &s("/t"), &s("game")), OpenStep::ReloadWeb);
    assert_eq!(next_action(Message::BuildUpdate(BuilderUpdate::ReloadWeb), true), WatchAction::ReloadServer);
}

#[test]
fn native_apps_are_restarted() {
    assert_eq!(
        open_step(false, true, &s("/ws/target"), &s("game")),
        OpenStep::RestartNative { stop_running: true, executable: s("/ws/target/debug/game") }
    );
    assert_eq!(
        open_step(false, false, &s("target"), &s("game")),
        OpenStep::RestartNative { stop_running: false, executable: s("target/debug/game") }
    );
    assert_eq!(native_executable_path(&s("/ws/target"), &s("app")), "/ws/target/debug/app");
}

#[test]
fn builds_by_platform() {
    assert_eq!(build_step(true), BuildStep::Web { packed_bundle: true });
    assert_eq!(build_step(false), BuildStep::Cargo);
}

#[test]
fn web_server_settings() {
    assert_eq!(web_bundle_dir(&s("/ws/target"), &s("debug"), &s("game")), "/ws/target/bevy_web/debug/game");
    assert_eq!(SERVER_PORT, 4000);
    assert_eq!(RELOAD_CHANNEL_CAPACITY, 100);
}

#[test]
fn reload_message_is_json() {
    let msg = reload_message();
    assert_eq!(msg, r#"{"type":"reload"}"#);
    let value: serde_json::Value = serde_json::from_str(&msg).unwrap();
    assert_eq!(value["type"], "reload");
}
