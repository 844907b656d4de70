//! The decisions of the watch loop: what to do on each message, how to open
//! the built app, and how to build it.

use vstd::prelude::*;
use crate::message::{BuilderUpdate, Message};
use crate::paths::{path_join, std_path_join};

verus! {

/// What the watch loop does on a message.
#[derive(Debug, Clone, PartialEq, Eq)]
pub enum WatchAction {
    /// Nothing to do.
    Ignore,
    /// Look at these changed files (see `files::plan_file_changes`).
    HandleFileChanges(Vec<String>),
    /// Report that a build started.
    BuildStarted,
    /// Open the app that was just built (see [`open_step`]).
    OpenApp,
    /// Tell the web clients to reload.
    ReloadServer,
    /// Report the new configuration.
    ConfigChanged(String),
}

/// The action for a message; `has_server` says whether a web server runs.
pub open spec fn action_for(msg: Message, has_server: bool) -> WatchAction {
    match msg {
        Message::FilesChanged { files } => if files.len() == 0 {
            WatchAction::Ignore
        } else {
            WatchAction::HandleFileChanges(files)
        },
        Message::BuildUpdate(update) => match update {
            BuilderUpdate::BuildStartet => WatchAction::BuildStarted,
            BuilderUpdate::BuildFinished => WatchAction::OpenApp,
            BuilderUpdate::ReloadWeb => if has_server {
                WatchAction::ReloadServer
            } else {
                WatchAction::Ignore
            },
            BuilderUpdate::ConfigChange(config) => WatchAction::ConfigChanged(config),
        },
    }
}

/// Decides what the watch loop does on a message: an empty batch of changed
/// files is ignored, a finished build is opened, and a reload request reaches
/// the web clients only where a web server runs.
pub fn next_action(msg: Message, has_server: bool) -> (r: WatchAction)
    ensures
        r == action_for(msg, has_server),
{
    match msg {
        Message::FilesChanged { files } => {
            if files.len() == 0 {
                WatchAction::Ignore
            } else {
                WatchAction::HandleFileChanges(files)
            }
        },
        Message::BuildUpdate(update) => match update {
            BuilderUpdate::BuildStartet => WatchAction::BuildStarted,
            BuilderUpdate::BuildFinished => WatchAction::OpenApp,
            BuilderUpdate::ReloadWeb => {
                if has_server {
                    WatchAction::ReloadServer
                } else {
                    WatchAction::Ignore
                }
            },
            BuilderUpdate::ConfigChange(config) => WatchAction::ConfigChanged(config),
        },
    }
}

/// How a freshly built app is opened.
#[derive(Debug, Clone, PartialEq, Eq)]
pub enum OpenStep {
    /// A web build: the builder reports `BuilderUpdate::ReloadWeb`.
    ReloadWeb,
    /// A native build: stop the running app if there is one, then start the
    /// executable.
    RestartNative { stop_running: bool, executable: String },
}

/// Where a native debug build of a package lies: `<target>/debug/<package>`.
pub open spec fn native_executable(target_dir: Seq<char>, package: Seq<char>) -> Seq<char> {
    std_path_join(std_path_join(target_dir, "debug"@), package)
}

/// The path of a native debug build of a package.
pub fn native_executable_path(target_dir: &String, package: &String) -> (r: String)
    ensures
        r@ == native_executable(target_dir@, package@),
{
    let debug = String::from_str("debug");
    let dir = path_join(target_dir.as_str(), debug.as_str());
    path_join(dir.as_str(), package.as_str())
}

/// How the app is opened after a build.
pub open spec fn open_plan(
    is_web: bool,
    app_running: bool,
    target_dir: Seq<char>,
    package: Seq<char>,
) -> Option<(bool, Seq<char>)> {
    if is_web {
        None
    } else {
        Some((app_running, native_executable(target_dir, package)))
    }
}

/// Decides how to open the app after a build: a web build asks the web
/// clients to reload; a native build stops the app that runs, if any, and
/// starts the new executable.
pub fn open_step(is_web: bool, app_running: bool, target_dir: &String, package: &String) -> (r:
    OpenStep)
    ensures
        r is ReloadWeb <==> is_web,
        r matches OpenStep::RestartNative { stop_running, executable } ==> open_plan(
            is_web,
            app_running,
            target_dir@,
            package@,
        ) == Some((stop_running, executable@)),
{
    if is_web {
        OpenStep::ReloadWeb
    } else {
        OpenStep::RestartNative {
            stop_running: app_running,
            executable: native_executable_path(target_dir, package),
        }
    }
}

/// How the app is built.
#[derive(Debug, Clone, Copy, PartialEq, Eq)]
pub enum BuildStep {
    /// A web build, always as a packed bundle: the web server is set up before
    /// the bundle exists, so the bundle's place must be known in advance.
    Web { packed_bundle: bool },
    /// A native `cargo build`.
    Cargo,
}

/// Decides how to build the app.
pub fn build_step(is_web: bool) -> (r: BuildStep)
    ensures
        is_web ==> r == (BuildStep::Web { packed_bundle: true }),
        !is_web ==> r == BuildStep::Cargo,
{
    if is_web {
        BuildStep::Web { packed_bundle: true }
    } else {
        BuildStep::Cargo
    }
}

/// In a web session a finished build reaches the browser: the loop opens the
/// app, opening a web build makes the builder report a reload, and the loop
/// passes that reload on to the running web server.
pub proof fn finished_web_build_reloads(target_dir: Seq<char>, package: Seq<char>, running: bool)
    ensures
        action_for(Message::BuildUpdate(BuilderUpdate::BuildFinished), true) == WatchAction::OpenApp,
        open_plan(true, running, target_dir, package) is None,
        action_for(Message::BuildUpdate(BuilderUpdate::ReloadWeb), true)
            == WatchAction::ReloadServer,
{
}

/// A non-empty batch of changed files is always handled, whether or not a
/// web server runs.
pub proof fn file_changes_always_handled(files: Vec<String>, has_server: bool)
    requires
        files@.len() > 0,
    ensures
        action_for(Message::FilesChanged { files }, has_server) == WatchAction::HandleFileChanges(files),
{
}

/// What the loop does on each message: an empty batch is ignored, a started
/// build is reported, a finished build is opened, a new configuration is
/// reported, and only a reload request depends on whether a web server runs
/// (it reaches the server where there is one and is ignored otherwise).
pub proof fn actions_by_message(msg: Message, config: String, files: Vec<String>, has_server: bool)
    ensures
        files@.len() == 0 ==> action_for(Message::FilesChanged { files }, has_server)
            == WatchAction::Ignore,
        action_for(Message::BuildUpdate(BuilderUpdate::BuildStartet), true) == WatchAction::BuildStarted,
        action_for(Message::BuildUpdate(BuilderUpdate::BuildFinished), true) == WatchAction::OpenApp,
        action_for(Message::BuildUpdate(BuilderUpdate::ConfigChange(config)), true)
            == WatchAction::ConfigChanged(config),
        action_for(Message::BuildUpdate(BuilderUpdate::ReloadWeb), true) == WatchAction::ReloadServer,
        action_for(Message::BuildUpdate(BuilderUpdate::ReloadWeb), false) == WatchAction::Ignore,
        !(msg matches Message::BuildUpdate(BuilderUpdate::ReloadWeb)) ==> action_for(msg, true)
            == action_for(msg, false),
{
}

/// Opening a web build asks for a reload; opening a native build stops the
/// app that runs, if any, and starts `<target>/debug/<package>`.
pub proof fn open_plan_by_platform(running: bool, target_dir: Seq<char>, package: Seq<char>)
    ensures
        open_plan(true, running, target_dir, package) is None,
        open_plan(false, running, target_dir, package) == Some(
            (running, std_path_join(std_path_join(target_dir, "debug"@), package)),
        ),
{
}

} // verus!
