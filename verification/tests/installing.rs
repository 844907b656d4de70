use bevy_cli::install::{
    after_confirmation, begin_install, check_installation, install_args, missing_question,
    mismatch_question, InstallStep,
};
use bevy_cli::version::parse_version;

fn s(x: &str) -> String {
    x.to_string()
}

#[test]
fn installed_without_version_needs_nothing() {
    let step = begin_install(&s("wasm-opt"), &s("wasm-opt"), &None, true, &None, false).unwrap();
    assert_eq!(step, InstallStep::Done { installed: false });
}

#[test]
fn missing_tool_asks_first() {
    let step = begin_install(&s("wasm-opt"), &s("wasm-opt"), &None, false, &None, false).unwrap();
    assert_eq!(step, InstallStep::Confirm(s("`wasm-opt` is missing, should I install it for you?")));
}

#[test]
fn skipped_prompts_install_at_once() {
    let step =
        begin_install(&s("wasm-bindgen"), &s("wasm-bindgen-cli"), &Some(s("0.2.93")), false, &None, true)
            .unwrap();
    assert_eq!(
        step,
        InstallStep::RunInstall(vec![s("install"), s("wasm-bindgen-cli"), s("--version"), s("0.2.93")])
    );
}

#[test]
fn matching_version_needs_nothing() {
    let installed = parse_version(&s("0.2.93")).ok();
    let step = begin_install(
        &s("wasm-bindgen"),
        &s("wasm-bindgen-cli"),
        &Some(s("0.2.93")),
        true,
        &installed,
        false,
    )
    .unwrap();
    assert_eq!(step, InstallStep::Done { installed: false });
}

#[test]
fn other_version_is_replaced() {
    let installed = parse_version(&s("0.2.92")).ok();
    let step = begin_install(
        &s("wasm-bindgen"),
        &s("wasm-bindgen-cli"),
        &Some(s("0.2.93")),
        true,
        &installed,
        false,
    )
    .unwrap();
    assert_eq!(
        step,
        InstallStep::Confirm(s(
            "`wasm-bindgen:0.2.92` is installed, but version `0.2.93` is required. Install and replace?"
        ))
    );
}

#[test]
fn installed_with_version_but_unknown_counts_as_missing() {
    let r = check_installation(&s("wasm-opt"), &Some(s("0.116.0")), true, &None).unwrap();
    assert_eq!(r, Some(s("`wasm-opt` is missing, should I install it for you?")));
}

#[test]
fn invalid_requested_version_is_an_error() {
    let installed = parse_version(&s("0.2.92")).ok();
    let e = begin_install(&s("wasm-bindgen"), &s("wasm-bindgen-cli"), &Some(s("0.2")), true, &installed, false)
        .unwrap_err();
    assert_eq!(e.text, "0.2");
}

#[test]
fn answers_decide() {
    assert_eq!(after_confirmation(false, &s("p"), &None), InstallStep::Exit(1));
    assert_eq!(
        after_confirmation(true, &s("p"), &None),
        InstallStep::RunInstall(vec![s("install"), s("p")])
    );
}

#[test]
fn install_arguments() {
    assert_eq!(install_args(&s("p"), &Some(s("1.0.0"))), vec![s("install"), s("p"), s("--version"), s("1.0.0")]);
    assert_eq!(install_args(&s("p"), &None), vec![s("install"), s("p")]);
}

#[test]
fn questions() {
    assert_eq!(missing_question(&s("x")), "`x` is missing, should I install it for you?");
    let a = parse_version(&s("1.0.0")).unwrap();
    let b = parse_version(&s("1.1.0-rc.1")).unwrap();
    assert_eq!(
        mismatch_question(&s("x"), &a, &b),
        "`x:1.0.0` is installed, but version `1.1.0-rc.1` is required. Install and replace?"
    );
}

#[test]
fn install_command_outcome() {
    assert_eq!(bevy_cli::install::after_install(true), Ok(InstallStep::Done { installed: true }));
    assert_eq!(bevy_cli::install::after_install(false), Err(bevy_cli::install::InstallFailed));
}
