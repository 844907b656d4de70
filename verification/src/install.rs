//! Installing a missing tool with `cargo install`: when it is needed, what the
//! user is asked, and the command that installs it.

use vstd::prelude::*;
use crate::text::append_str;
use crate::version::{
    display_version, parse_version, semver_parse, version_text, versions_equal, InvalidVersion,
    SemVersion, SemVersionView,
};
use crate::text::texts;

verus! {

/// A step of installing a tool.
#[derive(Debug, Clone, PartialEq, Eq)]
pub enum InstallStep {
    /// Finished; `installed` says whether the tool had to be installed.
    Done { installed: bool },
    /// Ask the user this question; go on with [`after_confirmation`].
    Confirm(String),
    /// The user declined: end the process with this exit code.
    Exit(i32),
    /// Run `cargo` with these arguments; when it succeeds the tool was
    /// installed (`Done { installed: true }`).
    RunInstall(Vec<String>),
}

/// The question asked when a tool is missing.
pub open spec fn missing_prompt(program: Seq<char>) -> Seq<char> {
    "`"@ + program + "` is missing, should I install it for you?"@
}

/// The question asked when a tool is installed in the wrong version.
pub open spec fn mismatch_prompt(
    program: Seq<char>,
    installed: SemVersionView,
    desired: SemVersionView,
) -> Seq<char> {
    "`"@ + program + ":"@ + version_text(installed) + "` is installed, but version `"@
        + version_text(desired) + "` is required. Install and replace?"@
}

/// The arguments of `cargo` that install a package, in the requested version
/// if one is requested.
pub open spec fn install_arguments(package: Seq<char>, version: Option<Seq<char>>) -> Seq<
    Seq<char>,
> {
    match version {
        Some(v) => seq!["install"@, package, "--version"@, v],
        None => seq!["install"@, package],
    }
}

/// What checking for a tool finds: `Ok(None)` when nothing needs to be
/// installed, `Ok(Some(q))` when the user is to be asked `q`, `Err(t)` when
/// the requested version `t` is not a version.
///
/// A tool that is installed needs nothing when no version is requested. When
/// a version is requested and the installed tool's version is known (it is
/// known for the tools whose version must match exactly), the tool needs
/// nothing if the versions are equal and is to be replaced otherwise. In every
/// other case the tool counts as missing.
pub open spec fn check_outcome(
    program: Seq<char>,
    version: Option<Seq<char>>,
    installed: bool,
    installed_version: Option<SemVersionView>,
) -> Result<Option<Seq<char>>, Seq<char>> {
    if installed && version is None {
        Ok(None)
    } else if installed && installed_version is Some {
        match semver_parse(version->0) {
            None => Err(version->0),
            Some(desired) => if installed_version->0 == desired {
                Ok(None)
            } else {
                Ok(Some(mismatch_prompt(program, installed_version->0, desired)))
            },
        }
    } else {
        Ok(Some(missing_prompt(program)))
    }
}

/// The arguments of `cargo` that install `package`.
pub fn install_args(package: &String, package_version: &Option<String>) -> (r: Vec<String>)
    ensures
        texts(r@) == install_arguments(
            package@,
            match package_version {
                Some(v) => Some(v@),
                None => None,
            },
        ),
{
    let mut args: Vec<String> = Vec::new();
    args.push(String::from_str("install"));
    args.push(package.clone());
    match package_version {
        Some(v) => {
            args.push(String::from_str("--version"));
            args.push(v.clone());
        },
        None => {},
    }
    assert(texts(args@) =~= install_arguments(
        package@,
        match package_version {
            Some(v) => Some(v@),
            None => None,
        },
    ));
    args
}

/// The question asked when `program` is missing.
pub fn missing_question(program: &String) -> (r: String)
    ensures
        r@ == missing_prompt(program@),
{
    let mut s = String::from_str("`");
    append_str(&mut s, program.as_str());
    append_str(&mut s, "` is missing, should I install it for you?");
    assert(s@ =~= missing_prompt(program@));
    s
}

/// The question asked when `program` is installed as `installed` but
/// `desired` is required.
pub fn mismatch_question(program: &String, installed: &SemVersion, desired: &SemVersion) -> (r:
    String)
    ensures
        r@ == mismatch_prompt(program@, installed@, desired@),
{
    let mut s = String::from_str("`");
    append_str(&mut s, program.as_str());
    append_str(&mut s, ":");
    let iv = display_version(installed);
    append_str(&mut s, iv.as_str());
    append_str(&mut s, "` is installed, but version `");
    let dv = display_version(desired);
    append_str(&mut s, dv.as_str());
    append_str(&mut s, "` is required. Install and replace?");
    assert(s@ =~= mismatch_prompt(program@, installed@, desired@));
    s
}

/// The view of an optional string.
pub open spec fn opt_text(v: Option<String>) -> Option<Seq<char>> {
    match v {
        Some(s) => Some(s@),
        None => None,
    }
}

/// The view of an optional version.
pub open spec fn opt_version(v: Option<SemVersion>) -> Option<SemVersionView> {
    match v {
        Some(s) => Some(s@),
        None => None,
    }
}

/// Checks whether `program` has to be installed. `installed` says whether it
/// runs at all; `installed_version` is the version it reports, where that
/// version has to match the requested one exactly.
pub fn check_installation(
    program: &String,
    package_version: &Option<String>,
    installed: bool,
    installed_version: &Option<SemVersion>,
) -> (r: Result<Option<String>, InvalidVersion>)
    ensures
        match (r, check_outcome(
            program@,
            opt_text(*package_version),
            installed,
            opt_version(*installed_version),
        )) {
            (Ok(None), Ok(None)) => true,
            (Ok(Some(q)), Ok(Some(p))) => q@ == p,
            (Err(e), Err(t)) => e.text@ == t,
            _ => false,
        },
{
    if installed {
        match package_version {
            None => {
                return Ok(None);
            },
            Some(v) => match installed_version {
                Some(iv) => {
                    let desired = match parse_version(v) {
                        Ok(d) => d,
                        Err(e) => {
                            return Err(e);
                        },
                    };
                    if versions_equal(iv, &desired) {
                        return Ok(None);
                    }
                    return Ok(Some(mismatch_question(program, iv, &desired)));
                },
                None => {},
            },
        }
    }
    Ok(Some(missing_question(program)))
}

/// The mathematical value of an [`InstallStep`].
pub enum StepView {
    Done(bool),
    Confirm(Seq<char>),
    Exit(i32),
    RunInstall(Seq<Seq<char>>),
}

impl View for InstallStep {
    type V = StepView;

    open spec fn view(&self) -> StepView {
        match self {
            InstallStep::Done { installed } => StepView::Done(*installed),
            InstallStep::Confirm(q) => StepView::Confirm(q@),
            InstallStep::Exit(code) => StepView::Exit(*code),
            InstallStep::RunInstall(args) => StepView::RunInstall(texts(args@)),
        }
    }
}

/// The first step of installing a tool, or the requested version's text
/// where it is not a version: nothing to do when the check finds nothing
/// missing; otherwise the question, or, with prompts skipped, the install
/// command right away.
pub open spec fn first_step(
    program: Seq<char>,
    package: Seq<char>,
    version: Option<Seq<char>>,
    installed: bool,
    installed_version: Option<SemVersionView>,
    skip_prompts: bool,
) -> Result<StepView, Seq<char>> {
    match check_outcome(program, version, installed, installed_version) {
        Err(t) => Err(t),
        Ok(None) => Ok(StepView::Done(false)),
        Ok(Some(question)) => if skip_prompts {
            Ok(StepView::RunInstall(install_arguments(package, version)))
        } else {
            Ok(StepView::Confirm(question))
        },
    }
}

/// The step after the user answered the question.
pub open spec fn answered_step(accepted: bool, package: Seq<char>, version: Option<Seq<char>>) -> StepView {
    if accepted {
        StepView::RunInstall(install_arguments(package, version))
    } else {
        StepView::Exit(1)
    }
}

/// The step after the install command ran: done, with the tool installed,
/// when the command succeeded; no step (a failure) otherwise.
pub open spec fn installed_step(succeeded: bool) -> Option<StepView> {
    if succeeded {
        Some(StepView::Done(true))
    } else {
        None
    }
}

/// Starts installing `program` from `package`: nothing happens when the tool
/// is already there; otherwise the user is asked first, unless prompts are
/// skipped, in which case it is installed right away.
pub fn begin_install(
    program: &String,
    package: &String,
    package_version: &Option<String>,
    installed: bool,
    installed_version: &Option<SemVersion>,
    skip_prompts: bool,
) -> (r: Result<InstallStep, InvalidVersion>)
    ensures
        match r {
            Ok(step) => first_step(
                program@,
                package@,
                opt_text(*package_version),
                installed,
                opt_version(*installed_version),
                skip_prompts,
            ) == Ok::<StepView, Seq<char>>(step@),
            Err(e) => first_step(
                program@,
                package@,
                opt_text(*package_version),
                installed,
                opt_version(*installed_version),
                skip_prompts,
            ) == Err::<StepView, Seq<char>>(e.text@),
        },
{
    match check_installation(program, package_version, installed, installed_version) {
        Err(e) => Err(e),
        Ok(None) => Ok(InstallStep::Done { installed: false }),
        Ok(Some(question)) => {
            if skip_prompts {
                Ok(InstallStep::RunInstall(install_args(package, package_version)))
            } else {
                Ok(InstallStep::Confirm(question))
            }
        },
    }
}

/// Goes on after the user answered: an accepted question installs the
/// package, a declined one ends the process with exit code 1.
pub fn after_confirmation(accepted: bool, package: &String, package_version: &Option<String>) -> (r:
    InstallStep)
    ensures
        r@ == answered_step(accepted, package@, opt_text(*package_version)),
{
    if accepted {
        InstallStep::RunInstall(install_args(package, package_version))
    } else {
        InstallStep::Exit(1)
    }
}

/// The install command failed.
#[derive(Debug, Clone, Copy, PartialEq, Eq)]
pub struct InstallFailed;

/// Goes on after the install command ran: the tool is installed when the
/// command succeeded; otherwise installing fails.
pub fn after_install(succeeded: bool) -> (r: Result<InstallStep, InstallFailed>)
    ensures
        match r {
            Ok(step) => installed_step(succeeded) == Some(step@),
            Err(_) => installed_step(succeeded) is None,
        },
{
    if succeeded {
        Ok(InstallStep::Done { installed: true })
    } else {
        Err(InstallFailed)
    }
}

/// How installing a tool ends.
pub enum InstallOutcome {
    /// The tool was installed (`Ok(true)`).
    Installed,
    /// Nothing had to be installed (`Ok(false)`).
    NotNeeded,
    /// The user declined; the process ends with this code.
    Exited(i32),
    /// The install command failed.
    CommandFailed,
    /// The requested version is not a version.
    InvalidVersion,
}

/// How installing ends when each step is taken as the step functions say,
/// given the user's answer (where asked) and whether the install command
/// succeeds (where run), together with the `cargo` command that ran, if any.
pub open spec fn install_run(
    program: Seq<char>,
    package: Seq<char>,
    version: Option<Seq<char>>,
    installed: bool,
    installed_version: Option<SemVersionView>,
    skip_prompts: bool,
    accepted: bool,
    succeeded: bool,
) -> (InstallOutcome, Option<Seq<Seq<char>>>) {
    let after_command = |args: Seq<Seq<char>>|
        match installed_step(succeeded) {
            Some(StepView::Done(true)) => (InstallOutcome::Installed, Some(args)),
            Some(_) => (InstallOutcome::NotNeeded, Some(args)),
            None => (InstallOutcome::CommandFailed, Some(args)),
        };
    match first_step(program, package, version, installed, installed_version, skip_prompts) {
        Err(_) => (InstallOutcome::InvalidVersion, None),
        Ok(StepView::Done(true)) => (InstallOutcome::Installed, None),
        Ok(StepView::Done(false)) => (InstallOutcome::NotNeeded, None),
        Ok(StepView::Exit(code)) => (InstallOutcome::Exited(code), None),
        Ok(StepView::RunInstall(args)) => after_command(args),
        Ok(StepView::Confirm(_)) => match answered_step(accepted, package, version) {
            StepView::RunInstall(args) => after_command(args),
            StepView::Exit(code) => (InstallOutcome::Exited(code), None),
            StepView::Done(true) => (InstallOutcome::Installed, None),
            StepView::Done(false) => (InstallOutcome::NotNeeded, None),
            StepView::Confirm(_) => (InstallOutcome::NotNeeded, None),
        },
    }
}

/// A tool counts as installed exactly when `cargo install <package>` (with
/// `--version` where one is requested) ran and succeeded; when nothing had to
/// be installed, no command ran; the process only ends early when the user
/// was asked and declined.
pub proof fn installed_exactly_when_command_succeeded(
    program: Seq<char>,
    package: Seq<char>,
    version: Option<Seq<char>>,
    installed: bool,
    installed_version: Option<SemVersionView>,
    skip_prompts: bool,
    accepted: bool,
    succeeded: bool,
)
    ensures
        ({
            let (outcome, command) = install_run(
                program,
                package,
                version,
                installed,
                installed_version,
                skip_prompts,
                accepted,
                succeeded,
            );
            &&& (outcome is Installed <==> (command == Some(install_arguments(package, version))
                && succeeded))
            &&& (outcome is NotNeeded ==> command is None)
            &&& (command is Some ==> command == Some(install_arguments(package, version)))
            &&& (outcome is Exited ==> outcome == InstallOutcome::Exited(1) && !skip_prompts
                && !accepted)
        }),
{
}

/// The first step of installing, case by case: a tool that does not run, or
/// runs but whose version is not checked although one is requested, is
/// missing; a tool that runs with no version requested, or in exactly the
/// requested version, needs nothing; a tool in another version is replaced;
/// an invalid requested version is an error. Whatever is missing or replaced
/// is asked about, or, with prompts skipped, installed right away with
/// `cargo install <package> [--version <v>]`.
pub proof fn first_step_by_case(
    program: Seq<char>,
    package: Seq<char>,
    version: Option<Seq<char>>,
    installed: bool,
    installed_version: Option<SemVersionView>,
    skip_prompts: bool,
)
    ensures
        ({
            let step = first_step(program, package, version, installed, installed_version, skip_prompts);
            let install = Ok::<StepView, Seq<char>>(StepView::RunInstall(install_arguments(package, version)));
            let missing = (!installed || (version is Some && installed_version is None));
            &&& missing && skip_prompts ==> step == install
            &&& missing && !skip_prompts ==> step == Ok::<StepView, Seq<char>>(
                StepView::Confirm(missing_prompt(program)),
            )
            &&& installed && version is None ==> step == Ok::<StepView, Seq<char>>(StepView::Done(false))
            &&& installed && version is Some && installed_version is Some && semver_parse(version->0)
                is None ==> step == Err::<StepView, Seq<char>>(version->0)
            &&& installed && version is Some && installed_version is Some && semver_parse(version->0)
                == installed_version ==> step == Ok::<StepView, Seq<char>>(StepView::Done(false))
            &&& installed && version is Some && installed_version is Some && semver_parse(version->0)
                is Some && semver_parse(version->0) != installed_version ==> if skip_prompts {
                step == install
            } else {
                step == Ok::<StepView, Seq<char>>(
                    StepView::Confirm(
                        mismatch_prompt(program, installed_version->0, semver_parse(version->0)->0),
                    ),
                )
            }
        }),
{
}

/// Skipping prompts changes only whether the user is asked: where the user
/// would be asked, the install command runs at once instead, and every other
/// first step is the same either way.
pub proof fn skipping_prompts_only_skips_the_question(
    program: Seq<char>,
    package: Seq<char>,
    version: Option<Seq<char>>,
    installed: bool,
    installed_version: Option<SemVersionView>,
)
    ensures
        ({
            let asked = first_step(program, package, version, installed, installed_version, false);
            let skipped = first_step(program, package, version, installed, installed_version, true);
            &&& (asked matches Ok(StepView::Confirm(_))) ==> skipped == Ok::<StepView, Seq<char>>(
                StepView::RunInstall(install_arguments(package, version)),
            )
            &&& !(asked matches Ok(StepView::Confirm(_))) ==> skipped == asked
            &&& !(skipped matches Ok(StepView::Confirm(_)))
            &&& !(asked matches Ok(StepView::RunInstall(_)))
        }),
{
}

/// Where the user is asked and declines, nothing is installed and the process
/// ends with exit code 1; where the user accepts, the install command runs.
pub proof fn answer_decides(
    program: Seq<char>,
    package: Seq<char>,
    version: Option<Seq<char>>,
    installed: bool,
    installed_version: Option<SemVersionView>,
    accepted: bool,
    succeeded: bool,
)
    requires
        first_step(program, package, version, installed, installed_version, false) matches Ok(
            StepView::Confirm(_),
        ),
    ensures
        !accepted ==> install_run(
            program,
            package,
            version,
            installed,
            installed_version,
            false,
            accepted,
            succeeded,
        ) == (InstallOutcome::Exited(1), None::<Seq<Seq<char>>>),
        accepted ==> install_run(
            program,
            package,
            version,
            installed,
            installed_version,
            false,
            accepted,
            succeeded,
        ).1 == Some(install_arguments(package, version)),
{
}

} // verus!
