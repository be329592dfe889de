use crate::resolve::{requested_decision, Resolution, ResolutionModel};
use crate::version::{precedence, SemVer};
use core::cmp::Ordering;
use vstd::prelude::*;

verus! {

/// The files that installing touches.
#[derive(Debug, Clone, Copy, PartialEq, Eq, Structural)]
pub enum FsPath {
    /// The verified executable in the staging directory.
    NewExe,
    /// The running executable.
    OldExe,
    /// Beside the running executable: its name with `old.exe` as extension.
    AsideExe,
    /// The path that the caller asked the new executable to be written to.
    Output,
}

/// One filesystem operation of an install.
#[derive(Debug, Clone, Copy, PartialEq, Eq, Structural)]
pub enum FsOp {
    /// Rename the first file to the second.
    Rename(FsPath, FsPath),
    /// Delete the file.
    Remove(FsPath),
    /// Rename the first file to the second; where that fails, copy it.
    RenameOrCopy(FsPath, FsPath),
}

/// One step of an upgrade, in the order in which they run.
#[derive(Debug, Clone, Copy, PartialEq, Eq, Structural)]
pub enum Step {
    /// Fetch the release archive, following redirects.
    Download,
    /// Unpack the archive into a fresh staging directory.
    Unpack,
    /// Give the new executable the permissions of the running one.
    CopyPermissions,
    /// Run the new executable and check the version it reports.
    CheckVersion,
    /// A filesystem operation of the install.
    Install(FsOp),
}

/// The operations that put the new executable in place. Where no output
/// path is given, the running executable is replaced: moved aside first on
/// the Windows family, which cannot replace a running file, deleted first
/// elsewhere.
pub open spec fn install_ops(has_output: bool, windows: bool) -> Seq<FsOp> {
    if has_output {
        seq![FsOp::RenameOrCopy(FsPath::NewExe, FsPath::Output)]
    } else if windows {
        seq![
            FsOp::Rename(FsPath::OldExe, FsPath::AsideExe),
            FsOp::RenameOrCopy(FsPath::NewExe, FsPath::OldExe),
        ]
    } else {
        seq![FsOp::Remove(FsPath::OldExe), FsOp::RenameOrCopy(FsPath::NewExe, FsPath::OldExe)]
    }
}

/// The steps of an upgrade once a resolution is reached: none where the
/// running version is current; else download, unpack and check, then the
/// install unless it is a dry run.
pub open spec fn upgrade_steps(
    res: ResolutionModel,
    dry_run: bool,
    has_output: bool,
    windows: bool,
) -> Seq<Step> {
    match res {
        ResolutionModel::AlreadyCurrent => Seq::empty(),
        ResolutionModel::Install(_) => {
            let checks = seq![Step::Download, Step::Unpack, Step::CopyPermissions, Step::CheckVersion];
            if dry_run {
                checks
            } else {
                checks + install_ops(has_output, windows).map_values(|op: FsOp| Step::Install(op))
            }
        },
    }
}

/// Whether a step changes the file `p`.
pub open spec fn step_changes(s: Step, p: FsPath) -> bool {
    match s {
        Step::CopyPermissions => p == FsPath::NewExe,
        Step::Install(FsOp::Rename(a, b)) => a == p || b == p,
        Step::Install(FsOp::Remove(a)) => a == p,
        Step::Install(FsOp::RenameOrCopy(a, b)) => a == p || b == p,
        _ => false,
    }
}

/// The operations that put the new executable in place.
pub fn install_plan(has_output: bool, windows: bool) -> (r: Vec<FsOp>)
    ensures
        r@ == install_ops(has_output, windows),
{
    let mut v: Vec<FsOp> = Vec::new();
    if has_output {
        v.push(FsOp::RenameOrCopy(FsPath::NewExe, FsPath::Output));
    } else {
        if windows {
            v.push(FsOp::Rename(FsPath::OldExe, FsPath::AsideExe));
        } else {
            v.push(FsOp::Remove(FsPath::OldExe));
        }
        v.push(FsOp::RenameOrCopy(FsPath::NewExe, FsPath::OldExe));
    }
    assert(v@ =~= install_ops(has_output, windows));
    v
}

/// The steps of an upgrade once the resolver has decided.
pub fn plan_upgrade(res: &Resolution, dry_run: bool, has_output: bool, windows: bool) -> (r: Vec<
    Step,
>)
    ensures
        r@ == upgrade_steps(res@, dry_run, has_output, windows),
{
    let mut v: Vec<Step> = Vec::new();
    match res {
        Resolution::AlreadyCurrent => {
            assert(v@ =~= upgrade_steps(res@, dry_run, has_output, windows));
            return v;
        },
        Resolution::Install(_) => {},
    }
    v.push(Step::Download);
    v.push(Step::Unpack);
    v.push(Step::CopyPermissions);
    v.push(Step::CheckVersion);
    let ghost checks = v@;
    if !dry_run {
        let ops = install_plan(has_output, windows);
        let mut i: usize = 0;
        while i < ops.len()
            invariant
                i <= ops@.len(),
                v@ == checks + ops@.subrange(0, i as int).map_values(|op: FsOp| Step::Install(op)),
            decreases ops.len() - i,
        {
            v.push(Step::Install(ops[i]));
            assert(ops@.subrange(0, i + 1).map_values(|op: FsOp| Step::Install(op)) =~= ops@.subrange(
                0,
                i as int,
            ).map_values(|op: FsOp| Step::Install(op)).push(Step::Install(ops@[i as int])));
            i = i + 1;
        }
        assert(ops@.subrange(0, i as int) =~= ops@);
    }
    assert(v@ =~= upgrade_steps(res@, dry_run, has_output, windows));
    v
}

/// Asking, without force, for the version that is running ends at once:
/// no step runs, so nothing is fetched and nothing on disk changes.
pub proof fn lemma_requested_current_is_noop(
    current: SemVer,
    requested: SemVer,
    dry_run: bool,
    has_output: bool,
    windows: bool,
)
    requires
        precedence(current, requested) == Ordering::Equal,
    ensures
        requested_decision(current, requested, false) == ResolutionModel::AlreadyCurrent,
        upgrade_steps(requested_decision(current, requested, false), dry_run, has_output, windows).len()
            == 0,
{
}

/// With force, even the running version goes through download, unpacking,
/// the version check and the install.
pub proof fn lemma_forced_reinstall(current: SemVer, requested: SemVer, has_output: bool, windows: bool)
    requires
        precedence(current, requested) == Ordering::Equal,
    ensures
        requested_decision(current, requested, true) == ResolutionModel::Install(requested),
        upgrade_steps(requested_decision(current, requested, true), false, has_output, windows)
            == seq![Step::Download, Step::Unpack, Step::CopyPermissions, Step::CheckVersion]
            + install_ops(has_output, windows).map_values(|op: FsOp| Step::Install(op)),
{
}

/// A dry run changes neither the running executable nor its permissions,
/// whatever step it stops at.
pub proof fn lemma_dry_run_keeps_old(res: ResolutionModel, has_output: bool, windows: bool)
    ensures
        forall|i: int|
            0 <= i < upgrade_steps(res, true, has_output, windows).len() ==> !step_changes(
                #[trigger] upgrade_steps(res, true, has_output, windows)[i],
                FsPath::OldExe,
            ),
{
}

} // verus!
