use vstd::prelude::*;
use vstd::pervasive::unreached;

use crate::paths::file_name;
use crate::paths::file_name_of;
use crate::paths::join_of;
use crate::paths::join_path;
use crate::validate::bundle_path_ok;
use crate::validate::validate_file_ext;
use crate::validate::validate_src_icon;

verus! {

/// A fully resolved installation request: every field holds either a
/// flag-supplied value, a prompted answer, or the applied default. An empty
/// `icon` means no icon was supplied.
pub struct InstallRequest {
    pub name: String,
    pub file: String,
    pub description: String,
    pub icon: String,
    pub target_dir: String,
    pub category: String,
    pub home: String,
}

/// One file copy to carry out.
pub struct CopyOp {
    pub src: String,
    pub dst: String,
}

/// The mutation steps of an accepted request, in the order they run: the
/// icon copy (when an icon was supplied), then the bundle copy to
/// `bundle_target`; when `conflict` holds, a file already sits at the
/// bundle target and the user must first confirm its removal.
pub struct ProceedPlan {
    pub icon_copy: Option<CopyOp>,
    pub bundle_src: String,
    pub bundle_target: String,
    pub conflict: bool,
}

/// The outcome of validation: a rejection before any mutation, or the
/// mutation steps to carry out.
pub enum InstallPlan {
    RejectBundle,
    RejectIcon,
    Proceed(ProceedPlan),
}

/// The directory the icon is installed into.
pub open spec fn icon_dir_of(home: Seq<char>) -> Seq<char> {
    join_of(home, ".local/share/icons"@)
}

/// The path the bundle is installed at: its base name under the target
/// directory.
pub open spec fn bundle_target_of(target_dir: Seq<char>, file: Seq<char>) -> Seq<char> {
    join_of(target_dir, file_name_of(file).unwrap())
}

/// What the plan for a request must be: an invalid bundle extension is
/// rejected outright; then a supplied icon whose source is missing is
/// rejected; otherwise the steps are exactly the icon copy (when an icon
/// was supplied), the bundle copy, and a confirmation gate exactly when the
/// target already exists. A rejection carries no step, so nothing is
/// mutated before validation passes.
pub open spec fn plan_matches(
    p: InstallPlan,
    req: InstallRequest,
    icon_exists: bool,
    target_exists: bool,
) -> bool {
    if !bundle_path_ok(req.file@) {
        p == InstallPlan::RejectBundle
    } else if req.icon@.len() > 0 && !icon_exists {
        p == InstallPlan::RejectIcon
    } else {
        &&& p matches InstallPlan::Proceed(pp)
        &&& req.icon@.len() == 0 ==> pp.icon_copy is None
        &&& req.icon@.len() > 0 ==> (pp.icon_copy matches Some(c) && c.src@ == req.icon@
            && c.dst@ == join_of(icon_dir_of(req.home@), file_name_of(req.icon@).unwrap()))
        &&& pp.bundle_src@ == req.file@
        &&& pp.bundle_target@ == bundle_target_of(req.target_dir@, req.file@)
        &&& pp.conflict == target_exists
    }
}

/// Validates a resolved request against the two facts of the world the
/// caller probed for — whether the icon source exists and whether a file
/// already sits at the bundle target — and plans the installation.
///
/// A supplied icon path must name a file, as the icon's base name decides
/// where it is installed.
pub fn plan_install(req: &InstallRequest, icon_exists: bool, target_exists: bool) -> (p:
    InstallPlan)
    requires
        req.icon@.len() > 0 ==> file_name_of(req.icon@) is Some,
    ensures
        plan_matches(p, *req, icon_exists, target_exists),
{
    if !validate_file_ext(req.file.as_str()) {
        return InstallPlan::RejectBundle;
    }
    let has_icon = req.icon.as_str().unicode_len() > 0;
    if has_icon && !validate_src_icon(icon_exists) {
        return InstallPlan::RejectIcon;
    }
    let icon_copy = if has_icon {
        let fname = match file_name(req.icon.as_str()) {
            Some(f) => f,
            None => unreached(),
        };
        let dir = join_path(req.home.as_str(), ".local/share/icons");
        let dst = join_path(dir.as_str(), fname.as_str());
        Some(CopyOp { src: req.icon.clone(), dst })
    } else {
        None
    };
    let bname = match file_name(req.file.as_str()) {
        Some(f) => f,
        None => unreached(),
    };
    let bundle_target = join_path(req.target_dir.as_str(), bname.as_str());
    InstallPlan::Proceed(
        ProceedPlan {
            icon_copy,
            bundle_src: req.file.clone(),
            bundle_target,
            conflict: target_exists,
        },
    )
}

/// Whether a confirmation reply accepts removal of the already-installed
/// bundle: exactly the lowercase letter `y`; anything else declines.
pub open spec fn removal_accepted(answer: Seq<char>) -> bool {
    answer == "y"@
}

/// The removal confirmation: only the exact lowercase reply `y` accepts.
pub fn confirm_removal(answer: &str) -> (r: bool)
    ensures
        r == removal_accepted(answer@),
{
    proof {
        reveal_strlit("y");
    }
    let n = answer.unicode_len();
    if n == 1 && answer.get_char(0) == 'y' {
        proof {
            assert(answer@ =~= "y"@);
        }
        true
    } else {
        false
    }
}

/// The `Icon` field the descriptor carries: the installed icon path when
/// the icon copy succeeded, and the empty string otherwise — a failed icon
/// copy skips the icon rather than aborting the installation.
pub fn resolve_icon_field(icon_installed: bool, icon_target: &str) -> (r: String)
    ensures
        icon_installed ==> r@ == icon_target@,
        !icon_installed ==> r@ == Seq::<char>::empty(),
{
    if icon_installed {
        String::from_str(icon_target)
    } else {
        String::new()
    }
}

/// A bundle path with the wrong extension is rejected before anything else:
/// the plan is the rejection alone and carries no copy or removal step, so
/// no file-system mutation is planned.
pub proof fn lemma_invalid_bundle_rejected(
    p: InstallPlan,
    req: InstallRequest,
    icon_exists: bool,
    target_exists: bool,
)
    requires
        plan_matches(p, req, icon_exists, target_exists),
        !bundle_path_ok(req.file@),
    ensures
        p == InstallPlan::RejectBundle,
{
}

/// A supplied icon whose source does not exist aborts the installation
/// while the bundle extension is fine: the plan is the rejection alone, so
/// the bundle has not been copied and no step runs.
pub proof fn lemma_missing_icon_rejected(
    p: InstallPlan,
    req: InstallRequest,
    icon_exists: bool,
    target_exists: bool,
)
    requires
        plan_matches(p, req, icon_exists, target_exists),
        bundle_path_ok(req.file@),
        req.icon@.len() > 0,
        !icon_exists,
    ensures
        p == InstallPlan::RejectIcon,
{
}

/// Installing a bundle that is already installed plans a confirmation
/// gate, and any reply other than the exact lowercase `y` declines it: the
/// installer then stops without removing or overwriting the existing file,
/// which is left exactly as the first installation wrote it.
pub proof fn lemma_repeat_declined(
    p: InstallPlan,
    req: InstallRequest,
    icon_exists: bool,
    answer: Seq<char>,
)
    requires
        plan_matches(p, req, icon_exists, true),
        bundle_path_ok(req.file@),
        req.icon@.len() > 0 ==> icon_exists,
        answer != "y"@,
    ensures
        p matches InstallPlan::Proceed(pp) && pp.conflict,
        !removal_accepted(answer),
{
}

/// Installing a bundle that is already installed and accepting the
/// confirmation with the exact reply `y` plans the removal of the existing
/// file before the fresh copy: afterwards exactly one file stands at the
/// bundle target, the one the second run copied.
pub proof fn lemma_repeat_accepted(
    p: InstallPlan,
    req: InstallRequest,
    icon_exists: bool,
    answer: Seq<char>,
)
    requires
        plan_matches(p, req, icon_exists, true),
        bundle_path_ok(req.file@),
        req.icon@.len() > 0 ==> icon_exists,
        answer == "y"@,
    ensures
        p matches InstallPlan::Proceed(pp) && pp.conflict && pp.bundle_target@
            == bundle_target_of(req.target_dir@, req.file@),
        removal_accepted(answer),
{
}

} // verus!
