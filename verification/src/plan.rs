//! Which build steps a run of the builder still has to carry out: a step
//! whose files are intact in the bundle is not done again.
use crate::downloader::{ssl_plan, ssl_plan_of, SslPlan};
use crate::manifest::{
    all_steps, other_steps_kept, step_keys, step_of, step_valid, Manifest, StepStatus,
};
use crate::resume::{current_for, ssl_step_reset};
use crate::state::{BuildConfig, PackageMode};
use vstd::prelude::*;

verus! {

broadcast use vstd::string::group_string_axioms;

/// Work a build run carries out, in this order.
#[derive(Debug, Clone, Copy, PartialEq, Eq, Structural)]
pub enum BuildAction {
    /// Download the panel release archive.
    FetchRelease,
    /// Download the `x-ui.sh` management script.
    FetchCliScript,
    /// Download the service definition of the distribution.
    FetchServiceFile,
    /// Download the system packages for offline installation.
    FetchPackages,
    /// Online packages: record the packages step as done with no files.
    RecordOnlinePackages,
    /// Put the SSL files in place as the plan says.
    Ssl(SslPlan),
}

/// Build step `i` is done and its files still have their recorded hashes
/// (`current[i]`, as for `verify_report`).
pub open spec fn step_intact(m: Manifest, current: Seq<Vec<Option<String>>>, i: int) -> bool {
    step_valid(step_of(m, all_steps()[i]), current_for(current, i))
}

/// The manifest records step `key` as done.
pub open spec fn step_done(m: Manifest, key: Seq<char>) -> bool {
    step_of(m, key) matches Some(s) && s.status == StepStatus::Done
}

/// `a` alone when `b` holds, nothing otherwise.
pub open spec fn action_if(b: bool, a: BuildAction) -> Seq<BuildAction> {
    if b {
        seq![a]
    } else {
        Seq::empty()
    }
}

/// What the packages stage does.
pub open spec fn packages_actions(c: BuildConfig, m: Manifest, current: Seq<Vec<Option<String>>>) -> Seq<BuildAction> {
    if c.package_mode == PackageMode::Offline {
        action_if(!step_intact(m, current, 3), BuildAction::FetchPackages)
    } else {
        action_if(!step_done(m, "packages"@), BuildAction::RecordOnlinePackages)
    }
}

/// The downloads of a build run: each one whose step is not intact, then
/// the packages stage.
pub open spec fn download_actions(c: BuildConfig, m: Manifest, current: Seq<Vec<Option<String>>>) -> Seq<BuildAction> {
    action_if(!step_intact(m, current, 0), BuildAction::FetchRelease)
        + action_if(!step_intact(m, current, 1), BuildAction::FetchCliScript)
        + action_if(!step_intact(m, current, 2), BuildAction::FetchServiceFile)
        + packages_actions(c, m, current)
}

/// The work of a build run: the downloads, then the SSL files unless they
/// are intact.
pub open spec fn planned_actions(c: BuildConfig, m: Manifest, current: Seq<Vec<Option<String>>>) -> Seq<BuildAction> {
    download_actions(c, m, current) + action_if(!step_intact(m, current, 4), BuildAction::Ssl(ssl_plan_of(c.ssl)))
}

fn push_if(v: &mut Vec<BuildAction>, b: bool, a: BuildAction)
    ensures
        final(v)@ == old(v)@ + action_if(b, a),
{
    if b {
        v.push(a);
    } else {
        proof {
            assert(old(v)@ + action_if(b, a) =~= old(v)@);
        }
    }
}

fn intact(manifest: &Manifest, current: &Vec<Vec<Option<String>>>, i: usize) -> (b: bool)
    requires
        i < all_steps().len(),
    ensures
        b == step_intact(*manifest, current@, i as int),
{
    let keys = step_keys();
    let empty: Vec<Option<String>> = Vec::new();
    let cur = if i < current.len() {
        &current[i]
    } else {
        &empty
    };
    proof {
        assert(keys[i as int]@ == all_steps()[i as int]);
        if i >= current.len() {
            assert(crate::manifest::opt_views(cur@) =~= Seq::<Option<Seq<char>>>::empty());
        }
    }
    manifest.step_is_valid(keys[i], cur)
}

/// The work a build run still has to do for `config`, given the hashes the
/// bundle's files have now (`current[i]` for step `i`, as for `verify_report`).
pub fn plan_build(config: &BuildConfig, manifest: &Manifest, current: &Vec<Vec<Option<String>>>) -> (v: Vec<BuildAction>)
    ensures
        v@ == planned_actions(*config, *manifest, current@),
{
    let mut v: Vec<BuildAction> = Vec::new();
    let b0 = intact(manifest, current, 0);
    push_if(&mut v, !b0, BuildAction::FetchRelease);
    let b1 = intact(manifest, current, 1);
    push_if(&mut v, !b1, BuildAction::FetchCliScript);
    let b2 = intact(manifest, current, 2);
    push_if(&mut v, !b2, BuildAction::FetchServiceFile);
    if config.package_mode == PackageMode::Offline {
        let b3 = intact(manifest, current, 3);
        push_if(&mut v, !b3, BuildAction::FetchPackages);
    } else {
        let d = manifest.step_is_done(crate::manifest::STEP_PACKAGES);
        push_if(&mut v, !d, BuildAction::RecordOnlinePackages);
    }
    let b4 = intact(manifest, current, 4);
    push_if(&mut v, !b4, BuildAction::Ssl(ssl_plan(&config.ssl)));
    proof {
        let s = planned_actions(*config, *manifest, current@);
        assert(v@ =~= s);
    }
    v
}

proof fn lemma_action_if_contains(b: bool, a: BuildAction, x: BuildAction)
    ensures
        action_if(b, a).contains(x) <==> (b && x == a),
{
    if b {
        assert(action_if(b, a)[0] == a);
    }
}

/// Resuming a bundle redoes exactly what is not intact: each download runs
/// if and only if its step's files are not all present with their recorded
/// hashes, online packages are recorded only when not already done, and the
/// SSL files are produced again only when they are not intact.
pub proof fn lemma_only_broken_steps_redone(c: BuildConfig, m: Manifest, current: Seq<Vec<Option<String>>>)
    ensures
        planned_actions(c, m, current).contains(BuildAction::FetchRelease) <==> !step_intact(m, current, 0),
        planned_actions(c, m, current).contains(BuildAction::FetchCliScript) <==> !step_intact(m, current, 1),
        planned_actions(c, m, current).contains(BuildAction::FetchServiceFile) <==> !step_intact(m, current, 2),
        planned_actions(c, m, current).contains(BuildAction::FetchPackages) <==> (c.package_mode
            == PackageMode::Offline && !step_intact(m, current, 3)),
        planned_actions(c, m, current).contains(BuildAction::RecordOnlinePackages) <==> (c.package_mode
            == PackageMode::Online && !step_done(m, "packages"@)),
        planned_actions(c, m, current).contains(BuildAction::Ssl(ssl_plan_of(c.ssl))) <==> !step_intact(m, current, 4),
        forall|p: SslPlan| p != ssl_plan_of(c.ssl) ==> !#[trigger] planned_actions(c, m, current).contains(BuildAction::Ssl(p)),
{
    broadcast use vstd::seq_lib::lemma_seq_concat_contains_all_elements;

    let a0 = action_if(!step_intact(m, current, 0), BuildAction::FetchRelease);
    let a1 = action_if(!step_intact(m, current, 1), BuildAction::FetchCliScript);
    let a2 = action_if(!step_intact(m, current, 2), BuildAction::FetchServiceFile);
    let a3 = packages_actions(c, m, current);
    let a4 = action_if(!step_intact(m, current, 4), BuildAction::Ssl(ssl_plan_of(c.ssl)));
    assert forall|x: BuildAction| #[trigger] planned_actions(c, m, current).contains(x) <==> (a0.contains(x)
        || a1.contains(x) || a2.contains(x) || a3.contains(x) || a4.contains(x)) by {
        assert(planned_actions(c, m, current) =~= a0 + a1 + a2 + a3 + a4);
    }
    assert forall|x: BuildAction| #[trigger] a3.contains(x) <==> (if c.package_mode == PackageMode::Offline {
        !step_intact(m, current, 3) && x == BuildAction::FetchPackages
    } else {
        !step_done(m, "packages"@) && x == BuildAction::RecordOnlinePackages
    }) by {
        lemma_action_if_contains(!step_intact(m, current, 3), BuildAction::FetchPackages, x);
        lemma_action_if_contains(!step_done(m, "packages"@), BuildAction::RecordOnlinePackages, x);
    }
    assert forall|x: BuildAction| #[trigger] a0.contains(x) <==> (!step_intact(m, current, 0) && x
        == BuildAction::FetchRelease) by {
        lemma_action_if_contains(!step_intact(m, current, 0), BuildAction::FetchRelease, x);
    }
    assert forall|x: BuildAction| #[trigger] a1.contains(x) <==> (!step_intact(m, current, 1) && x
        == BuildAction::FetchCliScript) by {
        lemma_action_if_contains(!step_intact(m, current, 1), BuildAction::FetchCliScript, x);
    }
    assert forall|x: BuildAction| #[trigger] a2.contains(x) <==> (!step_intact(m, current, 2) && x
        == BuildAction::FetchServiceFile) by {
        lemma_action_if_contains(!step_intact(m, current, 2), BuildAction::FetchServiceFile, x);
    }
    assert forall|x: BuildAction| #[trigger] a4.contains(x) <==> (!step_intact(m, current, 4) && x
        == BuildAction::Ssl(ssl_plan_of(c.ssl))) by {
        lemma_action_if_contains(!step_intact(m, current, 4), BuildAction::Ssl(ssl_plan_of(c.ssl)), x);
    }
    assert(planned_actions(c, m, current).contains(BuildAction::FetchRelease) <==> !step_intact(m, current, 0));
    assert(planned_actions(c, m, current).contains(BuildAction::FetchPackages) <==> (c.package_mode
        == PackageMode::Offline && !step_intact(m, current, 3)));
    assert(planned_actions(c, m, current).contains(BuildAction::RecordOnlinePackages) <==> (c.package_mode
        == PackageMode::Online && !step_done(m, "packages"@)));
}

/// Changing the SSL kind of a bundle does not fetch its downloads again:
/// once the editor has sent the SSL step back to pending and kept every
/// other step, the next run plans the same downloads as before and then
/// the SSL files.
pub proof fn lemma_ssl_edit_keeps_downloads(
    c: BuildConfig,
    old: Manifest,
    new: Manifest,
    current: Seq<Vec<Option<String>>>,
)
    requires
        ssl_step_reset(step_of(new, "ssl"@), step_of(old, "ssl"@)),
        other_steps_kept(new, old, "ssl"@),
    ensures
        planned_actions(c, new, current) == download_actions(c, old, current).push(
            BuildAction::Ssl(ssl_plan_of(c.ssl)),
        ),
{
    reveal_strlit("ssl");
    reveal_strlit("xui_binary");
    reveal_strlit("xui_sh");
    reveal_strlit("service_file");
    reveal_strlit("packages");
    assert forall|i: int| 0 <= i < 4 implies #[trigger] step_intact(new, current, i) == step_intact(old, current, i) by {
        assert(all_steps()[i] != "ssl"@) by {
            assert(all_steps()[i].len() != "ssl"@.len());
        }
    }
    assert(all_steps()[4] == "ssl"@);
    assert(!step_intact(new, current, 4));
    assert("packages"@ != "ssl"@) by {
        assert("packages"@.len() != "ssl"@.len());
    }
    assert(step_done(new, "packages"@) == step_done(old, "packages"@));
    assert(download_actions(c, new, current) == download_actions(c, old, current));
    assert(planned_actions(c, new, current) =~= download_actions(c, old, current).push(
        BuildAction::Ssl(ssl_plan_of(c.ssl)),
    ));
}

/// Editing the panel port, user name or password changes no build step, so
/// a run afterwards has the same work to do as before (the installer alone
/// is written again).
pub proof fn lemma_setting_edit_keeps_plan(
    c_old: BuildConfig,
    c_new: BuildConfig,
    old: Manifest,
    new: Manifest,
    current: Seq<Vec<Option<String>>>,
)
    requires
        new.steps == old.steps,
        c_new.package_mode == c_old.package_mode,
        c_new.ssl == c_old.ssl,
    ensures
        planned_actions(c_new, new, current) == planned_actions(c_old, old, current),
{
    assert forall|k: Seq<char>| #[trigger] step_of(new, k) == step_of(old, k) by {}
}

} // verus!
