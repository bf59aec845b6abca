use xui_offline_builder::downloader::SslPlan;
use xui_offline_builder::manifest::{
    current_hash, step_keys, Manifest, STEP_PACKAGES, STEP_SSL, STEP_XUI_SH};
use xui_offline_builder::plan::{plan_build, BuildAction};
use xui_offline_builder::resume::{apply_port_edit, apply_ssl_edit, apply_text_edit, config_from_manifest, SslEdit};
use xui_offline_builder::state::{
    BuildConfig, IncludedComponents, OutputKind, PackageMode, SslConfig, TargetArch, TargetOs,
    XuiVersion,
};

fn config(mode: PackageMode, ssl: SslConfig) -> BuildConfig {
    BuildConfig {
        os: TargetOs::Debian,
        arch: TargetArch::Amd64,
        os_version: None,
        package_mode: mode,
        xui_version: XuiVersion::Latest,
        panel_port: 2053,
        panel_username: "a".to_string(),
        panel_password: "b".to_string(),
        panel_web_base_path: "c".to_string(),
        ssl,
        server_host: "h".to_string(),
        output_dir: "./o".to_string(),
        output_kind: OutputKind::Folder,
        included: IncludedComponents { system_packages: true, ssl: true, xui_panel: true },
    }
}

fn no_hashes() -> Vec<Vec<Option<String>>> {
    vec![vec![]; 6]
}

#[test]
fn fresh_bundle_plans_everything() {
    let c = config(PackageMode::Online, SslConfig::SelfSigned { common_name: "h".to_string(), dynamic: false });
    let m = Manifest::new_at(&c, 0);
    assert_eq!(
        plan_build(&c, &m, &no_hashes()),
        vec![
            BuildAction::FetchRelease,
            BuildAction::FetchCliScript,
            BuildAction::FetchServiceFile,
            BuildAction::RecordOnlinePackages,
            BuildAction::Ssl(SslPlan::GenerateSelfSigned),
        ]
    );
    let offline = config(PackageMode::Offline, SslConfig::Disabled);
    let actions = plan_build(&offline, &Manifest::new_at(&offline, 0), &no_hashes());
    assert_eq!(actions[3], BuildAction::FetchPackages);
    assert_eq!(actions[4], BuildAction::Ssl(SslPlan::NoFiles));
}

#[test]
fn intact_steps_are_not_redone() {
    let c = config(PackageMode::Offline, SslConfig::Disabled);
    let mut m = Manifest::new_at(&c, 0);
    let mut current = Vec::new();
    for (i, key) in step_keys().into_iter().enumerate() {
        let content = Some(format!("content {}", i).into_bytes());
        m.mark_done(key, vec![format!("f{}", i)], &vec![content.clone()]);
        current.push(vec![current_hash(&content)]);
    }
    assert_eq!(plan_build(&c, &m, &current), vec![]);

    // A changed script is fetched again, nothing else.
    current[1] = vec![Some("other".to_string())];
    assert_eq!(plan_build(&c, &m, &current), vec![BuildAction::FetchCliScript]);
}

#[test]
fn online_packages_recorded_once() {
    let c = config(PackageMode::Online, SslConfig::Disabled);
    let mut m = Manifest::new_at(&c, 0);
    m.mark_done(STEP_PACKAGES, vec![], &vec![]);
    let actions = plan_build(&c, &m, &no_hashes());
    assert!(!actions.contains(&BuildAction::RecordOnlinePackages));
    // A step done with no files is never intact: the SSL step is redone.
    m.mark_done(STEP_SSL, vec![], &vec![]);
    assert!(plan_build(&c, &m, &no_hashes()).contains(&BuildAction::Ssl(SslPlan::NoFiles)));
    m.mark_failed(STEP_XUI_SH, "offline");
    assert!(plan_build(&c, &m, &no_hashes()).contains(&BuildAction::FetchCliScript));
}

fn complete_bundle(c: &BuildConfig) -> (Manifest, Vec<Vec<Option<String>>>) {
    let mut m = Manifest::new_at(c, 0);
    let mut current = Vec::new();
    for (i, key) in step_keys().into_iter().enumerate() {
        let content = Some(format!("content {}", i).into_bytes());
        m.mark_done(key, vec![format!("f{}", i)], &vec![content.clone()]);
        current.push(vec![current_hash(&content)]);
    }
    (m, current)
}

#[test]
fn ssl_edit_redoes_only_the_ssl_files() {
    let c = config(PackageMode::Offline, SslConfig::Disabled);
    let (mut m, current) = complete_bundle(&c);
    assert!(apply_ssl_edit(&mut m, SslEdit::SelfSigned, "example.org"));
    let restored = config_from_manifest(&m, "./o").unwrap();
    assert_eq!(
        plan_build(&restored, &m, &current),
        vec![BuildAction::Ssl(SslPlan::GenerateSelfSigned)]
    );
}

#[test]
fn port_and_credential_edits_redo_nothing() {
    let c = config(PackageMode::Online, SslConfig::Disabled);
    let (mut m, current) = complete_bundle(&c);
    assert_eq!(apply_port_edit(&mut m, "4040"), Some(4040));
    apply_text_edit(&mut m, "panel_username", "root");
    apply_text_edit(&mut m, "panel_password", "pw2");
    let restored = config_from_manifest(&m, "./o").unwrap();
    assert_eq!(restored.panel_port, 4040);
    assert_eq!(plan_build(&restored, &m, &current), vec![]);
}
