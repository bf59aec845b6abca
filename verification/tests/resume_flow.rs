use xui_offline_builder::manifest::{
    current_hash,
    step_keys, ConfigValue, Manifest, ManifestConfig, StepStatus, STEP_INSTALL_SH, STEP_SSL,
};
use xui_offline_builder::resume::{
    apply_port_edit, apply_ssl_edit, apply_text_edit, config_from_manifest, mark_install_regenerated,
    apply_settings_answer, resolved_version, resume_choice, resume_menu, settings_choice, ssl_edit_choice,
    verify_report, ResumeChoice, SettingsAnswer, SettingsChoice,
    ResumeError, SslEdit, StepCheck,
};
use xui_offline_builder::state::{
    BuildConfig, IncludedComponents, OutputKind, PackageMode, SslConfig, TargetArch, TargetOs,
    XuiVersion,
};

fn config() -> BuildConfig {
    BuildConfig {
        os: TargetOs::Alpine,
        arch: TargetArch::Armv7,
        os_version: Some("3.19".to_string()),
        package_mode: PackageMode::Offline,
        xui_version: XuiVersion::Specific("v2.5.1".to_string()),
        panel_port: 40123,
        panel_username: "user1".to_string(),
        panel_password: "pw".to_string(),
        panel_web_base_path: "base".to_string(),
        ssl: SslConfig::SelfSigned { common_name: "10.1.2.3".to_string(), dynamic: false },
        server_host: "10.1.2.3".to_string(),
        output_dir: "./old-dir".to_string(),
        output_kind: OutputKind::Sfx,
        included: IncludedComponents { system_packages: true, ssl: true, xui_panel: true },
    }
}

fn text_of<'a>(m: &'a Manifest, key: &str) -> Option<&'a str> {
    match &m.config {
        ManifestConfig::Object(entries) => entries.iter().find(|(k, _)| k == key).and_then(|(_, v)| match v {
            ConfigValue::Text(t) => Some(t.as_str()),
            _ => None,
        }),
        ManifestConfig::NotObject(_) => None,
    }
}

fn number_of(m: &Manifest, key: &str) -> Option<u64> {
    match &m.config {
        ManifestConfig::Object(entries) => entries.iter().find(|(k, _)| k == key).and_then(|(_, v)| match v {
            ConfigValue::Number(n) => Some(*n),
            _ => None,
        }),
        ManifestConfig::NotObject(_) => None,
    }
}

#[test]
fn settings_round_trip_through_the_snapshot() {
    let c = config();
    let m = Manifest::new_at(&c, 0);
    let b = config_from_manifest(&m, "/srv/bundle").expect("object snapshot");
    assert_eq!(b.os, c.os);
    assert_eq!(b.arch, c.arch);
    assert_eq!(b.os_version, c.os_version);
    assert_eq!(b.package_mode, c.package_mode);
    assert!(matches!(&b.xui_version, XuiVersion::Specific(v) if v == "v2.5.1"));
    assert_eq!(b.panel_port, 40123);
    assert_eq!(b.panel_username, "user1");
    assert_eq!(b.panel_password, "pw");
    assert_eq!(b.panel_web_base_path, "base");
    assert!(matches!(&b.ssl, SslConfig::SelfSigned { common_name, dynamic: false } if common_name == "10.1.2.3"));
    assert_eq!(b.server_host, "10.1.2.3");
    assert_eq!(b.output_dir, "/srv/bundle");
    assert_eq!(b.output_kind, OutputKind::Sfx);
    assert_eq!(b.included, IncludedComponents { system_packages: true, ssl: true, xui_panel: true });
}

#[test]
fn restored_ssl_kinds() {
    let mut c = config();
    c.ssl = SslConfig::Custom { fullchain_path: "/a".to_string(), privkey_path: "/b".to_string() };
    let b = config_from_manifest(&Manifest::new_at(&c, 0), "dir").unwrap();
    assert!(matches!(&b.ssl, SslConfig::Custom { fullchain_path, privkey_path }
        if fullchain_path == "dir/ssl/fullchain.pem" && privkey_path == "dir/ssl/privkey.pem"));
    c.ssl = SslConfig::Disabled;
    assert!(matches!(config_from_manifest(&Manifest::new_at(&c, 0), "dir").unwrap().ssl, SslConfig::Disabled));
    c.ssl = SslConfig::LetsEncrypt { domain: "example.org".to_string() };
    assert!(matches!(&config_from_manifest(&Manifest::new_at(&c, 0), "dir").unwrap().ssl,
        SslConfig::LetsEncrypt { domain } if domain == "example.org"));
    c.ssl = SslConfig::SelfSigned { common_name: "10.9.8.7".to_string(), dynamic: true };
    assert!(matches!(&config_from_manifest(&Manifest::new_at(&c, 0), "dir").unwrap().ssl,
        SslConfig::SelfSigned { common_name, dynamic: true } if common_name == "10.9.8.7"));
    c.xui_version = XuiVersion::Latest;
    c.os_version = None;
    let b = config_from_manifest(&Manifest::new_at(&c, 0), "dir").unwrap();
    assert!(matches!(b.xui_version, XuiVersion::Latest));
    assert_eq!(b.os_version, None);
}

#[test]
fn unknown_or_missing_values_fall_back() {
    let mut m = Manifest::new_at(&config(), 0);
    m.config = ManifestConfig::Object(vec![
        ("os".to_string(), ConfigValue::Text("Plan9".to_string())),
        ("arch".to_string(), ConfigValue::Number(3)),
        ("panel_port".to_string(), ConfigValue::Number(70000)),
    ]);
    let b = config_from_manifest(&m, "d").unwrap();
    assert_eq!(b.os, TargetOs::Ubuntu);
    assert_eq!(b.arch, TargetArch::Amd64);
    assert_eq!(b.package_mode, PackageMode::Online);
    assert!(matches!(&b.xui_version, XuiVersion::Specific(v) if v.is_empty()));
    // A number beyond u16 wraps as a cast does.
    assert_eq!(b.panel_port, (70000u64 % 65536) as u16);
    assert_eq!(b.panel_username, "");
    assert!(matches!(b.ssl, SslConfig::Disabled));
    assert_eq!(b.output_kind, OutputKind::Folder);
    assert_eq!(resolved_version(&m), "latest");
}

#[test]
fn snapshot_that_is_not_an_object_is_refused() {
    let mut m = Manifest::new_at(&config(), 0);
    m.config = ManifestConfig::NotObject("42".to_string());
    let e = config_from_manifest(&m, "d").unwrap_err();
    assert_eq!(e, ResumeError::InvalidConfig);
    assert_eq!(e.message(), "manifest.config ساختار نامعتبری دارد");
}

#[test]
fn resolved_version_reads_the_snapshot() {
    let m = Manifest::new_at(&config(), 0);
    assert_eq!(resolved_version(&m), "v2.5.1");
    let mut c = config();
    c.xui_version = XuiVersion::Latest;
    assert_eq!(resolved_version(&Manifest::new_at(&c, 0)), "latest");
}

fn no_hashes() -> Vec<Vec<Option<String>>> {
    vec![vec![]; 6]
}

#[test]
fn fresh_bundle_report() {
    let m = Manifest::new_at(&config(), 0);
    let r = verify_report(&m, &no_hashes());
    assert_eq!(r.checks, vec![StepCheck::NotDone; 6]);
    assert!(r.all_ok);
    assert!(r.any_missing);
}

#[test]
fn complete_bundle_report_and_broken_file() {
    let mut m = Manifest::new_at(&config(), 0);
    let mut current = Vec::new();
    for (i, key) in step_keys().into_iter().enumerate() {
        let content = Some(format!("content {}", i).into_bytes());
        m.mark_done(key, vec![format!("file{}", i)], &vec![content.clone()]);
        current.push(vec![current_hash(&content)]);
    }
    let r = verify_report(&m, &current);
    assert_eq!(r.checks, vec![StepCheck::Verified; 6]);
    assert!(r.all_ok);
    assert!(!r.any_missing);

    current[0] = vec![Some("changed".to_string())];
    let r = verify_report(&m, &current);
    assert_eq!(r.checks[0], StepCheck::Broken);
    assert!(!r.all_ok);
    assert!(r.any_missing);
}

#[test]
fn skipped_partial_and_failed_steps_in_report() {
    let mut m = Manifest::new_at(&config(), 0);
    m.mark_done("packages", vec![], &vec![]);
    m.mark_partial("ssl", vec!["ssl/fullchain.pem".to_string()], &vec![Some(b"h".to_vec())], None);
    m.mark_failed("xui_sh", "offline");
    let r = verify_report(&m, &no_hashes());
    assert_eq!(r.checks[3], StepCheck::Skipped);
    assert_eq!(r.checks[4], StepCheck::Incomplete);
    assert_eq!(r.checks[1], StepCheck::Failed);
    assert!(!r.all_ok);
    assert!(r.any_missing);
}

#[test]
fn resume_menu_entries() {
    assert_eq!(
        resume_menu(true),
        vec![ResumeChoice::ContinueDownload, ResumeChoice::EditSettings, ResumeChoice::Restart, ResumeChoice::Exit]
    );
    assert_eq!(resume_menu(false), vec![ResumeChoice::EditSettings, ResumeChoice::Restart, ResumeChoice::Exit]);
    assert_eq!(resume_choice(true, 0), ResumeChoice::ContinueDownload);
    assert_eq!(resume_choice(true, 1), ResumeChoice::EditSettings);
    assert_eq!(resume_choice(false, 0), ResumeChoice::EditSettings);
    assert_eq!(resume_choice(false, 1), ResumeChoice::Restart);
    assert_eq!(resume_choice(false, 2), ResumeChoice::Exit);
    assert_eq!(resume_choice(true, 9), ResumeChoice::Exit);
}

#[test]
fn port_edits() {
    let mut m = Manifest::new_at(&config(), 0);
    assert_eq!(apply_port_edit(&mut m, " 8080 "), Some(8080));
    assert_eq!(number_of(&m, "panel_port"), Some(8080));
    assert_eq!(apply_port_edit(&mut m, "+9090"), Some(9090));
    assert_eq!(apply_port_edit(&mut m, "80"), None);
    assert_eq!(apply_port_edit(&mut m, "abc"), None);
    assert_eq!(apply_port_edit(&mut m, "65536"), None);
    assert_eq!(apply_port_edit(&mut m, ""), None);
    assert_eq!(apply_port_edit(&mut m, "1024"), Some(1024));
    assert_eq!(number_of(&m, "panel_port"), Some(1024));
    assert_eq!(config_from_manifest(&m, "d").unwrap().panel_port, 1024);
}

#[test]
fn text_edits_are_trimmed() {
    let mut m = Manifest::new_at(&config(), 0);
    apply_text_edit(&mut m, "panel_username", "  root \n");
    apply_text_edit(&mut m, "panel_password", "p a s s");
    assert_eq!(text_of(&m, "panel_username"), Some("root"));
    assert_eq!(text_of(&m, "panel_password"), Some("p a s s"));
    assert_eq!(text_of(&m, "server_host"), Some("10.1.2.3"));
}

#[test]
fn ssl_edits_reset_the_ssl_step() {
    assert_eq!(ssl_edit_choice(0), SslEdit::NoSsl);
    assert_eq!(ssl_edit_choice(1), SslEdit::SelfSigned);
    assert_eq!(ssl_edit_choice(2), SslEdit::Custom);

    let mut m = Manifest::new_at(&config(), 0);
    m.mark_done(STEP_SSL, vec!["ssl/fullchain.pem".to_string()], &vec![Some(b"h".to_vec())]);
    m.mark_done("xui_sh", vec!["x-ui.sh".to_string()], &vec![Some(b"h".to_vec())]);
    assert!(apply_ssl_edit(&mut m, SslEdit::SelfSigned, " example.org "));
    assert_eq!(text_of(&m, "ssl_kind"), Some("self-signed(example.org)"));
    let s = m.get_step(STEP_SSL).unwrap();
    assert_eq!(s.status, StepStatus::Pending);
    assert!(s.files.is_empty() && s.sha256.is_empty());
    assert!(m.step_is_done("xui_sh"));
    let b = config_from_manifest(&m, "d").unwrap();
    assert!(matches!(&b.ssl, SslConfig::SelfSigned { common_name, .. } if common_name == "example.org"));

    assert!(!apply_ssl_edit(&mut m, SslEdit::NoSsl, "ignored"));
    assert_eq!(text_of(&m, "ssl_kind"), Some("none"));
    assert!(!apply_ssl_edit(&mut m, SslEdit::Custom, ""));
    assert_eq!(text_of(&m, "ssl_kind"), Some("custom"));
}

#[test]
fn regenerated_installer_is_marked_done() {
    let mut m = Manifest::new_at(&config(), 0);
    mark_install_regenerated(&mut m);
    let s = m.get_step(STEP_INSTALL_SH).unwrap();
    assert_eq!(s.status, StepStatus::Done);
    assert_eq!(s.files, vec!["install.sh".to_string()]);
    assert!(s.sha256.is_empty());
    assert_eq!(m.get_step(STEP_SSL).unwrap().status, StepStatus::Pending);
}

#[test]
fn settings_menu_and_answers() {
    assert_eq!(settings_choice(0), SettingsChoice::Port);
    assert_eq!(settings_choice(3), SettingsChoice::Ssl);
    assert_eq!(settings_choice(4), SettingsChoice::Rebuild);
    assert_eq!(settings_choice(9), SettingsChoice::Back);

    let mut m = Manifest::new_at(&config(), 7);
    let (again, port) = apply_settings_answer(&mut m, SettingsAnswer::Port(" 9000 ".to_string()), false);
    assert!(!again);
    assert_eq!(port, Some(9000));
    let (again, port) = apply_settings_answer(&mut m, SettingsAnswer::Username(" bob ".to_string()), again);
    assert_eq!((again, port), (false, None));
    assert_eq!(text_of(&m, "panel_username"), Some("bob"));
    let (again, _) =
        apply_settings_answer(&mut m, SettingsAnswer::Ssl(SslEdit::SelfSigned, "h.example".to_string()), again);
    assert!(again);
    // Once set, the flag stays set.
    let (again, _) = apply_settings_answer(&mut m, SettingsAnswer::Ssl(SslEdit::NoSsl, String::new()), again);
    assert!(again);
    assert_eq!(m.created_at, 7);
    assert_eq!(m.version, "1");
}
