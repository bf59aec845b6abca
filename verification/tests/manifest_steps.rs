use xui_offline_builder::manifest::{
    current_hash, hex_encode, recorded_hash, sha256_hex, step_keys, ConfigValue, Manifest,
    ManifestConfig, SerializableConfig, StepStatus, STEP_INSTALL_SH, STEP_PACKAGES, STEP_SSL,
    STEP_XUI_BINARY, STEP_XUI_SH,
};
use xui_offline_builder::state::{
    BuildConfig, IncludedComponents, OutputKind, PackageMode, SslConfig, TargetArch, TargetOs,
    XuiVersion,
};

fn config() -> BuildConfig {
    BuildConfig {
        os: TargetOs::Rocky,
        arch: TargetArch::Arm64,
        os_version: Some("9".to_string()),
        package_mode: PackageMode::Offline,
        xui_version: XuiVersion::Specific("v2.5.1".to_string()),
        panel_port: 2053,
        panel_username: "admin".to_string(),
        panel_password: "secret".to_string(),
        panel_web_base_path: "panel".to_string(),
        ssl: SslConfig::SelfSigned { common_name: "10.0.0.1".to_string(), dynamic: false },
        server_host: "10.0.0.1".to_string(),
        output_dir: "./xui-bundle".to_string(),
        output_kind: OutputKind::Folder,
        included: IncludedComponents { system_packages: true, ssl: true, xui_panel: true },
    }
}

const ABC_SHA256: &str = "ba7816bf8f01cfea414140de5dae2223b00361a396177a9cb410ff61f20015ad";

fn strings(v: &[&str]) -> Vec<String> {
    v.iter().map(|s| s.to_string()).collect()
}

#[test]
fn step_keys_in_build_order() {
    assert_eq!(
        step_keys(),
        vec!["xui_binary", "xui_sh", "service_file", "packages", "ssl", "install_sh"]
    );
    assert_eq!(StepStatus::Pending.as_str(), "pending");
    assert_eq!(StepStatus::Partial.as_str(), "partial");
    assert_eq!(StepStatus::Done.as_str(), "done");
    assert_eq!(StepStatus::Failed.as_str(), "failed");
}

#[test]
fn fresh_manifest_has_every_step_pending() {
    let m = Manifest::new_at(&config(), 1_700_000_000_000_000);
    assert_eq!(m.version, "1");
    assert_eq!(m.created_at, 1_700_000_000_000_000);
    assert_eq!(m.updated_at, m.created_at);
    assert_eq!(m.steps.len(), 6);
    for key in step_keys() {
        let s = m.get_step(key).expect("step present");
        assert_eq!(s.status, StepStatus::Pending);
        assert!(s.files.is_empty() && s.sha256.is_empty() && s.note.is_none());
        assert!(!m.step_is_done(key));
    }
    assert!(m.get_step("unknown").is_none());
}

#[test]
fn fresh_manifest_stamped_now() {
    let m = Manifest::new(&config());
    assert_eq!(m.created_at, m.updated_at);
    assert!(m.created_at > 1_600_000_000_000_000);
}

#[test]
fn snapshot_of_settings() {
    let s = SerializableConfig::from_config(&config());
    assert_eq!(s.os, "Rocky Linux");
    assert_eq!(s.arch, "arm64");
    assert_eq!(s.package_mode, "offline");
    assert_eq!(s.xui_version, "v2.5.1");
    assert_eq!(s.ssl_kind, "self-signed(10.0.0.1)");
    assert_eq!(s.output_kind, "folder");
    match s.to_config() {
        ManifestConfig::Object(entries) => {
            let keys: Vec<&str> = entries.iter().map(|(k, _)| k.as_str()).collect();
            assert_eq!(
                keys,
                vec![
                    "os", "arch", "os_version", "package_mode", "xui_version", "panel_port",
                    "panel_username", "panel_password", "panel_web_base_path", "ssl_kind",
                    "server_host", "output_dir", "output_kind"
                ]
            );
            assert!(matches!(&entries[5].1, ConfigValue::Number(2053)));
            assert!(matches!(&entries[2].1, ConfigValue::Text(v) if v == "9"));
        }
        ManifestConfig::NotObject(_) => panic!("snapshot must be an object"),
    }
    let mut c = config();
    c.ssl = SslConfig::Disabled;
    c.xui_version = XuiVersion::Latest;
    c.output_kind = OutputKind::Sfx;
    let s = SerializableConfig::from_config(&c);
    assert_eq!(s.ssl_kind, "none");
    assert_eq!(s.xui_version, "latest");
    assert_eq!(s.output_kind, "sfx");
    c.ssl = SslConfig::Custom { fullchain_path: "a".to_string(), privkey_path: "b".to_string() };
    assert_eq!(SerializableConfig::from_config(&c).ssl_kind, "custom");
}

#[test]
fn done_step_is_valid_while_hashes_match() {
    let mut m = Manifest::new_at(&config(), 0);
    m.mark_done(STEP_XUI_SH, strings(&["x-ui.sh"]), &vec![Some(b"abc".to_vec())]);
    assert_eq!(m.get_step(STEP_XUI_SH).unwrap().sha256, vec![ABC_SHA256.to_string()]);
    assert!(m.step_is_done(STEP_XUI_SH));
    assert!(m.step_is_valid(STEP_XUI_SH, &vec![Some(ABC_SHA256.to_string())]));
    // Changed, missing or unreadable file: no longer valid.
    assert!(!m.step_is_valid(STEP_XUI_SH, &vec![Some("0".repeat(64))]));
    assert!(!m.step_is_valid(STEP_XUI_SH, &vec![None]));
    assert!(!m.step_is_valid(STEP_XUI_SH, &vec![]));
    // Other steps untouched.
    assert!(!m.step_is_done(STEP_XUI_BINARY));
    assert_eq!(m.get_step(STEP_XUI_BINARY).unwrap().status, StepStatus::Pending);
}

#[test]
fn done_without_files_is_never_valid() {
    let mut m = Manifest::new_at(&config(), 0);
    m.mark_done(STEP_PACKAGES, vec![], &vec![]);
    assert!(m.step_is_done(STEP_PACKAGES));
    assert!(!m.step_is_valid(STEP_PACKAGES, &vec![]));
}

#[test]
fn partial_and_failed_steps() {
    let mut m = Manifest::new_at(&config(), 0);
    m.mark_partial(
        STEP_PACKAGES,
        strings(&["packages/a.rpm"]),
        &vec![Some(b"abc".to_vec())],
        Some("1/7 پکیج دانلود شد".to_string()),
    );
    let s = m.get_step(STEP_PACKAGES).unwrap();
    assert_eq!(s.status, StepStatus::Partial);
    assert_eq!(s.note.as_deref(), Some("1/7 پکیج دانلود شد"));
    assert!(!m.step_is_valid(STEP_PACKAGES, &vec![Some(ABC_SHA256.to_string())]));

    m.mark_failed(STEP_PACKAGES, "network down");
    let s = m.get_step(STEP_PACKAGES).unwrap();
    assert_eq!(s.status, StepStatus::Failed);
    assert_eq!(s.files, strings(&["packages/a.rpm"]));
    assert_eq!(s.note.as_deref(), Some("network down"));
    assert!(!m.step_is_done(STEP_PACKAGES));

    // A step the manifest does not hold stays absent.
    m.mark_failed("nonexistent", "x");
    assert!(m.get_step("nonexistent").is_none());
    assert_eq!(m.steps.len(), 6);
}

#[test]
fn marking_a_new_step_adds_it() {
    let mut m = Manifest::new_at(&config(), 0);
    m.mark_done("extra", strings(&["e"]), &vec![Some(b"abc".to_vec())]);
    assert_eq!(m.steps.len(), 7);
    let now = current_hash(&Some(b"abc".to_vec()));
    assert!(m.step_is_valid("extra", &vec![now.clone()]));
    // Marking again replaces the record.
    m.mark_done("extra", strings(&["e"]), &vec![Some(b"abd".to_vec())]);
    assert_eq!(m.steps.len(), 7);
    assert!(!m.step_is_valid("extra", &vec![now]));
}

#[test]
fn unreadable_file_is_recorded_as_error() {
    let mut m = Manifest::new_at(&config(), 0);
    m.mark_done(STEP_XUI_SH, strings(&["x-ui.sh"]), &vec![None]);
    assert_eq!(m.get_step(STEP_XUI_SH).unwrap().sha256, vec!["error".to_string()]);
    assert!(!m.step_is_valid(STEP_XUI_SH, &vec![None]));
}

#[test]
fn a_file_without_a_recorded_hash_is_not_valid() {
    let mut m = Manifest::new_at(&config(), 0);
    let abc = Some(b"abc".to_vec());
    m.mark_done(STEP_SSL, strings(&["ssl/fullchain.pem", "ssl/privkey.pem"]), &vec![abc.clone()]);
    let now = current_hash(&abc);
    assert!(!m.step_is_valid(STEP_SSL, &vec![now.clone(), now]));
}

#[test]
fn set_config_records_a_member() {
    let mut m = Manifest::new_at(&config(), 0);
    m.set_config("xui_version".to_string(), ConfigValue::Text("v2.6.0".to_string()));
    match &m.config {
        ManifestConfig::Object(entries) => {
            let v = entries.iter().find(|(k, _)| k == "xui_version").unwrap();
            assert!(matches!(&v.1, ConfigValue::Text(t) if t == "v2.6.0"));
            assert_eq!(entries.len(), 13);
        }
        ManifestConfig::NotObject(_) => panic!("object expected"),
    }
    let mut odd = Manifest::new_at(&config(), 0);
    odd.config = ManifestConfig::NotObject("[]".to_string());
    odd.set_config("a".to_string(), ConfigValue::Null);
    assert!(matches!(&odd.config, ManifestConfig::NotObject(t) if t == "[]"));
}

#[test]
fn touch_keeps_everything_but_the_stamp() {
    let mut m = Manifest::new_at(&config(), 5);
    m.mark_done(STEP_SSL, vec![], &vec![]);
    let now = m.touch();
    assert_eq!(m.updated_at, now);
    assert_eq!(m.created_at, 5);
    assert!(m.updated_at > 5);
    assert!(m.step_is_done(STEP_SSL));
    assert!(!m.step_is_done(STEP_INSTALL_SH));
}

#[test]
fn sha256_hex_of_known_inputs() {
    assert_eq!(sha256_hex(b"abc"), ABC_SHA256);
    assert_eq!(
        sha256_hex(b""),
        "e3b0c44298fc1c149afbf4c8996fb92427ae41e4649b934ca495991b7852b855"
    );
    assert_eq!(recorded_hash(&Some(b"abc".to_vec())), ABC_SHA256);
    assert_eq!(recorded_hash(&None), "error");
    assert_eq!(current_hash(&Some(b"abc".to_vec())), Some(ABC_SHA256.to_string()));
    assert_eq!(current_hash(&None), None);
}

#[test]
fn hex_encoding() {
    assert_eq!(hex_encode(&[]), "");
    assert_eq!(hex_encode(&[0x00, 0xff, 0x1a, 0x9c]), "00ff1a9c");
}

#[test]
fn snapshot_records_the_whole_ssl_choice() {
    let mut c = config();
    c.ssl = SslConfig::SelfSigned { common_name: "h".to_string(), dynamic: true };
    assert_eq!(SerializableConfig::from_config(&c).ssl_kind, "self-signed-dynamic(h)");
    c.ssl = SslConfig::LetsEncrypt { domain: "example.org".to_string() };
    assert_eq!(SerializableConfig::from_config(&c).ssl_kind, "letsencrypt(example.org)");
}
