use xui_offline_builder::script::{
    build_pkg_section, build_script, build_service_section, build_ssl_section, sfx_file, sfx_path,
    SFX_HEADER,
};
use xui_offline_builder::state::{
    BuildConfig, IncludedComponents, OutputKind, PackageMode, SslConfig, TargetArch, TargetOs,
    XuiVersion,
};

fn config(os: TargetOs, mode: PackageMode, ssl: SslConfig) -> BuildConfig {
    BuildConfig {
        os,
        arch: TargetArch::Amd64,
        os_version: None,
        package_mode: mode,
        xui_version: XuiVersion::Latest,
        panel_port: 2053,
        panel_username: "admin".to_string(),
        panel_password: "secret".to_string(),
        panel_web_base_path: "panel".to_string(),
        ssl,
        server_host: "1.2.3.4".to_string(),
        output_dir: "./xui-bundle".to_string(),
        output_kind: OutputKind::Sfx,
        included: IncludedComponents { system_packages: true, ssl: true, xui_panel: true },
    }
}

#[test]
fn pkg_section_online_debian() {
    let c = config(TargetOs::Debian, PackageMode::Online, SslConfig::Disabled);
    assert_eq!(
        build_pkg_section(&c),
        "install_base_online() {\n    apt-get update && apt-get install -y -q cron curl tar tzdata socat ca-certificates openssl\n}"
    );
}

#[test]
fn pkg_section_offline_ubuntu() {
    let c = config(TargetOs::Ubuntu, PackageMode::Offline, SslConfig::Disabled);
    let expected = "install_base_offline() {\n    echo \"Installing packages from offline bundle...\"\n    cd \"$BUNDLE_DIR\"\n    dpkg -i ./packages/*.deb 2>/dev/null || true\n    apt-get install -f -y -q 2>/dev/null || true\n}\ninstall_base_online() {\n    echo \"Online fallback for missing packages...\"\n    apt-get update && apt-get install -y -q cron curl tar tzdata socat ca-certificates openssl || true\n}";
    assert_eq!(build_pkg_section(&c), expected);
}

#[test]
fn pkg_section_offline_alpine_uses_apk() {
    let c = config(TargetOs::Alpine, PackageMode::Offline, SslConfig::Disabled);
    let s = build_pkg_section(&c);
    assert!(s.contains("    apk add --no-network --allow-untrusted ./packages/*.apk 2>/dev/null || true\n"));
    assert!(s.ends_with("    apk update && apk add dcron curl tar tzdata socat ca-certificates openssl || true\n}"));
}

#[test]
fn pkg_section_offline_without_mirror_falls_back_to_deb() {
    // Arch has no offline mirror: the deb commands are written.
    let c = config(TargetOs::Arch, PackageMode::Offline, SslConfig::Disabled);
    assert!(build_pkg_section(&c).contains("dpkg -i ./packages/*.deb"));
}

#[test]
fn pkg_section_centos_indents_each_line() {
    let c = config(TargetOs::CentOs, PackageMode::Online, SslConfig::Disabled);
    let s = build_pkg_section(&c);
    assert!(s.starts_with("install_base_online() {\n    if [[ \"${VERSION_ID}\" =~ ^7 ]]; then\n"));
}

#[test]
fn ssl_section_disabled() {
    let c = config(TargetOs::Ubuntu, PackageMode::Online, SslConfig::Disabled);
    assert_eq!(build_ssl_section(&c), "# SSL Disabled — Panel runs on HTTP\n");
}

#[test]
fn ssl_section_bundled_and_dynamic() {
    let custom = config(
        TargetOs::Ubuntu,
        PackageMode::Online,
        SslConfig::Custom { fullchain_path: "a".to_string(), privkey_path: "b".to_string() },
    );
    let s = build_ssl_section(&custom);
    assert!(s.starts_with("setup_ssl() {\n    local cert_dest=\"/root/cert/bundle\"\n"));
    assert!(s.contains("    cp \"$BUNDLE_DIR/ssl/fullchain.pem\" \"$cert_dest/fullchain.pem\"\n"));
    assert!(s.ends_with("    echo \"  SSL certificate installed\"\n}\n"));

    let fixed = config(
        TargetOs::Ubuntu,
        PackageMode::Online,
        SslConfig::SelfSigned { common_name: "example.org".to_string(), dynamic: false },
    );
    assert_eq!(build_ssl_section(&fixed), s);

    let dynamic = config(
        TargetOs::Ubuntu,
        PackageMode::Online,
        SslConfig::SelfSigned { common_name: "example.org".to_string(), dynamic: true },
    );
    let d = build_ssl_section(&dynamic);
    assert!(d.contains("openssl req -x509 -newkey rsa:2048"));
    assert!(!d.contains("$BUNDLE_DIR/ssl/fullchain.pem"));
}

#[test]
fn service_sections() {
    let (stop, install) = build_service_section(true);
    assert_eq!(stop, "rc-service x-ui stop 2>/dev/null || true");
    assert_eq!(
        install,
        "cp \"$BUNDLE_DIR/x-ui.rc\" /etc/init.d/x-ui\nchmod +x /etc/init.d/x-ui\nrc-update add x-ui\nrc-service x-ui start"
    );
    let (stop, install) = build_service_section(false);
    assert_eq!(stop, "systemctl stop x-ui 2>/dev/null || true");
    assert!(install.starts_with("cp \"$BUNDLE_DIR/x-ui.service\" /etc/systemd/system/x-ui.service\n"));
    assert!(install.ends_with("systemctl enable x-ui\nsystemctl start x-ui"));
}

#[test]
fn script_header_and_version() {
    let c = config(TargetOs::Ubuntu, PackageMode::Online, SslConfig::Disabled);
    let s = build_script(&c, "v2.5.1");
    assert!(s.starts_with("#!/bin/bash\n# ============================================================\n"));
    assert!(s.contains("# Target OS      : Ubuntu\n# Architecture   : amd64\n"));
    assert!(s.contains("This is a 3x-ui Offline Installer (${cyan}v2.5.1${blue})."));
    assert!(s.contains("   Bundle Version:    ${cyan}v2.5.1${plain}"));
    assert!(!s.contains("VERSION_ID=\""));
    assert!(s.ends_with("echo -e \"  x-ui start / stop / restart / status / log\"\n"));
}

#[test]
fn script_centos_records_version_id() {
    let mut c = config(TargetOs::CentOs, PackageMode::Online, SslConfig::Disabled);
    c.os_version = Some("7".to_string());
    let s = build_script(&c, "latest");
    assert!(s.contains("xui_service=\"/etc/systemd/system\"\n\nVERSION_ID=\"7\"\n# ── Root Check"));
}

#[test]
fn script_menu_numbering() {
    let c = config(
        TargetOs::Ubuntu,
        PackageMode::Online,
        SslConfig::SelfSigned { common_name: "1.2.3.4".to_string(), dynamic: false },
    );
    let s = build_script(&c, "v2.5.1");
    assert!(s.contains("[1] Update${plain}"));
    assert!(s.contains("[2] Reinstall${plain}"));
    assert!(s.contains("[3] Update SSL Only${plain}"));
    assert!(s.contains("[4] Abort${plain}"));
    assert!(s.contains("read -p \"Choose an option [1-4]: \" opt"));
    assert!(s.contains("        3) ACTION=\"update_ssl\" ;;\n"));
    assert!(s.contains("setup_ssl\n\n"));

    let no_ssl = config(TargetOs::Ubuntu, PackageMode::Online, SslConfig::Disabled);
    let s = build_script(&no_ssl, "v2.5.1");
    assert!(s.contains("[3] Abort${plain}"));
    assert!(s.contains("Choose an option [1-3]"));
    assert!(!s.contains("Update SSL Only"));
    assert!(s.contains("# SSL is disabled\n\n"));
}

#[test]
fn script_without_panel_refuses_fresh_install() {
    let mut c = config(
        TargetOs::Ubuntu,
        PackageMode::Online,
        SslConfig::SelfSigned { common_name: "1.2.3.4".to_string(), dynamic: false },
    );
    c.included = IncludedComponents { system_packages: false, ssl: true, xui_panel: false };
    let s = build_script(&c, "v2.5.1");
    assert!(s.contains("[1] Update SSL Only${plain}"));
    assert!(s.contains("[2] Abort${plain}"));
    assert!(s.contains("Error: No existing 3x-ui installation found to update."));
    assert!(!s.contains("install_base_online"));
    assert!(!s.contains("Extracting x-ui Binary"));
}

#[test]
fn script_panel_settings_and_access_link() {
    let c = config(TargetOs::Ubuntu, PackageMode::Online, SslConfig::Disabled);
    let s = build_script(&c, "v2.5.1");
    assert!(s.contains(
        "setting -username \"admin\" -password \"secret\" -port \"2053\" -webBasePath \"panel\" > /dev/null 2>&1\n"
    ));
    let link = format!("{:<43}", "http://1.2.3.4:2053/panel");
    assert!(s.contains(&format!("║ Access Link:   {} ║", link)));
    assert!(s.contains(&format!("║ Port:          {:<43} ║", 2053)));
    assert!(s.contains("tar zxf \"$BUNDLE_DIR/x-ui-linux-amd64.tar.gz\""));
    assert!(s.contains("systemctl daemon-reload\n"));
}

#[test]
fn script_https_link_and_dynamic_host() {
    let c = config(
        TargetOs::Ubuntu,
        PackageMode::Online,
        SslConfig::SelfSigned { common_name: "1.2.3.4".to_string(), dynamic: true },
    );
    let s = build_script(&c, "v2.5.1");
    assert!(s.contains("https://$TARGET_HOST:2053/panel"));
    let fixed = config(
        TargetOs::Ubuntu,
        PackageMode::Online,
        SslConfig::Custom { fullchain_path: "a".to_string(), privkey_path: "b".to_string() },
    );
    assert!(build_script(&fixed, "v2.5.1").contains("https://1.2.3.4:2053/panel"));
}

#[test]
fn script_armv7_renames_xray_and_alpine_uses_openrc() {
    let mut c = config(TargetOs::Alpine, PackageMode::Online, SslConfig::Disabled);
    c.arch = TargetArch::Armv7;
    let s = build_script(&c, "v2.5.1");
    assert!(s.contains("mv \"$xui_folder/bin/xray-linux-armv7\" \"$xui_folder/bin/xray-linux-arm\""));
    assert!(s.contains("rc-service x-ui stop 2>/dev/null || true\n"));
    assert!(s.contains("rc-update add x-ui\n"));
    c.arch = TargetArch::Arm64;
    assert!(!build_script(&c, "v2.5.1").contains("xray-linux-armv7"));
}

#[test]
fn sfx_paths() {
    assert_eq!(sfx_path("./out/"), "./out.sh");
    assert_eq!(sfx_path("./xui-bundle"), "./xui-bundle.sh");
    assert_eq!(sfx_path("dir//"), "dir.sh");
}

#[test]
fn single_file_installer_appends_the_archive() {
    let archive = vec![0x1f, 0x8b, 0x08, 0x00];
    let f = sfx_file(&archive);
    assert!(f.starts_with(b"#!/bin/bash\n"));
    assert!(f.ends_with(b"\n__BUNDLE_ARCHIVE__\n\x1f\x8b\x08\x00"));
    assert_eq!(f.len(), SFX_HEADER.len() + archive.len());
}
