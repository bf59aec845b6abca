//! The offline `install.sh` the builder writes into a bundle, stated as text
//! over the build settings.
use crate::os_detect::{
    install_command_offline, install_command_online, lemma_rename_iff_armv7_suffix, mirror_info,
    mirror_of, offline_install_command, online_install_command, xray_arch_rename_needed,
    PkgFormat,
};
use crate::state::{
    arch_suffix, os_display_name, BuildConfig, PackageMode, SslConfig, TargetOs,
};
use crate::text::{
    contains_str, decimal, lines, occurs_at, starts_with, pad_right, pad_right_str, str_lines, strip_all_prefix, strip_all_suffix,
    trim_end_matches, trim_start_matches, u64_to_string, views,
};
use vstd::prelude::*;
use vstd::string::StringSliceAdditionalSpecFns;

verus! {

broadcast use vstd::string::group_string_axioms;

/// The release version written into the script for CentOS (empty when unknown).
pub open spec fn os_version_text(c: BuildConfig) -> Seq<char> {
    match c.os_version {
        Some(v) => v@,
        None => ""@,
    }
}

fn os_version_str(c: &BuildConfig) -> (s: &str)
    ensures
        s@ == os_version_text(*c),
{
    match &c.os_version {
        Some(v) => v.as_str(),
        None => "",
    }
}

/// The installer offers to replace only the certificates.
pub open spec fn ssl_offered(c: BuildConfig) -> bool {
    c.included.ssl && !(c.ssl is Disabled)
}

/// Number of the "Update SSL Only" choice in the installer's menu.
pub open spec fn ssl_option(c: BuildConfig) -> nat {
    if c.included.xui_panel {
        3
    } else {
        1
    }
}

/// Number of the "Abort" choice, the last one of the installer's menu.
pub open spec fn abort_option(c: BuildConfig) -> nat {
    (if c.included.xui_panel {
        2nat
    } else {
        0nat
    }) + (if ssl_offered(c) {
        1nat
    } else {
        0nat
    }) + 1
}

/// Name of the shell function the script calls to install packages.
pub open spec fn install_call_text(mode: PackageMode) -> Seq<char> {
    match mode {
        PackageMode::Online => "install_base_online"@,
        PackageMode::Offline => "install_base_offline"@,
    }
}

fn install_call(mode: PackageMode) -> (s: &'static str)
    ensures
        s@ == install_call_text(mode),
{
    match mode {
        PackageMode::Online => "install_base_online",
        PackageMode::Offline => "install_base_offline",
    }
}

/// Each line indented by four spaces and ended with a newline.
pub open spec fn indented(ls: Seq<Seq<char>>) -> Seq<char>
    decreases ls.len(),
{
    if ls.len() == 0 {
        Seq::empty()
    } else {
        indented(ls.drop_last()) + "    "@ + ls.last() + "\n"@
    }
}

fn indent_lines(text: &str) -> (r: String)
    ensures
        r@ == indented(str_lines(text@)),
{
    let ls = lines(text);
    let ghost v = views(ls@);
    let mut r = String::new();
    let mut i: usize = 0;
    while i < ls.len()
        invariant
            v == views(ls@),
            v == str_lines(text@),
            i <= ls.len(),
            r@ == indented(v.take(i as int)),
        decreases ls.len() - i,
    {
        r.append("    ");
        r.append(ls[i].as_str());
        r.append("\n");
        proof {
            assert(v.take(i + 1).drop_last() =~= v.take(i as int));
            assert(v.take(i + 1).last() == ls@[i as int]@);
        }
        i = i + 1;
    }
    proof {
        assert(v.take(ls.len() as int) =~= v);
    }
    r
}

/// Format of the packages bundled for a distribution (Debian packages when none is known).
pub open spec fn offline_format(os: TargetOs) -> PkgFormat {
    match mirror_of(os) {
        Some((_, f)) => f,
        None => PkgFormat::Deb,
    }
}

/// Shell functions that install the system packages.
pub open spec fn pkg_section_text(c: BuildConfig) -> Seq<char> {
    match c.package_mode {
        PackageMode::Online => "install_base_online() {\n    "@ + online_install_command(c.os)
            + "\n}"@,
        PackageMode::Offline => "install_base_offline() {\n"@
            + "    echo \"Installing packages from offline bundle...\"\n"@
            + "    cd \"$BUNDLE_DIR\"\n"@ + indented(
            str_lines(offline_install_command(offline_format(c.os))),
        ) + "}\n"@ + "install_base_online() {\n"@
            + "    echo \"Online fallback for missing packages...\"\n"@ + "    "@
            + online_install_command(c.os) + " || true\n"@ + "}"@,
    }
}

/// Builds the shell functions that install the system packages.
pub fn build_pkg_section(c: &BuildConfig) -> (s: String)
    ensures
        s@ == pkg_section_text(*c),
{
    let online_cmd = install_command_online(&c.os);
    match c.package_mode {
        PackageMode::Online => {
            let mut s = "install_base_online() {\n    ".to_string();
            s.append(online_cmd.as_str());
            s.append("\n}");
            s
        },
        PackageMode::Offline => {
            let fmt = match mirror_info(&c.os) {
                Some(m) => m.format,
                None => PkgFormat::Deb,
            };
            let offline_cmd = install_command_offline(&c.os, &fmt);
            let mut s = "install_base_offline() {\n".to_string();
            s.append("    echo \"Installing packages from offline bundle...\"\n");
            s.append("    cd \"$BUNDLE_DIR\"\n");
            s.append(indent_lines(offline_cmd.as_str()).as_str());
            s.append("}\n");
            s.append("install_base_online() {\n");
            s.append("    echo \"Online fallback for missing packages...\"\n");
            s.append("    ");
            s.append(online_cmd.as_str());
            s.append(" || true\n");
            s.append("}");
            s
        },
    }
}

/// The `setup_ssl` section for an SSL choice.
pub open spec fn ssl_section_text(ssl: SslConfig) -> Seq<char> {
    match ssl {
        SslConfig::Disabled => "# SSL Disabled — Panel runs on HTTP\n"@,
        SslConfig::SelfSigned { dynamic, .. } => if dynamic {
            ssl_generated_on_target_text()
        } else {
            ssl_from_bundle_text()
        },
        _ => ssl_from_bundle_text(),
    }
}

/// Builds the SSL section of the script.
pub fn build_ssl_section(c: &BuildConfig) -> (s: String)
    ensures
        s@ == ssl_section_text(c.ssl),
{
    match &c.ssl {
        SslConfig::Disabled => "# SSL Disabled — Panel runs on HTTP\n".to_string(),
        SslConfig::SelfSigned { dynamic, .. } => {
            if *dynamic {
                ssl_generated_on_target()
            } else {
                ssl_from_bundle()
            }
        },
        _ => ssl_from_bundle(),
    }
}

/// What the script runs for SSL after defining its section.
pub open spec fn ssl_call_text(ssl: SslConfig) -> Seq<char> {
    match ssl {
        SslConfig::Disabled => "# SSL is disabled"@,
        _ => "setup_ssl"@,
    }
}

fn ssl_call(c: &BuildConfig) -> (s: String)
    ensures
        s@ == ssl_call_text(c.ssl),
{
    match &c.ssl {
        SslConfig::Disabled => "# SSL is disabled".to_string(),
        _ => "setup_ssl".to_string(),
    }
}

/// Command that stops a running panel service.
pub open spec fn service_stop_text(alpine: bool) -> Seq<char> {
    if alpine {
        "rc-service x-ui stop 2>/dev/null || true"@
    } else {
        "systemctl stop x-ui 2>/dev/null || true"@
    }
}

/// Commands that install and start the panel service.
pub open spec fn service_install_text(alpine: bool) -> Seq<char> {
    if alpine {
        "cp \"$BUNDLE_DIR/x-ui.rc\" /etc/init.d/x-ui\nchmod +x /etc/init.d/x-ui\nrc-update add x-ui\nrc-service x-ui start"@
    } else {
        "cp \"$BUNDLE_DIR/x-ui.service\" /etc/systemd/system/x-ui.service\nchown root:root /etc/systemd/system/x-ui.service\nchmod 644 /etc/systemd/system/x-ui.service\nsystemctl daemon-reload\nsystemctl enable x-ui\nsystemctl start x-ui"@
    }
}

/// Builds the commands that stop and that install the service: OpenRC on
/// Alpine, systemd elsewhere.
pub fn build_service_section(is_alpine: bool) -> (r: (String, String))
    ensures
        r.0@ == service_stop_text(is_alpine),
        r.1@ == service_install_text(is_alpine),
{
    if is_alpine {
        let stop = "rc-service x-ui stop 2>/dev/null || true".to_string();
        let install = "cp \"$BUNDLE_DIR/x-ui.rc\" /etc/init.d/x-ui\nchmod +x /etc/init.d/x-ui\nrc-update add x-ui\nrc-service x-ui start".to_string();
        (stop, install)
    } else {
        let stop = "systemctl stop x-ui 2>/dev/null || true".to_string();
        let install = "cp \"$BUNDLE_DIR/x-ui.service\" /etc/systemd/system/x-ui.service\nchown root:root /etc/systemd/system/x-ui.service\nchmod 644 /etc/systemd/system/x-ui.service\nsystemctl daemon-reload\nsystemctl enable x-ui\nsystemctl start x-ui".to_string();
        (stop, install)
    }
}

/// Scheme of the panel's address.
pub open spec fn protocol_text(ssl: SslConfig) -> Seq<char> {
    match ssl {
        SslConfig::Disabled => "http"@,
        _ => "https"@,
    }
}

/// Host shown in the panel's address: the one entered on the target server
/// when the certificate is generated there.
pub open spec fn link_host_text(c: BuildConfig) -> Seq<char> {
    match c.ssl {
        SslConfig::SelfSigned { dynamic, .. } => if dynamic {
            "$TARGET_HOST"@
        } else {
            c.server_host@
        },
        _ => c.server_host@,
    }
}

/// The panel's address, as the installer reports it.
pub open spec fn access_link_text(c: BuildConfig) -> Seq<char> {
    protocol_text(c.ssl) + "://"@ + link_host_text(c) + ":"@ + decimal(c.panel_port as nat) + "/"@
        + c.panel_web_base_path@
}

fn access_link(c: &BuildConfig) -> (s: String)
    ensures
        s@ == access_link_text(*c),
{
    let mut s = match &c.ssl {
        SslConfig::Disabled => "http".to_string(),
        _ => "https".to_string(),
    };
    s.append("://");
    match &c.ssl {
        SslConfig::SelfSigned { dynamic, .. } => {
            if *dynamic {
                s.append("$TARGET_HOST");
            } else {
                s.append(c.server_host.as_str());
            }
        },
        _ => s.append(c.server_host.as_str()),
    }
    s.append(":");
    s.append(u64_to_string(c.panel_port as u64).as_str());
    s.append("/");
    s.append(c.panel_web_base_path.as_str());
    s
}

/// The whole offline install script for a configuration and the resolved
/// panel version.
pub open spec fn script_text(c: BuildConfig, version: Seq<char>) -> Seq<char> {
    let t1 = preamble_text(c) + detection_text(c, version);
    let t2 = if c.included.system_packages {
        t1 + packages_block_inner_text(c)
    } else {
        t1
    };
    let t3 = if c.included.xui_panel {
        t2 + panel_block_inner_text(c)
    } else {
        t2
    };
    t3 + ssl_service_block_text(c) + final_block_text(c)
}

/// Builds the offline install script.
pub fn build_script(c: &BuildConfig, resolved_version: &str) -> (s: String)
    ensures
        s@ == script_text(*c, resolved_version@),
{
    let mut s = preamble(c);
    s.append(detection(c, resolved_version).as_str());
    if c.included.system_packages {
        s.append(packages_block_inner(c).as_str());
    }
    if c.included.xui_panel {
        s.append(panel_block_inner(c).as_str());
    }
    s.append(ssl_service_block(c).as_str());
    s.append(final_block(c).as_str());
    s
}

/// Path of the self-extracting installer made from a bundle directory.
pub open spec fn sfx_path_text(output_dir: Seq<char>) -> Seq<char> {
    strip_all_suffix(output_dir, "/"@) + ".sh"@
}

/// Path of the self-extracting installer made from a bundle directory.
pub fn sfx_path(output_dir: &str) -> (p: String)
    ensures
        p@ == sfx_path_text(output_dir@),
{
    let mut p = trim_end_matches(output_dir, "/");
    p.append(".sh");
    p
}

/// Opening of the script: header, colours, paths and, for CentOS, the release version.
pub open spec fn preamble_text(c: BuildConfig) -> Seq<char> {
    let t1 = "#!/bin/bash\n"@ + "# ============================================================\n"@ + "# 3x-ui Offline Installer — Customized by xui-offline-builder\n"@ + "# Target OS      : "@ + os_display_name(c.os) + "\n"@ + "# Architecture   : "@ + arch_suffix(c.arch) + "\n"@ + "# ============================================================\n"@ + "set -e\n\n"@ + "red='\\033[0;31m'\n"@ + "green='\\033[0;32m'\n"@ + "blue='\\033[0;34m'\n"@ + "yellow='\\033[0;33m'\n"@ + "plain='\\033[0m'\n\n"@ + "# Bundle path\n"@ + "BUNDLE_DIR=\"$(cd \"$(dirname \"${BASH_SOURCE[0]}\")\" && pwd)\"\n\n"@ + "xui_folder=\"/usr/local/x-ui\"\n"@ + "xui_service=\"/etc/systemd/system\"\n"@;
    let t3 = if c.os == TargetOs::CentOs {
            let t2 = t1 + "\n"@ + "VERSION_ID=\""@ + os_version_text(c) + "\""@ + "\n"@;
            t2
        } else {
            t1
        };
    t3
}

fn preamble(c: &BuildConfig) -> (s: String)
    ensures
        s@ == preamble_text(*c),
{
    let mut s = "#!/bin/bash\n".to_string();
    s.append("# ============================================================\n");
    s.append("# 3x-ui Offline Installer — Customized by xui-offline-builder\n");
    s.append("# Target OS      : ");
    s.append(c.os.display_name());
    s.append("\n");
    s.append("# Architecture   : ");
    s.append(c.arch.xui_suffix());
    s.append("\n");
    s.append("# ============================================================\n");
    s.append("set -e\n\n");
    s.append("red='\\033[0;31m'\n");
    s.append("green='\\033[0;32m'\n");
    s.append("blue='\\033[0;34m'\n");
    s.append("yellow='\\033[0;33m'\n");
    s.append("plain='\\033[0m'\n\n");
    s.append("# Bundle path\n");
    s.append("BUNDLE_DIR=\"$(cd \"$(dirname \"${BASH_SOURCE[0]}\")\" && pwd)\"\n\n");
    s.append("xui_folder=\"/usr/local/x-ui\"\n");
    s.append("xui_service=\"/etc/systemd/system\"\n");
    if c.os == TargetOs::CentOs {
        s.append("\n");
        s.append("VERSION_ID=\"");
        s.append(os_version_str(c));
        s.append("\"");
        s.append("\n");
    }
    s
}

/// Root check and detection of an existing installation, with the menu of actions it offers.
pub open spec fn detection_text(c: BuildConfig, version: Seq<char>) -> Seq<char> {
    let t1 = "# ── Root Check ──────────────────────────────────────────────\n"@ + "[[ $EUID -ne 0 ]] && echo -e \"${red}Error: This script must be run as root.${plain}\" && exit 1\n\n"@ + "# ── Safety Confirmation & Detection ─────────────────────────\n"@ + "echo -e \"${blue}This is a 3x-ui Offline Installer (${cyan}"@ + version + "${blue}).${plain}\"\n"@ + "echo -e \"It will install the panel and all dependencies from local files.\"\n\n"@ + "ACTION=\"install\"\n"@ + "if [[ -d \"$xui_folder\" ]]; then\n"@ + "    # Try to detect current version\n"@ + "    current_v=$(\"$xui_folder/x-ui\" v 2>/dev/null | grep -oE '[0-9]+\\.[0-9]+\\.[0-9]+' | head -n1 || echo \"Unknown\")\n"@ + "    echo -e \"${yellow}⚠️  Existing 3x-ui installation detected!${plain}\"\n"@ + "    echo -e \"   Installed Version: ${cyan}v${current_v#v}${plain}\"\n"@ + "    echo -e \"   Bundle Version:    ${cyan}v"@ + strip_all_prefix(version, "v"@) + "${plain}\"\n\n"@ + "    echo -e \"What would you like to do?\"\n"@;
    let t3 = if c.included.xui_panel {
            let t2 = t1 + "    echo -e \"  ${cyan}["@ + decimal(1) + "] Update${plain} (Keep database, settings, and users)\"\n"@ + "    echo -e \"  ${cyan}["@ + decimal(2) + "] Reinstall${plain} (Clean install, overwrite everything)\"\n"@;
            t2
        } else {
            t1
        };
    let t5 = if ssl_offered(c) {
            let t4 = t3 + "    echo -e \"  ${cyan}["@ + decimal(ssl_option(c)) + "] Update SSL Only${plain} (Replace SSL certificates only)\"\n"@;
            t4
        } else {
            t3
        };
    let t6 = t5 + "    echo -e \"  ${cyan}["@ + decimal(abort_option(c)) + "] Abort${plain}\"\n"@ + "    read -p \"Choose an option [1-"@ + decimal(abort_option(c)) + "]: \" opt\n"@ + "    case $opt in\n"@;
    let t8 = if c.included.xui_panel {
            let t7 = t6 + "        "@ + decimal(1) + ") ACTION=\"update\" ;;\n"@ + "        "@ + decimal(2) + ") ACTION=\"reinstall\" ;;\n"@;
            t7
        } else {
            t6
        };
    let t10 = if ssl_offered(c) {
            let t9 = t8 + "        "@ + decimal(ssl_option(c)) + ") ACTION=\"update_ssl\" ;;\n"@;
            t9
        } else {
            t8
        };
    let t11 = t10 + "        *) echo -e \"${red}Aborted.${plain}\" ; exit 0 ;;\n"@ + "    esac\n"@ + "else\n"@;
    let t14 = if !c.included.xui_panel {
            let t12 = t11 + "    echo -e \"${red}Error: No existing 3x-ui installation found to update.${plain}\"\n"@ + "    exit 1\n"@;
            t12
        } else {
            let t13 = t11 + "    read -p \"🚀 Do you want to start the installation? [y/N]: \" confirm\n"@ + "    if [[ ! \"$confirm\" =~ ^[Yy]$ ]]; then\n"@ + "        echo -e \"${red}Installation aborted.${plain}\"\n"@ + "        exit 0\n"@ + "    fi\n"@;
            t13
        };
    let t15 = t14 + "fi\n\n"@ + "echo -e \"${green}Executing $ACTION process...${plain}\"\n\n"@;
    t15
}

fn detection(c: &BuildConfig, resolved_version: &str) -> (s: String)
    ensures
        s@ == detection_text(*c, resolved_version@),
{
    let has_ssl = c.included.ssl && !matches!(c.ssl, SslConfig::Disabled);
    let ssl_opt: u64 = if c.included.xui_panel { 3 } else { 1 };
    let abort_opt: u64 = if c.included.xui_panel { if has_ssl { 4 } else { 3 } } else { if has_ssl { 2 } else { 1 } };
    let mut s = "# ── Root Check ──────────────────────────────────────────────\n".to_string();
    s.append("[[ $EUID -ne 0 ]] && echo -e \"${red}Error: This script must be run as root.${plain}\" && exit 1\n\n");
    s.append("# ── Safety Confirmation & Detection ─────────────────────────\n");
    s.append("echo -e \"${blue}This is a 3x-ui Offline Installer (${cyan}");
    s.append(resolved_version);
    s.append("${blue}).${plain}\"\n");
    s.append("echo -e \"It will install the panel and all dependencies from local files.\"\n\n");
    s.append("ACTION=\"install\"\n");
    s.append("if [[ -d \"$xui_folder\" ]]; then\n");
    s.append("    # Try to detect current version\n");
    s.append("    current_v=$(\"$xui_folder/x-ui\" v 2>/dev/null | grep -oE '[0-9]+\\.[0-9]+\\.[0-9]+' | head -n1 || echo \"Unknown\")\n");
    s.append("    echo -e \"${yellow}⚠️  Existing 3x-ui installation detected!${plain}\"\n");
    s.append("    echo -e \"   Installed Version: ${cyan}v${current_v#v}${plain}\"\n");
    s.append("    echo -e \"   Bundle Version:    ${cyan}v");
    s.append(trim_start_matches(resolved_version, "v").as_str());
    s.append("${plain}\"\n\n");
    s.append("    echo -e \"What would you like to do?\"\n");
    if c.included.xui_panel {
        s.append("    echo -e \"  ${cyan}[");
        s.append(u64_to_string(1).as_str());
        s.append("] Update${plain} (Keep database, settings, and users)\"\n");
        s.append("    echo -e \"  ${cyan}[");
        s.append(u64_to_string(2).as_str());
        s.append("] Reinstall${plain} (Clean install, overwrite everything)\"\n");
    }
    if has_ssl {
        s.append("    echo -e \"  ${cyan}[");
        s.append(u64_to_string(ssl_opt).as_str());
        s.append("] Update SSL Only${plain} (Replace SSL certificates only)\"\n");
    }
    s.append("    echo -e \"  ${cyan}[");
    s.append(u64_to_string(abort_opt).as_str());
    s.append("] Abort${plain}\"\n");
    s.append("    read -p \"Choose an option [1-");
    s.append(u64_to_string(abort_opt).as_str());
    s.append("]: \" opt\n");
    s.append("    case $opt in\n");
    if c.included.xui_panel {
        s.append("        ");
        s.append(u64_to_string(1).as_str());
        s.append(") ACTION=\"update\" ;;\n");
        s.append("        ");
        s.append(u64_to_string(2).as_str());
        s.append(") ACTION=\"reinstall\" ;;\n");
    }
    if has_ssl {
        s.append("        ");
        s.append(u64_to_string(ssl_opt).as_str());
        s.append(") ACTION=\"update_ssl\" ;;\n");
    }
    s.append("        *) echo -e \"${red}Aborted.${plain}\" ; exit 0 ;;\n");
    s.append("    esac\n");
    s.append("else\n");
    if !c.included.xui_panel {
        s.append("    echo -e \"${red}Error: No existing 3x-ui installation found to update.${plain}\"\n");
        s.append("    exit 1\n");
    } else {
        s.append("    read -p \"🚀 Do you want to start the installation? [y/N]: \" confirm\n");
        s.append("    if [[ ! \"$confirm\" =~ ^[Yy]$ ]]; then\n");
        s.append("        echo -e \"${red}Installation aborted.${plain}\"\n");
        s.append("        exit 0\n");
        s.append("    fi\n");
    }
    s.append("fi\n\n");
    s.append("echo -e \"${green}Executing $ACTION process...${plain}\"\n\n");
    s
}

/// System package installation, skipped when only SSL is updated.
pub open spec fn packages_block_inner_text(c: BuildConfig) -> Seq<char> {
    let t1 = "if [[ \"$ACTION\" != \"update_ssl\" ]]; then\n"@ + "# ── System Package Installation ─────────────────────────────\n"@ + pkg_section_text(c) + "\n\n"@ + install_call_text(c.package_mode) + "\n\n"@ + "fi\n\n"@;
    t1
}

fn packages_block_inner(c: &BuildConfig) -> (s: String)
    ensures
        s@ == packages_block_inner_text(*c),
{
    let mut s = "if [[ \"$ACTION\" != \"update_ssl\" ]]; then\n".to_string();
    s.append("# ── System Package Installation ─────────────────────────────\n");
    s.append(build_pkg_section(c).as_str());
    s.append("\n\n");
    s.append(install_call(c.package_mode));
    s.append("\n\n");
    s.append("fi\n\n");
    s
}

/// Installation of the panel binary, CLI manager and panel settings.
pub open spec fn panel_block_inner_text(c: BuildConfig) -> Seq<char> {
    let t1 = "if [[ \"$ACTION\" != \"update_ssl\" ]]; then\n"@ + "# ── Stopping Previous Service ───────────────────────────────\n"@ + service_stop_text(c.os == TargetOs::Alpine) + "\n"@ + "if [[ \"$ACTION\" == \"reinstall\" ]]; then\n"@ + "    echo -e \"${yellow}Cleaning previous installation...${plain}\"\n"@ + "    rm -rf \"$xui_folder\" 2>/dev/null || true\n"@ + "fi\n\n"@ + "# ── Extracting x-ui Binary ──────────────────────────────────\n"@ + "echo -e \"${green}Installing x-ui binary...${plain}\"\n"@ + "mkdir -p \"$(dirname \"$xui_folder\")\"\n"@ + "tar zxf \"$BUNDLE_DIR/x-ui-linux-"@ + arch_suffix(c.arch) + ".tar.gz\" -C \"$(dirname \"$xui_folder\")\"\n"@ + "mv \"$(dirname \"$xui_folder\")/x-ui\" \"$xui_folder\" 2>/dev/null || true\n"@ + "chmod +x \"$xui_folder/x-ui\"\n"@ + "chmod +x \"$xui_folder/x-ui.sh\"\n"@;
    let t3 = if arch_suffix(c.arch) == "armv7"@ {
            let t2 = t1 + "mv \"$xui_folder/bin/xray-linux-armv7\" \"$xui_folder/bin/xray-linux-arm\" 2>/dev/null || true\n"@;
            t2
        } else {
            t1
        };
    let t4 = t3 + "chmod +x \"$xui_folder/bin/\"* 2>/dev/null || true\n\n"@ + "# ── Installing CLI manager ──────────────────────────────────\n"@ + "cp \"$BUNDLE_DIR/x-ui.sh\" /usr/bin/x-ui\n"@ + "chmod +x /usr/bin/x-ui\n"@ + "mkdir -p /var/log/x-ui\n\n"@ + "# ── Panel Configuration ─────────────────────────────────────\n"@ + "if [[ \"$ACTION\" != \"update\" ]]; then\n"@ + "    echo -e \"${green}Configuring panel settings...${plain}\"\n"@ + "    \"$xui_folder/x-ui\" setting -username \""@ + c.panel_username@ + "\" -password \""@ + c.panel_password@ + "\" -port \""@ + decimal(c.panel_port as nat) + "\" -webBasePath \""@ + c.panel_web_base_path@ + "\" > /dev/null 2>&1\n"@ + "else\n"@ + "    echo -e \"${blue}Updating binary only. Existing settings preserved.${plain}\"\n"@ + "fi\n"@ + "fi\n\n"@;
    t4
}

fn panel_block_inner(c: &BuildConfig) -> (s: String)
    ensures
        s@ == panel_block_inner_text(*c),
{
    let (service_stop, _service_install) = build_service_section(c.os == TargetOs::Alpine);
    let rename = xray_arch_rename_needed(&c.arch);
    proof {
        lemma_rename_iff_armv7_suffix(c.arch);
    }
    let mut s = "if [[ \"$ACTION\" != \"update_ssl\" ]]; then\n".to_string();
    s.append("# ── Stopping Previous Service ───────────────────────────────\n");
    s.append(service_stop.as_str());
    s.append("\n");
    s.append("if [[ \"$ACTION\" == \"reinstall\" ]]; then\n");
    s.append("    echo -e \"${yellow}Cleaning previous installation...${plain}\"\n");
    s.append("    rm -rf \"$xui_folder\" 2>/dev/null || true\n");
    s.append("fi\n\n");
    s.append("# ── Extracting x-ui Binary ──────────────────────────────────\n");
    s.append("echo -e \"${green}Installing x-ui binary...${plain}\"\n");
    s.append("mkdir -p \"$(dirname \"$xui_folder\")\"\n");
    s.append("tar zxf \"$BUNDLE_DIR/x-ui-linux-");
    s.append(c.arch.xui_suffix());
    s.append(".tar.gz\" -C \"$(dirname \"$xui_folder\")\"\n");
    s.append("mv \"$(dirname \"$xui_folder\")/x-ui\" \"$xui_folder\" 2>/dev/null || true\n");
    s.append("chmod +x \"$xui_folder/x-ui\"\n");
    s.append("chmod +x \"$xui_folder/x-ui.sh\"\n");
    if rename {
        s.append("mv \"$xui_folder/bin/xray-linux-armv7\" \"$xui_folder/bin/xray-linux-arm\" 2>/dev/null || true\n");
    }
    s.append("chmod +x \"$xui_folder/bin/\"* 2>/dev/null || true\n\n");
    s.append("# ── Installing CLI manager ──────────────────────────────────\n");
    s.append("cp \"$BUNDLE_DIR/x-ui.sh\" /usr/bin/x-ui\n");
    s.append("chmod +x /usr/bin/x-ui\n");
    s.append("mkdir -p /var/log/x-ui\n\n");
    s.append("# ── Panel Configuration ─────────────────────────────────────\n");
    s.append("if [[ \"$ACTION\" != \"update\" ]]; then\n");
    s.append("    echo -e \"${green}Configuring panel settings...${plain}\"\n");
    s.append("    \"$xui_folder/x-ui\" setting -username \"");
    s.append(c.panel_username.as_str());
    s.append("\" -password \"");
    s.append(c.panel_password.as_str());
    s.append("\" -port \"");
    s.append(u64_to_string(c.panel_port as u64).as_str());
    s.append("\" -webBasePath \"");
    s.append(c.panel_web_base_path.as_str());
    s.append("\" > /dev/null 2>&1\n");
    s.append("else\n");
    s.append("    echo -e \"${blue}Updating binary only. Existing settings preserved.${plain}\"\n");
    s.append("fi\n");
    s.append("fi\n\n");
    s
}

/// SSL setup, service activation and etckeeper handling.
pub open spec fn ssl_service_block_text(c: BuildConfig) -> Seq<char> {
    let t1 = "# ── SSL Configuration ───────────────────────────────────────\n"@ + ssl_section_text(c.ssl) + "\n"@ + ssl_call_text(c.ssl) + "\n\n"@ + "# ── Service Installation & Activation ───────────────────────\n"@ + "echo -e \"${green}Activating x-ui service...${plain}\"\n"@ + service_install_text(c.os == TargetOs::Alpine) + "\n\n"@ + "# etckeeper compatibility\n"@ + "if [ -d \"/etc/.git\" ]; then\n"@ + "    echo \"x-ui/x-ui.db\" >> /etc/.gitignore 2>/dev/null || true\n"@ + "fi\n\n"@;
    t1
}

fn ssl_service_block(c: &BuildConfig) -> (s: String)
    ensures
        s@ == ssl_service_block_text(*c),
{
    let (_service_stop, service_install) = build_service_section(c.os == TargetOs::Alpine);
    let mut s = "# ── SSL Configuration ───────────────────────────────────────\n".to_string();
    s.append(build_ssl_section(c).as_str());
    s.append("\n");
    s.append(ssl_call(c).as_str());
    s.append("\n\n");
    s.append("# ── Service Installation & Activation ───────────────────────\n");
    s.append("echo -e \"${green}Activating x-ui service...${plain}\"\n");
    s.append(service_install.as_str());
    s.append("\n\n");
    s.append("# etckeeper compatibility\n");
    s.append("if [ -d \"/etc/.git\" ]; then\n");
    s.append("    echo \"x-ui/x-ui.db\" >> /etc/.gitignore 2>/dev/null || true\n");
    s.append("fi\n\n");
    s
}

/// Closing report of the installer for each action.
pub open spec fn final_block_text(c: BuildConfig) -> Seq<char> {
    let t1 = "echo \"\"\n"@ + "if [[ \"$ACTION\" == \"update_ssl\" ]]; then\n"@ + "    echo -e \"${green}╔════════════════════════════════════════════════════════════╗${plain}\"\n"@ + "    echo -e \"${green}║            SSL Certificates updated successfully!          ║${plain}\"\n"@ + "    echo -e \"${green}╠════════════════════════════════════════════════════════════╣${plain}\"\n"@ + "echo -e \"${green}║ Access Link:   "@ + pad_right(access_link_text(c), 43) + " ║${plain}\"\n"@ + "    echo -e \"${green}╚════════════════════════════════════════════════════════════╝${plain}\"\n"@ + "elif [[ \"$ACTION\" == \"update\" ]]; then\n"@ + "    echo -e \"${green}╔════════════════════════════════════════════════════════════╗${plain}\"\n"@ + "    echo -e \"${green}║                3x-ui updated successfully!                 ║${plain}\"\n"@ + "    echo -e \"${green}╠════════════════════════════════════════════════════════════╣${plain}\"\n"@ + "    echo -e \"${green}║ Status:        All settings and users were preserved.      ║${plain}\"\n"@ + "echo -e \"${green}║ Access Link:   "@ + pad_right(access_link_text(c), 43) + " ║${plain}\"\n"@ + "    echo -e \"${green}╚════════════════════════════════════════════════════════════╝${plain}\"\n"@ + "else\n"@ + "    echo -e \"${green}╔════════════════════════════════════════════════════════════╗${plain}\"\n"@ + "    echo -e \"${green}║                3x-ui installed successfully!               ║${plain}\"\n"@ + "    echo -e \"${green}╠════════════════════════════════════════════════════════════╣${plain}\"\n"@ + "    echo -e \"${green}║ Username:      "@ + pad_right(c.panel_username@, 43) + " ║${plain}\"\n"@ + "    echo -e \"${green}║ Password:      "@ + pad_right(c.panel_password@, 43) + " ║${plain}\"\n"@ + "    echo -e \"${green}║ Port:          "@ + pad_right(decimal(c.panel_port as nat), 43) + " ║${plain}\"\n"@ + "    echo -e \"${green}║ WebPath:       "@ + pad_right(c.panel_web_base_path@, 43) + " ║${plain}\"\n"@ + "    echo -e \"${green}║ Access Link:   "@ + pad_right(access_link_text(c), 43) + " ║${plain}\"\n"@ + "    echo -e \"${green}╚════════════════════════════════════════════════════════════╝${plain}\"\n"@ + "    echo -e \"${yellow}⚠ Keep this information secure!${plain}\"\n"@ + "fi\n\n"@ + "echo -e \"Management Commands:\"\n"@ + "echo -e \"  x-ui start / stop / restart / status / log\"\n"@;
    t1
}

fn final_block(c: &BuildConfig) -> (s: String)
    ensures
        s@ == final_block_text(*c),
{
    let link = access_link(c);
    let padded_link = pad_right_str(link.as_str(), 43);
    let mut s = "echo \"\"\n".to_string();
    s.append("if [[ \"$ACTION\" == \"update_ssl\" ]]; then\n");
    s.append("    echo -e \"${green}╔════════════════════════════════════════════════════════════╗${plain}\"\n");
    s.append("    echo -e \"${green}║            SSL Certificates updated successfully!          ║${plain}\"\n");
    s.append("    echo -e \"${green}╠════════════════════════════════════════════════════════════╣${plain}\"\n");
    s.append("echo -e \"${green}║ Access Link:   ");
    s.append(padded_link.as_str());
    s.append(" ║${plain}\"\n");
    s.append("    echo -e \"${green}╚════════════════════════════════════════════════════════════╝${plain}\"\n");
    s.append("elif [[ \"$ACTION\" == \"update\" ]]; then\n");
    s.append("    echo -e \"${green}╔════════════════════════════════════════════════════════════╗${plain}\"\n");
    s.append("    echo -e \"${green}║                3x-ui updated successfully!                 ║${plain}\"\n");
    s.append("    echo -e \"${green}╠════════════════════════════════════════════════════════════╣${plain}\"\n");
    s.append("    echo -e \"${green}║ Status:        All settings and users were preserved.      ║${plain}\"\n");
    s.append("echo -e \"${green}║ Access Link:   ");
    s.append(padded_link.as_str());
    s.append(" ║${plain}\"\n");
    s.append("    echo -e \"${green}╚════════════════════════════════════════════════════════════╝${plain}\"\n");
    s.append("else\n");
    s.append("    echo -e \"${green}╔════════════════════════════════════════════════════════════╗${plain}\"\n");
    s.append("    echo -e \"${green}║                3x-ui installed successfully!               ║${plain}\"\n");
    s.append("    echo -e \"${green}╠════════════════════════════════════════════════════════════╣${plain}\"\n");
    s.append("    echo -e \"${green}║ Username:      ");
    s.append(pad_right_str(c.panel_username.as_str(), 43).as_str());
    s.append(" ║${plain}\"\n");
    s.append("    echo -e \"${green}║ Password:      ");
    s.append(pad_right_str(c.panel_password.as_str(), 43).as_str());
    s.append(" ║${plain}\"\n");
    s.append("    echo -e \"${green}║ Port:          ");
    s.append(pad_right_str(u64_to_string(c.panel_port as u64).as_str(), 43).as_str());
    s.append(" ║${plain}\"\n");
    s.append("    echo -e \"${green}║ WebPath:       ");
    s.append(pad_right_str(c.panel_web_base_path.as_str(), 43).as_str());
    s.append(" ║${plain}\"\n");
    s.append("    echo -e \"${green}║ Access Link:   ");
    s.append(padded_link.as_str());
    s.append(" ║${plain}\"\n");
    s.append("    echo -e \"${green}╚════════════════════════════════════════════════════════════╝${plain}\"\n");
    s.append("    echo -e \"${yellow}⚠ Keep this information secure!${plain}\"\n");
    s.append("fi\n\n");
    s.append("echo -e \"Management Commands:\"\n");
    s.append("echo -e \"  x-ui start / stop / restart / status / log\"\n");
    s
}

/// `setup_ssl` that installs the certificate shipped in the bundle.
pub open spec fn ssl_from_bundle_text() -> Seq<char> {
    let t1 = "setup_ssl() {\n"@ + "    local cert_dest=\"/root/cert/bundle\"\n"@ + "    mkdir -p \"$cert_dest\"\n"@ + "    cp \"$BUNDLE_DIR/ssl/fullchain.pem\" \"$cert_dest/fullchain.pem\"\n"@ + "    cp \"$BUNDLE_DIR/ssl/privkey.pem\"   \"$cert_dest/privkey.pem\"\n"@ + "    chmod 644 \"$cert_dest/fullchain.pem\"\n"@ + "    chmod 600 \"$cert_dest/privkey.pem\"\n"@ + "    /usr/local/x-ui/x-ui cert \\\n"@ + "        -webCert \"$cert_dest/fullchain.pem\" \\\n"@ + "        -webCertKey \"$cert_dest/privkey.pem\" > /dev/null 2>&1 || true\n"@ + "    echo \"  SSL certificate installed\"\n"@ + "}\n"@;
    t1
}

fn ssl_from_bundle() -> (s: String)
    ensures
        s@ == ssl_from_bundle_text(),
{
    let mut s = "setup_ssl() {\n".to_string();
    s.append("    local cert_dest=\"/root/cert/bundle\"\n");
    s.append("    mkdir -p \"$cert_dest\"\n");
    s.append("    cp \"$BUNDLE_DIR/ssl/fullchain.pem\" \"$cert_dest/fullchain.pem\"\n");
    s.append("    cp \"$BUNDLE_DIR/ssl/privkey.pem\"   \"$cert_dest/privkey.pem\"\n");
    s.append("    chmod 644 \"$cert_dest/fullchain.pem\"\n");
    s.append("    chmod 600 \"$cert_dest/privkey.pem\"\n");
    s.append("    /usr/local/x-ui/x-ui cert \\\n");
    s.append("        -webCert \"$cert_dest/fullchain.pem\" \\\n");
    s.append("        -webCertKey \"$cert_dest/privkey.pem\" > /dev/null 2>&1 || true\n");
    s.append("    echo \"  SSL certificate installed\"\n");
    s.append("}\n");
    s
}

/// `setup_ssl` that asks for the host and generates the certificate on the target server.
pub open spec fn ssl_generated_on_target_text() -> Seq<char> {
    let t1 = "setup_ssl() {\n"@ + "    local cert_dest=\"/root/cert/bundle\"\n"@ + "    mkdir -p \"$cert_dest\"\n"@ + "    echo -e \"\\n${blue}┌─ Dynamic SSL Generation ─────────────────────────────┐${plain}\"\n"@ + "    while true; do\n"@ + "        read -p \"Enter Target Server IP or Domain for SSL: \" TARGET_HOST\n"@ + "        TARGET_HOST=$(echo \"$TARGET_HOST\" | xargs)\n"@ + "        if [[ -n \"$TARGET_HOST\" ]]; then break; fi\n"@ + "        echo -e \"${red}Host cannot be empty.${plain}\"\n"@ + "    done\n"@ + "    echo -e \"Generating Self-Signed Certificate for ${yellow}$TARGET_HOST${plain}...\"\n"@ + "    openssl req -x509 -newkey rsa:2048 -nodes -keyout \"$cert_dest/privkey.pem\" -out \"$cert_dest/fullchain.pem\" -days 3650 -subj \"/CN=$TARGET_HOST\" 2>/dev/null\n"@ + "    chmod 644 \"$cert_dest/fullchain.pem\"\n"@ + "    chmod 600 \"$cert_dest/privkey.pem\"\n"@ + "    /usr/local/x-ui/x-ui cert \\\n"@ + "        -webCert \"$cert_dest/fullchain.pem\" \\\n"@ + "        -webCertKey \"$cert_dest/privkey.pem\" > /dev/null 2>&1 || true\n"@ + "    echo -e \"  ${green}✓ SSL certificate generated and installed for $TARGET_HOST${plain}\"\n"@ + "}\n"@;
    t1
}

fn ssl_generated_on_target() -> (s: String)
    ensures
        s@ == ssl_generated_on_target_text(),
{
    let mut s = "setup_ssl() {\n".to_string();
    s.append("    local cert_dest=\"/root/cert/bundle\"\n");
    s.append("    mkdir -p \"$cert_dest\"\n");
    s.append("    echo -e \"\\n${blue}┌─ Dynamic SSL Generation ─────────────────────────────┐${plain}\"\n");
    s.append("    while true; do\n");
    s.append("        read -p \"Enter Target Server IP or Domain for SSL: \" TARGET_HOST\n");
    s.append("        TARGET_HOST=$(echo \"$TARGET_HOST\" | xargs)\n");
    s.append("        if [[ -n \"$TARGET_HOST\" ]]; then break; fi\n");
    s.append("        echo -e \"${red}Host cannot be empty.${plain}\"\n");
    s.append("    done\n");
    s.append("    echo -e \"Generating Self-Signed Certificate for ${yellow}$TARGET_HOST${plain}...\"\n");
    s.append("    openssl req -x509 -newkey rsa:2048 -nodes -keyout \"$cert_dest/privkey.pem\" -out \"$cert_dest/fullchain.pem\" -days 3650 -subj \"/CN=$TARGET_HOST\" 2>/dev/null\n");
    s.append("    chmod 644 \"$cert_dest/fullchain.pem\"\n");
    s.append("    chmod 600 \"$cert_dest/privkey.pem\"\n");
    s.append("    /usr/local/x-ui/x-ui cert \\\n");
    s.append("        -webCert \"$cert_dest/fullchain.pem\" \\\n");
    s.append("        -webCertKey \"$cert_dest/privkey.pem\" > /dev/null 2>&1 || true\n");
    s.append("    echo -e \"  ${green}✓ SSL certificate generated and installed for $TARGET_HOST${plain}\"\n");
    s.append("}\n");
    s
}
/// Opening of the single-file installer: a shell script that unpacks the
/// gzip tar archive appended after its `__BUNDLE_ARCHIVE__` line into a
/// temporary directory and runs the bundle's `install.sh` there.
pub const SFX_HEADER: &'static str = "#!/bin/bash\nset -e\nWORK_DIR=$(mktemp -d)\ntrap 'rm -rf \"$WORK_DIR\"' EXIT\nARCHIVE_LINE=$(awk '/^__BUNDLE_ARCHIVE__$/ { print NR + 1; exit 0; }' \"$0\")\ntail -n +\"$ARCHIVE_LINE\" \"$0\" | tar xzf - -C \"$WORK_DIR\"\ncd \"$WORK_DIR\"\nbash ./install.sh \"$@\"\nexit $?\n__BUNDLE_ARCHIVE__\n";

fn push_bytes(v: &mut Vec<u8>, bytes: &[u8])
    ensures
        final(v)@ == old(v)@ + bytes@,
{
    let ghost start = v@;
    let mut i: usize = 0;
    while i < bytes.len()
        invariant
            i <= bytes@.len(),
            v@ == start + bytes@.take(i as int),
        decreases bytes.len() - i,
    {
        v.push(bytes[i]);
        proof {
            assert(bytes@.take(i + 1) =~= bytes@.take(i as int).push(bytes@[i as int]));
        }
        i = i + 1;
    }
    proof {
        assert(bytes@.take(bytes@.len() as int) =~= bytes@);
    }
}

/// The single-file installer made from the gzip tar archive of a bundle:
/// the bytes of `SFX_HEADER` followed by the archive.
pub fn sfx_file(archive: &[u8]) -> (v: Vec<u8>)
    ensures
        v@ == SFX_HEADER.spec_bytes() + archive@,
{
    let mut v: Vec<u8> = Vec::new();
    push_bytes(&mut v, SFX_HEADER.as_bytes());
    push_bytes(&mut v, archive);
    proof {
        assert(Seq::<u8>::empty() + SFX_HEADER.spec_bytes() =~= SFX_HEADER.spec_bytes());
    }
    v
}

proof fn lemma_occurs_in_block(a: Seq<char>, u: Seq<char>, p: Seq<char>, w: Seq<char>, rest: Seq<char>)
    ensures
        contains_str(a + (u + p + w) + rest, p),
{
    let s = a + (u + p + w) + rest;
    let i: int = (a.len() + u.len()) as int;
    assert(s.subrange(i, i + p.len()) =~= p);
    assert(occurs_at(s, p, i));
}

proof fn lemma_pkg_section_head(c: BuildConfig)
    ensures
        starts_with(pkg_section_text(c), install_call_text(c.package_mode) + "() {\n"@),
{
    reveal_strlit("install_base_offline");
    reveal_strlit("install_base_online");
    reveal_strlit("() {\n");
    reveal_strlit("install_base_offline() {\n");
    reveal_strlit("install_base_online() {\n    ");
    let head = install_call_text(c.package_mode) + "() {\n"@;
    assert(pkg_section_text(c).subrange(0, head.len() as int) =~= head);
}

proof fn lemma_packages_block_parts(c: BuildConfig)
    ensures
        packages_block_inner_text(c) == ("if [[ \"$ACTION\" != \"update_ssl\" ]]; then\n"@
            + "# ── System Package Installation ─────────────────────────────\n"@ + pkg_section_text(c))
            + ("\n\n"@ + install_call_text(c.package_mode) + "\n\n"@) + "fi\n\n"@,
{
    assert(packages_block_inner_text(c) =~= ("if [[ \"$ACTION\" != \"update_ssl\" ]]; then\n"@
        + "# ── System Package Installation ─────────────────────────────\n"@ + pkg_section_text(c))
        + ("\n\n"@ + install_call_text(c.package_mode) + "\n\n"@) + "fi\n\n"@);
}

proof fn lemma_concat_assoc(a: Seq<char>, b: Seq<char>, p: Seq<char>, q: Seq<char>, r: Seq<char>)
    ensures
        a + b + p + q + r == a + b + (p + q + r),
{
    assert(a + b + p + q + r =~= a + b + (p + q + r));
}

/// The parts of the script around the package block.
spec fn script_rest(c: BuildConfig) -> Seq<char> {
    (if c.included.xui_panel {
        panel_block_inner_text(c)
    } else {
        Seq::empty()
    }) + ssl_service_block_text(c) + final_block_text(c)
}

proof fn lemma_script_parts(c: BuildConfig, version: Seq<char>)
    requires
        c.included.system_packages,
    ensures
        script_text(c, version) == preamble_text(c) + detection_text(c, version) + packages_block_inner_text(c)
            + script_rest(c),
{
    let a = preamble_text(c) + detection_text(c, version);
    let b = packages_block_inner_text(c);
    let panel = if c.included.xui_panel {
        panel_block_inner_text(c)
    } else {
        Seq::empty()
    };
    lemma_concat_assoc(a, b, panel, ssl_service_block_text(c), final_block_text(c));
    if !c.included.xui_panel {
        assert(a + b + panel =~= a + b);
    }
}

proof fn lemma_call_line(mode: PackageMode)
    ensures
        mode == PackageMode::Offline ==> "\n\n"@ + install_call_text(mode) + "\n\n"@
            == "\n\ninstall_base_offline\n\n"@,
        mode == PackageMode::Online ==> "\n\n"@ + install_call_text(mode) + "\n\n"@
            == "\n\ninstall_base_online\n\n"@,
{
    reveal_strlit("install_base_offline");
    reveal_strlit("install_base_online");
    reveal_strlit("\n\n");
    reveal_strlit("\n\ninstall_base_offline\n\n");
    reveal_strlit("\n\ninstall_base_online\n\n");
    assert("\n\n"@ + install_call_text(mode) + "\n\n"@ =~= if mode == PackageMode::Offline {
        "\n\ninstall_base_offline\n\n"@
    } else {
        "\n\ninstall_base_online\n\n"@
    });
}

/// When the bundle carries system packages, the script calls the package
/// installer that its package section defines first: `install_base_offline`
/// (installing the bundled packages) in offline mode, `install_base_online`
/// in online mode. The call stands on a line of its own right after the
/// section.
pub proof fn lemma_script_calls_defined_installer(c: BuildConfig, version: Seq<char>)
    requires
        c.included.system_packages,
    ensures
        starts_with(pkg_section_text(c), install_call_text(c.package_mode) + "() {\n"@),
        contains_str(script_text(c, version), "\n\n"@ + install_call_text(c.package_mode) + "\n\n"@),
        c.package_mode == PackageMode::Offline ==> contains_str(
            script_text(c, version),
            "\n\ninstall_base_offline\n\n"@,
        ),
        c.package_mode == PackageMode::Online ==> contains_str(
            script_text(c, version),
            "\n\ninstall_base_online\n\n"@,
        ),
{
    lemma_pkg_section_head(c);
    lemma_packages_block_parts(c);
    lemma_script_parts(c, version);
    lemma_call_line(c.package_mode);
    let u = "if [[ \"$ACTION\" != \"update_ssl\" ]]; then\n"@
        + "# ── System Package Installation ─────────────────────────────\n"@ + pkg_section_text(c);
    let pat = "\n\n"@ + install_call_text(c.package_mode) + "\n\n"@;
    lemma_occurs_in_block(preamble_text(c) + detection_text(c, version), u, pat, "fi\n\n"@, script_rest(c));
}

} // verus!
