//! Resuming work on an existing bundle: rebuilding its settings from the
//! manifest, checking which steps still hold, the resume menu, and the
//! edits the settings editor makes.
use crate::keyed::{lemma_key_index, lemma_replace_value, put_back, same_text, take_value};
use crate::manifest::{
    all_steps, config_value, manifest_wf, opt_text, opt_views, other_steps_kept, same_header, step_keys,
    step_of, step_valid, BundleStepView, ConfigValue, ConfigValueView, Manifest, ManifestConfig,
    StepStatus, BundleStep,
};
use crate::state::{
    BuildConfig, IncludedComponents, OutputKind, PackageMode, SslConfig, TargetArch, TargetOs,
    XuiVersion,
};
use crate::text::{
    has_prefix, parse_unsigned, parse_unsigned_str, starts_with, strip_all_prefix,
    strip_all_suffix, trim, trim_end_matches, trim_start_matches, trim_str, views,
};
use vstd::prelude::*;

verus! {

broadcast use vstd::string::group_string_axioms;

/// What the user chose to do with an existing bundle.
#[derive(Debug)]
pub enum ResumeAction {
    Continue(Manifest),
    /// The edited manifest, and whether files must be fetched again.
    Edited(Manifest, bool),
    Restart,
    Exit,
}

/// Why the settings of a bundle cannot be rebuilt.
#[derive(Debug, Clone, Copy, PartialEq, Eq, Structural)]
pub enum ResumeError {
    /// The settings snapshot is not a JSON object.
    InvalidConfig,
}

impl ResumeError {
    /// The message shown for the error.
    pub fn message(&self) -> (s: &'static str)
        ensures
            s@ == "manifest.config ساختار نامعتبری دارد"@,
    {
        "manifest.config ساختار نامعتبری دارد"
    }
}

// ───────────────────────── reading the snapshot ─────────────────────────

/// Text recorded for `key` (empty when absent or not a string).
pub open spec fn cfg_text(c: ManifestConfig, key: Seq<char>) -> Seq<char> {
    match config_value(c, key) {
        Some(ConfigValueView::Text(s)) => s,
        _ => ""@,
    }
}

/// Number recorded for `key` (0 when absent or not a non-negative integer).
pub open spec fn cfg_number(c: ManifestConfig, key: Seq<char>) -> u64 {
    match config_value(c, key) {
        Some(ConfigValueView::Number(n)) => n,
        _ => 0,
    }
}

/// Text recorded for `key`, when it is a string.
pub open spec fn cfg_opt_text(c: ManifestConfig, key: Seq<char>) -> Option<Seq<char>> {
    match config_value(c, key) {
        Some(ConfigValueView::Text(s)) => Some(s),
        _ => None,
    }
}

fn get_entry<'a>(m: &'a Manifest, key: &str) -> (r: Option<&'a ConfigValue>)
    ensures
        match config_value(m.config, key@) {
            Some(v) => r matches Some(x) && x@ == v,
            None => r is None,
        },
{
    match &m.config {
        ManifestConfig::Object(entries) => crate::keyed::get_value(entries, key),
        ManifestConfig::NotObject(_) => None,
    }
}

fn get_str(m: &Manifest, key: &str) -> (s: String)
    ensures
        s@ == cfg_text(m.config, key@),
{
    match get_entry(m, key) {
        Some(ConfigValue::Text(s)) => s.clone(),
        _ => "".to_string(),
    }
}

fn get_u64(m: &Manifest, key: &str) -> (n: u64)
    ensures
        n == cfg_number(m.config, key@),
{
    match get_entry(m, key) {
        Some(ConfigValue::Number(n)) => *n,
        _ => 0,
    }
}

/// The distribution whose display name is `name` (Ubuntu for any other text).
pub open spec fn os_from_name(name: Seq<char>) -> TargetOs {
    if name == "Ubuntu"@ {
        TargetOs::Ubuntu
    } else if name == "Debian"@ {
        TargetOs::Debian
    } else if name == "CentOS"@ {
        TargetOs::CentOs
    } else if name == "Fedora"@ {
        TargetOs::Fedora
    } else if name == "AlmaLinux"@ {
        TargetOs::AlmaLinux
    } else if name == "Rocky Linux"@ {
        TargetOs::Rocky
    } else if name == "RHEL"@ {
        TargetOs::Rhel
    } else if name == "Alpine Linux"@ {
        TargetOs::Alpine
    } else if name == "Arch Linux"@ {
        TargetOs::Arch
    } else if name == "Manjaro"@ {
        TargetOs::Manjaro
    } else if name == "OpenSUSE"@ {
        TargetOs::OpenSuse
    } else {
        TargetOs::Ubuntu
    }
}

fn os_from_name_exec(name: &str) -> (os: TargetOs)
    ensures
        os == os_from_name(name@),
{
    if same_text(name, "Ubuntu") {
        TargetOs::Ubuntu
    } else if same_text(name, "Debian") {
        TargetOs::Debian
    } else if same_text(name, "CentOS") {
        TargetOs::CentOs
    } else if same_text(name, "Fedora") {
        TargetOs::Fedora
    } else if same_text(name, "AlmaLinux") {
        TargetOs::AlmaLinux
    } else if same_text(name, "Rocky Linux") {
        TargetOs::Rocky
    } else if same_text(name, "RHEL") {
        TargetOs::Rhel
    } else if same_text(name, "Alpine Linux") {
        TargetOs::Alpine
    } else if same_text(name, "Arch Linux") {
        TargetOs::Arch
    } else if same_text(name, "Manjaro") {
        TargetOs::Manjaro
    } else if same_text(name, "OpenSUSE") {
        TargetOs::OpenSuse
    } else {
        TargetOs::Ubuntu
    }
}

/// The architecture whose asset suffix is `s` (amd64 for any other text).
pub open spec fn arch_from_suffix(s: Seq<char>) -> TargetArch {
    if s == "arm64"@ {
        TargetArch::Arm64
    } else if s == "armv7"@ {
        TargetArch::Armv7
    } else if s == "386"@ {
        TargetArch::I386
    } else if s == "s390x"@ {
        TargetArch::S390x
    } else {
        TargetArch::Amd64
    }
}

fn arch_from_suffix_exec(s: &str) -> (a: TargetArch)
    ensures
        a == arch_from_suffix(s@),
{
    if same_text(s, "arm64") {
        TargetArch::Arm64
    } else if same_text(s, "armv7") {
        TargetArch::Armv7
    } else if same_text(s, "386") {
        TargetArch::I386
    } else if same_text(s, "s390x") {
        TargetArch::S390x
    } else {
        TargetArch::Amd64
    }
}

/// The name inside a recorded kind written as `prefix` + name + `)`.
pub open spec fn kind_argument(kind: Seq<char>, prefix: Seq<char>) -> Seq<char> {
    strip_all_suffix(strip_all_prefix(kind, prefix), ")"@)
}

/// `ssl` is what a recorded SSL kind restores, for bundle directory `dir`.
pub open spec fn ssl_restored(ssl: SslConfig, kind: Seq<char>, dir: Seq<char>) -> bool {
    if kind == "none"@ {
        ssl is Disabled
    } else if kind == "custom"@ {
        ssl matches SslConfig::Custom { fullchain_path, privkey_path }
            && fullchain_path@ == dir + "/ssl/fullchain.pem"@
            && privkey_path@ == dir + "/ssl/privkey.pem"@
    } else if starts_with(kind, "self-signed("@) {
        ssl matches SslConfig::SelfSigned { common_name, dynamic } && common_name@
            == kind_argument(kind, "self-signed("@) && !dynamic
    } else if starts_with(kind, "self-signed-dynamic("@) {
        ssl matches SslConfig::SelfSigned { common_name, dynamic } && common_name@
            == kind_argument(kind, "self-signed-dynamic("@) && dynamic
    } else if starts_with(kind, "letsencrypt("@) {
        ssl matches SslConfig::LetsEncrypt { domain } && domain@ == kind_argument(kind, "letsencrypt("@)
    } else {
        ssl is Disabled
    }
}

/// `v` is what a recorded panel version restores.
pub open spec fn version_restored(v: XuiVersion, text: Seq<char>) -> bool {
    if text == "latest"@ {
        v is Latest
    } else {
        v matches XuiVersion::Specific(s) && s@ == text
    }
}

/// `b` is the configuration rebuilt from snapshot `c` for bundle directory `dir`.
pub open spec fn config_restored(b: BuildConfig, c: ManifestConfig, dir: Seq<char>) -> bool {
    &&& b.os == os_from_name(cfg_text(c, "os"@))
    &&& b.arch == arch_from_suffix(cfg_text(c, "arch"@))
    &&& opt_text(b.os_version) == cfg_opt_text(c, "os_version"@)
    &&& b.package_mode == if cfg_text(c, "package_mode"@) == "offline"@ {
        PackageMode::Offline
    } else {
        PackageMode::Online
    }
    &&& version_restored(b.xui_version, cfg_text(c, "xui_version"@))
    &&& b.panel_port as int == cfg_number(c, "panel_port"@) % 65536
    &&& b.panel_username@ == cfg_text(c, "panel_username"@)
    &&& b.panel_password@ == cfg_text(c, "panel_password"@)
    &&& b.panel_web_base_path@ == cfg_text(c, "panel_web_base_path"@)
    &&& ssl_restored(b.ssl, cfg_text(c, "ssl_kind"@), dir)
    &&& b.server_host@ == cfg_text(c, "server_host"@)
    &&& b.output_dir@ == dir
    &&& b.output_kind == if cfg_text(c, "output_kind"@) == "sfx"@ {
        OutputKind::Sfx
    } else {
        OutputKind::Folder
    }
    &&& b.included == (IncludedComponents { system_packages: true, ssl: true, xui_panel: true })
}

fn join_path(dir: &str, rest: &str) -> (s: String)
    ensures
        s@ == dir@ + rest@,
{
    let mut s = dir.to_string();
    s.append(rest);
    s
}

/// Reconstruct a BuildConfig from the JSON snapshot stored in manifest.config.
pub fn config_from_manifest(manifest: &Manifest, dir: &str) -> (r: Result<BuildConfig, ResumeError>)
    ensures
        match manifest.config {
            ManifestConfig::Object(_) => r matches Ok(b) && config_restored(b, manifest.config, dir@),
            ManifestConfig::NotObject(_) => r == Err::<BuildConfig, ResumeError>(ResumeError::InvalidConfig),
        },
{
    if let ManifestConfig::NotObject(_) = &manifest.config {
        return Err(ResumeError::InvalidConfig);
    }
    let os = os_from_name_exec(get_str(manifest, "os").as_str());
    let arch = arch_from_suffix_exec(get_str(manifest, "arch").as_str());
    let package_mode = if same_text(get_str(manifest, "package_mode").as_str(), "offline") {
        PackageMode::Offline
    } else {
        PackageMode::Online
    };
    let version_text = get_str(manifest, "xui_version");
    let xui_version = if same_text(version_text.as_str(), "latest") {
        XuiVersion::Latest
    } else {
        XuiVersion::Specific(version_text)
    };
    let ssl_str = get_str(manifest, "ssl_kind");
    let ssl = if same_text(ssl_str.as_str(), "none") {
        SslConfig::Disabled
    } else if same_text(ssl_str.as_str(), "custom") {
        SslConfig::Custom {
            fullchain_path: join_path(dir, "/ssl/fullchain.pem"),
            privkey_path: join_path(dir, "/ssl/privkey.pem"),
        }
    } else if has_prefix(ssl_str.as_str(), "self-signed(") {
        let inner = trim_start_matches(ssl_str.as_str(), "self-signed(");
        let cn = trim_end_matches(inner.as_str(), ")");
        SslConfig::SelfSigned { common_name: cn, dynamic: false }
    } else if has_prefix(ssl_str.as_str(), "self-signed-dynamic(") {
        let inner = trim_start_matches(ssl_str.as_str(), "self-signed-dynamic(");
        let cn = trim_end_matches(inner.as_str(), ")");
        SslConfig::SelfSigned { common_name: cn, dynamic: true }
    } else if has_prefix(ssl_str.as_str(), "letsencrypt(") {
        let inner = trim_start_matches(ssl_str.as_str(), "letsencrypt(");
        let domain = trim_end_matches(inner.as_str(), ")");
        SslConfig::LetsEncrypt { domain }
    } else {
        SslConfig::Disabled
    };
    let os_version = match get_entry(manifest, "os_version") {
        Some(ConfigValue::Text(s)) => Some(s.clone()),
        _ => None,
    };
    let port = get_u64(manifest, "panel_port");
    let panel_port = (port % 65536) as u16;
    let output_kind = if same_text(get_str(manifest, "output_kind").as_str(), "sfx") {
        OutputKind::Sfx
    } else {
        OutputKind::Folder
    };
    Ok(
        BuildConfig {
            os,
            arch,
            os_version,
            package_mode,
            xui_version,
            panel_port,
            panel_username: get_str(manifest, "panel_username"),
            panel_password: get_str(manifest, "panel_password"),
            panel_web_base_path: get_str(manifest, "panel_web_base_path"),
            ssl,
            server_host: get_str(manifest, "server_host"),
            output_dir: dir.to_string(),
            output_kind,
            included: IncludedComponents { system_packages: true, ssl: true, xui_panel: true },
        },
    )
}

/// The panel version the installer is built for: the recorded one, or
/// `latest` when none is recorded.
pub open spec fn resolved_version_text(c: ManifestConfig) -> Seq<char> {
    match config_value(c, "xui_version"@) {
        Some(ConfigValueView::Text(s)) => s,
        _ => "latest"@,
    }
}

/// The panel version the installer is built for.
pub fn resolved_version(manifest: &Manifest) -> (s: String)
    ensures
        s@ == resolved_version_text(manifest.config),
{
    match get_entry(manifest, "xui_version") {
        Some(ConfigValue::Text(s)) => s.clone(),
        _ => "latest".to_string(),
    }
}


// ───────────────────────── snapshot round trip ─────────────────────────

proof fn lemma_entry_lookup(
    v: Seq<(String, ConfigValue)>,
    e: Seq<(Seq<char>, ConfigValueView)>,
    k: Seq<char>,
    j: int,
)
    requires
        crate::manifest::entries_view(v) == e,
        0 <= j < e.len(),
        e[j].0 == k,
        forall|m: int| 0 <= m < j ==> e[m].0 != k,
    ensures
        match crate::keyed::value_of(v, k) {
            Some(x) => x@ == e[j].1,
            None => false,
        },
{
    assert(v.len() == e.len());
    assert forall|m: int| 0 <= m < j implies v[m].0@ != k by {
        assert(e[m] == (v[m].0@, v[m].1@));
    }
    assert(e[j] == (v[j].0@, v[j].1@));
    crate::keyed::lemma_key_index(v, k);
    match crate::keyed::key_index(v, k) {
        Some(i) => {
            assert(i == j);
        },
        None => {},
    }
}

proof fn lemma_strip_prefix_once(p: Seq<char>, x: Seq<char>)
    requires
        p.len() > 0,
        !starts_with(x, p),
    ensures
        strip_all_prefix(p + x, p) == x,
{
    let s = p + x;
    assert(strip_all_prefix(x, p) == x);
    assert(s.subrange(0, p.len() as int) =~= p);
    assert(s.subrange(p.len() as int, s.len() as int) =~= x);
}

proof fn lemma_strip_suffix_once(x: Seq<char>, q: Seq<char>)
    requires
        q.len() > 0,
        !crate::text::ends_with(x, q),
    ensures
        strip_all_suffix(x + q, q) == x,
{
    let s = x + q;
    assert(strip_all_suffix(x, q) == x);
    assert(s.subrange(s.len() - q.len(), s.len() as int) =~= q);
    assert(s.subrange(0, s.len() - q.len()) =~= x);
}

proof fn lemma_names_restore(c: BuildConfig)
    ensures
        os_from_name(crate::state::os_display_name(c.os)) == c.os,
        arch_from_suffix(crate::state::arch_suffix(c.arch)) == c.arch,
{
    reveal_strlit("Ubuntu");
    reveal_strlit("Debian");
    reveal_strlit("CentOS");
    reveal_strlit("Fedora");
    reveal_strlit("AlmaLinux");
    reveal_strlit("Rocky Linux");
    reveal_strlit("RHEL");
    reveal_strlit("Alpine Linux");
    reveal_strlit("Arch Linux");
    reveal_strlit("Manjaro");
    reveal_strlit("OpenSUSE");
    reveal_strlit("amd64");
    reveal_strlit("arm64");
    reveal_strlit("armv7");
    reveal_strlit("386");
    reveal_strlit("s390x");
    assert("Ubuntu"@.len() == 6);
    assert("Debian"@.len() == 6);
    assert("CentOS"@.len() == 6);
    assert("Fedora"@.len() == 6);
    assert("AlmaLinux"@.len() == 9);
    assert("Rocky Linux"@.len() == 11);
    assert("RHEL"@.len() == 4);
    assert("Alpine Linux"@.len() == 12);
    assert("Arch Linux"@.len() == 10);
    assert("Manjaro"@.len() == 7);
    assert("OpenSUSE"@.len() == 8);
    assert("Ubuntu"@[0] == 'U');
    assert("Debian"@[0] == 'D');
    assert("CentOS"@[0] == 'C');
    assert("Fedora"@[0] == 'F');
    assert("amd64"@[1] == 'm');
    assert("arm64"@[1] == 'r');
    assert("arm64"@[3] == '6');
    assert("armv7"@[3] == 'v');
    assert("s390x"@[0] == 's');
    assert("armv7"@[0] == 'a');
}

proof fn lemma_snapshot_values(c: BuildConfig, mc: ManifestConfig)
    requires
        crate::manifest::snapshot_of(mc) == Some(crate::manifest::snapshot_entries(c)),
    ensures
        cfg_text(mc, "os"@) == crate::state::os_display_name(c.os),
        cfg_text(mc, "arch"@) == crate::state::arch_suffix(c.arch),
        cfg_opt_text(mc, "os_version"@) == opt_text(c.os_version),
        cfg_text(mc, "package_mode"@) == crate::manifest::package_mode_text(c.package_mode),
        cfg_text(mc, "xui_version"@) == crate::manifest::xui_version_text(c.xui_version),
        cfg_number(mc, "panel_port"@) == c.panel_port as u64,
        cfg_text(mc, "panel_username"@) == c.panel_username@,
        cfg_text(mc, "panel_password"@) == c.panel_password@,
        cfg_text(mc, "panel_web_base_path"@) == c.panel_web_base_path@,
        cfg_text(mc, "ssl_kind"@) == crate::manifest::ssl_kind_text(c.ssl),
        cfg_text(mc, "server_host"@) == c.server_host@,
        cfg_text(mc, "output_kind"@) == crate::manifest::output_kind_text(c.output_kind),
{
    reveal_strlit("os");
    reveal_strlit("arch");
    reveal_strlit("os_version");
    reveal_strlit("package_mode");
    reveal_strlit("xui_version");
    reveal_strlit("panel_port");
    reveal_strlit("panel_username");
    reveal_strlit("panel_password");
    reveal_strlit("panel_web_base_path");
    reveal_strlit("ssl_kind");
    reveal_strlit("server_host");
    reveal_strlit("output_dir");
    reveal_strlit("output_kind");
    assert("os_version"@[0] == 'o' && "os_version"@[1] == 's');
    assert("panel_port"@[0] == 'p');
    assert("output_dir"@[0] == 'o' && "output_dir"@[1] == 'u');
    assert("xui_version"@[0] == 'x');
    assert("server_host"@[0] == 's');
    assert("output_kind"@[0] == 'o');
    assert("panel_username"@[6] == 'u');
    assert("panel_password"@[6] == 'p');
    let e = crate::manifest::snapshot_entries(c);
    assert(e[0].0 == "os"@);
    assert(e[1].0 == "arch"@);
    assert(e[2].0 == "os_version"@);
    assert(e[3].0 == "package_mode"@);
    assert(e[4].0 == "xui_version"@);
    assert(e[5].0 == "panel_port"@);
    assert(e[6].0 == "panel_username"@);
    assert(e[7].0 == "panel_password"@);
    assert(e[8].0 == "panel_web_base_path"@);
    assert(e[9].0 == "ssl_kind"@);
    assert(e[10].0 == "server_host"@);
    assert(e[11].0 == "output_dir"@);
    assert(e[12].0 == "output_kind"@);
    match mc {
        ManifestConfig::Object(v) => {
            lemma_entry_lookup(v@, e, "os"@, 0);
            lemma_entry_lookup(v@, e, "arch"@, 1);
            lemma_entry_lookup(v@, e, "os_version"@, 2);
            lemma_entry_lookup(v@, e, "package_mode"@, 3);
            lemma_entry_lookup(v@, e, "xui_version"@, 4);
            lemma_entry_lookup(v@, e, "panel_port"@, 5);
            lemma_entry_lookup(v@, e, "panel_username"@, 6);
            lemma_entry_lookup(v@, e, "panel_password"@, 7);
            lemma_entry_lookup(v@, e, "panel_web_base_path"@, 8);
            lemma_entry_lookup(v@, e, "ssl_kind"@, 9);
            lemma_entry_lookup(v@, e, "server_host"@, 10);
            lemma_entry_lookup(v@, e, "output_kind"@, 12);
        },
        ManifestConfig::NotObject(_) => {},
    }
}

/// How a self-signed choice is introduced in a recorded SSL kind.
pub open spec fn self_signed_prefix(dynamic: bool) -> Seq<char> {
    if dynamic {
        "self-signed-dynamic("@
    } else {
        "self-signed("@
    }
}

/// A recorded kind written as `prefix` + `x` + `)` gives `x` back, unless
/// `x` ends in `)` or `x` + `)` itself begins with `prefix`.
proof fn lemma_kind_argument(prefix: Seq<char>, x: Seq<char>)
    requires
        prefix.len() > 0,
        !crate::text::ends_with(x, ")"@),
        !starts_with(x + ")"@, prefix),
    ensures
        kind_argument(prefix + x + ")"@, prefix) == x,
{
    reveal_strlit(")");
    assert(prefix + x + ")"@ =~= prefix + (x + ")"@));
    lemma_strip_prefix_once(prefix, x + ")"@);
    lemma_strip_suffix_once(x, ")"@);
}

/// Rebuilding the settings of a bundle from the snapshot its manifest took
/// of a configuration gives that configuration back: the same distribution,
/// architecture, release version, package mode, panel credentials, port and
/// path, server host and output kind; the same panel version unless a
/// specific version was literally named `latest`; no SSL stays no SSL; a
/// self-signed certificate keeps its common name and whether the installer
/// generates it (unless that name ends in `)` or the recorded text after the
/// kind's opening itself begins with it again), and a Let's Encrypt choice
/// its domain (with the same exceptions); custom certificates are taken
/// from the bundle's `ssl` directory. The bundle directory becomes `dir`,
/// and all components are included.
pub proof fn lemma_snapshot_round_trip(c: BuildConfig, mc: ManifestConfig, dir: Seq<char>, b: BuildConfig)
    requires
        crate::manifest::snapshot_of(mc) == Some(crate::manifest::snapshot_entries(c)),
        config_restored(b, mc, dir),
    ensures
        b.os == c.os,
        b.arch == c.arch,
        opt_text(b.os_version) == opt_text(c.os_version),
        b.package_mode == c.package_mode,
        b.panel_port == c.panel_port,
        b.panel_username@ == c.panel_username@,
        b.panel_password@ == c.panel_password@,
        b.panel_web_base_path@ == c.panel_web_base_path@,
        b.server_host@ == c.server_host@,
        b.output_kind == c.output_kind,
        b.output_dir@ == dir,
        c.xui_version is Latest ==> b.xui_version is Latest,
        c.xui_version matches XuiVersion::Specific(v) ==> (v@ != "latest"@ ==> (b.xui_version matches XuiVersion::Specific(w) && w@ == v@)),
        c.ssl is Disabled ==> b.ssl is Disabled,
        c.ssl matches SslConfig::SelfSigned { common_name, dynamic } ==> (!crate::text::ends_with(common_name@, ")"@)
            && !starts_with(common_name@ + ")"@, self_signed_prefix(dynamic))
            ==> (b.ssl matches SslConfig::SelfSigned { common_name: n, dynamic: d } && n@ == common_name@ && d == dynamic)),
        c.ssl matches SslConfig::LetsEncrypt { domain } ==> (!crate::text::ends_with(domain@, ")"@)
            && !starts_with(domain@ + ")"@, "letsencrypt("@)
            ==> (b.ssl matches SslConfig::LetsEncrypt { domain: d } && d@ == domain@)),
        c.ssl is Custom ==> (b.ssl matches SslConfig::Custom { fullchain_path, privkey_path }
            && fullchain_path@ == dir + "/ssl/fullchain.pem"@ && privkey_path@ == dir + "/ssl/privkey.pem"@),
{
    lemma_snapshot_values(c, mc);
    lemma_names_restore(c);
    reveal_strlit("offline");
    reveal_strlit("online");
    reveal_strlit("sfx");
    reveal_strlit("folder");
    reveal_strlit("latest");
    reveal_strlit("none");
    reveal_strlit("custom");
    reveal_strlit("self-signed(");
    reveal_strlit("self-signed-dynamic(");
    reveal_strlit("letsencrypt(");
    reveal_strlit(")");
    assert((c.panel_port as u64) % 65536 == c.panel_port as u64);
    assert("online"@.len() == 6 && "offline"@.len() == 7);
    assert("sfx"@.len() == 3 && "folder"@.len() == 6);
    assert("none"@.len() == 4 && "custom"@.len() == 6 && "latest"@.len() == 6);
    match c.ssl {
        SslConfig::SelfSigned { common_name, dynamic } => {
            let p = self_signed_prefix(dynamic);
            let kind = p + common_name@ + ")"@;
            assert(kind.len() >= 13);
            assert(kind.subrange(0, p.len() as int) =~= p);
            if dynamic {
                assert(kind[11] == '-');
                assert(!starts_with(kind, "self-signed("@)) by {
                    assert(kind.subrange(0, 12)[11] != "self-signed("@[11]);
                }
            }
            if !crate::text::ends_with(common_name@, ")"@) && !starts_with(common_name@ + ")"@, p) {
                lemma_kind_argument(p, common_name@);
            }
        },
        SslConfig::LetsEncrypt { domain } => {
            let kind = "letsencrypt("@ + domain@ + ")"@;
            assert(kind.len() >= 13);
            assert(kind.subrange(0, 12) =~= "letsencrypt("@);
            assert(!starts_with(kind, "self-signed("@)) by {
                assert(kind.subrange(0, 12)[0] != "self-signed("@[0]);
            }
            assert(!starts_with(kind, "self-signed-dynamic("@)) by {
                if kind.len() >= 20 {
                    assert(kind.subrange(0, 20)[0] != "self-signed-dynamic("@[0]);
                }
            }
            if !crate::text::ends_with(domain@, ")"@) && !starts_with(domain@ + ")"@, "letsencrypt("@) {
                lemma_kind_argument("letsencrypt("@, domain@);
            }
        },
        SslConfig::Custom { .. } => {},
        _ => {},
    }
}


// ───────────────────────── verifying a bundle ─────────────────────────

/// What the check of a bundle found for one step.
#[derive(Debug, Clone, Copy, PartialEq, Eq, Structural)]
pub enum StepCheck {
    /// Done with no files (online packages, no SSL): nothing to check.
    Skipped,
    /// Done, and every file still has its recorded hash.
    Verified,
    /// Done, but a file is missing or changed.
    Broken,
    /// Partially done.
    Incomplete,
    /// Failed.
    Failed,
    /// Pending, or not in the manifest.
    NotDone,
}

/// The check of one step, given whether its files still hold.
pub open spec fn check_of(step: Option<BundleStepView>, valid: bool) -> StepCheck {
    match step {
        Some(s) => if s.status == StepStatus::Done && s.files.len() == 0 {
            StepCheck::Skipped
        } else {
            match s.status {
                StepStatus::Done => if valid {
                    StepCheck::Verified
                } else {
                    StepCheck::Broken
                },
                StepStatus::Partial => StepCheck::Incomplete,
                StepStatus::Failed => StepCheck::Failed,
                StepStatus::Pending => StepCheck::NotDone,
            }
        },
        None => StepCheck::NotDone,
    }
}

/// A check that makes the bundle not intact.
pub open spec fn check_is_fault(k: StepCheck) -> bool {
    k == StepCheck::Broken || k == StepCheck::Incomplete || k == StepCheck::Failed
}

/// A check that leaves work to do on the bundle.
pub open spec fn check_needs_work(k: StepCheck) -> bool {
    check_is_fault(k) || k == StepCheck::NotDone
}

/// The current hashes supplied for step `i` (none when not supplied).
pub open spec fn current_for(current: Seq<Vec<Option<String>>>, i: int) -> Seq<Option<Seq<char>>> {
    if 0 <= i < current.len() {
        opt_views(current[i]@)
    } else {
        Seq::empty()
    }
}

/// The check of build step `i` of a manifest.
pub open spec fn expected_check(m: Manifest, current: Seq<Vec<Option<String>>>, i: int) -> StepCheck {
    let s = step_of(m, all_steps()[i]);
    check_of(s, step_valid(s, current_for(current, i)))
}

/// The outcome of checking a bundle: one check per build step, whether all
/// is intact, and whether something is missing.
#[derive(Debug)]
pub struct VerifyReport {
    pub checks: Vec<StepCheck>,
    pub all_ok: bool,
    pub any_missing: bool,
}

/// Checks every build step of a bundle. `current[i]` holds the hashes the
/// files of step `i` have now (see `Manifest::step_is_valid`).
pub fn verify_report(manifest: &Manifest, current: &Vec<Vec<Option<String>>>) -> (r: VerifyReport)
    ensures
        r.checks@.len() == all_steps().len(),
        forall|i: int| 0 <= i < r.checks@.len() ==> #[trigger] r.checks@[i] == expected_check(*manifest, current@, i),
        r.all_ok == forall|i: int| 0 <= i < r.checks@.len() ==> !check_is_fault(#[trigger] r.checks@[i]),
        r.any_missing == exists|i: int| 0 <= i < r.checks@.len() && check_needs_work(#[trigger] r.checks@[i]),
{
    let keys = step_keys();
    let empty: Vec<Option<String>> = Vec::new();
    let mut checks: Vec<StepCheck> = Vec::new();
    let mut all_ok = true;
    let mut any_missing = false;
    let mut i: usize = 0;
    while i < keys.len()
        invariant
            keys@.map_values(|s: &str| s@) == all_steps(),
            empty@.len() == 0,
            i <= keys.len(),
            checks@.len() == i,
            forall|j: int| 0 <= j < i ==> #[trigger] checks@[j] == expected_check(*manifest, current@, j),
            all_ok == forall|j: int| 0 <= j < i ==> !check_is_fault(#[trigger] checks@[j]),
            any_missing == exists|j: int| 0 <= j < i && check_needs_work(#[trigger] checks@[j]),
        decreases keys.len() - i,
    {
        let key = keys[i];
        proof {
            assert(key@ == all_steps()[i as int]);
        }
        let cur = if i < current.len() { &current[i] } else { &empty };
        proof {
            assert(opt_views(cur@) == current_for(current@, i as int)) by {
                if i >= current.len() {
                    assert(opt_views(cur@) =~= Seq::<Option<Seq<char>>>::empty());
                }
            }
        }
        let valid = manifest.step_is_valid(key, cur);
        let check = match manifest.get_step(key) {
            Some(s) => {
                if s.status == StepStatus::Done && s.files.len() == 0 {
                    proof {
                        assert(views(s.files@).len() == 0);
                    }
                    StepCheck::Skipped
                } else {
                    match s.status {
                        StepStatus::Done => if valid {
                            StepCheck::Verified
                        } else {
                            StepCheck::Broken
                        },
                        StepStatus::Partial => StepCheck::Incomplete,
                        StepStatus::Failed => StepCheck::Failed,
                        StepStatus::Pending => StepCheck::NotDone,
                    }
                }
            },
            None => StepCheck::NotDone,
        };
        let fault = check == StepCheck::Broken || check == StepCheck::Incomplete || check == StepCheck::Failed;
        if fault {
            all_ok = false;
        }
        if fault || check == StepCheck::NotDone {
            any_missing = true;
        }
        let ghost old_checks = checks@;
        checks.push(check);
        proof {
            assert(checks@[i as int] == check);
            assert forall|j: int| 0 <= j < i + 1 implies #[trigger] checks@[j] == expected_check(*manifest, current@, j) by {
                if j < i {
                    assert(checks@[j] == old_checks[j]);
                }
            }
            if any_missing && !(fault || check == StepCheck::NotDone) {
                let w = choose|j: int| 0 <= j < i && check_needs_work(#[trigger] old_checks[j]);
                assert(checks@[w] == old_checks[w]);
            }
            if !any_missing {
                assert forall|j: int| 0 <= j < i + 1 implies !check_needs_work(#[trigger] checks@[j]) by {
                    if j < i {
                        assert(checks@[j] == old_checks[j]);
                    }
                }
            }
            if all_ok {
                assert forall|j: int| 0 <= j < i + 1 implies !check_is_fault(#[trigger] checks@[j]) by {
                    if j < i {
                        assert(checks@[j] == old_checks[j]);
                    }
                }
            } else if !fault {
                let w = choose|j: int| 0 <= j < i && check_is_fault(#[trigger] old_checks[j]);
                assert(checks@[w] == old_checks[w]);
            }
        }
        i = i + 1;
    }
    VerifyReport { checks, all_ok, any_missing }
}

/// When every build step is done and its files still hold (or it has none to
/// hold), the bundle is reported intact with nothing missing.
pub proof fn lemma_all_done_is_intact(m: Manifest, current: Seq<Vec<Option<String>>>, r: VerifyReport)
    requires
        r.checks@.len() == all_steps().len(),
        forall|i: int| 0 <= i < r.checks@.len() ==> #[trigger] r.checks@[i] == expected_check(m, current, i),
        r.all_ok == forall|i: int| 0 <= i < r.checks@.len() ==> !check_is_fault(#[trigger] r.checks@[i]),
        r.any_missing == exists|i: int| 0 <= i < r.checks@.len() && check_needs_work(#[trigger] r.checks@[i]),
        forall|i: int| 0 <= i < all_steps().len() ==> {
            let s = #[trigger] step_of(m, all_steps()[i]);
            s matches Some(v) && v.status == StepStatus::Done && (v.files.len() == 0 || step_valid(s, current_for(current, i)))
        },
    ensures
        r.all_ok,
        !r.any_missing,
{
    assert forall|i: int| 0 <= i < r.checks@.len() implies !check_needs_work(#[trigger] r.checks@[i]) by {
        let s = step_of(m, all_steps()[i]);
        assert(r.checks@[i] == expected_check(m, current, i));
    }
}

/// A step that failed, is only partly done, or is done but whose files no
/// longer all hold makes the report say the bundle is not intact and that
/// work is left; a step not done at all leaves work too.
pub proof fn lemma_faulty_step_reported(m: Manifest, current: Seq<Vec<Option<String>>>, r: VerifyReport, i: int)
    requires
        r.checks@.len() == all_steps().len(),
        forall|j: int| 0 <= j < r.checks@.len() ==> #[trigger] r.checks@[j] == expected_check(m, current, j),
        r.all_ok == forall|j: int| 0 <= j < r.checks@.len() ==> !check_is_fault(#[trigger] r.checks@[j]),
        r.any_missing == exists|j: int| 0 <= j < r.checks@.len() && check_needs_work(#[trigger] r.checks@[j]),
        0 <= i < all_steps().len(),
    ensures
        (step_of(m, all_steps()[i]) matches Some(s) && (s.status == StepStatus::Failed || s.status
            == StepStatus::Partial || (s.status == StepStatus::Done && s.files.len() > 0 && !step_valid(
            step_of(m, all_steps()[i]),
            current_for(current, i),
        )))) ==> !r.all_ok && r.any_missing,
        (step_of(m, all_steps()[i]) is None || (step_of(m, all_steps()[i]) matches Some(s) && s.status
            == StepStatus::Pending)) ==> r.any_missing,
{
    assert(r.checks@[i] == expected_check(m, current, i));
}

// ───────────────────────── resume menu ─────────────────────────

/// The entries of the resume menu.
#[derive(Debug, Clone, Copy, PartialEq, Eq, Structural)]
pub enum ResumeChoice {
    /// Fetch what is missing or broken, then rebuild the installer.
    ContinueDownload,
    /// Edit port, credentials or SSL.
    EditSettings,
    /// Delete the bundle (after confirmation) and start over.
    Restart,
    Exit,
}

/// The resume menu: continuing is offered only when something is missing.
pub open spec fn resume_menu_items(any_missing: bool) -> Seq<ResumeChoice> {
    if any_missing {
        seq![ResumeChoice::ContinueDownload, ResumeChoice::EditSettings, ResumeChoice::Restart, ResumeChoice::Exit]
    } else {
        seq![ResumeChoice::EditSettings, ResumeChoice::Restart, ResumeChoice::Exit]
    }
}

/// The entries of the resume menu, in order.
pub fn resume_menu(any_missing: bool) -> (v: Vec<ResumeChoice>)
    ensures
        v@ == resume_menu_items(any_missing),
{
    let mut v: Vec<ResumeChoice> = Vec::new();
    if any_missing {
        v.push(ResumeChoice::ContinueDownload);
    }
    v.push(ResumeChoice::EditSettings);
    v.push(ResumeChoice::Restart);
    v.push(ResumeChoice::Exit);
    proof {
        assert(v@ =~= resume_menu_items(any_missing));
    }
    v
}

/// The choice behind the selected menu position (leaving for any other position).
pub fn resume_choice(any_missing: bool, selection: usize) -> (c: ResumeChoice)
    ensures
        c == if selection < resume_menu_items(any_missing).len() {
            resume_menu_items(any_missing)[selection as int]
        } else {
            ResumeChoice::Exit
        },
{
    let mut idx = selection;
    if any_missing {
        if idx == 0 {
            return ResumeChoice::ContinueDownload;
        }
        idx = idx - 1;
    }
    if idx == 0 {
        ResumeChoice::EditSettings
    } else if idx == 1 {
        ResumeChoice::Restart
    } else {
        ResumeChoice::Exit
    }
}

// ───────────────────────── settings editor ─────────────────────────

/// The port a typed answer sets: a number from 1024 to 65535, spaces around allowed.
pub open spec fn port_from_input(input: Seq<char>) -> Option<u16> {
    match parse_unsigned(trim(input), 65535) {
        Some(n) => if n >= 1024 {
            Some(n as u16)
        } else {
            None
        },
        None => None,
    }
}

/// `new` keeps the version and both time stamps of `old`, and no key
/// occurs twice in it when none did in `old`.
pub open spec fn header_kept(old: Manifest, new: Manifest) -> bool {
    &&& new.version == old.version
    &&& new.created_at == old.created_at
    &&& new.updated_at == old.updated_at
    &&& manifest_wf(old) ==> manifest_wf(new)
}

/// `new` is `old` after the port answer `input`: unchanged when it is not a
/// port from 1024 to 65535, otherwise the same steps and settings but the
/// port, which becomes the typed one.
pub open spec fn port_edited(old: Manifest, new: Manifest, input: Seq<char>) -> bool {
    &&& header_kept(old, new)
    &&& match port_from_input(input) {
        None => new == old,
        Some(p) => {
            &&& new.steps == old.steps
            &&& (old.config is Object ==> config_value(new.config, "panel_port"@) == Some(
                ConfigValueView::Number(p as u64),
            ))
            &&& forall|k: Seq<char>| k != "panel_port"@ ==> #[trigger] config_value(new.config, k)
                == config_value(old.config, k)
        },
    }
}

/// `new` is `old` with the setting `key` set to the typed text without the
/// spaces around it; steps and other settings are kept.
pub open spec fn text_edited(old: Manifest, new: Manifest, key: Seq<char>, input: Seq<char>) -> bool {
    &&& header_kept(old, new)
    &&& new.steps == old.steps
    &&& (old.config is Object ==> config_value(new.config, key) == Some(ConfigValueView::Text(trim(input))))
    &&& forall|k: Seq<char>| k != key ==> #[trigger] config_value(new.config, k) == config_value(old.config, k)
}

/// `new` is `old` with the SSL kind chosen in the editor recorded and the
/// SSL step sent back to pending; other settings and steps are kept.
pub open spec fn ssl_edited(old: Manifest, new: Manifest, e: SslEdit, common_name: Seq<char>) -> bool {
    &&& header_kept(old, new)
    &&& (old.config is Object ==> config_value(new.config, "ssl_kind"@) == Some(
        ConfigValueView::Text(ssl_edit_kind(e, common_name)),
    ))
    &&& forall|k: Seq<char>| k != "ssl_kind"@ ==> #[trigger] config_value(new.config, k) == config_value(old.config, k)
    &&& ssl_step_reset(step_of(new, "ssl"@), step_of(old, "ssl"@))
    &&& other_steps_kept(new, old, "ssl"@)
}

/// Records a new panel port from a typed answer; an answer that is not a port
/// from 1024 to 65535 changes nothing.
pub fn apply_port_edit(manifest: &mut Manifest, input: &str) -> (r: Option<u16>)
    ensures
        r == port_from_input(input@),
        port_edited(*old(manifest), *final(manifest), input@),
{
    let t = trim_str(input);
    match parse_unsigned_str(t.as_str(), 65535) {
        Some(n) => {
            if n >= 1024 {
                let p = n as u16;
                manifest.set_config("panel_port".to_string(), ConfigValue::Number(n));
                proof {
                    if old(manifest).config is NotObject {
                        assert forall|k: Seq<char>| k != "panel_port"@ implies #[trigger] config_value(manifest.config, k)
                            == config_value(old(manifest).config, k) by {}
                    }
                }
                Some(p)
            } else {
                None
            }
        },
        None => None,
    }
}

/// Records a typed text setting (such as the user name or password) without
/// the spaces around it.
pub fn apply_text_edit(manifest: &mut Manifest, key: &str, input: &str)
    ensures
        text_edited(*old(manifest), *final(manifest), key@, input@),
{
    let t = trim_str(input);
    manifest.set_config(key.to_string(), ConfigValue::Text(t));
    proof {
        if old(manifest).config is NotObject {
            assert forall|k: Seq<char>| k != key@ implies #[trigger] config_value(manifest.config, k)
                == config_value(old(manifest).config, k) by {}
        }
    }
}

/// The SSL kinds the editor offers.
#[derive(Debug, Clone, Copy, PartialEq, Eq, Structural)]
pub enum SslEdit {
    NoSsl,
    SelfSigned,
    Custom,
}

/// The SSL kind chosen at a position of the editor's SSL menu.
pub fn ssl_edit_choice(selection: usize) -> (e: SslEdit)
    ensures
        e == if selection == 0 {
            SslEdit::NoSsl
        } else if selection == 1 {
            SslEdit::SelfSigned
        } else {
            SslEdit::Custom
        },
{
    if selection == 0 {
        SslEdit::NoSsl
    } else if selection == 1 {
        SslEdit::SelfSigned
    } else {
        SslEdit::Custom
    }
}

/// How an edited SSL kind is recorded (the common name without the spaces around it).
pub open spec fn ssl_edit_kind(e: SslEdit, common_name: Seq<char>) -> Seq<char> {
    match e {
        SslEdit::NoSsl => "none"@,
        SslEdit::SelfSigned => "self-signed("@ + trim(common_name) + ")"@,
        SslEdit::Custom => "custom"@,
    }
}

/// `new` is `old` with the SSL step back to pending and no files or hashes
/// (its note kept); a manifest without that step is unchanged.
pub open spec fn ssl_step_reset(new: Option<BundleStepView>, old: Option<BundleStepView>) -> bool {
    match old {
        Some(s) => new == Some(BundleStepView { status: StepStatus::Pending, files: Seq::empty(), sha256: Seq::empty(), ..s }),
        None => new is None,
    }
}

/// Records an edited SSL kind and sends the SSL step back to pending; returns
/// whether certificate files must be produced again (for a self-signed one).
pub fn apply_ssl_edit(manifest: &mut Manifest, e: SslEdit, common_name: &str) -> (redownload: bool)
    ensures
        redownload == (e == SslEdit::SelfSigned),
        ssl_edited(*old(manifest), *final(manifest), e, common_name@),
{
    let kind = match e {
        SslEdit::NoSsl => "none".to_string(),
        SslEdit::SelfSigned => {
            let mut k = "self-signed(".to_string();
            k.append(trim_str(common_name).as_str());
            k.append(")");
            k
        },
        SslEdit::Custom => "custom".to_string(),
    };
    manifest.set_config("ssl_kind".to_string(), ConfigValue::Text(kind));
    proof {
        if old(manifest).config is NotObject {
            assert forall|k: Seq<char>| k != "ssl_kind"@ implies #[trigger] config_value(manifest.config, k)
                == config_value(old(manifest).config, k) by {}
        }
    }
    let ghost mid = *manifest;
    let ghost old_s = manifest.steps@;
    proof {
        lemma_key_index(old_s, "ssl"@);
    }
    match take_value(&mut manifest.steps, crate::manifest::STEP_SSL) {
        Some((i, k, b)) => {
            let nb = BundleStep { status: StepStatus::Pending, files: Vec::new(), sha256: Vec::new(), note: b.note };
            proof {
                assert(views(nb.files@) =~= Seq::<Seq<char>>::empty());
                assert(views(nb.sha256@) =~= Seq::<Seq<char>>::empty());
            }
            let ghost e2 = (k, nb);
            put_back(&mut manifest.steps, i, k, nb);
            proof {
                lemma_replace_value(old_s, i as int, e2);
                assert forall|kk: Seq<char>| kk != "ssl"@ implies #[trigger] step_of(*manifest, kk) == step_of(*old(manifest), kk) by {}
            }
        },
        None => {},
    }
    e == SslEdit::SelfSigned
}

/// A port, user name or password set in the editor is the one the bundle's
/// settings are rebuilt with.
pub proof fn lemma_setting_edits_restored(port: u16, input: Seq<char>, mc: ManifestConfig, dir: Seq<char>, b: BuildConfig)
    requires
        config_restored(b, mc, dir),
    ensures
        config_value(mc, "panel_port"@) == Some(ConfigValueView::Number(port as u64)) ==> b.panel_port == port,
        config_value(mc, "panel_username"@) == Some(ConfigValueView::Text(trim(input))) ==> b.panel_username@
            == trim(input),
        config_value(mc, "panel_password"@) == Some(ConfigValueView::Text(trim(input))) ==> b.panel_password@
            == trim(input),
{
    assert((port as u64) % 65536 == port as u64);
}

/// The SSL kind chosen in the editor is the one the bundle's settings are
/// rebuilt with: no SSL, the custom certificates of the bundle's `ssl`
/// directory, or a self-signed certificate for the typed host without the
/// spaces around it (unless that host ends in `)` or itself begins with
/// `self-signed(`), generated at build time.
pub proof fn lemma_ssl_edit_restored(e: SslEdit, common_name: Seq<char>, mc: ManifestConfig, dir: Seq<char>, b: BuildConfig)
    requires
        config_value(mc, "ssl_kind"@) == Some(ConfigValueView::Text(ssl_edit_kind(e, common_name))),
        config_restored(b, mc, dir),
    ensures
        e == SslEdit::NoSsl ==> b.ssl is Disabled,
        e == SslEdit::Custom ==> (b.ssl matches SslConfig::Custom { fullchain_path, privkey_path }
            && fullchain_path@ == dir + "/ssl/fullchain.pem"@ && privkey_path@ == dir + "/ssl/privkey.pem"@),
        e == SslEdit::SelfSigned && !crate::text::ends_with(trim(common_name), ")"@) && !starts_with(
            trim(common_name) + ")"@,
            "self-signed("@,
        ) ==> (b.ssl matches SslConfig::SelfSigned { common_name: n, dynamic } && n@ == trim(common_name) && !dynamic),
{
    reveal_strlit("none");
    reveal_strlit("custom");
    reveal_strlit("self-signed(");
    reveal_strlit(")");
    assert("none"@.len() == 4 && "custom"@.len() == 6);
    if e == SslEdit::SelfSigned {
        let x = trim(common_name);
        let kind = "self-signed("@ + x + ")"@;
        assert(kind.len() >= 13);
        assert(kind.subrange(0, 12) =~= "self-signed("@);
        if !crate::text::ends_with(x, ")"@) && !starts_with(x + ")"@, "self-signed("@) {
            lemma_kind_argument("self-signed("@, x);
        }
    }
}

/// The entries of the settings editor, in menu order.
#[derive(Debug, Clone, Copy, PartialEq, Eq, Structural)]
pub enum SettingsChoice {
    Port,
    Username,
    Password,
    Ssl,
    /// Rebuild install.sh, save and leave the editor.
    Rebuild,
    /// Leave the editor.
    Back,
}

/// The entry at a position of the settings editor's menu (leaving for any
/// other position).
pub open spec fn settings_choice_at(selection: nat) -> SettingsChoice {
    if selection == 0 {
        SettingsChoice::Port
    } else if selection == 1 {
        SettingsChoice::Username
    } else if selection == 2 {
        SettingsChoice::Password
    } else if selection == 3 {
        SettingsChoice::Ssl
    } else if selection == 4 {
        SettingsChoice::Rebuild
    } else {
        SettingsChoice::Back
    }
}

/// The entry behind the selected position of the settings editor's menu.
pub fn settings_choice(selection: usize) -> (c: SettingsChoice)
    ensures
        c == settings_choice_at(selection as nat),
{
    if selection == 0 {
        SettingsChoice::Port
    } else if selection == 1 {
        SettingsChoice::Username
    } else if selection == 2 {
        SettingsChoice::Password
    } else if selection == 3 {
        SettingsChoice::Ssl
    } else if selection == 4 {
        SettingsChoice::Rebuild
    } else {
        SettingsChoice::Back
    }
}

/// The labels of the settings editor's menu, in the order it shows them.
pub open spec fn settings_menu_labels() -> Seq<Seq<char>> {
    seq![
        "تغییر پورت پنل"@,
        "تغییر نام کاربری"@,
        "تغییر رمز عبور"@,
        "تغییر SSL"@,
        "بازسازی install.sh و ذخیره"@,
        "بازگشت"@,
    ]
}

/// What each entry of the settings editor does, as its menu label says it.
pub open spec fn settings_label(c: SettingsChoice) -> Seq<char> {
    match c {
        SettingsChoice::Port => "تغییر پورت پنل"@,
        SettingsChoice::Username => "تغییر نام کاربری"@,
        SettingsChoice::Password => "تغییر رمز عبور"@,
        SettingsChoice::Ssl => "تغییر SSL"@,
        SettingsChoice::Rebuild => "بازسازی install.sh و ذخیره"@,
        SettingsChoice::Back => "بازگشت"@,
    }
}

/// Selecting a position of the settings editor's menu chooses the entry
/// whose label is shown there (change port, user name, password, SSL,
/// rebuild, back), each entry at exactly one position; any position past
/// the menu leaves the editor.
pub proof fn lemma_settings_choice_follows_menu(i: nat, j: nat)
    ensures
        i < settings_menu_labels().len() ==> settings_label(settings_choice_at(i)) == settings_menu_labels()[i as int],
        i < settings_menu_labels().len() && j < settings_menu_labels().len() && i != j ==> settings_choice_at(i)
            != settings_choice_at(j),
        i >= settings_menu_labels().len() ==> settings_choice_at(i) == SettingsChoice::Back,
{
}

/// An answer given in the settings editor.
#[derive(Debug)]
pub enum SettingsAnswer {
    Port(String),
    Username(String),
    Password(String),
    /// The SSL kind chosen, and the host typed for a self-signed one.
    Ssl(SslEdit, String),
}

/// Applies an answer of the settings editor. Returns whether files must be
/// fetched again, given whether they already had to be (`redownload`): a
/// self-signed certificate chosen now makes it so; and, for a port answer,
/// the port it set, if it was one.
pub fn apply_settings_answer(manifest: &mut Manifest, answer: SettingsAnswer, redownload: bool) -> (r: (
    bool,
    Option<u16>,
))
    ensures
        r.0 == (redownload || (answer matches SettingsAnswer::Ssl(e, _) && e == SslEdit::SelfSigned)),
        r.1 == match answer {
            SettingsAnswer::Port(t) => port_from_input(t@),
            _ => None,
        },
        match answer {
            SettingsAnswer::Port(t) => port_edited(*old(manifest), *final(manifest), t@),
            SettingsAnswer::Username(t) => text_edited(*old(manifest), *final(manifest), "panel_username"@, t@),
            SettingsAnswer::Password(t) => text_edited(*old(manifest), *final(manifest), "panel_password"@, t@),
            SettingsAnswer::Ssl(e, cn) => ssl_edited(*old(manifest), *final(manifest), e, cn@),
        },
{
    match answer {
        SettingsAnswer::Port(t) => {
            let p = apply_port_edit(manifest, t.as_str());
            (redownload, p)
        },
        SettingsAnswer::Username(t) => {
            apply_text_edit(manifest, "panel_username", t.as_str());
            (redownload, None)
        },
        SettingsAnswer::Password(t) => {
            apply_text_edit(manifest, "panel_password", t.as_str());
            (redownload, None)
        },
        SettingsAnswer::Ssl(e, cn) => {
            let again = apply_ssl_edit(manifest, e, cn.as_str());
            (redownload || again, None)
        },
    }
}

/// Marks the installer as rebuilt: the install-script step becomes done with
/// `install.sh` as its file (recorded hashes and note kept); a manifest
/// without that step is unchanged.
pub fn mark_install_regenerated(manifest: &mut Manifest)
    ensures
        manifest_wf(*old(manifest)) ==> manifest_wf(*final(manifest)),
        same_header(*final(manifest), *old(manifest)),
        step_of(*final(manifest), "install_sh"@) == match step_of(*old(manifest), "install_sh"@) {
            Some(s) => Some(BundleStepView { status: StepStatus::Done, files: seq!["install.sh"@], ..s }),
            None => None,
        },
        other_steps_kept(*final(manifest), *old(manifest), "install_sh"@),
{
    let ghost old_s = manifest.steps@;
    proof {
        lemma_key_index(old_s, "install_sh"@);
    }
    match take_value(&mut manifest.steps, crate::manifest::STEP_INSTALL_SH) {
        Some((i, k, b)) => {
            let mut files: Vec<String> = Vec::new();
            files.push("install.sh".to_string());
            let nb = BundleStep { status: StepStatus::Done, files, sha256: b.sha256, note: b.note };
            proof {
                assert(views(nb.files@) =~= seq!["install.sh"@]);
            }
            let ghost e2 = (k, nb);
            put_back(&mut manifest.steps, i, k, nb);
            proof {
                lemma_replace_value(old_s, i as int, e2);
                assert forall|kk: Seq<char>| kk != "install_sh"@ implies #[trigger] step_of(*manifest, kk) == step_of(*old(manifest), kk) by {}
            }
        },
        None => {},
    }
}

} // verus!
