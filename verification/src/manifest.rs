//! The manifest kept in a bundle directory: which build steps are done, the
//! files each produced with their SHA-256 hashes, and a snapshot of the
//! settings the bundle was built with.
use crate::keyed::{
    get_value, key_index, keys_unique, lemma_key_index, lemma_replace_value, put_back, set_value,
    take_value, value_of,
};
use crate::state::{
    arch_suffix, os_display_name, BuildConfig, OutputKind, PackageMode, SslConfig, XuiVersion,
};
use crate::text::{u64_to_string, views};
use sha2::Digest;
use vstd::prelude::*;

verus! {

broadcast use vstd::string::group_string_axioms;

const MANIFEST_VERSION: &'static str = "1";

/// Build step: the panel release archive.
pub const STEP_XUI_BINARY: &'static str = "xui_binary";

/// Build step: the `x-ui.sh` management script.
pub const STEP_XUI_SH: &'static str = "xui_sh";

/// Build step: the service definition.
pub const STEP_SERVICE_FILE: &'static str = "service_file";

/// Build step: the system packages.
pub const STEP_PACKAGES: &'static str = "packages";

/// Build step: the SSL certificate and key.
pub const STEP_SSL: &'static str = "ssl";

/// Build step: the generated installer.
pub const STEP_INSTALL_SH: &'static str = "install_sh";

/// The build steps, in the order they run.
pub open spec fn all_steps() -> Seq<Seq<char>> {
    seq!["xui_binary"@, "xui_sh"@, "service_file"@, "packages"@, "ssl"@, "install_sh"@]
}

/// Keys of the build steps, in the order they run.
pub fn step_keys() -> (v: Vec<&'static str>)
    ensures
        v@.map_values(|s: &str| s@) == all_steps(),
{
    let v = vec![STEP_XUI_BINARY, STEP_XUI_SH, STEP_SERVICE_FILE, STEP_PACKAGES, STEP_SSL, STEP_INSTALL_SH];
    proof {
        assert(v@.map_values(|s: &str| s@) =~= all_steps());
    }
    v
}

/// State of a build step.
#[derive(Debug, Clone, Copy, PartialEq, Eq, Structural)]
pub enum StepStatus {
    Pending,
    Partial,
    Done,
    Failed,
}

/// How a step status is written.
pub open spec fn status_text(s: StepStatus) -> Seq<char> {
    match s {
        StepStatus::Pending => "pending"@,
        StepStatus::Partial => "partial"@,
        StepStatus::Done => "done"@,
        StepStatus::Failed => "failed"@,
    }
}

impl StepStatus {
    /// How the status is written.
    pub fn as_str(&self) -> (s: &'static str)
        ensures
            s@ == status_text(*self),
    {
        match self {
            StepStatus::Pending => "pending",
            StepStatus::Partial => "partial",
            StepStatus::Done => "done",
            StepStatus::Failed => "failed",
        }
    }
}

/// What the manifest records of one build step.
#[derive(Debug)]
pub struct BundleStep {
    pub status: StepStatus,
    /// Primary files produced by this step (relative to bundle root).
    pub files: Vec<String>,
    /// sha256 of each file (same order as `files`).
    pub sha256: Vec<String>,
    pub note: Option<String>,
}

/// A build step as plain values.
pub struct BundleStepView {
    pub status: StepStatus,
    pub files: Seq<Seq<char>>,
    pub sha256: Seq<Seq<char>>,
    pub note: Option<Seq<char>>,
}

/// View of an optional string.
pub open spec fn opt_text(o: Option<String>) -> Option<Seq<char>> {
    match o {
        Some(s) => Some(s@),
        None => None,
    }
}

impl View for BundleStep {
    type V = BundleStepView;

    open spec fn view(&self) -> BundleStepView {
        BundleStepView {
            status: self.status,
            files: views(self.files@),
            sha256: views(self.sha256@),
            note: opt_text(self.note),
        }
    }
}

/// A value of the settings snapshot, as far as the builder reads it.
#[derive(Debug)]
pub enum ConfigValue {
    /// A JSON string.
    Text(String),
    /// A JSON number that is a non-negative integer.
    Number(u64),
    /// JSON `null`.
    Null,
    /// Any other JSON value, kept as its JSON text.
    Other(String),
}

/// The settings snapshot of a manifest.
#[derive(Debug)]
pub enum ManifestConfig {
    /// A JSON object: its members in order.
    Object(Vec<(String, ConfigValue)>),
    /// Any other JSON value, kept as its JSON text.
    NotObject(String),
}

/// The manifest of a bundle.
#[derive(Debug)]
pub struct Manifest {
    pub version: String,
    /// Microseconds since the Unix epoch.
    pub created_at: i64,
    /// Microseconds since the Unix epoch.
    pub updated_at: i64,
    /// Serialized snapshot of BuildConfig so we can restore/compare it.
    pub config: ManifestConfig,
    pub steps: Vec<(String, BundleStep)>,
}

/// No build step and no settings member is recorded twice.
pub open spec fn manifest_wf(m: Manifest) -> bool {
    &&& keys_unique(m.steps@)
    &&& match m.config {
        ManifestConfig::Object(e) => keys_unique(e@),
        ManifestConfig::NotObject(_) => true,
    }
}

/// What a list of entries records of `step`.
pub open spec fn step_in(s: Seq<(String, BundleStep)>, step: Seq<char>) -> Option<BundleStepView> {
    match value_of(s, step) {
        Some(b) => Some(b@),
        None => None,
    }
}

/// What the manifest records of `step`.
pub open spec fn step_of(m: Manifest, step: Seq<char>) -> Option<BundleStepView> {
    step_in(m.steps@, step)
}

/// A step not started yet.
pub open spec fn pending_step() -> BundleStepView {
    BundleStepView { status: StepStatus::Pending, files: Seq::empty(), sha256: Seq::empty(), note: None }
}

/// Everything but the steps is as in `old`.
pub open spec fn same_header(new: Manifest, old: Manifest) -> bool {
    new.version == old.version && new.created_at == old.created_at && new.updated_at
        == old.updated_at && new.config == old.config
}

/// The steps of `new` and `old` agree except on `step`.
pub open spec fn other_steps_kept(new: Manifest, old: Manifest, step: Seq<char>) -> bool {
    forall|k: Seq<char>| k != step ==> #[trigger] step_of(new, k) == step_of(old, k)
}

/// A step whose files all still have the recorded hash: `current[i]` is the
/// hash of `files[i]` now (`None` when it cannot be read). A pending,
/// partial or failed step, one with no files, or one with a file that has
/// no recorded hash, is not valid.
pub open spec fn step_valid(step: Option<BundleStepView>, current: Seq<Option<Seq<char>>>) -> bool {
    match step {
        None => false,
        Some(s) => s.status == StepStatus::Done && s.files.len() > 0 && s.files.len() <= s.sha256.len()
            && forall|i: int| 0 <= i < s.files.len() ==> i < current.len() && #[trigger] current[i]
                == Some(s.sha256[i]),
    }
}

/// Views of a vector of optional strings.
pub open spec fn opt_views(v: Seq<Option<String>>) -> Seq<Option<Seq<char>>> {
    v.map_values(|o: Option<String>| opt_text(o))
}

/// A value of the settings snapshot as plain values.
pub enum ConfigValueView {
    Text(Seq<char>),
    Number(u64),
    Null,
    Other(Seq<char>),
}

impl View for ConfigValue {
    type V = ConfigValueView;

    open spec fn view(&self) -> ConfigValueView {
        match self {
            ConfigValue::Text(s) => ConfigValueView::Text(s@),
            ConfigValue::Number(n) => ConfigValueView::Number(*n),
            ConfigValue::Null => ConfigValueView::Null,
            ConfigValue::Other(s) => ConfigValueView::Other(s@),
        }
    }
}

/// The members of a settings snapshot as plain values.
pub open spec fn entries_view(v: Seq<(String, ConfigValue)>) -> Seq<(Seq<char>, ConfigValueView)> {
    v.map_values(|e: (String, ConfigValue)| (e.0@, e.1@))
}

/// The members of a snapshot that is a JSON object.
pub open spec fn snapshot_of(c: ManifestConfig) -> Option<Seq<(Seq<char>, ConfigValueView)>> {
    match c {
        ManifestConfig::Object(v) => Some(entries_view(v@)),
        ManifestConfig::NotObject(_) => None,
    }
}

/// The value a snapshot records for `key`.
pub open spec fn config_value(c: ManifestConfig, key: Seq<char>) -> Option<ConfigValueView> {
    match c {
        ManifestConfig::Object(v) => match value_of(v@, key) {
            Some(x) => Some(x@),
            None => None,
        },
        ManifestConfig::NotObject(_) => None,
    }
}

/// How a package mode is recorded.
pub open spec fn package_mode_text(m: PackageMode) -> Seq<char> {
    match m {
        PackageMode::Online => "online"@,
        PackageMode::Offline => "offline"@,
    }
}

/// How the chosen panel version is recorded.
pub open spec fn xui_version_text(v: XuiVersion) -> Seq<char> {
    match v {
        XuiVersion::Latest => "latest"@,
        XuiVersion::Specific(s) => s@,
    }
}

/// How the SSL choice is recorded.
pub open spec fn ssl_kind_text(ssl: SslConfig) -> Seq<char> {
    match ssl {
        SslConfig::Disabled => "none"@,
        SslConfig::Custom { .. } => "custom"@,
        SslConfig::SelfSigned { common_name, dynamic } => if dynamic {
            "self-signed-dynamic("@ + common_name@ + ")"@
        } else {
            "self-signed("@ + common_name@ + ")"@
        },
        SslConfig::LetsEncrypt { domain } => "letsencrypt("@ + domain@ + ")"@,
    }
}

/// How the output kind is recorded.
pub open spec fn output_kind_text(k: OutputKind) -> Seq<char> {
    match k {
        OutputKind::Sfx => "sfx"@,
        OutputKind::Folder => "folder"@,
    }
}

/// The members of the settings snapshot of a configuration, in order.
pub open spec fn snapshot_entries(c: BuildConfig) -> Seq<(Seq<char>, ConfigValueView)> {
    seq![
        ("os"@, ConfigValueView::Text(os_display_name(c.os))),
        ("arch"@, ConfigValueView::Text(arch_suffix(c.arch))),
        ("os_version"@, match c.os_version {
            Some(v) => ConfigValueView::Text(v@),
            None => ConfigValueView::Null,
        }),
        ("package_mode"@, ConfigValueView::Text(package_mode_text(c.package_mode))),
        ("xui_version"@, ConfigValueView::Text(xui_version_text(c.xui_version))),
        ("panel_port"@, ConfigValueView::Number(c.panel_port as u64)),
        ("panel_username"@, ConfigValueView::Text(c.panel_username@)),
        ("panel_password"@, ConfigValueView::Text(c.panel_password@)),
        ("panel_web_base_path"@, ConfigValueView::Text(c.panel_web_base_path@)),
        ("ssl_kind"@, ConfigValueView::Text(ssl_kind_text(c.ssl))),
        ("server_host"@, ConfigValueView::Text(c.server_host@)),
        ("output_dir"@, ConfigValueView::Text(c.output_dir@)),
        ("output_kind"@, ConfigValueView::Text(output_kind_text(c.output_kind))),
    ]
}

/// Serializable subset of BuildConfig (for manifest storage).
#[derive(Debug)]
pub struct SerializableConfig {
    pub os: String,
    pub arch: String,
    pub os_version: Option<String>,
    pub package_mode: String,
    pub xui_version: String,
    pub panel_port: u16,
    pub panel_username: String,
    pub panel_password: String,
    pub panel_web_base_path: String,
    pub ssl_kind: String,
    pub server_host: String,
    pub output_dir: String,
    pub output_kind: String,
}

fn clone_opt(o: &Option<String>) -> (r: Option<String>)
    ensures
        opt_text(r) == opt_text(*o),
{
    match o {
        Some(s) => Some(s.clone()),
        None => None,
    }
}

impl SerializableConfig {
    /// The serializable subset of a configuration.
    pub fn from_config(c: &BuildConfig) -> (s: SerializableConfig)
        ensures
            s.os@ == os_display_name(c.os),
            s.arch@ == arch_suffix(c.arch),
            opt_text(s.os_version) == opt_text(c.os_version),
            s.package_mode@ == package_mode_text(c.package_mode),
            s.xui_version@ == xui_version_text(c.xui_version),
            s.panel_port == c.panel_port,
            s.panel_username@ == c.panel_username@,
            s.panel_password@ == c.panel_password@,
            s.panel_web_base_path@ == c.panel_web_base_path@,
            s.ssl_kind@ == ssl_kind_text(c.ssl),
            s.server_host@ == c.server_host@,
            s.output_dir@ == c.output_dir@,
            s.output_kind@ == output_kind_text(c.output_kind),
    {
        let package_mode = match c.package_mode {
            PackageMode::Online => "online".to_string(),
            PackageMode::Offline => "offline".to_string(),
        };
        let xui_version = match &c.xui_version {
            XuiVersion::Latest => "latest".to_string(),
            XuiVersion::Specific(v) => v.clone(),
        };
        let ssl_kind = match &c.ssl {
            SslConfig::Disabled => "none".to_string(),
            SslConfig::Custom { .. } => "custom".to_string(),
            SslConfig::SelfSigned { common_name, dynamic } => {
                let mut k = if *dynamic {
                    "self-signed-dynamic(".to_string()
                } else {
                    "self-signed(".to_string()
                };
                k.append(common_name.as_str());
                k.append(")");
                k
            },
            SslConfig::LetsEncrypt { domain } => {
                let mut k = "letsencrypt(".to_string();
                k.append(domain.as_str());
                k.append(")");
                k
            },
        };
        let output_kind = match c.output_kind {
            OutputKind::Sfx => "sfx".to_string(),
            OutputKind::Folder => "folder".to_string(),
        };
        SerializableConfig {
            os: c.os.display_name().to_string(),
            arch: c.arch.xui_suffix().to_string(),
            os_version: clone_opt(&c.os_version),
            package_mode,
            xui_version,
            panel_port: c.panel_port,
            panel_username: c.panel_username.clone(),
            panel_password: c.panel_password.clone(),
            panel_web_base_path: c.panel_web_base_path.clone(),
            ssl_kind,
            server_host: c.server_host.clone(),
            output_dir: c.output_dir.clone(),
            output_kind,
        }
    }

    /// The snapshot as a JSON object, one member per field in field order
    /// (`null` for an absent release version).
    pub fn to_config(self) -> (m: ManifestConfig)
        ensures
            m matches ManifestConfig::Object(e) && keys_unique(e@),
            snapshot_of(m) == Some(
                seq![
                    ("os"@, ConfigValueView::Text(self.os@)),
                    ("arch"@, ConfigValueView::Text(self.arch@)),
                    ("os_version"@, match self.os_version {
                        Some(v) => ConfigValueView::Text(v@),
                        None => ConfigValueView::Null,
                    }),
                    ("package_mode"@, ConfigValueView::Text(self.package_mode@)),
                    ("xui_version"@, ConfigValueView::Text(self.xui_version@)),
                    ("panel_port"@, ConfigValueView::Number(self.panel_port as u64)),
                    ("panel_username"@, ConfigValueView::Text(self.panel_username@)),
                    ("panel_password"@, ConfigValueView::Text(self.panel_password@)),
                    ("panel_web_base_path"@, ConfigValueView::Text(self.panel_web_base_path@)),
                    ("ssl_kind"@, ConfigValueView::Text(self.ssl_kind@)),
                    ("server_host"@, ConfigValueView::Text(self.server_host@)),
                    ("output_dir"@, ConfigValueView::Text(self.output_dir@)),
                    ("output_kind"@, ConfigValueView::Text(self.output_kind@)),
                ],
            ),
    {
        let os_version = match self.os_version {
            Some(v) => ConfigValue::Text(v),
            None => ConfigValue::Null,
        };
        let v = vec![
            ("os".to_string(), ConfigValue::Text(self.os)),
            ("arch".to_string(), ConfigValue::Text(self.arch)),
            ("os_version".to_string(), os_version),
            ("package_mode".to_string(), ConfigValue::Text(self.package_mode)),
            ("xui_version".to_string(), ConfigValue::Text(self.xui_version)),
            ("panel_port".to_string(), ConfigValue::Number(self.panel_port as u64)),
            ("panel_username".to_string(), ConfigValue::Text(self.panel_username)),
            ("panel_password".to_string(), ConfigValue::Text(self.panel_password)),
            ("panel_web_base_path".to_string(), ConfigValue::Text(self.panel_web_base_path)),
            ("ssl_kind".to_string(), ConfigValue::Text(self.ssl_kind)),
            ("server_host".to_string(), ConfigValue::Text(self.server_host)),
            ("output_dir".to_string(), ConfigValue::Text(self.output_dir)),
            ("output_kind".to_string(), ConfigValue::Text(self.output_kind)),
        ];
        proof {
            assert(entries_view(v@) =~= seq![
                ("os"@, ConfigValueView::Text(self.os@)),
                ("arch"@, ConfigValueView::Text(self.arch@)),
                ("os_version"@, match self.os_version {
                    Some(v) => ConfigValueView::Text(v@),
                    None => ConfigValueView::Null,
                }),
                ("package_mode"@, ConfigValueView::Text(self.package_mode@)),
                ("xui_version"@, ConfigValueView::Text(self.xui_version@)),
                ("panel_port"@, ConfigValueView::Number(self.panel_port as u64)),
                ("panel_username"@, ConfigValueView::Text(self.panel_username@)),
                ("panel_password"@, ConfigValueView::Text(self.panel_password@)),
                ("panel_web_base_path"@, ConfigValueView::Text(self.panel_web_base_path@)),
                ("ssl_kind"@, ConfigValueView::Text(self.ssl_kind@)),
                ("server_host"@, ConfigValueView::Text(self.server_host@)),
                ("output_dir"@, ConfigValueView::Text(self.output_dir@)),
                ("output_kind"@, ConfigValueView::Text(self.output_kind@)),
            ]);
        }
        proof {
            reveal_strlit("os");
            reveal_strlit("arch");
            reveal_strlit("os_version");
            reveal_strlit("package_mode");
            reveal_strlit("xui_version");
            reveal_strlit("panel_port");
            reveal_strlit("panel_username");
            reveal_strlit("panel_password");
            reveal_strlit("panel_web_base_path");
            reveal_strlit("ssl_kind");
            reveal_strlit("server_host");
            reveal_strlit("output_dir");
            reveal_strlit("output_kind");
            let e = entries_view(v@);
            assert(e[2].0[1] == 's' && e[11].0[1] == 'u' && e[5].0[0] == 'p');
            assert(e[4].0[0] == 'x' && e[10].0[0] == 's' && e[12].0[0] == 'o');
            assert(e[6].0[6] == 'u' && e[7].0[6] == 'p');
            assert forall|a: int, b: int| 0 <= a < b < v@.len() implies v@[a].0@ != v@[b].0@ by {
                assert(e[a].0 == v@[a].0@ && e[b].0 == v@[b].0@);
            }
        }
        ManifestConfig::Object(v)
    }
}

fn pending() -> (b: BundleStep)
    ensures
        b@ == pending_step(),
{
    let b = BundleStep { status: StepStatus::Pending, files: Vec::new(), sha256: Vec::new(), note: None };
    proof {
        assert(views(b.files@) =~= Seq::<Seq<char>>::empty());
        assert(views(b.sha256@) =~= Seq::<Seq<char>>::empty());
    }
    b
}

impl Manifest {
    /// A fresh manifest built at time `now`: every build step pending, and
    /// the settings snapshot of `config`.
    pub fn new_at(config: &BuildConfig, now: i64) -> (m: Manifest)
        ensures
            manifest_wf(m),
            m.version@ == "1"@,
            m.created_at == now,
            m.updated_at == now,
            snapshot_of(m.config) == Some(snapshot_entries(*config)),
            forall|k: Seq<char>| #[trigger]
                step_of(m, k) == if all_steps().contains(k) {
                    Some(pending_step())
                } else {
                    None
                },
    {
        let keys = step_keys();
        let mut steps: Vec<(String, BundleStep)> = Vec::new();
        let mut i: usize = 0;
        while i < keys.len()
            invariant
                keys@.map_values(|s: &str| s@) == all_steps(),
                i <= keys.len(),
                keys_unique(steps@),
                forall|k: Seq<char>| #[trigger]
                    step_in(steps@, k) == if all_steps().take(i as int).contains(k) {
                        Some(pending_step())
                    } else {
                        None
                    },
            decreases keys.len() - i,
        {
            let key = keys[i].to_string();
            let ghost kv = key@;
            proof {
                assert(kv == all_steps()[i as int]);
            }
            let p = pending();
            let ghost old_steps = steps@;
            set_value(&mut steps, key, p);
            proof {
                assert forall|k: Seq<char>| #[trigger]
                    step_in(steps@, k) == if all_steps().take(i + 1).contains(k) {
                        Some(pending_step())
                    } else {
                        None
                    } by {
                    assert(all_steps().take(i + 1) =~= all_steps().take(i as int).push(kv));
                    if k != kv {
                        assert(step_in(steps@, k) == step_in(old_steps, k));
                        assert(all_steps().take(i + 1).contains(k) == all_steps().take(
                            i as int,
                        ).contains(k));
                    } else {
                        assert(value_of(steps@, k) == Some(p));
                        assert(all_steps().take(i + 1)[i as int] == kv);
                    }
                }
            }
            i = i + 1;
        }
        proof {
            assert(all_steps().take(6) =~= all_steps());
        }
        let m = Manifest {
            version: MANIFEST_VERSION.to_string(),
            created_at: now,
            updated_at: now,
            config: SerializableConfig::from_config(config).to_config(),
            steps,
        };
        m
    }
}


/// The current time, in microseconds since the Unix epoch.
///
/// Calls `chrono::Utc::now` and `DateTime::timestamp_micros`. Nothing is
/// claimed of the value: it is whatever the system clock reads.
#[verifier::external_body]
fn now_micros() -> i64 {
    chrono::Utc::now().timestamp_micros()
}

fn step_from(status: StepStatus, files: Vec<String>, hashes: Vec<String>, note: Option<String>) -> (b: BundleStep)
    ensures
        b@ == (BundleStepView { status, files: views(files@), sha256: views(hashes@), note: opt_text(note) }),
{
    BundleStep { status, files, sha256: hashes, note }
}

impl Manifest {
    /// Create a fresh manifest for a new bundle, stamped with the current time.
    pub fn new(config: &BuildConfig) -> (m: Manifest)
        ensures
            manifest_wf(m),
            m.version@ == "1"@,
            m.created_at == m.updated_at,
            snapshot_of(m.config) == Some(snapshot_entries(*config)),
            forall|k: Seq<char>| #[trigger]
                step_of(m, k) == if all_steps().contains(k) {
                    Some(pending_step())
                } else {
                    None
                },
    {
        Manifest::new_at(config, now_micros())
    }

    /// Stamps the manifest with the current time, as saving it does, and
    /// returns that time: the update time becomes the clock's reading and
    /// nothing else changes.
    pub fn touch(&mut self) -> (now: i64)
        ensures
            *final(self) == (Manifest { updated_at: now, ..*old(self) }),
    {
        let now = now_micros();
        self.updated_at = now;
        now
    }

    fn record(&mut self, step: &str, b: BundleStep)
        ensures
            manifest_wf(*old(self)) ==> manifest_wf(*final(self)),
            same_header(*final(self), *old(self)),
            step_of(*final(self), step@) == Some(b@),
            other_steps_kept(*final(self), *old(self), step@),
    {
        let ghost bv = b@;
        set_value(&mut self.steps, step.to_string(), b);
    }

    /// Mark a step as successfully completed and record its files with the
    /// SHA-256 hash of each one's content (`contents[i]` is what `files[i]`
    /// holds, `None` when it could not be read: its hash is recorded as
    /// `error`).
    pub fn mark_done(&mut self, step: &str, files: Vec<String>, contents: &Vec<Option<Vec<u8>>>)
        ensures
            manifest_wf(*old(self)) ==> manifest_wf(*final(self)),
            same_header(*final(self), *old(self)),
            step_of(*final(self), step@) == Some(
                BundleStepView {
                    status: StepStatus::Done,
                    files: views(files@),
                    sha256: content_hashes(contents@),
                    note: None,
                },
            ),
            other_steps_kept(*final(self), *old(self), step@),
    {
        let hashes = hashes_of(contents);
        let b = step_from(StepStatus::Done, files, hashes, None);
        self.record(step, b);
    }

    /// Mark a step as partially done (e.g., some packages downloaded), with
    /// the hashes of its files' contents as for `mark_done`.
    pub fn mark_partial(&mut self, step: &str, files: Vec<String>, contents: &Vec<Option<Vec<u8>>>, note: Option<String>)
        ensures
            manifest_wf(*old(self)) ==> manifest_wf(*final(self)),
            same_header(*final(self), *old(self)),
            step_of(*final(self), step@) == Some(
                BundleStepView {
                    status: StepStatus::Partial,
                    files: views(files@),
                    sha256: content_hashes(contents@),
                    note: opt_text(note),
                },
            ),
            other_steps_kept(*final(self), *old(self), step@),
    {
        let hashes = hashes_of(contents);
        let b = step_from(StepStatus::Partial, files, hashes, note);
        self.record(step, b);
    }

    /// Mark step as failed, with a note; a step the manifest does not hold is
    /// left absent.
    pub fn mark_failed(&mut self, step: &str, note: &str)
        ensures
            manifest_wf(*old(self)) ==> manifest_wf(*final(self)),
            same_header(*final(self), *old(self)),
            step_of(*final(self), step@) == match step_of(*old(self), step@) {
                Some(s) => Some(BundleStepView { status: StepStatus::Failed, note: Some(note@), ..s }),
                None => None,
            },
            other_steps_kept(*final(self), *old(self), step@),
    {
        let ghost old_s = self.steps@;
        proof {
            lemma_key_index(old_s, step@);
        }
        match take_value(&mut self.steps, step) {
            Some((i, k, b)) => {
                let nb = BundleStep { status: StepStatus::Failed, files: b.files, sha256: b.sha256, note: Some(note.to_string()) };
                let ghost e = (k, nb);
                put_back(&mut self.steps, i, k, nb);
                proof {
                    lemma_replace_value(old_s, i as int, e);
                    assert forall|kk: Seq<char>| kk != step@ implies #[trigger] step_of(*self, kk) == step_of(*old(self), kk) by {}
                }
            },
            None => {},
        }
    }

    /// Returns true if the step has status Done, has files, has a recorded
    /// hash for each of them, and each file's current hash (`current[i]` for
    /// `files[i]`, `None` when it cannot be read) equals the recorded one.
    pub fn step_is_valid(&self, step: &str, current: &Vec<Option<String>>) -> (b: bool)
        ensures
            b == step_valid(step_of(*self, step@), opt_views(current@)),
    {
        let s = match get_value(&self.steps, step) {
            Some(s) => s,
            None => return false,
        };
        if s.status != StepStatus::Done {
            return false;
        }
        if s.files.len() == 0 {
            return false;
        }
        if s.files.len() > s.sha256.len() {
            return false;
        }
        let n = s.files.len();
        let mut i: usize = 0;
        while i < n
            invariant
                step_of(*self, step@) == Some(s@),
                s.status == StepStatus::Done,
                s.files@.len() > 0,
                n == s.files@.len(),
                n <= s.sha256@.len(),
                i <= n,
                forall|j: int| 0 <= j < i ==> j < current@.len() && #[trigger] opt_views(current@)[j] == Some(views(s.sha256@)[j]),
            decreases n - i,
        {
            if i >= current.len() {
                proof {
                    assert(!(i < opt_views(current@).len()));
                }
                return false;
            }
            match &current[i] {
                Some(h) => {
                    if !crate::keyed::same_text(h.as_str(), s.sha256[i].as_str()) {
                        proof {
                            assert(opt_views(current@)[i as int] != Some(views(s.sha256@)[i as int]));
                        }
                        return false;
                    }
                },
                None => {
                    proof {
                        assert(opt_views(current@)[i as int] is None);
                    }
                    return false;
                },
            }
            i = i + 1;
        }
        true
    }

    /// Returns true if step is Done (file check not needed — e.g. install_sh).
    pub fn step_is_done(&self, step: &str) -> (b: bool)
        ensures
            b == (step_of(*self, step@) matches Some(s) && s.status == StepStatus::Done),
    {
        match get_value(&self.steps, step) {
            Some(s) => s.status == StepStatus::Done,
            None => false,
        }
    }

    /// What the manifest records of a step.
    pub fn get_step(&self, step: &str) -> (r: Option<&BundleStep>)
        ensures
            match step_of(*self, step@) {
                Some(v) => r matches Some(b) && b@ == v,
                None => r is None,
            },
    {
        get_value(&self.steps, step)
    }

    /// Records a member of the settings snapshot; a snapshot that is not a
    /// JSON object is left as it is.
    pub fn set_config(&mut self, key: String, value: ConfigValue)
        ensures
            manifest_wf(*old(self)) ==> manifest_wf(*final(self)),
            final(self).version == old(self).version,
            final(self).created_at == old(self).created_at,
            final(self).updated_at == old(self).updated_at,
            final(self).steps == old(self).steps,
            match old(self).config {
                ManifestConfig::Object(_) => config_value(final(self).config, key@) == Some(value@)
                    && forall|k: Seq<char>| k != key@ ==> #[trigger] config_value(final(self).config, k)
                    == config_value(old(self).config, k),
                ManifestConfig::NotObject(_) => final(self).config == old(self).config,
            },
    {
        match &mut self.config {
            ManifestConfig::Object(entries) => {
                let ghost vv = value@;
                set_value(entries, key, value);
            },
            ManifestConfig::NotObject(_) => {},
        }
    }
}

// ───────────────────────── hashing ─────────────────────────

/// SHA-256 digest of `data`.
pub uninterp spec fn sha256_of(data: Seq<u8>) -> Seq<u8>;

/// `sha2::Sha256::digest`: the SHA-256 digest of `data`, 32 bytes long.
#[verifier::external_body]
fn sha256_digest(data: &[u8]) -> (d: Vec<u8>)
    ensures
        d@ == sha256_of(data@),
        d@.len() == 32,
{
    sha2::Sha256::digest(data).to_vec()
}

/// Lower-case hexadecimal digit for `n < 16`.
pub open spec fn hex_digit(n: nat) -> char {
    if n < 10 {
        crate::text::digit_char(n)
    } else if n == 10 {
        'a'
    } else if n == 11 {
        'b'
    } else if n == 12 {
        'c'
    } else if n == 13 {
        'd'
    } else if n == 14 {
        'e'
    } else {
        'f'
    }
}

/// Lower-case hexadecimal text of bytes, two digits per byte, as `hex::encode` writes it.
pub open spec fn hex_text(bytes: Seq<u8>) -> Seq<char>
    decreases bytes.len(),
{
    if bytes.len() == 0 {
        Seq::empty()
    } else {
        hex_text(bytes.drop_last()) + seq![
            hex_digit((bytes.last() / 16) as nat),
            hex_digit((bytes.last() % 16) as nat),
        ]
    }
}

fn hex_digit_str(n: u8) -> (s: &'static str)
    requires
        n < 16,
    ensures
        s@ == seq![hex_digit(n as nat)],
{
    proof {
        reveal_strlit("0");
        reveal_strlit("1");
        reveal_strlit("2");
        reveal_strlit("3");
        reveal_strlit("4");
        reveal_strlit("5");
        reveal_strlit("6");
        reveal_strlit("7");
        reveal_strlit("8");
        reveal_strlit("9");
        reveal_strlit("a");
        reveal_strlit("b");
        reveal_strlit("c");
        reveal_strlit("d");
        reveal_strlit("e");
        reveal_strlit("f");
    }
    match n {
        0 => "0",
        1 => "1",
        2 => "2",
        3 => "3",
        4 => "4",
        5 => "5",
        6 => "6",
        7 => "7",
        8 => "8",
        9 => "9",
        10 => "a",
        11 => "b",
        12 => "c",
        13 => "d",
        14 => "e",
        _ => "f",
    }
}

proof fn lemma_hex_len(bytes: Seq<u8>)
    ensures
        hex_text(bytes).len() == 2 * bytes.len(),
    decreases bytes.len(),
{
    if bytes.len() > 0 {
        lemma_hex_len(bytes.drop_last());
    }
}

/// Lower-case hexadecimal text of bytes.
pub fn hex_encode(bytes: &[u8]) -> (s: String)
    ensures
        s@ == hex_text(bytes@),
{
    let mut s = String::new();
    let mut i: usize = 0;
    while i < bytes.len()
        invariant
            i <= bytes@.len(),
            s@ == hex_text(bytes@.take(i as int)),
        decreases bytes.len() - i,
    {
        let b = bytes[i];
        s.append(hex_digit_str(b / 16));
        s.append(hex_digit_str(b % 16));
        proof {
            assert(bytes@.take(i + 1).drop_last() =~= bytes@.take(i as int));
            assert(bytes@.take(i + 1).last() == b);
            assert(hex_text(bytes@.take(i + 1)) =~= hex_text(bytes@.take(i as int)) + seq![
                hex_digit((b / 16) as nat),
                hex_digit((b % 16) as nat),
            ]);
        }
        i = i + 1;
    }
    proof {
        assert(bytes@.take(bytes@.len() as int) =~= bytes@);
    }
    s
}

/// Hex-encoded SHA-256 digest of `data`, as the manifest records it.
pub fn sha256_hex(data: &[u8]) -> (s: String)
    ensures
        s@ == hex_text(sha256_of(data@)),
        s@.len() == 64,
{
    let d = sha256_digest(data);
    proof {
        lemma_hex_len(d@);
    }
    hex_encode(d.as_slice())
}

/// Optional bytes as a plain value.
pub open spec fn opt_bytes(o: Option<Vec<u8>>) -> Option<Seq<u8>> {
    match o {
        Some(v) => Some(v@),
        None => None,
    }
}

/// The hash recorded for a file's content: its hex SHA-256 digest, or
/// `error` when the file could not be read.
pub open spec fn recorded_hash_text(content: Option<Seq<u8>>) -> Seq<char> {
    match content {
        Some(c) => hex_text(sha256_of(c)),
        None => "error"@,
    }
}

/// The hash a file has now, if it can be read.
pub open spec fn current_hash_text(content: Option<Seq<u8>>) -> Option<Seq<char>> {
    match content {
        Some(c) => Some(hex_text(sha256_of(c))),
        None => None,
    }
}

/// The hashes recorded for file contents, one per content.
pub open spec fn content_hashes(contents: Seq<Option<Vec<u8>>>) -> Seq<Seq<char>> {
    contents.map_values(|o: Option<Vec<u8>>| recorded_hash_text(opt_bytes(o)))
}

/// The hash recorded for a file's content: its hex SHA-256 digest, or
/// `error` when the file could not be read.
pub fn recorded_hash(content: &Option<Vec<u8>>) -> (s: String)
    ensures
        s@ == recorded_hash_text(opt_bytes(*content)),
{
    match content {
        Some(c) => sha256_hex(c.as_slice()),
        None => "error".to_string(),
    }
}

/// The hash a file has now, if it can be read.
pub fn current_hash(content: &Option<Vec<u8>>) -> (h: Option<String>)
    ensures
        opt_text(h) == current_hash_text(opt_bytes(*content)),
{
    match content {
        Some(c) => Some(sha256_hex(c.as_slice())),
        None => None,
    }
}

fn hashes_of(contents: &Vec<Option<Vec<u8>>>) -> (h: Vec<String>)
    ensures
        views(h@) == content_hashes(contents@),
{
    let mut h: Vec<String> = Vec::new();
    let mut i: usize = 0;
    while i < contents.len()
        invariant
            i <= contents@.len(),
            views(h@) == content_hashes(contents@).take(i as int),
        decreases contents.len() - i,
    {
        let r = recorded_hash(&contents[i]);
        let ghost old_h = h@;
        h.push(r);
        proof {
            assert(views(h@) =~= views(old_h).push(r@));
            assert(content_hashes(contents@).take(i + 1) =~= content_hashes(contents@).take(i as int).push(r@));
        }
        i = i + 1;
    }
    proof {
        assert(content_hashes(contents@).take(contents@.len() as int) =~= content_hashes(contents@));
    }
    h
}


// ───────────────────────── laws of the step records ─────────────────────────

/// A step marked done from the contents of its files counts as done, and
/// is valid as long as every file was readable when it was marked and still
/// holds the same content (`now[i]` is what `files[i]` holds now, `None`
/// when it cannot be read; `current` are the hashes found from it).
pub proof fn lemma_done_then_valid(
    m: Manifest,
    step: Seq<char>,
    files: Seq<Seq<char>>,
    contents: Seq<Option<Vec<u8>>>,
    now: Seq<Option<Seq<u8>>>,
    current: Seq<Option<Seq<char>>>,
)
    requires
        step_of(m, step) == Some(
            BundleStepView { status: StepStatus::Done, files, sha256: content_hashes(contents), note: None },
        ),
        files.len() > 0,
        contents.len() == files.len(),
        now.len() == files.len(),
        forall|i: int| 0 <= i < files.len() ==> (#[trigger] contents[i]) is Some && now[i] == opt_bytes(contents[i]),
        current == now.map_values(|c: Option<Seq<u8>>| current_hash_text(c)),
    ensures
        step_of(m, step) matches Some(s) && s.status == StepStatus::Done,
        step_valid(step_of(m, step), current),
{
    assert forall|i: int| 0 <= i < files.len() implies i < current.len() && #[trigger] current[i]
        == Some(content_hashes(contents)[i]) by {
        assert(contents[i] is Some);
        assert(current[i] == current_hash_text(now[i]));
    }
}

/// A step recorded with no files is never valid, whatever the disk holds:
/// the builder redoes it on every run.
pub proof fn lemma_no_files_never_valid(m: Manifest, step: Seq<char>, current: Seq<Option<Seq<char>>>)
    requires
        step_of(m, step) matches Some(s) && s.files.len() == 0,
    ensures
        !step_valid(step_of(m, step), current),
{
}

/// A step marked failed is neither done nor valid.
pub proof fn lemma_failed_not_done(m: Manifest, step: Seq<char>, current: Seq<Option<Seq<char>>>)
    requires
        step_of(m, step) matches Some(s) && s.status == StepStatus::Failed,
    ensures
        !(step_of(m, step) matches Some(s) && s.status == StepStatus::Done),
        !step_valid(step_of(m, step), current),
{
}

/// Once a file's content changes so that its hash differs from the recorded
/// one, its step is no longer valid.
pub proof fn lemma_changed_file_invalid(m: Manifest, step: Seq<char>, current: Seq<Option<Seq<char>>>, i: int)
    requires
        step_of(m, step) matches Some(s) && 0 <= i < s.files.len() && i < s.sha256.len() && (i >= current.len() || current[i] != Some(s.sha256[i])),
    ensures
        !step_valid(step_of(m, step), current),
{
}

} // verus!
