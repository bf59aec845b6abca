//! The decisions of the settings wizard: which question comes next and what
//! each answer sets. The questions themselves are asked by the caller, which
//! hands each answer back.
use crate::os_detect::{offline_supported, supports_offline_packages};
use crate::prompt::{is_ascii_alphanumeric, random_port, random_string};
use crate::resume::port_from_input;
use crate::state::{
    BuildConfig, IncludedComponents, OutputKind, PackageMode, SslConfig, TargetArch, TargetOs,
    XuiVersion,
};
use crate::text::{
    has_prefix, parse_unsigned, parse_unsigned_str, split_char, split_on, starts_with, trim,
    trim_str, views,
};
use vstd::prelude::*;

verus! {

broadcast use vstd::string::group_string_axioms;

/// A question of the wizard.
#[derive(Debug, Clone, Copy, PartialEq, Eq, Structural)]
pub enum Question {
    /// Whether to choose the components of the bundle (yes / no).
    CustomizeComponents,
    /// Which of packages, SSL and panel to include (several positions).
    Components,
    /// The target distribution (a position).
    TargetOs,
    /// The distribution's release version (text, may be empty).
    OsVersion,
    /// The target architecture (a position).
    TargetArch,
    /// Online or offline packages (a position).
    PackageMode,
    /// Latest or a specific panel version (a position).
    VersionKind,
    /// The specific panel version (text).
    VersionTag,
    /// The kind of SSL (a position).
    SslKind,
    /// Host shown in the panel's address (text, `127.0.0.1` by default).
    AccessHost,
    /// Path of the custom full-chain certificate (text).
    CertPath,
    /// Path of the custom private key (text).
    KeyPath,
    /// Host of the self-signed certificate (text).
    CertHost,
    /// Whether the installer generates the certificate on the target (yes / no).
    DynamicSsl,
    /// Domain for Let's Encrypt (text).
    LetsEncryptDomain,
    /// Random panel port and credentials, drawn by `draw_panel_settings`.
    PanelSettings,
    /// Single file or folder (a position).
    OutputKind,
    /// Where to store the bundle (text, checked for writability by the caller).
    OutputDir,
    /// Whether the settings are right (yes / no).
    FinalConfirm,
}

/// Port and credentials of the panel.
#[derive(Debug)]
pub struct PanelSettings {
    pub port: u16,
    pub username: String,
    pub password: String,
    pub web_base_path: String,
}

/// An answer to a question.
#[derive(Debug)]
pub enum Answer {
    YesNo(bool),
    Position(usize),
    Positions(Vec<usize>),
    Text(String),
    Panel(PanelSettings),
}

/// What the wizard asks for, or how it ended.
#[derive(Debug)]
pub enum WizardEvent {
    /// Ask this question next.
    Ask(Question),
    /// No component was chosen: ask for the components again.
    NoComponentChosen,
    /// Offline packages were asked for a distribution without them: online
    /// mode is used. Then ask this question.
    OfflineUnsupported(Question),
    /// The Let's Encrypt domain is an IPv4 address: the wizard stops.
    LetsEncryptNeedsDomain,
    /// The user did not confirm the settings: the wizard stops.
    Cancelled,
    /// The settings are complete.
    Finished(BuildConfig),
}

/// The settings gathered so far and the question waiting for an answer.
#[derive(Debug)]
pub struct Wizard {
    pub question: Question,
    pub included: IncludedComponents,
    pub os: TargetOs,
    pub os_version: Option<String>,
    pub arch: TargetArch,
    pub package_mode: PackageMode,
    pub xui_version: XuiVersion,
    /// Position chosen in the SSL menu.
    pub ssl_choice: usize,
    pub ssl: SslConfig,
    pub cert_path: String,
    pub key_path: String,
    pub server_host: String,
    pub panel_port: u16,
    pub panel_username: String,
    pub panel_password: String,
    pub panel_web_base_path: String,
    pub output_kind: OutputKind,
    pub output_dir: String,
}

/// The distribution at a position of the wizard's menu (Ubuntu otherwise).
pub open spec fn os_at(position: nat) -> TargetOs {
    if position == 0 {
        TargetOs::Ubuntu
    } else if position == 1 {
        TargetOs::Debian
    } else if position == 2 {
        TargetOs::CentOs
    } else if position == 3 {
        TargetOs::Fedora
    } else if position == 4 {
        TargetOs::AlmaLinux
    } else if position == 5 {
        TargetOs::Alpine
    } else if position == 6 {
        TargetOs::Arch
    } else if position == 7 {
        TargetOs::OpenSuse
    } else {
        TargetOs::Ubuntu
    }
}

/// The architecture at a position of the wizard's menu (amd64 otherwise).
pub open spec fn arch_at(position: nat) -> TargetArch {
    if position == 1 {
        TargetArch::Arm64
    } else if position == 2 {
        TargetArch::Armv7
    } else if position == 3 {
        TargetArch::I386
    } else if position == 4 {
        TargetArch::S390x
    } else {
        TargetArch::Amd64
    }
}

/// The components chosen by the positions selected (0 packages, 1 SSL, 2 panel).
pub open spec fn components_of(selected: Seq<usize>) -> IncludedComponents {
    IncludedComponents {
        system_packages: selected.contains(0usize),
        ssl: selected.contains(1usize),
        xui_panel: selected.contains(2usize),
    }
}

/// A release tag as the wizard records it: with a leading `v`.
pub open spec fn version_tag_text(v: Seq<char>) -> Seq<char> {
    if starts_with(v, "v"@) {
        v
    } else {
        "v"@ + v
    }
}

/// `host` is four dot-separated numbers from 0 to 255, as an IPv4 address is.
pub open spec fn ipv4_like(host: Seq<char>) -> bool {
    let parts = split_on(host, '.');
    parts.len() == 4 && forall|i: int| 0 <= i < 4 ==> #[trigger] parse_unsigned(parts[i], 255) is Some
}

/// Whether a host is written as an IPv4 address.
pub fn is_ipv4_like(host: &str) -> (b: bool)
    ensures
        b == ipv4_like(host@),
{
    let parts = split_char(host, '.');
    if parts.len() != 4 {
        return false;
    }
    let ghost ps = views(parts@);
    let mut i: usize = 0;
    while i < 4
        invariant
            parts@.len() == 4,
            ps == views(parts@),
            ps == split_on(host@, '.'),
            i <= 4,
            forall|j: int| 0 <= j < i ==> #[trigger] parse_unsigned(ps[j], 255) is Some,
        decreases 4 - i,
    {
        if parse_unsigned_str(parts[i].as_str(), 255).is_none() {
            proof {
                assert(ps[i as int] == parts@[i as int]@);
            }
            return false;
        }
        proof {
            assert(ps[i as int] == parts@[i as int]@);
        }
        i = i + 1;
    }
    true
}

/// Question after the architecture, the package mode and the version, in turn.
pub open spec fn after_arch(inc: IncludedComponents) -> Question {
    if inc.system_packages {
        Question::PackageMode
    } else {
        after_packages(inc)
    }
}

/// Question after the package stage.
pub open spec fn after_packages(inc: IncludedComponents) -> Question {
    if inc.xui_panel {
        Question::VersionKind
    } else {
        ssl_stage(inc)
    }
}

/// First question of the SSL stage.
pub open spec fn ssl_stage(inc: IncludedComponents) -> Question {
    if inc.ssl {
        Question::SslKind
    } else if inc.xui_panel {
        Question::AccessHost
    } else {
        panel_stage(inc)
    }
}

/// First question of the panel stage.
pub open spec fn panel_stage(inc: IncludedComponents) -> Question {
    if inc.xui_panel {
        Question::PanelSettings
    } else {
        Question::OutputKind
    }
}

impl Wizard {
    /// A wizard at its first question, with the defaults of a full installer.
    pub fn new() -> (w: Wizard)
        ensures
            w.question == Question::CustomizeComponents,
            w.included == (IncludedComponents { system_packages: true, ssl: true, xui_panel: true }),
            w.package_mode == PackageMode::Online,
            w.xui_version is Latest,
            w.ssl is Disabled,
            w.server_host@ == "127.0.0.1"@,
            w.panel_port == 8080,
            w.panel_username@ == ""@,
            w.panel_password@ == ""@,
            w.panel_web_base_path@ == ""@,
    {
        Wizard {
            question: Question::CustomizeComponents,
            included: IncludedComponents { system_packages: true, ssl: true, xui_panel: true },
            os: TargetOs::Ubuntu,
            os_version: None,
            arch: TargetArch::Amd64,
            package_mode: PackageMode::Online,
            xui_version: XuiVersion::Latest,
            ssl_choice: 0,
            ssl: SslConfig::Disabled,
            cert_path: "".to_string(),
            key_path: "".to_string(),
            server_host: "127.0.0.1".to_string(),
            panel_port: 8080,
            panel_username: "".to_string(),
            panel_password: "".to_string(),
            panel_web_base_path: "".to_string(),
            output_kind: OutputKind::Sfx,
            output_dir: "".to_string(),
        }
    }

    fn ask(&mut self, q: Question) -> (e: WizardEvent)
        ensures
            *final(self) == (Wizard { question: q, ..*old(self) }),
            e matches WizardEvent::Ask(x) && x == q,
    {
        self.question = q;
        WizardEvent::Ask(q)
    }

    fn next_after_arch(&self) -> (q: Question)
        ensures
            q == after_arch(self.included),
    {
        if self.included.system_packages {
            Question::PackageMode
        } else {
            self.next_after_packages()
        }
    }

    fn next_after_packages(&self) -> (q: Question)
        ensures
            q == after_packages(self.included),
    {
        if self.included.xui_panel {
            Question::VersionKind
        } else {
            self.next_ssl_stage()
        }
    }

    fn next_ssl_stage(&self) -> (q: Question)
        ensures
            q == ssl_stage(self.included),
    {
        if self.included.ssl {
            Question::SslKind
        } else if self.included.xui_panel {
            Question::AccessHost
        } else {
            self.next_panel_stage()
        }
    }

    fn next_panel_stage(&self) -> (q: Question)
        ensures
            q == panel_stage(self.included),
    {
        if self.included.xui_panel {
            Question::PanelSettings
        } else {
            Question::OutputKind
        }
    }

    /// Takes the answer to the pending question. An answer of the wrong kind
    /// changes nothing and asks the same question again.
    pub fn answer(&mut self, a: Answer) -> (e: WizardEvent)
        ensures
            wizard_step(*old(self), a, *final(self), e),
    {
        let q = self.question;
        match (q, a) {
            (Question::CustomizeComponents, Answer::YesNo(yes)) => {
                if yes {
                    self.ask(Question::Components)
                } else {
                    self.ask(Question::TargetOs)
                }
            },
            (Question::Components, Answer::Positions(selected)) => {
                if selected.len() == 0 {
                    WizardEvent::NoComponentChosen
                } else {
                    self.included = IncludedComponents {
                        system_packages: contains_position(&selected, 0),
                        ssl: contains_position(&selected, 1),
                        xui_panel: contains_position(&selected, 2),
                    };
                    self.ask(Question::TargetOs)
                }
            },
            (Question::TargetOs, Answer::Position(p)) => {
                self.os = os_at_exec(p);
                self.ask(Question::OsVersion)
            },
            (Question::OsVersion, Answer::Text(t)) => {
                let v = trim_str(t.as_str());
                self.os_version = if v.as_str().unicode_len() == 0 {
                    None
                } else {
                    Some(v)
                };
                self.ask(Question::TargetArch)
            },
            (Question::TargetArch, Answer::Position(p)) => {
                self.arch = arch_at_exec(p);
                let next = self.next_after_arch();
                self.ask(next)
            },
            (Question::PackageMode, Answer::Position(p)) => {
                let next = self.next_after_packages();
                if p == 1 {
                    if supports_offline_packages(&self.os) {
                        self.package_mode = PackageMode::Offline;
                        self.ask(next)
                    } else {
                        self.package_mode = PackageMode::Online;
                        self.question = next;
                        WizardEvent::OfflineUnsupported(next)
                    }
                } else {
                    self.package_mode = PackageMode::Online;
                    self.ask(next)
                }
            },
            (Question::VersionKind, Answer::Position(p)) => {
                if p == 0 {
                    self.xui_version = XuiVersion::Latest;
                    let next = self.next_ssl_stage();
                    self.ask(next)
                } else {
                    self.ask(Question::VersionTag)
                }
            },
            (Question::VersionTag, Answer::Text(t)) => {
                let tag = if has_prefix(t.as_str(), "v") {
                    t
                } else {
                    let mut s = "v".to_string();
                    s.append(t.as_str());
                    s
                };
                self.xui_version = XuiVersion::Specific(tag);
                let next = self.next_ssl_stage();
                self.ask(next)
            },
            (Question::SslKind, Answer::Position(p)) => {
                self.ssl_choice = p;
                if p == 0 {
                    self.ask(Question::AccessHost)
                } else if p == 1 {
                    self.ask(Question::CertPath)
                } else if p == 2 {
                    self.ask(Question::CertHost)
                } else {
                    self.ask(Question::LetsEncryptDomain)
                }
            },
            (Question::CertPath, Answer::Text(t)) => {
                self.cert_path = trim_str(t.as_str());
                self.ask(Question::KeyPath)
            },
            (Question::KeyPath, Answer::Text(t)) => {
                self.key_path = trim_str(t.as_str());
                self.ask(Question::AccessHost)
            },
            (Question::AccessHost, Answer::Text(t)) => {
                self.server_host = trim_str(t.as_str());
                if self.included.ssl && self.ssl_choice == 1 {
                    self.ssl = SslConfig::Custom {
                        fullchain_path: self.cert_path.clone(),
                        privkey_path: self.key_path.clone(),
                    };
                } else {
                    self.ssl = SslConfig::Disabled;
                }
                let next = self.next_panel_stage();
                self.ask(next)
            },
            (Question::CertHost, Answer::Text(t)) => {
                self.server_host = trim_str(t.as_str());
                self.ask(Question::DynamicSsl)
            },
            (Question::DynamicSsl, Answer::YesNo(dynamic)) => {
                self.ssl = SslConfig::SelfSigned { common_name: self.server_host.clone(), dynamic };
                let next = self.next_panel_stage();
                self.ask(next)
            },
            (Question::LetsEncryptDomain, Answer::Text(t)) => {
                self.server_host = trim_str(t.as_str());
                if is_ipv4_like(self.server_host.as_str()) {
                    WizardEvent::LetsEncryptNeedsDomain
                } else {
                    self.ssl = SslConfig::LetsEncrypt { domain: self.server_host.clone() };
                    let next = self.next_panel_stage();
                    self.ask(next)
                }
            },
            (Question::PanelSettings, Answer::Panel(p)) => {
                self.panel_port = p.port;
                self.panel_username = p.username;
                self.panel_password = p.password;
                self.panel_web_base_path = p.web_base_path;
                self.ask(Question::OutputKind)
            },
            (Question::OutputKind, Answer::Position(p)) => {
                self.output_kind = if p == 0 {
                    OutputKind::Sfx
                } else {
                    OutputKind::Folder
                };
                self.ask(Question::OutputDir)
            },
            (Question::OutputDir, Answer::Text(t)) => {
                self.output_dir = trim_str(t.as_str());
                self.ask(Question::FinalConfirm)
            },
            (Question::FinalConfirm, Answer::YesNo(ok)) => {
                if ok {
                    WizardEvent::Finished(self.to_config())
                } else {
                    WizardEvent::Cancelled
                }
            },
            (q2, _) => WizardEvent::Ask(q2),
        }
    }

    fn to_config(&self) -> (c: BuildConfig)
        ensures
            config_of(*self, c),
    {
        BuildConfig {
            os: self.os,
            arch: self.arch,
            os_version: match &self.os_version {
                Some(v) => Some(v.clone()),
                None => None,
            },
            package_mode: self.package_mode,
            xui_version: match &self.xui_version {
                XuiVersion::Latest => XuiVersion::Latest,
                XuiVersion::Specific(v) => XuiVersion::Specific(v.clone()),
            },
            panel_port: self.panel_port,
            panel_username: self.panel_username.clone(),
            panel_password: self.panel_password.clone(),
            panel_web_base_path: self.panel_web_base_path.clone(),
            ssl: match &self.ssl {
                SslConfig::Disabled => SslConfig::Disabled,
                SslConfig::Custom { fullchain_path, privkey_path } => SslConfig::Custom {
                    fullchain_path: fullchain_path.clone(),
                    privkey_path: privkey_path.clone(),
                },
                SslConfig::SelfSigned { common_name, dynamic } => SslConfig::SelfSigned {
                    common_name: common_name.clone(),
                    dynamic: *dynamic,
                },
                SslConfig::LetsEncrypt { domain } => SslConfig::LetsEncrypt { domain: domain.clone() },
            },
            server_host: self.server_host.clone(),
            output_dir: self.output_dir.clone(),
            output_kind: self.output_kind,
            included: self.included,
        }
    }
}

/// `c` holds the settings the wizard gathered.
pub open spec fn config_of(w: Wizard, c: BuildConfig) -> bool {
    c == BuildConfig {
        os: w.os,
        arch: w.arch,
        os_version: w.os_version,
        package_mode: w.package_mode,
        xui_version: w.xui_version,
        panel_port: w.panel_port,
        panel_username: w.panel_username,
        panel_password: w.panel_password,
        panel_web_base_path: w.panel_web_base_path,
        ssl: w.ssl,
        server_host: w.server_host,
        output_dir: w.output_dir,
        output_kind: w.output_kind,
        included: w.included,
    }
}

/// One step of the wizard: `new` and `e` are what answer `a` makes of `old`.
pub open spec fn wizard_step(old: Wizard, a: Answer, new: Wizard, e: WizardEvent) -> bool {
    let asks = |q: Question| e == WizardEvent::Ask(q) && new.question == q;
    match (old.question, a) {
        (Question::CustomizeComponents, Answer::YesNo(yes)) => new == (Wizard { question: new.question, ..old })
            && asks(if yes { Question::Components } else { Question::TargetOs }),
        (Question::Components, Answer::Positions(selected)) => if selected@.len() == 0 {
            new == old && e is NoComponentChosen
        } else {
            new == (Wizard { question: new.question, included: components_of(selected@), ..old })
                && asks(Question::TargetOs)
        },
        (Question::TargetOs, Answer::Position(p)) => new == (Wizard { question: new.question, os: os_at(p as nat), ..old })
            && asks(Question::OsVersion),
        (Question::OsVersion, Answer::Text(t)) => new == (Wizard { question: new.question, os_version: new.os_version, ..old })
            && (if trim(t@).len() == 0 { new.os_version is None } else { new.os_version matches Some(v) && v@ == trim(t@) })
            && asks(Question::TargetArch),
        (Question::TargetArch, Answer::Position(p)) => new == (Wizard { question: new.question, arch: arch_at(p as nat), ..old })
            && asks(after_arch(old.included)),
        (Question::PackageMode, Answer::Position(p)) => if p == 1 && offline_supported(old.os) {
            new == (Wizard { question: new.question, package_mode: PackageMode::Offline, ..old })
                && asks(after_packages(old.included))
        } else if p == 1 {
            new == (Wizard { question: after_packages(old.included), package_mode: PackageMode::Online, ..old })
                && e == WizardEvent::OfflineUnsupported(after_packages(old.included))
        } else {
            new == (Wizard { question: new.question, package_mode: PackageMode::Online, ..old })
                && asks(after_packages(old.included))
        },
        (Question::VersionKind, Answer::Position(p)) => if p == 0 {
            new == (Wizard { question: new.question, xui_version: XuiVersion::Latest, ..old })
                && asks(ssl_stage(old.included))
        } else {
            new == (Wizard { question: new.question, ..old }) && asks(Question::VersionTag)
        },
        (Question::VersionTag, Answer::Text(t)) => new == (Wizard { question: new.question, xui_version: new.xui_version, ..old })
            && (new.xui_version matches XuiVersion::Specific(v) && v@ == version_tag_text(t@))
            && asks(ssl_stage(old.included)),
        (Question::SslKind, Answer::Position(p)) => new == (Wizard { question: new.question, ssl_choice: p, ..old })
            && asks(if p == 0 {
                Question::AccessHost
            } else if p == 1 {
                Question::CertPath
            } else if p == 2 {
                Question::CertHost
            } else {
                Question::LetsEncryptDomain
            }),
        (Question::CertPath, Answer::Text(t)) => new == (Wizard { question: new.question, cert_path: new.cert_path, ..old })
            && new.cert_path@ == trim(t@) && asks(Question::KeyPath),
        (Question::KeyPath, Answer::Text(t)) => new == (Wizard { question: new.question, key_path: new.key_path, ..old })
            && new.key_path@ == trim(t@) && asks(Question::AccessHost),
        (Question::AccessHost, Answer::Text(t)) => new == (Wizard { question: new.question, server_host: new.server_host, ssl: new.ssl, ..old })
            && new.server_host@ == trim(t@)
            && (if old.included.ssl && old.ssl_choice == 1 {
                new.ssl matches SslConfig::Custom { fullchain_path, privkey_path }
                    && fullchain_path@ == old.cert_path@ && privkey_path@ == old.key_path@
            } else {
                new.ssl is Disabled
            })
            && asks(panel_stage(old.included)),
        (Question::CertHost, Answer::Text(t)) => new == (Wizard { question: new.question, server_host: new.server_host, ..old })
            && new.server_host@ == trim(t@) && asks(Question::DynamicSsl),
        (Question::DynamicSsl, Answer::YesNo(dynamic)) => new == (Wizard { question: new.question, ssl: new.ssl, ..old })
            && (new.ssl matches SslConfig::SelfSigned { common_name, dynamic: d } && common_name@ == old.server_host@ && d == dynamic)
            && asks(panel_stage(old.included)),
        (Question::LetsEncryptDomain, Answer::Text(t)) => if ipv4_like(trim(t@)) {
            new == (Wizard { server_host: new.server_host, ..old }) && new.server_host@ == trim(t@)
                && e is LetsEncryptNeedsDomain
        } else {
            new == (Wizard { question: new.question, server_host: new.server_host, ssl: new.ssl, ..old })
                && new.server_host@ == trim(t@)
                && (new.ssl matches SslConfig::LetsEncrypt { domain } && domain@ == trim(t@))
                && asks(panel_stage(old.included))
        },
        (Question::PanelSettings, Answer::Panel(p)) => new == (Wizard {
            question: new.question,
            panel_port: p.port,
            panel_username: p.username,
            panel_password: p.password,
            panel_web_base_path: p.web_base_path,
            ..old
        }) && asks(Question::OutputKind),
        (Question::OutputKind, Answer::Position(p)) => new == (Wizard {
            question: new.question,
            output_kind: if p == 0 { OutputKind::Sfx } else { OutputKind::Folder },
            ..old
        }) && asks(Question::OutputDir),
        (Question::OutputDir, Answer::Text(t)) => new == (Wizard { question: new.question, output_dir: new.output_dir, ..old })
            && new.output_dir@ == trim(t@) && asks(Question::FinalConfirm),
        (Question::FinalConfirm, Answer::YesNo(ok)) => new == old && if ok {
            e matches WizardEvent::Finished(c) && config_of(old, c)
        } else {
            e is Cancelled
        },
        (q, _) => new == old && e == WizardEvent::Ask(q),
    }
}

fn contains_position(selected: &Vec<usize>, p: usize) -> (b: bool)
    ensures
        b == selected@.contains(p),
{
    let mut i: usize = 0;
    while i < selected.len()
        invariant
            i <= selected@.len(),
            forall|j: int| 0 <= j < i ==> selected@[j] != p,
        decreases selected.len() - i,
    {
        if selected[i] == p {
            return true;
        }
        i = i + 1;
    }
    false
}

fn os_at_exec(p: usize) -> (os: TargetOs)
    ensures
        os == os_at(p as nat),
{
    if p == 0 {
        TargetOs::Ubuntu
    } else if p == 1 {
        TargetOs::Debian
    } else if p == 2 {
        TargetOs::CentOs
    } else if p == 3 {
        TargetOs::Fedora
    } else if p == 4 {
        TargetOs::AlmaLinux
    } else if p == 5 {
        TargetOs::Alpine
    } else if p == 6 {
        TargetOs::Arch
    } else if p == 7 {
        TargetOs::OpenSuse
    } else {
        TargetOs::Ubuntu
    }
}

fn arch_at_exec(p: usize) -> (a: TargetArch)
    ensures
        a == arch_at(p as nat),
{
    if p == 1 {
        TargetArch::Arm64
    } else if p == 2 {
        TargetArch::Armv7
    } else if p == 3 {
        TargetArch::I386
    } else if p == 4 {
        TargetArch::S390x
    } else {
        TargetArch::Amd64
    }
}

/// Draws the random panel settings of a new installation: a port from 1024
/// to 62000, and a user name, password and web path of 8, 10 and 12 ASCII
/// letters and digits.
pub fn draw_panel_settings() -> (p: PanelSettings)
    ensures
        1024 <= p.port <= 62000,
        p.username@.len() == 8,
        p.password@.len() == 10,
        p.web_base_path@.len() == 12,
        forall|i: int| 0 <= i < p.username@.len() ==> is_ascii_alphanumeric(#[trigger] p.username@[i]),
        forall|i: int| 0 <= i < p.password@.len() ==> is_ascii_alphanumeric(#[trigger] p.password@[i]),
        forall|i: int| 0 <= i < p.web_base_path@.len() ==> is_ascii_alphanumeric(#[trigger] p.web_base_path@[i]),
{
    let port = random_port();
    let username = random_string(8);
    let password = random_string(10);
    let web_base_path = random_string(12);
    PanelSettings { port, username, password, web_base_path }
}


/// A specific panel version typed in the wizard is recorded as a release
/// tag: unchanged when it already starts with `v` (as in the suggested
/// `v2.5.1`), and with one `v` put in front otherwise; so the recorded tag
/// always starts with `v` and never gains a second one.
pub proof fn lemma_version_tag_recorded(old: Wizard, t: String, a: Answer, new: Wizard, e: WizardEvent)
    requires
        old.question == Question::VersionTag,
        a == Answer::Text(t),
        wizard_step(old, a, new, e),
    ensures
        new.xui_version matches XuiVersion::Specific(v) && starts_with(v@, "v"@) && (starts_with(t@, "v"@)
            ==> v@ == t@) && (!starts_with(t@, "v"@) ==> v@ == "v"@ + t@),
{
    reveal_strlit("v");
    if !starts_with(t@, "v"@) {
        assert(("v"@ + t@).subrange(0, 1) =~= "v"@);
    }
}

/// A typed setting without the spaces around it, or `fallback` when
/// nothing but spaces was typed.
pub open spec fn text_or(input: Seq<char>, fallback: Seq<char>) -> Seq<char> {
    if trim(input).len() == 0 {
        fallback
    } else {
        trim(input)
    }
}

fn text_or_exec(input: &str, fallback: String) -> (r: String)
    ensures
        r@ == text_or(input@, fallback@),
{
    let t = trim_str(input);
    if t.as_str().unicode_len() == 0 {
        fallback
    } else {
        t
    }
}

/// The panel settings after the user customised the drawn ones: a typed
/// port from 1024 to 65535 (spaces around allowed) replaces the drawn port,
/// and a typed user name, password or web path replaces the drawn one; an
/// answer that is not a port, or is empty, keeps what was drawn.
pub fn customize_panel_settings(
    drawn: PanelSettings,
    port: &str,
    username: &str,
    password: &str,
    web_base_path: &str,
) -> (p: PanelSettings)
    ensures
        p.port == match port_from_input(port@) {
            Some(n) => n,
            None => drawn.port,
        },
        p.username@ == text_or(username@, drawn.username@),
        p.password@ == text_or(password@, drawn.password@),
        p.web_base_path@ == text_or(web_base_path@, drawn.web_base_path@),
{
    let t = trim_str(port);
    let new_port = match parse_unsigned_str(t.as_str(), 65535) {
        Some(n) => if n >= 1024 {
            n as u16
        } else {
            drawn.port
        },
        None => drawn.port,
    };
    PanelSettings {
        port: new_port,
        username: text_or_exec(username, drawn.username),
        password: text_or_exec(password, drawn.password),
        web_base_path: text_or_exec(web_base_path, drawn.web_base_path),
    }
}

/// Offline packages are only ever chosen for a distribution that offers
/// them, and never before the distribution is chosen.
pub open spec fn offline_choice_sound(w: Wizard) -> bool {
    w.package_mode == PackageMode::Offline ==> offline_supported(w.os) && w.question != Question::TargetOs
        && w.question != Question::CustomizeComponents && w.question != Question::Components
}

/// The wizard starts with online packages.
pub proof fn lemma_offline_sound_initially(w: Wizard)
    requires
        w.package_mode == PackageMode::Online,
    ensures
        offline_choice_sound(w),
{
}

/// Every answer keeps offline packages tied to a distribution that offers
/// them; so the settings the wizard finishes with ask for offline packages
/// only where they can be bundled.
pub proof fn lemma_offline_sound_step(old: Wizard, a: Answer, new: Wizard, e: WizardEvent)
    requires
        offline_choice_sound(old),
        wizard_step(old, a, new, e),
    ensures
        offline_choice_sound(new),
        e matches WizardEvent::Finished(c) ==> (c.package_mode == PackageMode::Offline ==> offline_supported(c.os)),
{
}

} // verus!
