use vstd::prelude::*;

verus! {

/// The kind of bundle the builder produces.
#[derive(Debug, Clone, Copy, PartialEq, Eq, Structural)]
pub enum OutputKind {
    /// A single self-extracting `.sh` file.
    Sfx,
    /// A plain directory.
    Folder,
}

/// Distribution of the target server.
#[derive(Debug, Clone, Copy, PartialEq, Eq, Structural)]
pub enum TargetOs {
    Ubuntu,
    Debian,
    CentOs,
    Fedora,
    AlmaLinux,
    Rocky,
    Rhel,
    Alpine,
    Arch,
    Manjaro,
    OpenSuse,
}

/// Human-readable name of a distribution.
pub open spec fn os_display_name(os: TargetOs) -> Seq<char> {
    match os {
        TargetOs::Ubuntu => "Ubuntu"@,
        TargetOs::Debian => "Debian"@,
        TargetOs::CentOs => "CentOS"@,
        TargetOs::Fedora => "Fedora"@,
        TargetOs::AlmaLinux => "AlmaLinux"@,
        TargetOs::Rocky => "Rocky Linux"@,
        TargetOs::Rhel => "RHEL"@,
        TargetOs::Alpine => "Alpine Linux"@,
        TargetOs::Arch => "Arch Linux"@,
        TargetOs::Manjaro => "Manjaro"@,
        TargetOs::OpenSuse => "OpenSUSE"@,
    }
}

/// The `ID` of a distribution in `/etc/os-release`.
pub open spec fn os_release_id(os: TargetOs) -> Seq<char> {
    match os {
        TargetOs::Ubuntu => "ubuntu"@,
        TargetOs::Debian => "debian"@,
        TargetOs::CentOs => "centos"@,
        TargetOs::Fedora => "fedora"@,
        TargetOs::AlmaLinux => "almalinux"@,
        TargetOs::Rocky => "rocky"@,
        TargetOs::Rhel => "rhel"@,
        TargetOs::Alpine => "alpine"@,
        TargetOs::Arch => "arch"@,
        TargetOs::Manjaro => "manjaro"@,
        TargetOs::OpenSuse => "opensuse-leap"@,
    }
}

impl TargetOs {
    pub fn display_name(&self) -> (name: &'static str)
        ensures
            name@ == os_display_name(*self),
    {
        match self {
            TargetOs::Ubuntu => "Ubuntu",
            TargetOs::Debian => "Debian",
            TargetOs::CentOs => "CentOS",
            TargetOs::Fedora => "Fedora",
            TargetOs::AlmaLinux => "AlmaLinux",
            TargetOs::Rocky => "Rocky Linux",
            TargetOs::Rhel => "RHEL",
            TargetOs::Alpine => "Alpine Linux",
            TargetOs::Arch => "Arch Linux",
            TargetOs::Manjaro => "Manjaro",
            TargetOs::OpenSuse => "OpenSUSE",
        }
    }

    /// The ID string used in /etc/os-release
    pub fn release_id(&self) -> (id: &'static str)
        ensures
            id@ == os_release_id(*self),
    {
        match self {
            TargetOs::Ubuntu => "ubuntu",
            TargetOs::Debian => "debian",
            TargetOs::CentOs => "centos",
            TargetOs::Fedora => "fedora",
            TargetOs::AlmaLinux => "almalinux",
            TargetOs::Rocky => "rocky",
            TargetOs::Rhel => "rhel",
            TargetOs::Alpine => "alpine",
            TargetOs::Arch => "arch",
            TargetOs::Manjaro => "manjaro",
            TargetOs::OpenSuse => "opensuse-leap",
        }
    }
}


/// CPU architecture of the target server.
#[derive(Debug, Clone, Copy, PartialEq, Eq, Structural)]
pub enum TargetArch {
    Amd64,
    Arm64,
    Armv7,
    I386,
    S390x,
}

/// Suffix of the release asset built for an architecture.
pub open spec fn arch_suffix(arch: TargetArch) -> Seq<char> {
    match arch {
        TargetArch::Amd64 => "amd64"@,
        TargetArch::Arm64 => "arm64"@,
        TargetArch::Armv7 => "armv7"@,
        TargetArch::I386 => "386"@,
        TargetArch::S390x => "s390x"@,
    }
}

/// Label of an architecture in the wizard.
pub open spec fn arch_display_name(arch: TargetArch) -> Seq<char> {
    match arch {
        TargetArch::Amd64 => "amd64 (x86_64) — رایج‌ترین"@,
        TargetArch::Arm64 => "arm64 (aarch64)"@,
        TargetArch::Armv7 => "armv7"@,
        TargetArch::I386 => "386 (x86 32-bit)"@,
        TargetArch::S390x => "s390x (IBM)"@,
    }
}

impl TargetArch {
    pub fn xui_suffix(&self) -> (s: &'static str)
        ensures
            s@ == arch_suffix(*self),
    {
        match self {
            TargetArch::Amd64 => "amd64",
            TargetArch::Arm64 => "arm64",
            TargetArch::Armv7 => "armv7",
            TargetArch::I386 => "386",
            TargetArch::S390x => "s390x",
        }
    }

    pub fn display_name(&self) -> (s: &'static str)
        ensures
            s@ == arch_display_name(*self),
    {
        match self {
            TargetArch::Amd64 => "amd64 (x86_64) — رایج‌ترین",
            TargetArch::Arm64 => "arm64 (aarch64)",
            TargetArch::Armv7 => "armv7",
            TargetArch::I386 => "386 (x86 32-bit)",
            TargetArch::S390x => "s390x (IBM)",
        }
    }
}

/// How the system packages reach the target server.
#[derive(Debug, Clone, Copy, PartialEq, Eq, Structural)]
pub enum PackageMode {
    /// Install packages from internet during installation
    Online,
    /// Download packages now, install offline
    Offline,
}

/// Which panel release to bundle.
#[derive(Debug, Clone)]
pub enum XuiVersion {
    Latest,
    /// A release tag, e.g. "v2.5.1"
    Specific(String),
}

impl XuiVersion {
    /// The release tag, when a specific one was chosen.
    pub fn tag(&self) -> (t: Option<&str>)
        ensures
            match self {
                XuiVersion::Latest => t is None,
                XuiVersion::Specific(v) => t matches Some(s) && s@ == v@,
            },
    {
        match self {
            XuiVersion::Latest => None,
            XuiVersion::Specific(v) => Some(v.as_str()),
        }
    }
}

/// How the panel gets its TLS certificate.
#[derive(Debug, Clone)]
pub enum SslConfig {
    /// No SSL — plain HTTP
    Disabled,
    /// User provides existing cert + key files
    Custom { fullchain_path: String, privkey_path: String },
    /// A self-signed certificate for `common_name`; with `dynamic` the
    /// installer generates it on the target server instead of the builder.
    SelfSigned { common_name: String, dynamic: bool },
    /// A certificate for a domain from Let's Encrypt.
    LetsEncrypt { domain: String },
}

/// Which parts of a full installation a bundle carries (all three for an
/// installer; fewer for a lightweight updater).
#[derive(Debug, Clone, Copy, PartialEq, Eq, Structural)]
pub struct IncludedComponents {
    pub system_packages: bool,
    pub ssl: bool,
    pub xui_panel: bool,
}

/// All configuration collected from the user during the wizard phase.
/// This is the single source of truth passed to downloader and generator.
#[derive(Debug, Clone)]
pub struct BuildConfig {
    pub os: TargetOs,
    pub arch: TargetArch,
    /// e.g. "22.04", "9"
    pub os_version: Option<String>,
    pub package_mode: PackageMode,
    pub xui_version: XuiVersion,
    pub panel_port: u16,
    pub panel_username: String,
    pub panel_password: String,
    pub panel_web_base_path: String,
    pub ssl: SslConfig,
    pub server_host: String,
    pub output_dir: String,
    pub output_kind: OutputKind,
    pub included: IncludedComponents,
}

} // verus!
