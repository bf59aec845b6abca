//! What the builder knows about each distribution: its package manager,
//! where its packages are mirrored, and how the installer installs them.
use crate::state::{TargetArch, TargetOs};
use vstd::prelude::*;

verus! {

broadcast use vstd::string::group_string_axioms;

/// Name of the package manager of a distribution, for display.
pub open spec fn package_manager_name(os: TargetOs) -> Seq<char> {
    match os {
        TargetOs::Ubuntu | TargetOs::Debian => "apt-get"@,
        TargetOs::CentOs => "yum (v7) / dnf (v8+)"@,
        TargetOs::Fedora | TargetOs::AlmaLinux | TargetOs::Rocky | TargetOs::Rhel => "dnf"@,
        TargetOs::Alpine => "apk"@,
        TargetOs::Arch | TargetOs::Manjaro => "pacman"@,
        TargetOs::OpenSuse => "zypper"@,
    }
}

/// Returns a human-readable package manager name for display.
pub fn package_manager(os: &TargetOs, _version: &Option<String>) -> (s: String)
    ensures
        s@ == package_manager_name(*os),
{
    match os {
        TargetOs::Ubuntu | TargetOs::Debian => "apt-get".to_string(),
        TargetOs::CentOs => "yum (v7) / dnf (v8+)".to_string(),
        TargetOs::Fedora | TargetOs::AlmaLinux | TargetOs::Rocky | TargetOs::Rhel => "dnf".to_string(),
        TargetOs::Alpine => "apk".to_string(),
        TargetOs::Arch | TargetOs::Manjaro => "pacman".to_string(),
        TargetOs::OpenSuse => "zypper".to_string(),
    }
}

/// The distributions for which packages can be bundled for offline
/// installation: all but Arch, Manjaro and OpenSUSE.
pub open spec fn offline_supported(os: TargetOs) -> bool {
    match os {
        TargetOs::Ubuntu | TargetOs::Debian | TargetOs::CentOs | TargetOs::AlmaLinux
        | TargetOs::Rocky | TargetOs::Rhel | TargetOs::Fedora | TargetOs::Alpine => true,
        _ => false,
    }
}

/// Whether offline package download is supported for this OS.
pub fn supports_offline_packages(os: &TargetOs) -> (b: bool)
    ensures
        b == offline_supported(*os),
{
    match os {
        TargetOs::Ubuntu | TargetOs::Debian | TargetOs::CentOs | TargetOs::AlmaLinux
        | TargetOs::Rocky | TargetOs::Rhel | TargetOs::Fedora | TargetOs::Alpine => true,
        _ => false,
    }
}

/// Where the packages of a distribution are fetched from, and their format.
pub struct PkgMirrorInfo {
    pub mirror_base: &'static str,
    pub format: PkgFormat,
}

/// Package file format.
#[derive(Debug, Clone, Copy, PartialEq, Eq, Structural)]
pub enum PkgFormat {
    Deb,
    Rpm,
    Apk,
}

/// Mirror base URL and package format of a distribution, where there is one.
pub open spec fn mirror_of(os: TargetOs) -> Option<(Seq<char>, PkgFormat)> {
    match os {
        TargetOs::Ubuntu => Some(("http://archive.ubuntu.com/ubuntu/pool/main"@, PkgFormat::Deb)),
        TargetOs::Debian => Some(("http://ftp.debian.org/debian/pool/main"@, PkgFormat::Deb)),
        TargetOs::CentOs | TargetOs::AlmaLinux | TargetOs::Rocky | TargetOs::Rhel => Some(
            (
                "https://dl.rockylinux.org/pub/rocky/9/AppStream/x86_64/os/Packages"@,
                PkgFormat::Rpm,
            ),
        ),
        TargetOs::Fedora => Some(
            (
                "https://dl.fedoraproject.org/pub/fedora/linux/releases/39/Everything/x86_64/os/Packages"@,
                PkgFormat::Rpm,
            ),
        ),
        TargetOs::Alpine => Some(
            ("https://dl-cdn.alpinelinux.org/alpine/v3.19/main/x86_64"@, PkgFormat::Apk),
        ),
        _ => None,
    }
}

/// Returns the mirror base URL to query for package downloads.
pub fn mirror_info(os: &TargetOs) -> (m: Option<PkgMirrorInfo>)
    ensures
        match mirror_of(*os) {
            Some((base, format)) => m matches Some(info) && info.mirror_base@ == base
                && info.format == format,
            None => m is None,
        },
{
    match os {
        TargetOs::Ubuntu => Some(
            PkgMirrorInfo {
                mirror_base: "http://archive.ubuntu.com/ubuntu/pool/main",
                format: PkgFormat::Deb,
            },
        ),
        TargetOs::Debian => Some(
            PkgMirrorInfo {
                mirror_base: "http://ftp.debian.org/debian/pool/main",
                format: PkgFormat::Deb,
            },
        ),
        TargetOs::CentOs | TargetOs::AlmaLinux | TargetOs::Rocky | TargetOs::Rhel => Some(
            PkgMirrorInfo {
                mirror_base: "https://dl.rockylinux.org/pub/rocky/9/AppStream/x86_64/os/Packages",
                format: PkgFormat::Rpm,
            },
        ),
        TargetOs::Fedora => Some(
            PkgMirrorInfo {
                mirror_base: "https://dl.fedoraproject.org/pub/fedora/linux/releases/39/Everything/x86_64/os/Packages",
                format: PkgFormat::Rpm,
            },
        ),
        TargetOs::Alpine => Some(
            PkgMirrorInfo {
                mirror_base: "https://dl-cdn.alpinelinux.org/alpine/v3.19/main/x86_64",
                format: PkgFormat::Apk,
            },
        ),
        _ => None,
    }
}

/// The repository streams searched, in this order, for the packages of a
/// distribution: BaseOS, then AppStream, for the RHEL family; the mirror
/// itself for the others that have one.
pub open spec fn package_streams_of(os: TargetOs) -> Seq<Seq<char>> {
    match os {
        TargetOs::CentOs | TargetOs::AlmaLinux | TargetOs::Rocky | TargetOs::Rhel => seq![
            "https://dl.rockylinux.org/pub/rocky/9/BaseOS/x86_64/os/Packages"@,
            "https://dl.rockylinux.org/pub/rocky/9/AppStream/x86_64/os/Packages"@,
        ],
        _ => match mirror_of(os) {
            Some((base, _)) => seq![base],
            None => Seq::empty(),
        },
    }
}

/// The repository streams searched, in order, for the packages of a distribution.
pub fn package_streams(os: &TargetOs) -> (v: Vec<&'static str>)
    ensures
        str_views(v@) == package_streams_of(*os),
{
    let v: Vec<&'static str> = match os {
        TargetOs::CentOs | TargetOs::AlmaLinux | TargetOs::Rocky | TargetOs::Rhel => vec![
            "https://dl.rockylinux.org/pub/rocky/9/BaseOS/x86_64/os/Packages",
            "https://dl.rockylinux.org/pub/rocky/9/AppStream/x86_64/os/Packages",
        ],
        _ => match mirror_info(os) {
            Some(m) => vec![m.mirror_base],
            None => Vec::new(),
        },
    };
    proof {
        assert(str_views(v@) =~= package_streams_of(*os));
    }
    v
}

/// The packages the installer puts on a distribution.
pub open spec fn packages_for(os: TargetOs) -> Seq<Seq<char>> {
    match os {
        TargetOs::Alpine => seq![
            "dcron"@,
            "curl"@,
            "tar"@,
            "tzdata"@,
            "socat"@,
            "ca-certificates"@,
            "openssl"@,
        ],
        TargetOs::Arch | TargetOs::Manjaro => seq![
            "cronie"@,
            "curl"@,
            "tar"@,
            "tzdata"@,
            "socat"@,
            "ca-certificates"@,
            "openssl"@,
        ],
        TargetOs::OpenSuse => seq![
            "cron"@,
            "curl"@,
            "tar"@,
            "timezone"@,
            "socat"@,
            "ca-certificates"@,
            "openssl"@,
        ],
        TargetOs::Ubuntu | TargetOs::Debian => seq![
            "cron"@,
            "curl"@,
            "tar"@,
            "tzdata"@,
            "socat"@,
            "ca-certificates"@,
            "openssl"@,
        ],
        TargetOs::CentOs | TargetOs::Fedora | TargetOs::AlmaLinux | TargetOs::Rocky
        | TargetOs::Rhel => seq![
            "cronie"@,
            "curl"@,
            "tar"@,
            "tzdata"@,
            "socat"@,
            "ca-certificates"@,
            "openssl"@,
        ],
    }
}

/// Views of a vector of string slices.
pub open spec fn str_views(v: Seq<&str>) -> Seq<Seq<char>> {
    v.map_values(|s: &str| s@)
}

/// The packages the installer installs on a distribution (the same list
/// its install command names).
pub fn required_packages(os: &TargetOs) -> (v: Vec<&'static str>)
    ensures
        str_views(v@) == packages_for(*os),
{
    let v = match os {
        TargetOs::Alpine => vec!["dcron", "curl", "tar", "tzdata", "socat", "ca-certificates", "openssl"],
        TargetOs::Arch | TargetOs::Manjaro => vec!["cronie", "curl", "tar", "tzdata", "socat", "ca-certificates", "openssl"],
        TargetOs::OpenSuse => vec!["cron", "curl", "tar", "timezone", "socat", "ca-certificates", "openssl"],
        TargetOs::Ubuntu | TargetOs::Debian => vec!["cron", "curl", "tar", "tzdata", "socat", "ca-certificates", "openssl"],
        TargetOs::CentOs | TargetOs::Fedora | TargetOs::AlmaLinux | TargetOs::Rocky | TargetOs::Rhel => vec![
            "cronie",
            "curl",
            "tar",
            "tzdata",
            "socat",
            "ca-certificates",
            "openssl",
        ],
    };
    proof {
        assert(str_views(v@) =~= packages_for(*os));
    }
    v
}

/// Shell command that installs the packages from the internet.
pub open spec fn online_install_command(os: TargetOs) -> Seq<char> {
    match os {
        TargetOs::Ubuntu | TargetOs::Debian => "apt-get update && apt-get install -y -q cron curl tar tzdata socat ca-certificates openssl"@,
        TargetOs::CentOs => r#"if [[ "${VERSION_ID}" =~ ^7 ]]; then
    yum -y update && yum install -y cronie curl tar tzdata socat ca-certificates openssl
else
    dnf -y update && dnf install -y -q cronie curl tar tzdata socat ca-certificates openssl
fi"#@,
        TargetOs::Fedora | TargetOs::AlmaLinux | TargetOs::Rocky | TargetOs::Rhel => "dnf -y update && dnf install -y -q cronie curl tar tzdata socat ca-certificates openssl"@,
        TargetOs::Alpine => "apk update && apk add dcron curl tar tzdata socat ca-certificates openssl"@,
        TargetOs::Arch | TargetOs::Manjaro => "pacman -Syu && pacman -Syu --noconfirm cronie curl tar tzdata socat ca-certificates openssl"@,
        TargetOs::OpenSuse => "zypper refresh && zypper -q install -y cron curl tar timezone socat ca-certificates openssl"@,
    }
}

/// Returns the shell snippet for the inline package-install command.
pub fn install_command_online(os: &TargetOs) -> (s: String)
    ensures
        s@ == online_install_command(*os),
{
    match os {
        TargetOs::Ubuntu | TargetOs::Debian => {
            "apt-get update && apt-get install -y -q cron curl tar tzdata socat ca-certificates openssl".to_string()
        },
        TargetOs::CentOs => {
            r#"if [[ "${VERSION_ID}" =~ ^7 ]]; then
    yum -y update && yum install -y cronie curl tar tzdata socat ca-certificates openssl
else
    dnf -y update && dnf install -y -q cronie curl tar tzdata socat ca-certificates openssl
fi"#.to_string()
        },
        TargetOs::Fedora | TargetOs::AlmaLinux | TargetOs::Rocky | TargetOs::Rhel => {
            "dnf -y update && dnf install -y -q cronie curl tar tzdata socat ca-certificates openssl".to_string()
        },
        TargetOs::Alpine => {
            "apk update && apk add dcron curl tar tzdata socat ca-certificates openssl".to_string()
        },
        TargetOs::Arch | TargetOs::Manjaro => {
            "pacman -Syu && pacman -Syu --noconfirm cronie curl tar tzdata socat ca-certificates openssl".to_string()
        },
        TargetOs::OpenSuse => {
            "zypper refresh && zypper -q install -y cron curl tar timezone socat ca-certificates openssl".to_string()
        },
    }
}

/// Shell command that installs the bundled packages of a format.
pub open spec fn offline_install_command(format: PkgFormat) -> Seq<char> {
    match format {
        PkgFormat::Deb => r#"dpkg -i ./packages/*.deb 2>/dev/null || true
apt-get install -f -y -q 2>/dev/null || true"#@,
        PkgFormat::Rpm => "rpm -Uvh ./packages/*.rpm 2>/dev/null || true"@,
        PkgFormat::Apk => "apk add --no-network --allow-untrusted ./packages/*.apk 2>/dev/null || true"@,
    }
}

/// Returns the offline install command (install from ./packages/)
pub fn install_command_offline(_os: &TargetOs, format: &PkgFormat) -> (s: String)
    ensures
        s@ == offline_install_command(*format),
{
    match format {
        PkgFormat::Deb => {
            r#"dpkg -i ./packages/*.deb 2>/dev/null || true
apt-get install -f -y -q 2>/dev/null || true"#.to_string()
        },
        PkgFormat::Rpm => { "rpm -Uvh ./packages/*.rpm 2>/dev/null || true".to_string() },
        PkgFormat::Apk => {
            "apk add --no-network --allow-untrusted ./packages/*.apk 2>/dev/null || true".to_string()
        },
    }
}

/// Whether the xray binary shipped for an architecture must be renamed after extraction.
pub open spec fn xray_rename_needed(arch: TargetArch) -> bool {
    arch == TargetArch::Armv7
}

/// Returns xray binary arch suffix used by x-ui (same as TargetArch::xui_suffix but for the
/// rename logic in the original script).
pub fn xray_arch_rename_needed(arch: &TargetArch) -> (b: bool)
    ensures
        b == xray_rename_needed(*arch),
{
    match arch {
        TargetArch::Armv7 => true,
        _ => false,
    }
}

/// Every distribution with a package mirror is one for which offline
/// packages are offered.
pub proof fn lemma_mirror_implies_offline_support(os: TargetOs)
    ensures
        mirror_of(os) is Some ==> offline_supported(os),
{
}

/// Offline packages are offered exactly where a mirror is known.
pub proof fn lemma_offline_support_has_mirror(os: TargetOs)
    ensures
        offline_supported(os) <==> mirror_of(os) is Some,
{
}

/// The xray binary is renamed exactly for the architecture whose asset suffix is `armv7`.
pub proof fn lemma_rename_iff_armv7_suffix(arch: TargetArch)
    ensures
        xray_rename_needed(arch) <==> crate::state::arch_suffix(arch) == "armv7"@,
{
    reveal_strlit("armv7");
    reveal_strlit("amd64");
    reveal_strlit("arm64");
    reveal_strlit("386");
    reveal_strlit("s390x");
    if arch != TargetArch::Armv7 {
        assert(crate::state::arch_suffix(arch)[0] != 'a' || crate::state::arch_suffix(arch)[2]
            != 'm' || crate::state::arch_suffix(arch).len() != 5 || crate::state::arch_suffix(
            arch,
        )[4] != '7');
    }
}

/// Words separated by single spaces.
pub open spec fn joined(words: Seq<Seq<char>>) -> Seq<char>
    decreases words.len(),
{
    if words.len() == 0 {
        Seq::empty()
    } else if words.len() == 1 {
        words[0]
    } else {
        joined(words.drop_last()) + " "@ + words.last()
    }
}

/// The text of an install command before its package list.
pub open spec fn install_head(os: TargetOs) -> Seq<char> {
    match os {
        TargetOs::Ubuntu | TargetOs::Debian => "apt-get update && apt-get install -y -q "@,
        TargetOs::CentOs => "if [[ \"${VERSION_ID}\" =~ ^7 ]]; then\n    yum -y update && yum install -y "@,
        TargetOs::Fedora | TargetOs::AlmaLinux | TargetOs::Rocky | TargetOs::Rhel => "dnf -y update && dnf install -y -q "@,
        TargetOs::Alpine => "apk update && apk add "@,
        TargetOs::Arch | TargetOs::Manjaro => "pacman -Syu && pacman -Syu --noconfirm "@,
        TargetOs::OpenSuse => "zypper refresh && zypper -q install -y "@,
    }
}

/// The package list the installer installs is the one its install command
/// names: each command installs exactly `packages_for(os)`, in that order
/// (on CentOS in both the yum and the dnf branch).
pub proof fn lemma_install_command_lists_packages(os: TargetOs)
    ensures
        os != TargetOs::CentOs ==> online_install_command(os) == install_head(os) + joined(packages_for(os)),
        os == TargetOs::CentOs ==> online_install_command(os) == install_head(os) + joined(packages_for(os))
            + "\nelse\n    dnf -y update && dnf install -y -q "@ + joined(packages_for(os)) + "\nfi"@,
{
    reveal_with_fuel(joined, 8);
    reveal_strlit("cron");
    reveal_strlit("cronie");
    reveal_strlit("dcron");
    reveal_strlit("curl");
    reveal_strlit("tar");
    reveal_strlit("tzdata");
    reveal_strlit("timezone");
    reveal_strlit("socat");
    reveal_strlit("ca-certificates");
    reveal_strlit("openssl");
    reveal_strlit(" ");
    match os {
        TargetOs::Ubuntu | TargetOs::Debian => {
            reveal_strlit("apt-get update && apt-get install -y -q ");
            reveal_strlit("apt-get update && apt-get install -y -q cron curl tar tzdata socat ca-certificates openssl");
            assert(online_install_command(os) =~= install_head(os) + joined(packages_for(os)));
        },
        TargetOs::CentOs => {
            reveal_strlit("if [[ \"${VERSION_ID}\" =~ ^7 ]]; then\n    yum -y update && yum install -y ");
            reveal_strlit("\nelse\n    dnf -y update && dnf install -y -q ");
            reveal_strlit("\nfi");
            reveal_strlit(r#"if [[ "${VERSION_ID}" =~ ^7 ]]; then
    yum -y update && yum install -y cronie curl tar tzdata socat ca-certificates openssl
else
    dnf -y update && dnf install -y -q cronie curl tar tzdata socat ca-certificates openssl
fi"#);
            assert(online_install_command(os) =~= install_head(os) + joined(packages_for(os))
                + "\nelse\n    dnf -y update && dnf install -y -q "@ + joined(packages_for(os)) + "\nfi"@);
        },
        TargetOs::Fedora | TargetOs::AlmaLinux | TargetOs::Rocky | TargetOs::Rhel => {
            reveal_strlit("dnf -y update && dnf install -y -q ");
            reveal_strlit("dnf -y update && dnf install -y -q cronie curl tar tzdata socat ca-certificates openssl");
            assert(online_install_command(os) =~= install_head(os) + joined(packages_for(os)));
        },
        TargetOs::Alpine => {
            reveal_strlit("apk update && apk add ");
            reveal_strlit("apk update && apk add dcron curl tar tzdata socat ca-certificates openssl");
            assert(online_install_command(os) =~= install_head(os) + joined(packages_for(os)));
        },
        TargetOs::Arch | TargetOs::Manjaro => {
            reveal_strlit("pacman -Syu && pacman -Syu --noconfirm ");
            reveal_strlit("pacman -Syu && pacman -Syu --noconfirm cronie curl tar tzdata socat ca-certificates openssl");
            assert(online_install_command(os) =~= install_head(os) + joined(packages_for(os)));
        },
        TargetOs::OpenSuse => {
            reveal_strlit("zypper refresh && zypper -q install -y ");
            reveal_strlit("zypper refresh && zypper -q install -y cron curl tar timezone socat ca-certificates openssl");
            assert(online_install_command(os) =~= install_head(os) + joined(packages_for(os)));
        },
    }
}

} // verus!
