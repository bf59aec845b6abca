use xui_offline_builder::os_detect::{
    install_command_offline, install_command_online, mirror_info, package_manager,
    package_streams, required_packages, supports_offline_packages, xray_arch_rename_needed, PkgFormat,
};
use xui_offline_builder::state::{TargetArch, TargetOs, XuiVersion};

const ALL_OS: [TargetOs; 11] = [
    TargetOs::Ubuntu,
    TargetOs::Debian,
    TargetOs::CentOs,
    TargetOs::Fedora,
    TargetOs::AlmaLinux,
    TargetOs::Rocky,
    TargetOs::Rhel,
    TargetOs::Alpine,
    TargetOs::Arch,
    TargetOs::Manjaro,
    TargetOs::OpenSuse,
];

#[test]
fn display_names_and_release_ids() {
    assert_eq!(TargetOs::Rocky.display_name(), "Rocky Linux");
    assert_eq!(TargetOs::OpenSuse.release_id(), "opensuse-leap");
    assert_eq!(TargetOs::CentOs.display_name(), "CentOS");
    assert_eq!(TargetOs::Alpine.release_id(), "alpine");
}

#[test]
fn display_names_are_distinct() {
    for (i, a) in ALL_OS.iter().enumerate() {
        for (j, b) in ALL_OS.iter().enumerate() {
            if i != j {
                assert_ne!(a.display_name(), b.display_name());
                assert_ne!(a.release_id(), b.release_id());
            }
        }
    }
}

#[test]
fn arch_suffixes() {
    assert_eq!(TargetArch::Amd64.xui_suffix(), "amd64");
    assert_eq!(TargetArch::I386.xui_suffix(), "386");
    assert_eq!(TargetArch::Armv7.display_name(), "armv7");
    assert_eq!(TargetArch::S390x.display_name(), "s390x (IBM)");
}

#[test]
fn version_tag() {
    assert_eq!(XuiVersion::Latest.tag(), None);
    assert_eq!(XuiVersion::Specific("v2.5.1".to_string()).tag(), Some("v2.5.1"));
}

#[test]
fn package_managers() {
    assert_eq!(package_manager(&TargetOs::Debian, &None), "apt-get");
    assert_eq!(package_manager(&TargetOs::CentOs, &Some("7".to_string())), "yum (v7) / dnf (v8+)");
    assert_eq!(package_manager(&TargetOs::Rhel, &None), "dnf");
    assert_eq!(package_manager(&TargetOs::Manjaro, &None), "pacman");
    assert_eq!(package_manager(&TargetOs::OpenSuse, &None), "zypper");
}

#[test]
fn offline_support_and_mirrors() {
    assert!(supports_offline_packages(&TargetOs::Alpine));
    assert!(!supports_offline_packages(&TargetOs::Arch));
    assert!(supports_offline_packages(&TargetOs::CentOs));
    assert!(!supports_offline_packages(&TargetOs::Manjaro));
    assert!(!supports_offline_packages(&TargetOs::OpenSuse));
    let m = mirror_info(&TargetOs::Rocky).unwrap();
    assert_eq!(m.mirror_base, "https://dl.rockylinux.org/pub/rocky/9/AppStream/x86_64/os/Packages");
    assert!(matches!(m.format, PkgFormat::Rpm));
    assert!(mirror_info(&TargetOs::OpenSuse).is_none());
}

#[test]
fn every_mirror_is_for_an_offline_distribution() {
    for os in ALL_OS.iter() {
        if mirror_info(os).is_some() {
            assert!(supports_offline_packages(os));
        }
    }
    for os in ALL_OS.iter() {
        assert_eq!(supports_offline_packages(os), mirror_info(os).is_some());
    }
    for os in [TargetOs::CentOs, TargetOs::AlmaLinux, TargetOs::Rocky, TargetOs::Rhel] {
        assert!(matches!(mirror_info(&os).map(|m| m.format), Some(PkgFormat::Rpm)));
        assert_eq!(
            package_streams(&os),
            vec![
                "https://dl.rockylinux.org/pub/rocky/9/BaseOS/x86_64/os/Packages",
                "https://dl.rockylinux.org/pub/rocky/9/AppStream/x86_64/os/Packages",
            ]
        );
    }
    assert_eq!(package_streams(&TargetOs::Alpine), vec!["https://dl-cdn.alpinelinux.org/alpine/v3.19/main/x86_64"]);
    assert!(package_streams(&TargetOs::Arch).is_empty());
}

#[test]
fn required_package_lists() {
    assert_eq!(
        required_packages(&TargetOs::Alpine),
        vec!["dcron", "curl", "tar", "tzdata", "socat", "ca-certificates", "openssl"]
    );
    assert_eq!(required_packages(&TargetOs::OpenSuse)[3], "timezone");
    assert_eq!(required_packages(&TargetOs::Manjaro)[0], "cronie");
    assert_eq!(required_packages(&TargetOs::Fedora)[0], "cronie");
    assert_eq!(required_packages(&TargetOs::Debian)[0], "cron");
}

#[test]
fn install_commands_name_the_required_packages() {
    for os in ALL_OS.iter() {
        let list = required_packages(os).join(" ");
        let cmd = install_command_online(os);
        for line in cmd.lines().filter(|l| l.contains(" install ") || l.contains(" add ") || l.contains("--noconfirm")) {
            assert!(line.ends_with(&list), "{:?}: {}", os, line);
        }
    }
}

#[test]
fn install_commands() {
    assert_eq!(
        install_command_online(&TargetOs::Alpine),
        "apk update && apk add dcron curl tar tzdata socat ca-certificates openssl"
    );
    assert!(install_command_online(&TargetOs::CentOs).starts_with("if [[ \"${VERSION_ID}\" =~ ^7 ]]; then\n"));
    assert_eq!(
        install_command_offline(&TargetOs::Debian, &PkgFormat::Deb),
        "dpkg -i ./packages/*.deb 2>/dev/null || true\napt-get install -f -y -q 2>/dev/null || true"
    );
    assert_eq!(
        install_command_offline(&TargetOs::Alpine, &PkgFormat::Apk),
        "apk add --no-network --allow-untrusted ./packages/*.apk 2>/dev/null || true"
    );
}

#[test]
fn xray_rename_only_for_armv7() {
    for arch in [TargetArch::Amd64, TargetArch::Arm64, TargetArch::Armv7, TargetArch::I386, TargetArch::S390x] {
        assert_eq!(xray_arch_rename_needed(&arch), arch.xui_suffix() == "armv7");
    }
}
