use xui_offline_builder::prompt::{random_port, random_string};
use xui_offline_builder::state::{
    IncludedComponents, OutputKind, PackageMode, SslConfig, TargetArch, TargetOs, XuiVersion,
};
use xui_offline_builder::wizard::{
    customize_panel_settings, draw_panel_settings, is_ipv4_like, Answer, PanelSettings, Question, Wizard, WizardEvent,
};

fn expect_ask(e: WizardEvent, q: Question) {
    match e {
        WizardEvent::Ask(x) => assert_eq!(x, q),
        other => panic!("expected question {:?}, got {:?}", q, other),
    }
}

fn text(s: &str) -> Answer {
    Answer::Text(s.to_string())
}

fn panel() -> Answer {
    Answer::Panel(PanelSettings {
        port: 12345,
        username: "u".to_string(),
        password: "p".to_string(),
        web_base_path: "w".to_string(),
    })
}

#[test]
fn full_installer_with_self_signed_ssl() {
    let mut w = Wizard::new();
    assert_eq!(w.question, Question::CustomizeComponents);
    expect_ask(w.answer(Answer::YesNo(false)), Question::TargetOs);
    expect_ask(w.answer(Answer::Position(5)), Question::OsVersion);
    expect_ask(w.answer(text("  3.19 ")), Question::TargetArch);
    expect_ask(w.answer(Answer::Position(2)), Question::PackageMode);
    expect_ask(w.answer(Answer::Position(1)), Question::VersionKind);
    expect_ask(w.answer(Answer::Position(1)), Question::VersionTag);
    expect_ask(w.answer(text("2.5.1")), Question::SslKind);
    expect_ask(w.answer(Answer::Position(2)), Question::CertHost);
    expect_ask(w.answer(text(" 10.0.0.7 ")), Question::DynamicSsl);
    expect_ask(w.answer(Answer::YesNo(true)), Question::PanelSettings);
    expect_ask(w.answer(panel()), Question::OutputKind);
    expect_ask(w.answer(Answer::Position(1)), Question::OutputDir);
    expect_ask(w.answer(text("./out ")), Question::FinalConfirm);
    match w.answer(Answer::YesNo(true)) {
        WizardEvent::Finished(c) => {
            assert_eq!(c.os, TargetOs::Alpine);
            assert_eq!(c.os_version.as_deref(), Some("3.19"));
            assert_eq!(c.arch, TargetArch::Armv7);
            assert_eq!(c.package_mode, PackageMode::Offline);
            assert!(matches!(&c.xui_version, XuiVersion::Specific(v) if v == "v2.5.1"));
            assert!(matches!(&c.ssl, SslConfig::SelfSigned { common_name, dynamic: true } if common_name == "10.0.0.7"));
            assert_eq!(c.server_host, "10.0.0.7");
            assert_eq!(c.panel_port, 12345);
            assert_eq!(c.panel_username, "u");
            assert_eq!(c.output_kind, OutputKind::Folder);
            assert_eq!(c.output_dir, "./out");
            assert_eq!(c.included, IncludedComponents { system_packages: true, ssl: true, xui_panel: true });
        }
        other => panic!("unexpected {:?}", other),
    }
}

#[test]
fn offline_unsupported_falls_back_to_online() {
    let mut w = Wizard::new();
    w.answer(Answer::YesNo(false));
    w.answer(Answer::Position(6)); // Arch Linux
    w.answer(text(""));
    assert!(w.os_version.is_none());
    w.answer(Answer::Position(0));
    match w.answer(Answer::Position(1)) {
        WizardEvent::OfflineUnsupported(q) => assert_eq!(q, Question::VersionKind),
        other => panic!("unexpected {:?}", other),
    }
    assert_eq!(w.package_mode, PackageMode::Online);
    assert_eq!(w.question, Question::VersionKind);
}

#[test]
fn custom_certificate_and_latest_version() {
    let mut w = Wizard::new();
    w.answer(Answer::YesNo(false));
    w.answer(Answer::Position(0));
    w.answer(text("22.04"));
    w.answer(Answer::Position(0));
    expect_ask(w.answer(Answer::Position(0)), Question::VersionKind);
    expect_ask(w.answer(Answer::Position(0)), Question::SslKind);
    expect_ask(w.answer(Answer::Position(1)), Question::CertPath);
    expect_ask(w.answer(text(" /etc/c.pem")), Question::KeyPath);
    expect_ask(w.answer(text("/etc/k.pem ")), Question::AccessHost);
    expect_ask(w.answer(text("vpn.example.org")), Question::PanelSettings);
    assert!(matches!(&w.ssl, SslConfig::Custom { fullchain_path, privkey_path }
        if fullchain_path == "/etc/c.pem" && privkey_path == "/etc/k.pem"));
    assert!(matches!(w.xui_version, XuiVersion::Latest));
    assert_eq!(w.package_mode, PackageMode::Online);
}

#[test]
fn lets_encrypt_needs_a_domain() {
    let mut w = Wizard::new();
    w.answer(Answer::YesNo(false));
    w.answer(Answer::Position(1));
    w.answer(text(""));
    w.answer(Answer::Position(0));
    w.answer(Answer::Position(0));
    w.answer(Answer::Position(0));
    expect_ask(w.answer(Answer::Position(3)), Question::LetsEncryptDomain);
    assert!(matches!(w.answer(text("1.2.3.4")), WizardEvent::LetsEncryptNeedsDomain));

    let mut w = Wizard::new();
    w.answer(Answer::YesNo(false));
    w.answer(Answer::Position(1));
    w.answer(text(""));
    w.answer(Answer::Position(0));
    w.answer(Answer::Position(0));
    w.answer(Answer::Position(0));
    w.answer(Answer::Position(3));
    expect_ask(w.answer(text("panel.example.org")), Question::PanelSettings);
    assert!(matches!(&w.ssl, SslConfig::LetsEncrypt { domain } if domain == "panel.example.org"));
}

#[test]
fn component_choice() {
    let mut w = Wizard::new();
    expect_ask(w.answer(Answer::YesNo(true)), Question::Components);
    assert!(matches!(w.answer(Answer::Positions(vec![])), WizardEvent::NoComponentChosen));
    assert_eq!(w.question, Question::Components);
    expect_ask(w.answer(Answer::Positions(vec![1])), Question::TargetOs);
    assert_eq!(w.included, IncludedComponents { system_packages: false, ssl: true, xui_panel: false });
    w.answer(Answer::Position(0));
    w.answer(text(""));
    // Only SSL: no package or version questions.
    expect_ask(w.answer(Answer::Position(0)), Question::SslKind);
    // No SSL chosen and no panel: straight to the output.
    expect_ask(w.answer(Answer::Position(0)), Question::AccessHost);
    expect_ask(w.answer(text("h")), Question::OutputKind);
}

#[test]
fn wrong_kind_of_answer_repeats_the_question() {
    let mut w = Wizard::new();
    expect_ask(w.answer(text("yes")), Question::CustomizeComponents);
    assert_eq!(w.question, Question::CustomizeComponents);
}

#[test]
fn declining_the_summary_cancels() {
    let mut w = Wizard::new();
    w.question = Question::FinalConfirm;
    assert!(matches!(w.answer(Answer::YesNo(false)), WizardEvent::Cancelled));
}

#[test]
fn ipv4_detection() {
    assert!(is_ipv4_like("192.168.1.1"));
    assert!(is_ipv4_like("0.0.0.0"));
    assert!(!is_ipv4_like("256.1.1.1"));
    assert!(!is_ipv4_like("1.2.3"));
    assert!(!is_ipv4_like("example.org"));
    assert!(!is_ipv4_like("1.2.3.4.5"));
    assert!(!is_ipv4_like("1..2.3"));
}

#[test]
fn random_panel_settings() {
    let p = draw_panel_settings();
    assert!((1024..=62000).contains(&p.port));
    assert_eq!(p.username.len(), 8);
    assert_eq!(p.password.len(), 10);
    assert_eq!(p.web_base_path.len(), 12);
    assert!(p.password.chars().all(|c| c.is_ascii_alphanumeric()));
    let s = random_string(32);
    assert_eq!(s.chars().count(), 32);
    assert!(s.chars().all(|c| c.is_ascii_alphanumeric()));
    assert_eq!(random_string(0), "");
    for _ in 0..100 {
        let port = random_port();
        assert!((1024..=62000).contains(&port));
    }
}

#[test]
fn customised_panel_settings() {
    let drawn = PanelSettings {
        port: 12345,
        username: "drawnuser".to_string(),
        password: "drawnpass".to_string(),
        web_base_path: "drawnpath".to_string(),
    };
    let p = customize_panel_settings(drawn, " 8443 ", " admin ", "", "panel");
    assert_eq!(p.port, 8443);
    assert_eq!(p.username, "admin");
    assert_eq!(p.password, "drawnpass");
    assert_eq!(p.web_base_path, "panel");
    let drawn = PanelSettings {
        port: 12345,
        username: "u".to_string(),
        password: "p".to_string(),
        web_base_path: "w".to_string(),
    };
    assert_eq!(customize_panel_settings(drawn, "80", "", "  ", "").port, 12345);
}
