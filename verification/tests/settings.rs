use auth_core::config::Config;
use auth_core::load::LoadResult;
use auth_core::roles::{default_roles, load_roles, Role};
use auth_core::tls::{CertificateAction, TlsConfig, TlsManager};

#[test]
fn the_default_settings() {
    let config = Config::default();
    assert_eq!(config.jwt_secret, "your-secret-key-change-in-production");
    assert_eq!(config.instance.name, "Auth Service");
    assert_eq!(config.instance.logo_url, "/img/logo.png");
    assert_eq!(config.instance.primary_color, "#00529F");
    assert_eq!(config.instance.issuer, "https://auth.example.com");
    assert_eq!(config.instance.admin_client_url, "https://localhost:8445/");
    assert_eq!(config.security.password_min_length, 12);
    assert_eq!(config.security.access_token_ttl, 3600);
    assert_eq!(config.security.refresh_token_ttl, 2592000);
    assert!(!config.security.require_mfa);
    assert!(!config.features.allow_registration);
    assert!(config.features.allow_password_reset);

    let copy = config.clone();
    assert_eq!(copy.jwt_secret, config.jwt_secret);
    assert_eq!(copy.instance.issuer, config.instance.issuer);
    assert_eq!(copy.security, config.security);
    assert_eq!(copy.features, config.features);
}

#[test]
fn the_default_tls_settings() {
    let config = TlsConfig::default();
    assert_eq!(config.cert_path, "/app/certs/cert.pem");
    assert_eq!(config.key_path, "/app/certs/key.pem");
    assert_eq!(config.domain, "localhost");
    assert!(config.auto_generate);
}

#[test]
fn the_manager_keeps_its_settings() {
    let manager = TlsManager::new(TlsConfig {
        cert_path: "/c.pem".to_string(),
        key_path: "/k.pem".to_string(),
        domain: "auth.example.com".to_string(),
        auto_generate: false,
    });
    assert_eq!(manager.config().cert_path, "/c.pem");
    assert_eq!(manager.config().key_path, "/k.pem");
    assert_eq!(manager.config().domain, "auth.example.com");
    assert!(!manager.config().auto_generate);
    assert_eq!(
        manager.subject_alt_names(),
        vec!["auth.example.com".to_string(), "localhost".to_string(), "127.0.0.1".to_string()]
    );
}

#[test]
fn where_the_certificate_comes_from() {
    let generating = TlsManager::new(TlsConfig::default());
    assert_eq!(generating.certificate_action(true, true), CertificateAction::Load);
    assert_eq!(generating.certificate_action(true, false), CertificateAction::GenerateThenLoad);
    assert_eq!(generating.certificate_action(false, true), CertificateAction::GenerateThenLoad);
    assert_eq!(generating.certificate_action(false, false), CertificateAction::GenerateThenLoad);

    let mut config = TlsConfig::default();
    config.auto_generate = false;
    let strict = TlsManager::new(config);
    assert_eq!(strict.certificate_action(true, true), CertificateAction::Load);
    assert_eq!(strict.certificate_action(true, false), CertificateAction::Fail);
    assert_eq!(strict.certificate_action(false, true), CertificateAction::Fail);
    assert_eq!(strict.certificate_action(false, false), CertificateAction::Fail);
}

fn summary(role: &Role) -> String {
    format!("{}|{}|{}|{}", role.id, role.name, role.description, role.permissions.join(","))
}

#[test]
fn the_default_roles() {
    let roles: Vec<String> = default_roles().iter().map(summary).collect();
    assert_eq!(
        roles,
        vec![
            "admin|Administrator|Full system access|*",
            "staff|Staff|Staff member|participants:read,attendance:read,attendance:write",
            "guardian|Guardian|Parent or guardian|participants:read_own,attendance:read_own",
        ]
    );
}

#[test]
fn roles_fall_back_to_the_defaults() {
    let custom = Role {
        id: "auditor".to_string(),
        name: "Auditor".to_string(),
        description: "reads".to_string(),
        permissions: vec!["read:*".to_string()],
    };
    match load_roles(Ok(vec![custom.clone()])) {
        LoadResult::Success(roles) => {
            assert_eq!(roles.iter().map(summary).collect::<Vec<_>>(), vec!["auditor|Auditor|reads|read:*"])
        }
        LoadResult::CorruptData { .. } => panic!("roles that were read are no corrupt data"),
    }
    match load_roles(Err("roles.json: not found".to_string())) {
        LoadResult::Success(_) => panic!("a failed read is no success"),
        LoadResult::CorruptData { error, fallback } => {
            assert_eq!(error, "roles.json: not found");
            assert_eq!(fallback.len(), 3);
            assert_eq!(fallback[0].id, "admin");
            assert_eq!(fallback[2].id, "guardian");
        }
    }
}
