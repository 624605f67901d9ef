//! Where the TLS certificate comes from.

use vstd::prelude::*;

verus! {

#[derive(Debug)]
pub struct TlsConfig {
    pub cert_path: String,
    pub key_path: String,
    /// The name the certificate is made out to.
    pub domain: String,
    /// Make a self-signed certificate where none is found.
    pub auto_generate: bool,
}

pub struct TlsConfigView {
    pub cert_path: Seq<char>,
    pub key_path: Seq<char>,
    pub domain: Seq<char>,
    pub auto_generate: bool,
}

impl View for TlsConfig {
    type V = TlsConfigView;

    open spec fn view(&self) -> TlsConfigView {
        TlsConfigView {
            cert_path: self.cert_path@,
            key_path: self.key_path@,
            domain: self.domain@,
            auto_generate: self.auto_generate,
        }
    }
}

impl Clone for TlsConfig {
    fn clone(&self) -> (copy: Self)
        ensures
            copy@ == self@,
    {
        TlsConfig {
            cert_path: self.cert_path.clone(),
            key_path: self.key_path.clone(),
            domain: self.domain.clone(),
            auto_generate: self.auto_generate,
        }
    }
}

impl Default for TlsConfig {
    fn default() -> (config: TlsConfig)
        ensures
            config@ == (TlsConfigView {
                cert_path: "/app/certs/cert.pem"@,
                key_path: "/app/certs/key.pem"@,
                domain: "localhost"@,
                auto_generate: true,
            }),
    {
        TlsConfig {
            cert_path: "/app/certs/cert.pem".to_owned(),
            key_path: "/app/certs/key.pem".to_owned(),
            domain: "localhost".to_owned(),
            auto_generate: true,
        }
    }
}

/// What to do about the certificate before the server starts.
#[derive(Clone, Copy, Debug, PartialEq, Eq, Structural)]
pub enum CertificateAction {
    /// Certificate and key are there: load them.
    Load,
    /// One of them is missing: make a self-signed pair, then load it.
    GenerateThenLoad,
    /// One of them is missing and none may be made: give up.
    Fail,
}

/// Decides where the certificate of a server comes from.
#[derive(Debug)]
pub struct TlsManager {
    config: TlsConfig,
}

impl TlsManager {
    /// The settings the manager was made with.
    pub closed spec fn settings(&self) -> TlsConfig {
        self.config
    }

    pub fn new(config: TlsConfig) -> (manager: TlsManager)
        ensures
            manager.settings() == config,
    {
        Self { config }
    }

    pub fn config(&self) -> (config: &TlsConfig)
        ensures
            *config == self.settings(),
    {
        &self.config
    }

    /// What to do, given which of the two files exist.
    pub fn certificate_action(&self, cert_exists: bool, key_exists: bool) -> (action:
        CertificateAction)
        ensures
            action == if cert_exists && key_exists {
                CertificateAction::Load
            } else if self.settings().auto_generate {
                CertificateAction::GenerateThenLoad
            } else {
                CertificateAction::Fail
            },
    {
        if cert_exists && key_exists {
            CertificateAction::Load
        } else if self.config.auto_generate {
            CertificateAction::GenerateThenLoad
        } else {
            CertificateAction::Fail
        }
    }

    /// The names a self-signed certificate is made out to: the configured
    /// domain, then `localhost`, then `127.0.0.1`.
    pub fn subject_alt_names(&self) -> (names: Vec<String>)
        ensures
            names.deep_view() == seq![self.settings().domain@, "localhost"@, "127.0.0.1"@],
    {
        let mut names: Vec<String> = Vec::new();
        names.push(self.config.domain.clone());
        names.push("localhost".to_owned());
        names.push("127.0.0.1".to_owned());
        names
    }
}

} // verus!
