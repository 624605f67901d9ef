//! The settings of the token service, and their defaults.

use vstd::prelude::*;

verus! {

/// How the instance presents itself.
#[derive(Debug)]
pub struct InstanceConfig {
    pub name: String,
    pub logo_url: String,
    pub primary_color: String,
    /// The issuer that tokens name.
    pub issuer: String,
    /// Where a user is sent after a login.
    pub admin_client_url: String,
}

#[derive(Clone, Copy, Debug, PartialEq, Eq, Structural)]
pub struct SecurityConfig {
    pub password_min_length: u32,
    /// Lifetime of an access token, in seconds.
    pub access_token_ttl: u64,
    /// Lifetime of a refresh token, in seconds.
    pub refresh_token_ttl: u64,
    pub require_mfa: bool,
}

#[derive(Clone, Copy, Debug, PartialEq, Eq, Structural)]
pub struct FeaturesConfig {
    pub allow_registration: bool,
    pub allow_password_reset: bool,
}

#[derive(Debug)]
pub struct Config {
    pub jwt_secret: String,
    pub instance: InstanceConfig,
    pub security: SecurityConfig,
    pub features: FeaturesConfig,
}

pub struct InstanceConfigView {
    pub name: Seq<char>,
    pub logo_url: Seq<char>,
    pub primary_color: Seq<char>,
    pub issuer: Seq<char>,
    pub admin_client_url: Seq<char>,
}

pub struct ConfigView {
    pub jwt_secret: Seq<char>,
    pub instance: InstanceConfigView,
    pub security: SecurityConfig,
    pub features: FeaturesConfig,
}

impl View for InstanceConfig {
    type V = InstanceConfigView;

    open spec fn view(&self) -> InstanceConfigView {
        InstanceConfigView {
            name: self.name@,
            logo_url: self.logo_url@,
            primary_color: self.primary_color@,
            issuer: self.issuer@,
            admin_client_url: self.admin_client_url@,
        }
    }
}

impl View for Config {
    type V = ConfigView;

    open spec fn view(&self) -> ConfigView {
        ConfigView {
            jwt_secret: self.jwt_secret@,
            instance: self.instance@,
            security: self.security,
            features: self.features,
        }
    }
}

impl Clone for InstanceConfig {
    fn clone(&self) -> (copy: Self)
        ensures
            copy@ == self@,
    {
        InstanceConfig {
            name: self.name.clone(),
            logo_url: self.logo_url.clone(),
            primary_color: self.primary_color.clone(),
            issuer: self.issuer.clone(),
            admin_client_url: self.admin_client_url.clone(),
        }
    }
}

impl Clone for Config {
    fn clone(&self) -> (copy: Self)
        ensures
            copy@ == self@,
    {
        Config {
            jwt_secret: self.jwt_secret.clone(),
            instance: self.instance.clone(),
            security: self.security,
            features: self.features,
        }
    }
}

/// The settings of an instance that was given none: one-hour access tokens,
/// thirty-day refresh tokens, passwords of twelve characters, no second
/// factor, no self-registration.
pub open spec fn default_config() -> ConfigView {
    ConfigView {
        jwt_secret: "your-secret-key-change-in-production"@,
        instance: InstanceConfigView {
            name: "Auth Service"@,
            logo_url: "/img/logo.png"@,
            primary_color: "#00529F"@,
            issuer: "https://auth.example.com"@,
            admin_client_url: "https://localhost:8445/"@,
        },
        security: SecurityConfig {
            password_min_length: 12,
            access_token_ttl: 3600,
            refresh_token_ttl: 2592000,
            require_mfa: false,
        },
        features: FeaturesConfig { allow_registration: false, allow_password_reset: true },
    }
}

impl Default for Config {
    fn default() -> (config: Config)
        ensures
            config@ == default_config(),
    {
        Config {
            jwt_secret: "your-secret-key-change-in-production".to_owned(),
            instance: InstanceConfig {
                name: "Auth Service".to_owned(),
                logo_url: "/img/logo.png".to_owned(),
                primary_color: "#00529F".to_owned(),
                issuer: "https://auth.example.com".to_owned(),
                admin_client_url: "https://localhost:8445/".to_owned(),
            },
            security: SecurityConfig {
                password_min_length: 12,
                access_token_ttl: 3600,
                refresh_token_ttl: 2592000,
                require_mfa: false,
            },
            features: FeaturesConfig { allow_registration: false, allow_password_reset: true },
        }
    }
}

} // verus!
