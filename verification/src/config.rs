//! Startup configuration: the seven values the service needs, and the check
//! that all of them are present.

use vstd::prelude::*;

verus! {

/// One required configuration value.
#[derive(Clone, Copy, Debug, PartialEq, Eq, Structural)]
pub enum Setting {
    BackendHost,
    BackendOrganization,
    BackendToken,
    BackendBucket,
    Username,
    Password,
    Secret,
}

impl Setting {
    /// Name of the environment variable that carries this value.
    pub open spec fn spec_name(self) -> Seq<char> {
        match self {
            Setting::BackendHost => "INFLUXDB_HOST"@,
            Setting::BackendOrganization => "INFLUXDB_ORG"@,
            Setting::BackendToken => "INFLUXDB_TOKEN"@,
            Setting::BackendBucket => "INFLUXDB_BUCKET"@,
            Setting::Username => "NICO_USERNAME"@,
            Setting::Password => "NICO_PASSWORD"@,
            Setting::Secret => "JWT_SECRET"@,
        }
    }

    /// Name of the environment variable that carries this value.
    pub fn name(self) -> (r: &'static str)
        ensures
            r@ == self.spec_name(),
    {
        match self {
            Setting::BackendHost => "INFLUXDB_HOST",
            Setting::BackendOrganization => "INFLUXDB_ORG",
            Setting::BackendToken => "INFLUXDB_TOKEN",
            Setting::BackendBucket => "INFLUXDB_BUCKET",
            Setting::Username => "NICO_USERNAME",
            Setting::Password => "NICO_PASSWORD",
            Setting::Secret => "JWT_SECRET",
        }
    }
}

/// Why the service cannot start.
#[derive(Clone, Copy, Debug, PartialEq, Eq, Structural)]
pub enum ConfigError {
    /// A required value is absent from the environment.
    MissingEnv(Setting),
    /// The password of the provisioned account could not be hashed.
    HashingFailed,
}

/// The environment as it was read: each value present or absent.
#[derive(Debug, PartialEq, Eq)]
pub struct RawSettings {
    pub backend_host: Option<String>,
    pub backend_organization: Option<String>,
    pub backend_token: Option<String>,
    pub backend_bucket: Option<String>,
    pub username: Option<String>,
    pub password: Option<String>,
    pub secret: Option<String>,
}

/// Where measurement points are sent.
#[derive(Debug, PartialEq, Eq)]
pub struct BackendTarget {
    pub host: String,
    pub organization: String,
    pub access_token: String,
    pub bucket: String,
}

/// A backend target as contracts see it.
pub struct BackendTargetView {
    pub host: Seq<char>,
    pub organization: Seq<char>,
    pub access_token: Seq<char>,
    pub bucket: Seq<char>,
}

impl View for BackendTarget {
    type V = BackendTargetView;

    open spec fn view(&self) -> BackendTargetView {
        BackendTargetView {
            host: self.host@,
            organization: self.organization@,
            access_token: self.access_token@,
            bucket: self.bucket@,
        }
    }
}

impl Clone for BackendTarget {
    fn clone(&self) -> (r: Self)
        ensures
            r@ == self@,
    {
        BackendTarget {
            host: self.host.clone(),
            organization: self.organization.clone(),
            access_token: self.access_token.clone(),
            bucket: self.bucket.clone(),
        }
    }
}

/// A complete configuration.
#[derive(Debug, PartialEq, Eq)]
pub struct Settings {
    pub backend: BackendTarget,
    pub username: String,
    pub password: String,
    pub secret: String,
}

impl RawSettings {
    /// The first absent value, in the order in which startup asks for them:
    /// the backend's four values, the account's two, the signing secret.
    pub open spec fn first_missing(self) -> Option<Setting> {
        if self.backend_host is None {
            Some(Setting::BackendHost)
        } else if self.backend_organization is None {
            Some(Setting::BackendOrganization)
        } else if self.backend_token is None {
            Some(Setting::BackendToken)
        } else if self.backend_bucket is None {
            Some(Setting::BackendBucket)
        } else if self.username is None {
            Some(Setting::Username)
        } else if self.password is None {
            Some(Setting::Password)
        } else if self.secret is None {
            Some(Setting::Secret)
        } else {
            None
        }
    }

    /// The configuration that `self` amounts to once every value is present.
    pub open spec fn complete(self) -> Settings
        recommends
            self.first_missing() is None,
    {
        Settings {
            backend: BackendTarget {
                host: self.backend_host->0,
                organization: self.backend_organization->0,
                access_token: self.backend_token->0,
                bucket: self.backend_bucket->0,
            },
            username: self.username->0,
            password: self.password->0,
            secret: self.secret->0,
        }
    }
}

/// Insists on one value: hands it over, or names the setting that is absent.
pub fn require(value: Option<String>, setting: Setting) -> (r: Result<String, ConfigError>)
    ensures
        match value {
            Some(v) => r == Ok::<String, ConfigError>(v),
            None => r == Err::<String, ConfigError>(ConfigError::MissingEnv(setting)),
        },
{
    match value {
        Some(v) => Ok(v),
        None => Err(ConfigError::MissingEnv(setting)),
    }
}

impl Settings {
    /// Checks that every value is present. Fails with the first absent
    /// setting; otherwise no value is changed.
    pub fn resolve(raw: RawSettings) -> (r: Result<Settings, ConfigError>)
        ensures
            match raw.first_missing() {
                Some(setting) => r == Err::<Settings, ConfigError>(ConfigError::MissingEnv(setting)),
                None => r == Ok::<Settings, ConfigError>(raw.complete()),
            },
    {
        let host = require(raw.backend_host, Setting::BackendHost)?;
        let organization = require(raw.backend_organization, Setting::BackendOrganization)?;
        let access_token = require(raw.backend_token, Setting::BackendToken)?;
        let bucket = require(raw.backend_bucket, Setting::BackendBucket)?;
        let username = require(raw.username, Setting::Username)?;
        let password = require(raw.password, Setting::Password)?;
        let secret = require(raw.secret, Setting::Secret)?;
        Ok(Settings {
            backend: BackendTarget { host, organization, access_token, bucket },
            username,
            password,
            secret,
        })
    }
}

} // verus!
