//! The service's settings, and the decisions taken on them at start-up.
//!
//! Reading the settings from files and from the environment is not done here.
//! This module holds the settings as plain data, says which warnings a set of
//! settings deserves, and says which environment defaults and which error
//! reporting a process needs that has found a given environment.
use std::collections::HashMap;
use vstd::prelude::*;

verus! {

/// Where the databases are.
#[derive(Debug, Clone)]
pub struct Database {
    pub mongodb: String,
    pub redis: String,
}

/// The public addresses of the services.
#[derive(Debug, Clone)]
pub struct Hosts {
    pub app: String,
    pub api: String,
    pub events: String,
    pub autumn: String,
    pub january: String,
    pub voso_legacy: String,
    pub voso_legacy_ws: String,
}

/// Who may register.
#[derive(Debug, Clone)]
pub struct ApiRegistration {
    pub invite_only: bool,
}

/// The mail server.
#[derive(Debug, Clone)]
pub struct ApiSmtp {
    pub host: String,
    pub username: String,
    pub password: String,
    pub from_address: String,
    pub reply_to: Option<String>,
    pub port: Option<i32>,
    pub use_tls: Option<bool>,
}

/// The key pair for web push.
#[derive(Debug, Clone)]
pub struct ApiVapid {
    pub private_key: String,
    pub public_key: String,
}

/// The service account for Firebase cloud messaging.
#[derive(Debug, Clone)]
pub struct ApiFcm {
    pub key_type: String,
    pub project_id: String,
    pub private_key_id: String,
    pub private_key: String,
    pub client_email: String,
    pub client_id: String,
    pub auth_uri: String,
    pub token_uri: String,
    pub auth_provider_x509_cert_url: String,
    pub client_x509_cert_url: String,
}

/// The key for Apple push notifications.
#[derive(Debug, Clone)]
pub struct ApiApn {
    pub sandbox: bool,
    pub pkcs8: String,
    pub key_id: String,
    pub team_id: String,
}

/// The captcha keys.
#[derive(Debug, Clone)]
pub struct ApiSecurityCaptcha {
    pub hcaptcha_key: String,
    pub hcaptcha_sitekey: String,
}

/// Security settings of the API.
#[derive(Debug, Clone)]
pub struct ApiSecurity {
    pub authifier_shield_key: String,
    pub voso_legacy_token: String,
    pub captcha: ApiSecurityCaptcha,
    pub trust_cloudflare: bool,
}

/// Limits on the API's workers.
#[derive(Debug, Clone)]
pub struct ApiWorkers {
    pub max_concurrent_connections: usize,
}

/// Settings of the API.
#[derive(Debug, Clone)]
pub struct Api {
    pub registration: ApiRegistration,
    pub smtp: ApiSmtp,
    pub vapid: ApiVapid,
    pub fcm: ApiFcm,
    pub apn: ApiApn,
    pub security: ApiSecurity,
    pub workers: ApiWorkers,
}

/// Limits on uploaded images.
#[derive(Debug, Clone)]
pub struct FilesLimit {
    pub min_resolution: [usize; 2],
    pub max_mega_pixels: usize,
    pub max_pixel_side: usize,
}

/// The object store.
#[derive(Debug, Clone)]
pub struct FilesS3 {
    pub endpoint: String,
    pub region: String,
    pub access_key_id: String,
    pub secret_access_key: String,
    pub default_bucket: String,
}

/// Settings of the file server.
#[derive(Debug, Clone)]
pub struct Files {
    pub encryption_key: String,
    /// The quality of encoded images, a binary32 number held as its 32 bits.
    pub webp_quality_bits: u32,
    pub blocked_mime_types: Vec<String>,
    pub clamd_host: String,
    pub limit: FilesLimit,
    pub preview: HashMap<String, [usize; 2]>,
    pub s3: FilesS3,
}

/// Limits that hold for everyone.
#[derive(Debug, Clone)]
pub struct GlobalLimits {
    pub group_size: usize,
    pub message_embeds: usize,
    pub message_replies: usize,
    pub message_reactions: usize,
    pub server_emoji: usize,
    pub server_roles: usize,
    pub server_channels: usize,
    pub new_user_days: usize,
    pub body_limit_size: usize,
}

/// Limits that hold for one class of users.
#[derive(Debug, Clone)]
pub struct FeaturesLimits {
    pub outgoing_friend_requests: usize,
    pub bots: usize,
    pub message_length: usize,
    pub message_attachments: usize,
    /// The number of servers a user may be a member of.
    pub servers: usize,
    pub attachment_size: usize,
    pub avatar_size: usize,
    pub background_size: usize,
    pub icon_size: usize,
    pub banner_size: usize,
    pub emoji_size: usize,
}

/// The limits of every class of users.
#[derive(Debug, Clone)]
pub struct FeaturesLimitsCollection {
    pub global: GlobalLimits,
    pub new_user: FeaturesLimits,
    pub default: FeaturesLimits,
    pub roles: HashMap<String, FeaturesLimits>,
}

/// What the service offers, and within which limits.
#[derive(Debug, Clone)]
pub struct Features {
    pub limits: FeaturesLimitsCollection,
    pub webhooks_enabled: bool,
}

/// Where each application reports its errors.
#[derive(Debug, Clone)]
pub struct Sentry {
    pub api: String,
    pub events: String,
}

/// All the settings.
#[derive(Debug, Clone)]
pub struct Settings {
    pub database: Database,
    pub hosts: Hosts,
    pub api: Api,
    pub files: Files,
    pub features: Features,
    pub sentry: Sentry,
}

/// Something an operator should be told about their settings.
#[derive(Clone, Copy, Debug, PartialEq, Eq, Structural)]
pub enum PreflightWarning {
    /// No mail server is configured.
    NoSmtp,
    /// No captcha key is configured.
    NoCaptcha,
}

impl PreflightWarning {
    /// The text of the warning.
    pub fn message(&self) -> (text: &'static str)
        ensures
            text@ == match *self {
                PreflightWarning::NoSmtp => {
                    "No SMTP settings specified! Remember to configure email."@
                },
                PreflightWarning::NoCaptcha => {
                    "No Captcha key specified! Remember to add hCaptcha key."@
                },
            },
    {
        match self {
            PreflightWarning::NoSmtp => "No SMTP settings specified! Remember to configure email.",
            PreflightWarning::NoCaptcha => {
                "No Captcha key specified! Remember to add hCaptcha key."
            },
        }
    }
}

/// The warnings that settings with this mail host and this captcha key
/// deserve: one for an empty host, then one for an empty key.
pub open spec fn preflight_warnings(
    smtp_host: Seq<char>,
    hcaptcha_key: Seq<char>,
) -> Seq<PreflightWarning> {
    let smtp = if smtp_host.len() == 0 {
        seq![PreflightWarning::NoSmtp]
    } else {
        Seq::<PreflightWarning>::empty()
    };
    let captcha = if hcaptcha_key.len() == 0 {
        seq![PreflightWarning::NoCaptcha]
    } else {
        Seq::<PreflightWarning>::empty()
    };
    smtp + captcha
}

impl Settings {
    /// Looks the settings over and returns what the operator should be warned
    /// of, in the order in which to say it.
    pub fn preflight_checks(&self) -> (warnings: Vec<PreflightWarning>)
        ensures
            warnings@ == preflight_warnings(
                self.api.smtp.host@,
                self.api.security.captcha.hcaptcha_key@,
            ),
    {
        let mut warnings: Vec<PreflightWarning> = Vec::new();
        if self.api.smtp.host.as_str().is_empty() {
            warnings.push(PreflightWarning::NoSmtp);
        }
        if self.api.security.captcha.hcaptcha_key.as_str().is_empty() {
            warnings.push(PreflightWarning::NoCaptcha);
        }
        assert(warnings@ =~= preflight_warnings(
            self.api.smtp.host@,
            self.api.security.captcha.hcaptcha_key@,
        ));
        warnings
    }
}

/// Which of the environment variables that start-up looks at are set.
#[derive(Clone, Copy, Debug, PartialEq, Eq, Structural)]
pub struct Environment {
    /// Whether `RUST_LOG` is set.
    pub rust_log: bool,
    /// Whether `ROCKET_ADDRESS` is set.
    pub rocket_address: bool,
    /// Whether `REDIS_URL` is set.
    pub redis_url: bool,
}

/// An environment variable that start-up sets because it was missing.
#[derive(Clone, Copy, Debug, PartialEq, Eq, Structural)]
pub enum EnvDefault {
    /// `RUST_LOG`, set to `info`.
    RustLog,
    /// `ROCKET_ADDRESS`, set to `0.0.0.0`.
    RocketAddress,
    /// `REDIS_URI`, set to the address of redis in the settings.
    RedisUri,
}

impl EnvDefault {
    /// The name of the variable.
    pub fn name(&self) -> (name: &'static str)
        ensures
            name@ == match *self {
                EnvDefault::RustLog => "RUST_LOG"@,
                EnvDefault::RocketAddress => "ROCKET_ADDRESS"@,
                EnvDefault::RedisUri => "REDIS_URI"@,
            },
    {
        match self {
            EnvDefault::RustLog => "RUST_LOG",
            EnvDefault::RocketAddress => "ROCKET_ADDRESS",
            EnvDefault::RedisUri => "REDIS_URI",
        }
    }

    /// Whether the value comes from the settings, so that they must be loaded.
    pub fn needs_settings(&self) -> (needed: bool)
        ensures
            needed == (*self == EnvDefault::RedisUri),
    {
        match self {
            EnvDefault::RedisUri => true,
            _ => false,
        }
    }

    /// The value to set the variable to.
    pub fn value(&self, database: &Database) -> (value: String)
        ensures
            value@ == match *self {
                EnvDefault::RustLog => "info"@,
                EnvDefault::RocketAddress => "0.0.0.0"@,
                EnvDefault::RedisUri => database.redis@,
            },
    {
        match self {
            EnvDefault::RustLog => "info".to_owned(),
            EnvDefault::RocketAddress => "0.0.0.0".to_owned(),
            EnvDefault::RedisUri => database.redis.clone(),
        }
    }
}

/// What to start error reporting with.
#[derive(Clone, Debug, PartialEq, Eq)]
pub struct SentryInit {
    /// Where to report to.
    pub dsn: String,
    /// The release that reports.
    pub release: String,
}

/// What start-up has to do before anything is logged.
#[derive(Clone, Debug, PartialEq, Eq)]
pub struct LoggingSetup {
    /// The variables to set, in this order.
    pub defaults: Vec<EnvDefault>,
    /// Error reporting, if it is to be started.
    pub sentry: Option<SentryInit>,
}

/// The variables that are missing from `env`: of `RUST_LOG`, `ROCKET_ADDRESS`
/// and the address of redis, in this order, those that are not set.
pub open spec fn missing_defaults(env: Environment) -> Seq<EnvDefault> {
    let rust_log = if env.rust_log {
        Seq::<EnvDefault>::empty()
    } else {
        seq![EnvDefault::RustLog]
    };
    let rocket_address = if env.rocket_address {
        Seq::<EnvDefault>::empty()
    } else {
        seq![EnvDefault::RocketAddress]
    };
    let redis = if env.redis_url {
        Seq::<EnvDefault>::empty()
    } else {
        seq![EnvDefault::RedisUri]
    };
    rust_log + rocket_address + redis
}

/// Decides what start-up has to do in the environment `env`, for the release
/// `release` that reports its errors to `dsn`: each missing variable gets its
/// default, and error reporting is started unless `dsn` is empty.
pub fn setup_logging(env: Environment, release: &str, dsn: String) -> (setup: LoggingSetup)
    ensures
        setup.defaults@ == missing_defaults(env),
        setup.sentry is Some <==> dsn@.len() > 0,
        setup.sentry matches Some(init) ==> init.dsn@ == dsn@ && init.release@ == release@,
{
    let mut defaults: Vec<EnvDefault> = Vec::new();
    if !env.rust_log {
        defaults.push(EnvDefault::RustLog);
    }
    if !env.rocket_address {
        defaults.push(EnvDefault::RocketAddress);
    }
    if !env.redis_url {
        defaults.push(EnvDefault::RedisUri);
    }
    assert(defaults@ =~= missing_defaults(env));
    let sentry = if dsn.as_str().is_empty() {
        None
    } else {
        Some(SentryInit { dsn, release: release.to_owned() })
    };
    LoggingSetup { defaults, sentry }
}

} // verus!
