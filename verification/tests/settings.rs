use revolt_delta::config::{
    setup_logging, Api, ApiApn, ApiFcm, ApiRegistration, ApiSecurity, ApiSecurityCaptcha, ApiSmtp,
    ApiVapid, ApiWorkers, Database, EnvDefault, Environment, Features, FeaturesLimits,
    FeaturesLimitsCollection, Files, FilesLimit, FilesS3, GlobalLimits, Hosts, PreflightWarning,
    SentryInit, Sentry, Settings,
};
use std::collections::HashMap;

fn w(text: &str) -> String {
    text.to_string()
}

fn limits(servers: usize) -> FeaturesLimits {
    FeaturesLimits {
        outgoing_friend_requests: 10,
        bots: 5,
        message_length: 2000,
        message_attachments: 5,
        servers,
        attachment_size: 20000000,
        avatar_size: 4000000,
        background_size: 6000000,
        icon_size: 2500000,
        banner_size: 6000000,
        emoji_size: 500000,
    }
}

fn settings(smtp_host: &str, hcaptcha_key: &str) -> Settings {
    Settings {
        database: Database { mongodb: w("mongodb://database"), redis: w("redis://redis/") },
        hosts: Hosts {
            app: w("http://local.revolt.chat"),
            api: w("http://local.revolt.chat/api"),
            events: w("ws://local.revolt.chat/ws"),
            autumn: w("http://local.revolt.chat/autumn"),
            january: w("http://local.revolt.chat/january"),
            voso_legacy: w(""),
            voso_legacy_ws: w(""),
        },
        api: Api {
            registration: ApiRegistration { invite_only: false },
            smtp: ApiSmtp {
                host: w(smtp_host),
                username: w(""),
                password: w(""),
                from_address: w("noreply@example.com"),
                reply_to: None,
                port: Some(587),
                use_tls: Some(true),
            },
            vapid: ApiVapid { private_key: w("private"), public_key: w("public") },
            fcm: ApiFcm {
                key_type: w(""),
                project_id: w(""),
                private_key_id: w(""),
                private_key: w(""),
                client_email: w(""),
                client_id: w(""),
                auth_uri: w(""),
                token_uri: w(""),
                auth_provider_x509_cert_url: w(""),
                client_x509_cert_url: w(""),
            },
            apn: ApiApn { sandbox: false, pkcs8: w(""), key_id: w(""), team_id: w("") },
            security: ApiSecurity {
                authifier_shield_key: w(""),
                voso_legacy_token: w(""),
                captcha: ApiSecurityCaptcha {
                    hcaptcha_key: w(hcaptcha_key),
                    hcaptcha_sitekey: w(""),
                },
                trust_cloudflare: false,
            },
            workers: ApiWorkers { max_concurrent_connections: 50 },
        },
        files: Files {
            encryption_key: w("key"),
            webp_quality_bits: 80.0f32.to_bits(),
            blocked_mime_types: vec![w("application/x-msdownload")],
            clamd_host: w(""),
            limit: FilesLimit {
                min_resolution: [1, 1],
                max_mega_pixels: 40,
                max_pixel_side: 10000,
            },
            preview: HashMap::from([(w("avatars"), [128, 128])]),
            s3: FilesS3 {
                endpoint: w("http://minio:9000"),
                region: w("minio"),
                access_key_id: w("id"),
                secret_access_key: w("SECRET-REDACTED"),
                default_bucket: w("revolt-uploads"),
            },
        },
        features: Features {
            limits: FeaturesLimitsCollection {
                global: GlobalLimits {
                    group_size: 100,
                    message_embeds: 5,
                    message_replies: 5,
                    message_reactions: 20,
                    server_emoji: 100,
                    server_roles: 200,
                    server_channels: 200,
                    new_user_days: 3,
                    body_limit_size: 20000,
                },
                new_user: limits(50),
                default: limits(100),
                roles: HashMap::new(),
            },
            webhooks_enabled: false,
        },
        sentry: Sentry { api: w(""), events: w("") },
    }
}

#[test]
fn complete_settings_deserve_no_warning() {
    assert!(settings("smtp.example.com", "0x0000").preflight_checks().is_empty());
}

#[test]
fn missing_smtp_is_warned_of() {
    assert_eq!(settings("", "0x0000").preflight_checks(), vec![PreflightWarning::NoSmtp]);
}

#[test]
fn missing_captcha_is_warned_of() {
    assert_eq!(
        settings("smtp.example.com", "").preflight_checks(),
        vec![PreflightWarning::NoCaptcha]
    );
}

#[test]
fn both_warnings_come_in_order() {
    assert_eq!(
        settings("", "").preflight_checks(),
        vec![PreflightWarning::NoSmtp, PreflightWarning::NoCaptcha]
    );
}

#[test]
fn warnings_have_their_texts() {
    assert_eq!(
        PreflightWarning::NoSmtp.message(),
        "No SMTP settings specified! Remember to configure email."
    );
    assert_eq!(
        PreflightWarning::NoCaptcha.message(),
        "No Captcha key specified! Remember to add hCaptcha key."
    );
}

#[test]
fn settings_can_be_copied() {
    let first = settings("smtp.example.com", "key");
    let copy = first.clone();
    assert_eq!(copy.features.limits.default.servers, 100);
    assert_eq!(copy.files.preview.get("avatars"), Some(&[128, 128]));
    assert_eq!(f32::from_bits(copy.files.webp_quality_bits), 80.0);
    assert_eq!(format!("{:?}", copy.database), format!("{:?}", first.database));
}

#[test]
fn empty_environment_gets_every_default() {
    let env = Environment { rust_log: false, rocket_address: false, redis_url: false };
    let setup = setup_logging(env, "revolt-delta@0.6.0", String::new());
    assert_eq!(
        setup.defaults,
        vec![EnvDefault::RustLog, EnvDefault::RocketAddress, EnvDefault::RedisUri]
    );
    assert_eq!(setup.sentry, None);
}

#[test]
fn full_environment_gets_no_default() {
    let env = Environment { rust_log: true, rocket_address: true, redis_url: true };
    let setup = setup_logging(env, "revolt-delta@0.6.0", String::new());
    assert!(setup.defaults.is_empty());
}

#[test]
fn only_missing_variables_get_defaults() {
    let env = Environment { rust_log: true, rocket_address: false, redis_url: true };
    assert_eq!(setup_logging(env, "r", String::new()).defaults, vec![EnvDefault::RocketAddress]);
    let env = Environment { rust_log: false, rocket_address: true, redis_url: false };
    assert_eq!(
        setup_logging(env, "r", String::new()).defaults,
        vec![EnvDefault::RustLog, EnvDefault::RedisUri]
    );
}

#[test]
fn a_dsn_starts_error_reporting() {
    let env = Environment { rust_log: true, rocket_address: true, redis_url: true };
    let setup = setup_logging(env, "revolt-delta@0.6.0", w("https://key@sentry.example/1"));
    assert_eq!(
        setup.sentry,
        Some(SentryInit { dsn: w("https://key@sentry.example/1"), release: w("revolt-delta@0.6.0") })
    );
}

#[test]
fn defaults_have_names_and_values() {
    let database = Database { mongodb: w("mongodb://database"), redis: w("redis://redis/") };
    assert_eq!(EnvDefault::RustLog.name(), "RUST_LOG");
    assert_eq!(EnvDefault::RustLog.value(&database), "info");
    assert_eq!(EnvDefault::RocketAddress.name(), "ROCKET_ADDRESS");
    assert_eq!(EnvDefault::RocketAddress.value(&database), "0.0.0.0");
    assert_eq!(EnvDefault::RedisUri.name(), "REDIS_URI");
    assert_eq!(EnvDefault::RedisUri.value(&database), "redis://redis/");
}

#[test]
fn only_the_redis_default_needs_the_settings() {
    assert!(EnvDefault::RedisUri.needs_settings());
    assert!(!EnvDefault::RustLog.needs_settings());
    assert!(!EnvDefault::RocketAddress.needs_settings());
}
