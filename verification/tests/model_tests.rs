use rustybot::config::{Config, Database, Mqtt, Redis};
use rustybot::job::JobBuilder;
use rustybot::middleware::AuthenticateMiddlewareFactory;
use rustybot::models::{
    Auth, MediaType, MessageMedia, MessageModel, MessageSender, Quota, QuotaType, UserRole,
    UserState,
};
use rustybot::sql::check_sql_component;
use rustybot::version::{ReleaseInfo, Version, VersionInfo};

#[test]
fn sql_components_are_guarded() {
    assert_eq!(check_sql_component("alice").unwrap(), "alice");
    assert_eq!(check_sql_component("a-b c_d").unwrap(), "a-b c_d");
    assert!(check_sql_component("a;b").is_err());
    assert!(check_sql_component(";").is_err());
    assert!(check_sql_component("drop --").is_err());
    assert!(check_sql_component("---").is_err());
}

#[test]
fn database_connection_string_is_exact() {
    let d = Database {
        host: "db.example".to_string(),
        username: "svc".to_string(),
        password: "pw".to_string(),
        database: "rustybot".to_string(),
    };
    assert_eq!(d.connection_string(), "mysql://svc:pw@db.example/rustybot");
}

#[test]
fn redis_connection_url_is_exact() {
    let explicit = Redis {
        host: "queue.example".to_string(),
        port: 6380,
        username: Some("svc".to_string()),
        password: "pw".to_string(),
        select: Some(3),
    };
    assert_eq!(explicit.connection_url(), "redis://svc:pw@queue.example:6380/3");
    let defaults = Redis {
        host: "localhost".to_string(),
        port: 6379,
        username: None,
        password: "pw".to_string(),
        select: None,
    };
    assert_eq!(defaults.connection_url(), "redis://default:pw@localhost:6379/0");
}

#[test]
fn config_holds_the_whole_surface() {
    let cfg = Config {
        database: Database {
            host: "db".to_string(),
            username: "u".to_string(),
            password: "p".to_string(),
            database: "d".to_string(),
        },
        redis: Redis {
            host: "q".to_string(),
            port: 6379,
            username: None,
            password: "p".to_string(),
            select: None,
        },
        mqtt: Mqtt {
            url: "tcp://broker:1883".to_string(),
            client: None,
            username: "mq".to_string(),
            password: "mp".to_string(),
            tls: false,
        },
        queue: "completion-jobs".to_string(),
        poll_interval_ms: 250,
        topic_prefix: "jobs/".to_string(),
    };
    assert_eq!(cfg.queue, "completion-jobs");
    assert_eq!(cfg.poll_interval_ms, 250);
    assert_eq!(cfg.topic_prefix, "jobs/");
    assert!(!cfg.mqtt.tls);
}

#[test]
fn model_codes_round_trip() {
    let models = [
        MessageModel::GPT_3_5_Turbo,
        MessageModel::GPT_4,
        MessageModel::GPT_4_32K,
        MessageModel::GPT_4_0314,
        MessageModel::GPT_4_32K_0314,
        MessageModel::GPT_3_5_Turbo_0301,
        MessageModel::Others,
    ];
    for (code, model) in models.iter().enumerate() {
        assert_eq!(model.as_i8(), code as i8);
        assert_eq!(MessageModel::from_i8(code as i8), *model);
    }
}

#[test]
fn sender_media_quota_role_state_codes() {
    assert_eq!(MessageSender::from_i8(0), MessageSender::User);
    assert_eq!(MessageSender::from_i8(1), MessageSender::Assistant);
    assert_eq!(MessageSender::from_i8(2), MessageSender::System);
    assert_eq!(MessageSender::Assistant.as_i8(), 1);

    assert_eq!(MediaType::from_i8(0), MediaType::Image);
    assert_eq!(MediaType::from_i8(1), MediaType::Audio);
    assert_eq!(MediaType::from_i8(2), MediaType::Video);
    assert_eq!(MediaType::Video.as_i8(), 2);

    assert_eq!(QuotaType::from_i8(0), QuotaType::ChatCompletion);
    assert_eq!(QuotaType::from_i8(1), QuotaType::ImageGeneration);
    assert_eq!(QuotaType::from_i8(2), QuotaType::TextToSpeech);
    assert_eq!(QuotaType::ChatCompletion.as_i8(), 0);

    assert_eq!(UserRole::from_i8(0), UserRole::Normal);
    assert_eq!(UserRole::from_i8(1), UserRole::Admin);
    assert_eq!(UserRole::Admin.as_i8(), 1);

    assert_eq!(UserState::from_i8(0), UserState::Active);
    assert_eq!(UserState::from_i8(1), UserState::Inactive);
    assert_eq!(UserState::Inactive.as_i8(), 1);
}

#[test]
fn auth_entry_accessors() {
    let a = Auth::new(7, "key-text");
    assert_eq!(a.id(), None);
    assert_eq!(a.auth_user_id, 7);
    assert_eq!(a.key(), "key-text");
}

#[test]
fn quota_and_media_hold_their_fields() {
    let q = Quota {
        quota_id: 1,
        quota_user_id: 2,
        quota_type: QuotaType::ChatCompletion,
        quota_total: 100,
        quota_used: 40,
    };
    assert_eq!(q.quota_total - q.quota_used, 60);
    let m = MessageMedia { ty: MediaType::Image, url: "https://example/img.png".to_string() };
    assert_eq!(m.ty, MediaType::Image);
}

#[test]
fn version_defaults() {
    let v = Version::default();
    assert_eq!(v.version, "1.0.0");
    assert_eq!(v.date, "1995-09-26");
    assert_eq!(v.description, "");
    assert_eq!(v.url, "");
    assert!(v.releases.is_none());
    let r = ReleaseInfo::default();
    assert!(r.msi_x64.is_none() && r.deb_arm64.is_none() && r.deb_x64.is_none());
    let info = VersionInfo::default();
    assert_eq!(info.latest.version, "1.0.0");
    assert!(info.history.is_empty());
}

#[test]
fn job_builder_assembles_a_job() {
    let prompts = vec![rustybot::codec::PromptMessage {
        role: rustybot::codec::PromptRole::User,
        content: "hi".to_string(),
    }];
    let job = JobBuilder::new("J3".to_string()).set_messages(prompts).finalize();
    assert_eq!(job.job_id, "J3");
    assert_eq!(job.prompts.len(), 1);
    let _factory = AuthenticateMiddlewareFactory::new();
}
