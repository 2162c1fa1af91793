use rooted_vfs::args::{AuthType, FailedLoginsPolicyType, FtpsClientAuthType, FtpsRequiredType, LogLevelType, StorageBackendType};
use rooted_vfs::config::Arg;
use rooted_vfs::googlelog::{get_severity, Builder as GoogleBuilder, Level};
use rooted_vfs::redislog::Builder;
use rooted_vfs::version::{libunftp_version, long_version, BuildInfo};
use std::str::FromStr;

#[test]
fn enum_values_parse_by_name() {
    assert_eq!(Some(AuthType::json), AuthType::from_name("json"));
    assert_eq!(None, AuthType::from_name("JSON"));
    assert_eq!(Some(StorageBackendType::gcs), StorageBackendType::from_name("gcs"));
    assert_eq!(Ok(FailedLoginsPolicyType::combination), FailedLoginsPolicyType::from_str("combination"));
    assert_eq!(Ok(FtpsRequiredType::accounts), FtpsRequiredType::from_str("accounts"));
    assert_eq!(Ok(FtpsClientAuthType::require), FtpsClientAuthType::from_str("require"));
    assert_eq!(Ok(LogLevelType::trace), LogLevelType::from_str("trace"));
    assert_eq!(Err("no match"), LogLevelType::from_str("verbose"));
}

#[test]
fn enum_names_round_trip() {
    for v in [LogLevelType::error, LogLevelType::warn, LogLevelType::info, LogLevelType::debug, LogLevelType::trace] {
        assert_eq!(Some(v), LogLevelType::from_name(v.name()));
    }
    assert_eq!("anonymous", AuthType::anonymous.name());
}

#[test]
fn arg_names_and_defaults() {
    assert_eq!("UNFTP_HOME", Arg::NoDefault("UNFTP_HOME").name());
    assert_eq!(None, Arg::NoDefault("UNFTP_HOME").default_value());
    let a = Arg::WithDefault("LOG_LEVEL", "info");
    assert_eq!("LOG_LEVEL", a.name());
    assert_eq!(Some("info"), a.default_value());
}

#[test]
fn redis_builder_defaults_and_setters() {
    let b = Builder::new("unftp");
    assert_eq!("unftp", b.app_name);
    assert_eq!("localhost", b.redis_host);
    assert_eq!(6379, b.redis_port);
    assert_eq!("", b.redis_key);
    assert_eq!(None, b.ttl_seconds);
    assert_eq!(10, b.connection_pool_size);
    let b = b.redis_host("redis.local").redis_port(7000).redis_key("logs").ttl(60).source_host("ftp-a");
    assert_eq!("redis.local", b.redis_host);
    assert_eq!(7000, b.redis_port);
    assert_eq!("logs", b.redis_key);
    assert_eq!(Some(60), b.ttl_seconds);
    assert_eq!(Some("ftp-a".to_string()), b.hostname);
    assert_eq!("unftp", b.app_name);
    let b = b.redis("h".to_string(), 1, "k".to_string());
    assert_eq!(("h", 1, "k"), (b.redis_host.as_str(), b.redis_port, b.redis_key.as_str()));
    assert_eq!(Some(60), b.ttl_seconds);
}

#[test]
fn google_builder_defaults_and_setters() {
    let b = GoogleBuilder::new("projects/p/logs/l", "k8s_container");
    assert_eq!("projects/p/logs/l", b.log_name);
    assert_eq!("k8s_container", b.resource_type);
    assert_eq!(None, b.log_level_label);
    assert!(b.default_labels.is_empty());
    assert_eq!(None, b.resource_labels);
    let b = b
        .with_log_level_label("level")
        .with_default_labels(vec![("team".to_string(), "ops".to_string())])
        .with_resource_labels(vec![("pod_name".to_string(), "p-1".to_string())]);
    assert_eq!(Some("level".to_string()), b.log_level_label);
    assert_eq!(vec![("team".to_string(), "ops".to_string())], b.default_labels);
    assert_eq!(Some(vec![("pod_name".to_string(), "p-1".to_string())]), b.resource_labels);
    assert_eq!("projects/p/logs/l", b.log_name);
}

#[test]
fn google_severities() {
    assert_eq!("CRITICAL", get_severity(Level::Critical));
    assert_eq!("ERROR", get_severity(Level::Error));
    assert_eq!("WARNING", get_severity(Level::Warning));
    assert_eq!("INFO", get_severity(Level::Info));
    assert_eq!("DEBUG", get_severity(Level::Debug));
    assert_eq!("DEBUG", get_severity(Level::Trace));
}

#[test]
fn version_description() {
    let deps = vec![("tokio".to_string(), "1.0".to_string()), ("libunftp".to_string(), "0.23.1".to_string())];
    assert_eq!("0.23.1", libunftp_version(&deps));
    assert_eq!("unknown", libunftp_version(&vec![("tokio".to_string(), "1.0".to_string())]));
    let b = BuildInfo {
        pkg_version: "0.15.1".to_string(),
        git_version: None,
        built_time_utc: "Tue, 1 Jan 2030 00:00:00 +0000".to_string(),
        dependencies: deps,
        rustc_version: "rustc 1.80.0".to_string(),
        os: "linux".to_string(),
        target_arch: "x86_64".to_string(),
        features: "gcs".to_string(),
        debug: false,
    };
    assert_eq!(
        "0.15.1\n - Git version:\tunknown\n - Built:\tTue, 1 Jan 2030 00:00:00 +0000\n - libunftp:\tv0.23.1\n - Compiler:\trustc 1.80.0\n - OS/Arch:\tlinux/x86_64\n - Features:\tgcs\n - Debug:\tfalse",
        long_version(&b)
    );
}
