use rpc_perf::config::Action;
use rpc_perf::config::ArgumentError;
use rpc_perf::config::Arguments;
use rpc_perf::config::Class;
use rpc_perf::config::Config;
use rpc_perf::config::ConnectionCounts;
use rpc_perf::config::Level;
use rpc_perf::config::NumericArgument;
use rpc_perf::config::Protocol;
use rpc_perf::config::arguments::level_for_verbosity;
use rpc_perf::config::arguments::protocol_from_name;
use rpc_perf::config::default_value_class;

fn no_arguments() -> Arguments {
    Arguments {
        listen: None,
        admin: None,
        clients: None,
        interval: None,
        windows: None,
        poolsize: None,
        request_ratelimit: None,
        request_timeout: None,
        connect_ratelimit: None,
        connect_timeout: None,
        close_rate: None,
        soft_timeout: false,
        endpoints: None,
        verbose: 0,
        service: false,
        tcp_nodelay: false,
        protocol: None,
        tls_key: None,
        tls_ca: None,
        tls_cert: None,
        waterfall: None,
        tls_session_cache_size: None,
    }
}

fn text(s: &str) -> Option<String> {
    Some(s.to_string())
}

#[test]
fn default_config_has_one_keyspace() {
    let config = Config::default();
    assert_eq!(config.keyspace.len(), 1);
    let ks = &config.keyspace[0];
    assert_eq!(ks.length, 8);
    assert_eq!(ks.count, Some(10_000_000));
    assert_eq!(ks.weight, 1);
    assert_eq!(ks.commands.len(), 2);
    assert_eq!(ks.commands[0].action(), Action::Get);
    assert_eq!(ks.commands[1].action(), Action::SetKey);
    for c in ks.commands.iter() {
        assert_eq!(c.weight(), 1);
        assert_eq!(c.ttl(), None);
        assert_eq!(c.items(), None);
        assert_eq!(c.watermark_low(), None);
        assert_eq!(c.watermark_high(), None);
    }
    assert_eq!(ks.values.len(), 1);
    assert_eq!(ks.values[0].length(), 64);
    assert_eq!(ks.values[0].weight(), 1);
    assert_eq!(ks.values[0].class, Class::Alphanumeric);
    assert_eq!(default_value_class(), Class::Alphanumeric);
}

#[test]
fn default_config_general_settings() {
    let config = Config::default();
    assert_eq!(config.interval(), 60);
    assert_eq!(config.windows(), Some(5));
    assert_eq!(config.clients(), 1);
    assert_eq!(config.poolsize(), 1);
    assert_eq!(config.logging(), Level::Info);
    assert_eq!(config.protocol(), Protocol::Memcache);
    assert_eq!(config.request_ratelimit(), None);
    assert_eq!(config.request_timeout(), 200_000);
    assert_eq!(config.connect_timeout(), 200_000);
    assert_eq!(config.connect_ratelimit(), None);
    assert!(!config.soft_timeout());
    assert_eq!(config.close_rate(), None);
    assert!(!config.tcp_nodelay());
    assert_eq!(config.tls_key(), None);
    assert_eq!(config.tls_cert(), None);
    assert_eq!(config.tls_ca(), None);
    assert_eq!(config.tls_session_cache_size(), 0);
    assert_eq!(config.waterfall(), None);
    assert!(!config.tls_enabled());
}

#[test]
fn protocol_names() {
    assert_eq!(protocol_from_name("echo"), Some(Protocol::Echo));
    assert_eq!(protocol_from_name("memcache"), Some(Protocol::Memcache));
    assert_eq!(protocol_from_name("pelikan-rds"), Some(Protocol::PelikanRds));
    assert_eq!(protocol_from_name("ping"), Some(Protocol::Ping));
    assert_eq!(protocol_from_name("redis"), Some(Protocol::RedisResp));
    assert_eq!(protocol_from_name("redis-inline"), Some(Protocol::RedisInline));
    assert_eq!(protocol_from_name("thrift-cache"), Some(Protocol::ThriftCache));
    assert_eq!(protocol_from_name("http"), None);
    assert_eq!(protocol_from_name("Redis"), None);
}

#[test]
fn verbosity_levels() {
    assert_eq!(level_for_verbosity(0), Level::Info);
    assert_eq!(level_for_verbosity(1), Level::Debug);
    assert_eq!(level_for_verbosity(2), Level::Trace);
    assert_eq!(level_for_verbosity(17), Level::Trace);
}

#[test]
fn arguments_override_settings() {
    let mut config = Config::default();
    let mut args = no_arguments();
    args.listen = text("0.0.0.0:9000");
    args.clients = text("4");
    args.interval = text("+10");
    args.windows = text("3");
    args.poolsize = text("2");
    args.request_ratelimit = text("1000");
    args.request_timeout = text("5000");
    args.connect_ratelimit = text("50");
    args.connect_timeout = text("6000");
    args.close_rate = text("7");
    args.soft_timeout = true;
    args.endpoints = Some(vec!["127.0.0.1:12321".to_string()]);
    args.verbose = 1;
    args.tcp_nodelay = true;
    args.protocol = text("redis");
    args.tls_key = text("key.pem");
    args.tls_ca = text("ca.pem");
    args.tls_cert = text("cert.pem");
    args.waterfall = text("waterfall.png");
    args.tls_session_cache_size = text("32");
    assert_eq!(config.apply_arguments(args), Ok(()));
    assert_eq!(config.general.listen, text("0.0.0.0:9000"));
    assert_eq!(config.clients(), 4);
    assert_eq!(config.interval(), 10);
    assert_eq!(config.windows(), Some(3));
    assert_eq!(config.poolsize(), 2);
    assert_eq!(config.request_ratelimit(), Some(1000));
    assert_eq!(config.request_timeout(), 5000);
    assert_eq!(config.connect_ratelimit(), Some(50));
    assert_eq!(config.connect_timeout(), 6000);
    assert_eq!(config.close_rate(), Some(7));
    assert!(config.soft_timeout());
    assert_eq!(config.general.endpoints, Some(vec!["127.0.0.1:12321".to_string()]));
    assert_eq!(config.logging(), Level::Debug);
    assert!(config.tcp_nodelay());
    assert_eq!(config.protocol(), Protocol::RedisResp);
    assert_eq!(config.tls_key(), text("key.pem"));
    assert_eq!(config.tls_ca(), text("ca.pem"));
    assert_eq!(config.tls_cert(), text("cert.pem"));
    assert_eq!(config.waterfall(), text("waterfall.png"));
    assert_eq!(config.tls_session_cache_size(), 32);
    assert!(config.tls_enabled());
    assert_eq!(config.keyspace.len(), 1);
}

#[test]
fn no_arguments_change_only_logging() {
    let mut config = Config::default();
    let mut args = no_arguments();
    args.verbose = 3;
    assert_eq!(config.apply_arguments(args), Ok(()));
    assert_eq!(config.logging(), Level::Trace);
    assert_eq!(config.windows(), Some(5));
    assert_eq!(config.clients(), 1);
    assert_eq!(config.protocol(), Protocol::Memcache);
}

#[test]
fn service_mode_drops_windows() {
    let mut config = Config::default();
    let mut args = no_arguments();
    args.windows = text("9");
    args.service = true;
    assert_eq!(config.apply_arguments(args), Ok(()));
    assert_eq!(config.windows(), None);
}

#[test]
fn unparsable_numbers_are_refused_in_order() {
    let mut config = Config::default();
    let mut args = no_arguments();
    args.clients = text("four");
    args.poolsize = text("x");
    args.listen = text("0.0.0.0:1");
    assert_eq!(
        config.apply_arguments(args),
        Err(ArgumentError::Unparsable(NumericArgument::Clients))
    );
    assert_eq!(config.general.listen, None);
    assert_eq!(config.clients(), 1);

    let mut args = no_arguments();
    args.poolsize = text("-1");
    args.tls_session_cache_size = text("z");
    assert_eq!(
        config.apply_arguments(args),
        Err(ArgumentError::Unparsable(NumericArgument::Poolsize))
    );

    let mut args = no_arguments();
    args.close_rate = text("");
    assert_eq!(
        config.apply_arguments(args),
        Err(ArgumentError::Unparsable(NumericArgument::CloseRate))
    );

    let mut args = no_arguments();
    args.tls_session_cache_size = text("1e3");
    assert_eq!(
        config.apply_arguments(args),
        Err(ArgumentError::Unparsable(NumericArgument::TlsSessionCacheSize))
    );
}

#[test]
fn unknown_protocol_is_refused() {
    let mut config = Config::default();
    let mut args = no_arguments();
    args.protocol = text("gopher");
    args.tls_session_cache_size = text("bad");
    assert_eq!(config.apply_arguments(args), Err(ArgumentError::UnknownProtocol));
    assert_eq!(config.protocol(), Protocol::Memcache);
}

#[test]
fn applying_arguments_twice_is_applying_once() {
    let make = || {
        let mut args = no_arguments();
        args.clients = text("3");
        args.windows = text("2");
        args.soft_timeout = true;
        args.protocol = text("ping");
        args
    };
    let mut once = Config::default();
    once.apply_arguments(make()).unwrap();
    let mut twice = Config::default();
    twice.apply_arguments(make()).unwrap();
    twice.apply_arguments(make()).unwrap();
    assert_eq!(format!("{:?}", once), format!("{:?}", twice));
}

#[test]
fn connection_counts_and_runtime() {
    let mut config = Config::default();
    let mut args = no_arguments();
    args.clients = text("3");
    args.poolsize = text("4");
    args.interval = text("10");
    args.windows = text("6");
    config.apply_arguments(args).unwrap();
    assert_eq!(
        config.connections(5),
        Some(ConnectionCounts { per_endpoint: 12, per_client: 20, total: 60 })
    );
    assert_eq!(config.runtime(), Ok(Some(60)));

    let mut args = no_arguments();
    args.clients = text(&usize::MAX.to_string());
    args.interval = text(&usize::MAX.to_string());
    config.apply_arguments(args).unwrap();
    assert_eq!(config.connections(1), None);
    assert_eq!(config.runtime(), Err(()));

    let mut args = no_arguments();
    args.service = true;
    config.apply_arguments(args).unwrap();
    assert_eq!(config.runtime(), Ok(None));
}

#[test]
fn early_errors_cover_the_settings_read_before_the_endpoints() {
    let mut args = no_arguments();
    assert_eq!(args.early_error(), None);
    args.protocol = text("gopher");
    args.tls_session_cache_size = text("x");
    assert_eq!(args.early_error(), None);
    args.close_rate = text("-3");
    assert_eq!(args.early_error(), Some(ArgumentError::Unparsable(NumericArgument::CloseRate)));
    args.interval = text("soon");
    assert_eq!(args.early_error(), Some(ArgumentError::Unparsable(NumericArgument::Interval)));
}

#[test]
fn summary_lines_describe_the_configuration() {
    let config = Config::default();
    let lines = config.summary_lines(2).unwrap();
    assert_eq!(
        lines,
        vec![
            "Config: TLS: false".to_string(),
            "Config: Clients: 1 Poolsize: 1 Endpoints: 2".to_string(),
            "Config: Connections: Per-Endpoint: 1 Per-Client: 2 Total: 2".to_string(),
            "Config: Ratelimit (/s): Connect: Unlimited Request: Unlimited".to_string(),
            "Config: Timeout (us): Connect: 200000 Request: 200000 Mode: Hard".to_string(),
            "Config: Interval: 60 seconds Windows: 5 Runtime: 300 seconds".to_string(),
            "Config: Keyspace: Length: 8 Commands: 2 Value Sizes: 1".to_string(),
        ]
    );

    let mut config = Config::default();
    let mut args = no_arguments();
    args.service = true;
    args.soft_timeout = true;
    args.request_ratelimit = text("1000");
    args.tls_key = text("k");
    args.tls_cert = text("c");
    args.tls_ca = text("a");
    config.apply_arguments(args).unwrap();
    let lines = config.summary_lines(0).unwrap();
    assert_eq!(lines[0], "Config: TLS: true");
    assert_eq!(lines[3], "Config: Ratelimit (/s): Connect: Unlimited Request: 1000");
    assert_eq!(lines[4], "Config: Timeout (us): Connect: 200000 Request: 200000 Mode: Soft");
    assert_eq!(lines[5], "Config: Interval: 60 seconds Windows: Unlimited Runtime: Unlimited");

    let mut args = no_arguments();
    args.clients = text(&usize::MAX.to_string());
    config.apply_arguments(args).unwrap();
    assert_eq!(config.summary_lines(2), None);
}
