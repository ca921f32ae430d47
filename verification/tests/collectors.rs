use rs_collector::collectors::galera::{create_instances, GaleraConfig, SslOpts};
use rs_collector::collectors::hasipaddr::HasIpAddrConfig;
use rs_collector::collectors::jvm::JvmConfig;
use rs_collector::collectors::megaraid::MegaraidConfig;
use rs_collector::collectors::mongo::MongoConfig;
use rs_collector::collectors::postfix::PostfixConfig;
use rs_collector::collectors::rscollector;
use rs_collector::collectors::{create_collectors, AnyCollector, CommandOutput, Error};
use rs_collector::config::{is_known_key, Config};
use rs_collector::number::ParseIntError;

fn galera() -> GaleraConfig {
    GaleraConfig {
        User: Some("root".to_string()),
        Password: Some("toor".to_string()),
        Socket: Some("/var/lib/mysql.sock".to_string()),
        Host: None,
        UseSsl: None,
        CaCert: None,
        ClientCert: None,
        ClientCertKey: None,
    }
}

#[test]
fn default_configuration() {
    let config = Config::default();
    assert_eq!(config.Host, "localhost:8070");
    assert_eq!(config.Hostname, "localhost");
    assert!(config.Tags.is_empty());
    assert!(config.Galera.is_none());
    assert!(config.HasIpAddr.is_none());
    assert!(config.Jvm.is_empty());
    assert!(config.Mongo.is_empty());
    assert!(config.Postfix.is_none());
    assert!(config.Megaraid.is_none());
    assert_eq!(config.DontSend, Some(false));
    assert!(config.sending());
}

#[test]
fn dont_send_switches_the_emitter_off() {
    let mut config = Config::default();
    config.DontSend = Some(true);
    assert!(!config.sending());
    config.DontSend = None;
    assert!(config.sending());
}

#[test]
fn self_statistics_are_always_collected() {
    let collectors = create_collectors(&Config::default());
    assert_eq!(collectors.len(), 1);
    assert_eq!(collectors[0].id(), "rscollector");
    assert!(matches!(collectors[0], AnyCollector::RsCollector(_)));
}

#[test]
fn collectors_come_kind_by_kind() {
    let mut config = Config::default();
    config.Postfix = Some(PostfixConfig {});
    config.Megaraid =
        Some(MegaraidConfig { tick_interval: None, megacli_command: None, adapter: None });
    config.Mongo = vec![
        MongoConfig {
            Name: "rs0".to_string(),
            Host: "host".to_string(),
            Port: 27017,
            User: Some("user".to_string()),
            Password: None,
            UseSsl: None,
            CaCert: None,
            ClientCert: None,
            ClientCertKey: None,
            ReadPreference: None,
        },
    ];
    config.Jvm = vec![JvmConfig { Command: "x".to_string(), Name: "y".to_string() }];
    config.HasIpAddr = Some(HasIpAddrConfig { Ipv4: vec!["10.1.2.3".to_string()] });
    config.Galera = Some(galera());
    let ids: Vec<String> = create_collectors(&config).iter().map(|c| c.id().clone()).collect();
    assert_eq!(
        ids,
        vec![
            "galera#root@/var/lib/mysql.sock",
            "hasipaddr#10.1.2.3",
            "jvm",
            "mongo#rs0#user@host:27017",
            "postfix",
            "megaraid#0",
            "rscollector",
        ]
    );
}

#[test]
fn galera_collector_from_settings() {
    let mut config = Config::default();
    assert!(create_instances(&config).is_empty());
    config.Galera = Some(galera());
    let collectors = create_instances(&config);
    assert_eq!(collectors.len(), 1);
    let g = &collectors[0];
    assert_eq!(g.id(), "galera#root@/var/lib/mysql.sock");
    assert_eq!(g.user().as_deref(), Some("root"));
    assert_eq!(g.password().as_deref(), Some("toor"));
    assert_eq!(g.socket().as_deref(), Some("/var/lib/mysql.sock"));
    assert_eq!(g.ip_or_hostname(), &None);
    assert!(g.prefer_socket());
    assert!(matches!(g.ssl_opts(), SslOpts::Unset));
    assert_eq!(g.metadata().len(), 51);

    let mut anonymous = galera();
    anonymous.User = None;
    anonymous.Socket = None;
    anonymous.Host = Some("db".to_string());
    config.Galera = Some(anonymous);
    let collectors = create_instances(&config);
    assert_eq!(collectors[0].id(), "galera#''@db");
    assert!(!collectors[0].prefer_socket());
}

#[test]
fn galera_ssl_settings_are_checked() {
    let mut config = Config::default();
    let mut no_ca = galera();
    no_ca.UseSsl = Some(true);
    config.Galera = Some(no_ca);
    assert!(create_instances(&config).is_empty());

    let mut no_key = galera();
    no_key.ClientCert = Some("client.pem".to_string());
    config.Galera = Some(no_key);
    assert!(create_instances(&config).is_empty());

    let mut with_ca = galera();
    with_ca.UseSsl = Some(true);
    with_ca.CaCert = Some("ca.pem".to_string());
    config.Galera = Some(with_ca);
    match create_instances(&config)[0].ssl_opts() {
        SslOpts::On { ca_cert, client } => {
            assert_eq!(ca_cert, "ca.pem");
            assert_eq!(client, None);
        }
        other => panic!("unexpected {:?}", other),
    }

    let mut full = galera();
    full.UseSsl = Some(true);
    full.CaCert = Some("ca.pem".to_string());
    full.ClientCert = Some("client.pem".to_string());
    full.ClientCertKey = Some("client.key".to_string());
    config.Galera = Some(full);
    match create_instances(&config)[0].ssl_opts() {
        SslOpts::On { ca_cert, client } => {
            assert_eq!(ca_cert, "ca.pem");
            assert_eq!(client, Some(("client.pem".to_string(), "client.key".to_string())));
        }
        other => panic!("unexpected {:?}", other),
    }

    let mut files_without_ssl = galera();
    files_without_ssl.CaCert = Some("ca.pem".to_string());
    config.Galera = Some(files_without_ssl);
    assert!(matches!(create_instances(&config)[0].ssl_opts(), SslOpts::Unset));
}

#[test]
fn errors_as_text() {
    assert_eq!(
        Error::InitError("x".to_string()).message(),
        "Collectors error: Init failed because x"
    );
    assert_eq!(
        Error::CollectionError("y".to_string()).message(),
        "Collectors error: Collection failed because y"
    );
    assert_eq!(
        Error::ShutdownError("z".to_string()).message(),
        "Collectors error: Shutdown failed because z"
    );
    match Error::from_parse_int(ParseIntError::Empty) {
        Error::CollectionError(msg) => {
            assert_eq!(msg, "Failed to parse Int, because 'cannot parse integer from empty string'")
        }
        other => panic!("unexpected {:?}", other),
    }
    match Error::from_parse_int(ParseIntError::NegOverflow) {
        Error::CollectionError(msg) => assert_eq!(
            msg,
            "Failed to parse Int, because 'number too small to fit in target type'"
        ),
        other => panic!("unexpected {:?}", other),
    }
    assert!(matches!(Error::InitError("x".to_string()).clone(), Error::InitError(_)));
}

#[test]
fn command_output_describes_its_failure() {
    let output = CommandOutput { code: Some(-1), stdout: "a".to_string(), stderr: "b".to_string() };
    assert!(!output.success());
    assert_eq!(output.failure_message("cmd"), "Running cmd returned exit code -1: out 'a', err 'b'.");
    let ok = CommandOutput { code: Some(0), stdout: String::new(), stderr: String::new() };
    assert!(ok.success());
}

#[test]
fn self_statistics_have_three_descriptors() {
    let collectors = rscollector::create_instances(&Config::default());
    assert_eq!(collectors.len(), 1);
    assert_eq!(collectors[0].id(), "rscollector");
    let list = collectors[0].metadata();
    let names: Vec<&str> = list.iter().map(|m| m.metric.as_str()).collect();
    assert_eq!(names, vec!["rs-collector.version", "rs-collector.stats.rss", "rs-collector.stats.samples"]);
    assert_eq!(list[1].unit, "KB");
    assert_eq!(rscollector::RS_COLLECTOR_STATS_SAMPLES_METRICNAME, "rs-collector.stats.samples");
}

#[test]
fn fields_of_a_configuration() {
    for key in
        ["Host", "Hostname", "Tags", "DontSend", "Galera", "HasIpAddr", "Postfix", "Megaraid", "Jvm", "Mongo"]
    {
        assert!(is_known_key(key), "{}", key);
    }
    for key in ["FullHost", "host", "", "Tags ", "Rscollector"] {
        assert!(!is_known_key(key), "{}", key);
    }
}
