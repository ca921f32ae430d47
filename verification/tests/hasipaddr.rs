use rs_collector::bosun::Value;
use rs_collector::collectors::hasipaddr::{
    check_for_ip_addrs, create_instances, parse_ipv4, HasIpAddrConfig, Ipv4,
};
use rs_collector::config::Config;

fn ip(a: u8, b: u8, c: u8, d: u8) -> Ipv4 {
    Ipv4 { a: a, b: b, c: c, d: d }
}

#[test]
fn addresses_in_dotted_notation_are_read() {
    assert_eq!(parse_ipv4("1.2.3.4"), Some(ip(1, 2, 3, 4)));
    assert_eq!(parse_ipv4("0.0.0.0"), Some(ip(0, 0, 0, 0)));
    assert_eq!(parse_ipv4("255.255.255.255"), Some(ip(255, 255, 255, 255)));
    assert_eq!(parse_ipv4("192.168.205.46"), Some(ip(192, 168, 205, 46)));
    assert_eq!(parse_ipv4("127.0.0.1"), Some(ip(127, 0, 0, 1)));
    assert_eq!(parse_ipv4("10.0.100.9"), Some(ip(10, 0, 100, 9)));
}

#[test]
fn what_is_no_address_is_refused() {
    let texts = [
        "", "1", "1.2.3", "1.2.3.4.5", "256.1.1.1", "1.256.1.1", "01.2.3.4", "1.2.3.04",
        "1.2.3.4 ", " 1.2.3.4", "1..2.3", ".1.2.3", "1.2.3.", "1.2.3.a", "1234.1.1.1", "+1.2.3.4",
        "1.2.3.-4", "00.0.0.0", "0.0.0.00", "1,2,3,4", "\u{661}.2.3.4", "10.0.0.999", "...",
        "1.2.3.4.", "localhost",
    ];
    for t in texts {
        assert_eq!(parse_ipv4(t), None, "{:?}", t);
    }
}

#[test]
fn address_text_is_dotted() {
    assert_eq!(ip(192, 168, 0, 1).text(), "192.168.0.1");
    assert_eq!(ip(0, 0, 0, 0).text(), "0.0.0.0");
    assert_eq!(ip(255, 255, 255, 255).text(), "255.255.255.255");
}

#[test]
fn bound_addresses_are_one_and_others_zero() {
    let wanted = vec![ip(10, 0, 0, 1), ip(10, 0, 0, 2), ip(127, 0, 0, 1)];
    let local = vec![ip(127, 0, 0, 1), ip(10, 0, 0, 2)];
    let samples = check_for_ip_addrs(&wanted, &local);
    let got: Vec<(String, String, i64)> = samples
        .iter()
        .map(|s| {
            let v = match s.value {
                Value::Integer(i) => i,
                Value::Decimal(_) => panic!("an integer was expected"),
            };
            (s.metric.clone(), s.tags.get("ipv4").cloned().unwrap(), v)
        })
        .collect();
    assert_eq!(
        got,
        vec![
            ("os.net.has_ipv4s".to_string(), "10.0.0.1".to_string(), 0),
            ("os.net.has_ipv4s".to_string(), "10.0.0.2".to_string(), 1),
            ("os.net.has_ipv4s".to_string(), "127.0.0.1".to_string(), 1),
        ]
    );
    assert!(check_for_ip_addrs(&Vec::new(), &local).is_empty());
    assert_eq!(samples[0].tags.len(), 1);
}

#[test]
fn collector_id_joins_the_addresses() {
    let mut config = Config::default();
    assert!(create_instances(&config).is_empty());
    let cfg = HasIpAddrConfig { Ipv4: vec!["10.0.0.1".to_string(), "192.168.1.20".to_string()] };
    assert!(cfg.is_valid());
    config.HasIpAddr = Some(cfg);
    let collectors = create_instances(&config);
    assert_eq!(collectors.len(), 1);
    assert_eq!(collectors[0].id(), "hasipaddr#10.0.0.1,192.168.1.20");
    assert_eq!(collectors[0].ipv4(), &vec![ip(10, 0, 0, 1), ip(192, 168, 1, 20)]);
    let metadata = collectors[0].metadata();
    assert_eq!(metadata.len(), 1);
    assert_eq!(metadata[0].metric, "os.net.has_ipv4s");
    assert_eq!(
        metadata[0].description,
        "Shows whether a host bound a specified IPv4 address. [0 = No, 1 = Yes]"
    );
    let samples = collectors[0].collect_from(&vec![ip(10, 0, 0, 1)]);
    assert_eq!(samples.len(), 2);

    config.HasIpAddr = Some(HasIpAddrConfig { Ipv4: Vec::new() });
    assert_eq!(create_instances(&config)[0].id(), "hasipaddr#");
    config.HasIpAddr = Some(HasIpAddrConfig { Ipv4: vec!["1.2.3.4".to_string()] });
    assert_eq!(create_instances(&config)[0].id(), "hasipaddr#1.2.3.4");
}

#[test]
fn settings_with_something_else_than_addresses_are_not_valid() {
    assert!(!HasIpAddrConfig { Ipv4: vec!["10.0.0.1".to_string(), "localhost".to_string()] }.is_valid());
    assert!(HasIpAddrConfig { Ipv4: Vec::new() }.is_valid());
}
