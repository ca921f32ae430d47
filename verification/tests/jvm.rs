use rs_collector::collectors::jvm::{
    create_instances, gcstat_to_sample, get_jps, handle_command_output, identify_jvms,
    is_readable, metadata, name_for, parse_jps, parse_jstat, sample_gc_stats, GcStat,
    IdentifiedJvm, JvmConfig, JvmProcess,
};
use rs_collector::collectors::{CommandOutput, Error};
use rs_collector::config::Config;

const JPS: &str = "1234 org.apache.catalina.startup.Bootstrap -Dcatalina.base=/opt/tomcat -Xmx2g\n\
4711 sun.tools.jps.Jps\n\
815 /opt/app/app.jar   --server.port=8080\n";

const JSTAT: &str = " S0C    S1C    S0U    S1U      EC       EU        OC         OU       MC     MU    CCSC   CCSU   YGC     YGCT    FGC    FGCT     GCT   \n\
1024.0 1024.0  0.0   512.5   8192.0   4096.0   20480.0    10240.0   4864.0 2483.2 512.0  266.5       3    0.011   0      0.000    0.011\n";

fn configs() -> Vec<JvmConfig> {
    vec![
        JvmConfig { Command: "catalina".to_string(), Name: "tomcat".to_string() },
        JvmConfig { Command: r"app\.jar$".to_string(), Name: "app".to_string() },
        JvmConfig { Command: "^org".to_string(), Name: "late".to_string() },
    ]
}

fn ok(stdout: &str) -> Result<CommandOutput, String> {
    Ok(CommandOutput { code: Some(0), stdout: stdout.to_string(), stderr: String::new() })
}

#[test]
fn jps_lines_are_processes() {
    let jps = parse_jps(JPS).unwrap();
    let got: Vec<(u16, String, String)> =
        jps.iter().map(|p| (p.pid, p.class.clone(), p.cmdline.clone())).collect();
    assert_eq!(
        got,
        vec![
            (
                1234,
                "org.apache.catalina.startup.Bootstrap".to_string(),
                "-Dcatalina.base=/opt/tomcat -Xmx2g".to_string()
            ),
            (4711, "sun.tools.jps.Jps".to_string(), "".to_string()),
            (815, "/opt/app/app.jar".to_string(), "--server.port=8080".to_string()),
        ]
    );
}

#[test]
fn jps_errors() {
    match parse_jps("") {
        Err(Error::CollectionError(msg)) => assert_eq!(msg, "Failed to parse jps output"),
        other => panic!("unexpected {:?}", other),
    }
    match parse_jps("1 a\n2\n") {
        Err(Error::CollectionError(msg)) => {
            assert_eq!(msg, "Failed to parse jps output; expected 'PID CLASS CMDLINE'")
        }
        other => panic!("unexpected {:?}", other),
    }
    match parse_jps("1 a\n\n") {
        Err(Error::CollectionError(msg)) => {
            assert_eq!(msg, "Failed to parse jps output; expected 'PID CLASS CMDLINE'")
        }
        other => panic!("unexpected {:?}", other),
    }
    match parse_jps("65536 a b\n") {
        Err(Error::CollectionError(msg)) => assert_eq!(
            msg,
            "Failed to parse Int, because 'number too large to fit in target type'"
        ),
        other => panic!("unexpected {:?}", other),
    }
    match parse_jps("pid a b\n") {
        Err(Error::CollectionError(msg)) => {
            assert_eq!(msg, "Failed to parse Int, because 'invalid digit found in string'")
        }
        other => panic!("unexpected {:?}", other),
    }
}

#[test]
fn failed_runs_of_jps_are_init_errors() {
    let failed = Ok(CommandOutput { code: Some(3), stdout: "o".to_string(), stderr: "e".to_string() });
    match get_jps(&failed) {
        Err(Error::InitError(msg)) => {
            assert_eq!(msg, "Running jps returned exit code 3: out 'o', err 'e'.")
        }
        other => panic!("unexpected {:?}", other),
    }
    match handle_command_output("jstat", &Err("not found".to_string())) {
        Err(Error::InitError(msg)) => assert_eq!(msg, "Failed to run jstat, because 'not found'."),
        other => panic!("unexpected {:?}", other),
    }
    assert_eq!(get_jps(&ok(JPS)).unwrap().len(), 3);
}

#[test]
fn first_matching_pattern_names_the_process() {
    let jps = parse_jps(JPS).unwrap();
    let names: Vec<Option<String>> =
        jps.iter().map(|p| identify_jvms(&configs(), p).unwrap().name).collect();
    assert_eq!(names, vec![Some("tomcat".to_string()), None, Some("app".to_string())]);
    let by_cmdline = JvmProcess { pid: 1, class: "x".to_string(), cmdline: "-Dcatalina".to_string() };
    let jvm = identify_jvms(&configs(), &by_cmdline).unwrap();
    assert_eq!((jvm.pid, jvm.name), (1, Some("tomcat".to_string())));
    let late = JvmProcess { pid: 2, class: "org.x".to_string(), cmdline: String::new() };
    assert_eq!(identify_jvms(&configs(), &late).unwrap().name, Some("late".to_string()));
    assert_eq!(identify_jvms(&Vec::new(), &late).unwrap().name, None);
}

#[test]
fn broken_pattern_gives_no_answer() {
    let broken = vec![JvmConfig { Command: "(".to_string(), Name: "x".to_string() }];
    let jp = JvmProcess { pid: 2, class: "org.x".to_string(), cmdline: String::new() };
    assert!(identify_jvms(&broken, &jp).is_none());
    let mut after = configs();
    after.push(JvmConfig { Command: "(".to_string(), Name: "x".to_string() });
    assert_eq!(identify_jvms(&after, &jp).unwrap().name, Some("late".to_string()));
}

#[test]
fn jstat_report_becomes_statistics() {
    let jvm = IdentifiedJvm { pid: 1234, name: Some("tomcat".to_string()) };
    assert!(is_readable(JSTAT));
    let stats = parse_jstat(&jvm, JSTAT).unwrap();
    assert_eq!(stats.len(), 17);
    assert_eq!(stats[0].jvm_name, "tomcat");
    assert_eq!(stats[0].name, "S0C");
    assert_eq!(stats[0].value, "1024.0");
    assert_eq!(stats[12].name, "YGC");
    assert_eq!(stats[12].value, "3");
    assert_eq!(stats[16].name, "GCT");
    assert_eq!(stats[16].value, "0.011");
    assert_eq!(sample_gc_stats(&jvm, &ok(JSTAT)).unwrap().len(), 17);
}

#[test]
fn jstat_errors() {
    let jvm = IdentifiedJvm { pid: 1234, name: Some("tomcat".to_string()) };
    match parse_jstat(&jvm, "S0C\n") {
        Err(Error::CollectionError(msg)) => {
            assert_eq!(msg, "Failed to parse jstat output for pid 1234")
        }
        other => panic!("unexpected {:?}", other),
    }
    match parse_jstat(&jvm, "A B\n1 2\n3 4\n") {
        Err(Error::CollectionError(msg)) => {
            assert_eq!(msg, "Failed to parse jstat output for pid 1234")
        }
        other => panic!("unexpected {:?}", other),
    }
    match parse_jstat(&jvm, "A B\n1 -\n") {
        Err(Error::CollectionError(msg)) => {
            assert_eq!(msg, "Failed to parse Int, because 'invalid float literal'")
        }
        other => panic!("unexpected {:?}", other),
    }
    assert!(is_readable("A\n1 2\n") == false);
    assert!(is_readable("A\nx 2\n"));
    assert!(is_readable("A B C\n1 2\n"));
    assert!(parse_jstat(&jvm, "A B C\n\n").unwrap().is_empty());
    match sample_gc_stats(&jvm, &Err("x".to_string())) {
        Err(Error::InitError(msg)) => assert_eq!(msg, "Failed to run jstat, because 'x'."),
        other => panic!("unexpected {:?}", other),
    }
}

#[test]
fn statistic_becomes_a_sample_under_its_metric() {
    let table = metadata();
    let stat = GcStat { jvm_name: "tomcat".to_string(), name: "FGCT".to_string(), value: "0.5".to_string() };
    let sample = gcstat_to_sample(&table, &stat).unwrap();
    assert_eq!(sample.metric, "jvm.gc.stats.full_gc_time");
    assert_eq!(sample.value.text(), "0.5");
    assert_eq!(sample.tags.len(), 1);
    assert_eq!(sample.tags.get("jvm_name").cloned(), Some("tomcat".to_string()));
    let unknown = GcStat { jvm_name: "tomcat".to_string(), name: "XYZ".to_string(), value: "1".to_string() };
    assert!(gcstat_to_sample(&table, &unknown).is_none());
}

#[test]
fn jvm_table_has_nineteen_statistics() {
    let table = metadata();
    assert_eq!(table.len(), 19);
    let keys: Vec<&str> = table.iter().map(|(k, _)| k.as_str()).collect();
    assert_eq!(
        keys,
        vec![
            "S0C", "S1C", "S0U", "S1U", "EC", "EU", "OC", "OU", "PC", "PU", "MC", "MU", "CCSC",
            "CCSU", "YGC", "YGCT", "FGC", "FGCT", "GCT"
        ]
    );
    assert_eq!(table[0].1.metric, "jvm.gc.stats.survivor_space_0_capacity");
    assert_eq!(table[0].1.unit, "kB");
    assert_eq!(table[14].1.rate, "counter");
    assert_eq!(table[18].1.description, "GCT: Total garbage collection time");
}

#[test]
fn collector_watches_the_configured_machines() {
    let mut config = Config::default();
    assert!(create_instances(&config).is_empty());
    config.Jvm = configs();
    let collectors = create_instances(&config);
    assert_eq!(collectors.len(), 1);
    let jvm = &collectors[0];
    assert_eq!(jvm.id(), "jvm");
    assert_eq!(jvm.jvms().len(), 3);
    assert_eq!(jvm.metadata().len(), 19);
    assert_eq!(jvm.metadata()[1].metric, "jvm.gc.stats.survivor_space_1_capacity");

    let jps = parse_jps(JPS).unwrap();
    let watched = jvm.watched(&jps).unwrap();
    let got: Vec<(u16, Option<String>)> = watched.iter().map(|j| (j.pid, j.name.clone())).collect();
    assert_eq!(got, vec![(1234, Some("tomcat".to_string())), (815, Some("app".to_string()))]);

    let results = vec![
        parse_jstat(&watched[0], "YGC XX GCT\n3 1 0.011\n"),
        Err(Error::CollectionError("gone".to_string())),
        parse_jstat(&watched[1], "FGC\n7\n"),
    ];
    let samples = jvm.samples(&results);
    let got: Vec<(String, String, String)> = samples
        .iter()
        .map(|s| (s.metric.clone(), s.value.text(), s.tags.get("jvm_name").cloned().unwrap()))
        .collect();
    assert_eq!(
        got,
        vec![
            ("jvm.gc.stats.young_generation_gc_events".to_string(), "3".to_string(), "tomcat".to_string()),
            ("jvm.gc.stats.total_gc_time".to_string(), "0.011".to_string(), "tomcat".to_string()),
            ("jvm.gc.stats.full_gc_events".to_string(), "7".to_string(), "app".to_string()),
        ]
    );
}

#[test]
fn without_a_process_or_a_machine_there_is_an_answer() {
    let mut config = Config::default();
    config.Jvm = vec![JvmConfig { Command: "(".to_string(), Name: "broken".to_string() }];
    let collectors = create_instances(&config);
    assert_eq!(collectors[0].watched(&Vec::new()).unwrap().len(), 0);
    let jp = JvmProcess { pid: 7, class: "a".to_string(), cmdline: "b".to_string() };
    assert!(collectors[0].watched(&vec![jp]).is_none());
    let jp = JvmProcess { pid: 7, class: "a".to_string(), cmdline: "b".to_string() };
    let jvm = identify_jvms(&Vec::new(), &jp).unwrap();
    assert_eq!((jvm.pid, jvm.name), (7, None));
}

#[test]
fn name_of_the_first_machine_that_tells() {
    let machines = configs();
    assert_eq!(name_for(&machines, &vec![false, true, true]), Some("app".to_string()));
    assert_eq!(name_for(&machines, &vec![true]), Some("tomcat".to_string()));
    assert_eq!(name_for(&machines, &vec![false, false, true]), Some("late".to_string()));
    assert_eq!(name_for(&machines, &vec![false, false, false]), None);
    assert_eq!(name_for(&machines, &vec![false]), None);
    assert_eq!(name_for(&machines, &Vec::new()), None);
    assert_eq!(name_for(&Vec::new(), &Vec::new()), None);
}
