use rs_collector::bosun::Value;
use rs_collector::collectors::postfix::{
    convert_to_metric, create_instances, get_queue_len, handle_command_output, is_readable,
    parse_queue_len, queue_length_to_sample, queues, sample_queues, QueueLength,
};
use rs_collector::collectors::{CommandOutput, Error};
use rs_collector::config::Config;
use rs_collector::collectors::postfix::PostfixConfig;

const QSHAPE: &str = "                         T  5 10 20 40 80 160 320 640 1280 1280+\n\
                TOTAL  5  1  0  0  1  0   0   0   1    1     1\n\
        example.com    5  1  0  0  1  0   0   0   1    1     1\n";

#[test]
fn qshape_totals_are_read_by_bucket() {
    let lens = parse_queue_len("deferred", QSHAPE).unwrap();
    let got: Vec<(String, String, i32)> =
        lens.iter().map(|q| (q.name.clone(), q.bucket.clone(), q.len)).collect();
    let buckets = ["5", "10", "20", "40", "80", "160", "320", "640", "1280", "1280p"];
    let totals = [1, 0, 0, 1, 0, 0, 0, 1, 1, 1];
    let expected: Vec<(String, String, i32)> = buckets
        .iter()
        .zip(totals.iter())
        .map(|(b, t)| ("deferred".to_string(), b.to_string(), *t))
        .collect();
    assert_eq!(got, expected);
}

#[test]
fn bucket_with_plus_becomes_p() {
    let report = "T 5 5d+\nTOTAL 3 1 2\n";
    let lens = parse_queue_len("active", report).unwrap();
    assert_eq!(lens.len(), 2);
    assert_eq!(lens[0].bucket, "5");
    assert_eq!(lens[1].bucket, "5dp");
    let samples = convert_to_metric(lens);
    assert_eq!(samples.len(), 2);
    assert_eq!(samples[1].metric, "postfix.queues.active");
    assert_eq!(samples[1].tags.get("bucket").cloned(), Some("5dp".to_string()));
    assert!(matches!(samples[1].value, Value::Integer(2)));
}

#[test]
fn short_report_is_an_error() {
    match parse_queue_len("hold", "T 5 10\n") {
        Err(Error::CollectionError(msg)) => {
            assert_eq!(msg, "Failed to parse qshape output for queue 'hold'")
        }
        other => panic!("unexpected {:?}", other),
    }
}

#[test]
fn total_that_is_no_number_is_an_error() {
    match parse_queue_len("hold", "T 5 10\nTOTAL 3 x 2\n") {
        Err(Error::CollectionError(msg)) => {
            assert_eq!(msg, "Failed to parse Int, because 'invalid digit found in string'")
        }
        other => panic!("unexpected {:?}", other),
    }
}

#[test]
fn report_is_readable_when_the_header_names_the_columns() {
    assert!(is_readable(QSHAPE));
    assert!(is_readable(""));
    assert!(is_readable("T 5\nTOTAL 3 1 2\n") == false);
    assert!(is_readable("T 5\nTOTAL 3 x 2\n"));
    assert!(is_readable("T\nTOTAL 3\n"));
}

#[test]
fn failed_runs_are_init_errors() {
    let failed = CommandOutput { code: Some(1), stdout: "a".to_string(), stderr: "b".to_string() };
    match handle_command_output(&Ok(failed)) {
        Err(Error::InitError(msg)) => {
            assert_eq!(msg, "Running qshape returned exit code 1: out 'a', err 'b'.")
        }
        other => panic!("unexpected {:?}", other),
    }
    match get_queue_len("hold", &Err("entity not found".to_string())) {
        Err(Error::InitError(msg)) => {
            assert_eq!(msg, "Failed to run qshape, because 'entity not found'.")
        }
        other => panic!("unexpected {:?}", other),
    }
    let good = CommandOutput { code: Some(0), stdout: QSHAPE.to_string(), stderr: String::new() };
    let good = Ok(good);
    assert_eq!(handle_command_output(&good).unwrap().stdout, QSHAPE);
    assert_eq!(get_queue_len("hold", &good).unwrap().len(), 10);
}

#[test]
fn queue_length_becomes_a_sample() {
    let samples = convert_to_metric(vec![
        QueueLength { name: "maildrop".to_string(), bucket: "5".to_string(), len: -1 },
        QueueLength { name: "hold".to_string(), bucket: "10".to_string(), len: 12 },
    ]);
    assert_eq!(samples.len(), 2);
    assert_eq!(samples[0].metric, "postfix.queues.maildrop");
    assert!(matches!(samples[0].value, Value::Integer(-1)));
    assert_eq!(samples[1].metric, "postfix.queues.hold");
    assert_eq!(samples[1].tags.len(), 1);
}

#[test]
fn five_queues_are_sampled() {
    assert_eq!(queues(), vec!["maildrop", "incoming", "hold", "active", "deferred"]);
}

#[test]
fn postfix_is_enabled_by_its_table() {
    let mut config = Config::default();
    assert!(create_instances(&config).is_empty());
    config.Postfix = Some(PostfixConfig {});
    let collectors = create_instances(&config);
    assert_eq!(collectors.len(), 1);
    assert_eq!(collectors[0].id(), "postfix");
    let metadata = collectors[0].metadata();
    assert_eq!(metadata.len(), 5);
    assert_eq!(metadata[4].metric, "postfix.queues.deferred");
    assert_eq!(metadata[4].unit, "messages");
}

fn run(stdout: &str) -> Result<CommandOutput, String> {
    Ok(CommandOutput { code: Some(0), stdout: stdout.to_string(), stderr: String::new() })
}

#[test]
fn all_queues_are_sampled_in_order() {
    let results = vec![
        run("T 5 10\nTOTAL 3 1 2\n"),
        run("T 5 10\nTOTAL 0 0 0\n"),
        run("T 5\nTOTAL 0\n"),
        run("T 5 10+\nTOTAL 7 3 4\n"),
        run("T 5 10\nTOTAL 1 1\n"),
    ];
    let samples = sample_queues(&results).unwrap();
    let got: Vec<(String, String, String)> = samples
        .iter()
        .map(|s| (s.metric.clone(), s.tags.get("bucket").cloned().unwrap(), s.value.text()))
        .collect();
    let expected: Vec<(String, String, String)> = [
        ("postfix.queues.maildrop", "5", "1"),
        ("postfix.queues.maildrop", "10", "2"),
        ("postfix.queues.incoming", "5", "0"),
        ("postfix.queues.incoming", "10", "0"),
        ("postfix.queues.active", "5", "3"),
        ("postfix.queues.active", "10p", "4"),
        ("postfix.queues.deferred", "5", "1"),
    ]
    .iter()
    .map(|(m, b, v)| (m.to_string(), b.to_string(), v.to_string()))
    .collect();
    assert_eq!(got, expected);
}

#[test]
fn first_failing_queue_gives_the_error() {
    let results = vec![
        run("T 5 10\nTOTAL 3 1 2\n"),
        run("T 5 10\n"),
        Err("gone".to_string()),
        run(""),
        run(""),
    ];
    match sample_queues(&results) {
        Err(Error::CollectionError(msg)) => {
            assert_eq!(msg, "Failed to parse qshape output for queue 'incoming'")
        }
        other => panic!("unexpected {:?}", other),
    }
}

#[test]
fn one_queue_length_as_a_sample() {
    let sample = queue_length_to_sample(QueueLength {
        name: "incoming".to_string(),
        bucket: "1280p".to_string(),
        len: 17,
    });
    assert_eq!(sample.metric, "postfix.queues.incoming");
    assert_eq!(sample.value.text(), "17");
    assert_eq!(sample.tags.to_vec(), vec![("bucket".to_string(), "1280p".to_string())]);
}
