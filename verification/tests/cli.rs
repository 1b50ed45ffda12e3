use circular_transaction_exporter::cli::{ArgsEnd, FastSendArgs, InjectorArgs, ReceiverArgs};

fn args(words: &[&str]) -> Vec<String> {
    words.iter().map(|word| word.to_string()).collect()
}

#[test]
fn receiver_defaults() {
    let (parsed, end) = ReceiverArgs::parse_args(&args(&[]));
    assert!(matches!(end, ArgsEnd::Complete));
    assert!(parsed.listens.is_empty());
    assert_eq!(parsed.output, None);
    assert_eq!(parsed.slow_ms, 0);
    assert_eq!(parsed.expect_api_key, None);
    assert_eq!(parsed.stats_interval_secs, 5);
    assert_eq!(parsed.report_interval_secs(), 5);
    assert_eq!(parsed.listen_address(), "127.0.0.1:50051");
}

#[test]
fn receiver_flags() {
    let (parsed, end) = ReceiverArgs::parse_args(&args(&[
        "--listen",
        "0.0.0.0:1",
        "--output",
        "received.jsonl",
        "--slow-ms",
        "+0250",
        "--expect-api-key",
        "--listen",
        "--stats-interval-secs",
        "0",
        "--listen",
        "0.0.0.0:2",
    ]));
    assert!(matches!(end, ArgsEnd::Complete));
    assert_eq!(parsed.listens, args(&["0.0.0.0:1", "0.0.0.0:2"]));
    assert_eq!(parsed.output.as_deref(), Some("received.jsonl"));
    assert_eq!(parsed.slow_ms, 250);
    assert_eq!(parsed.expect_api_key.as_deref(), Some("--listen"));
    assert_eq!(parsed.stats_interval_secs, 0);
    assert_eq!(parsed.report_interval_secs(), 1);
    assert_eq!(parsed.listen_address(), "0.0.0.0:2");
}

#[test]
fn the_first_problem_ends_the_reading() {
    let (parsed, end) =
        ReceiverArgs::parse_args(&args(&["--slow-ms", "7", "--what", "--listen", "x"]));
    assert!(matches!(end, ArgsEnd::Unknown(flag) if flag == "--what"));
    assert_eq!(parsed.slow_ms, 7);
    assert!(parsed.listens.is_empty());

    let (_, end) = ReceiverArgs::parse_args(&args(&["-h", "--what"]));
    assert!(matches!(end, ArgsEnd::Help));
    let (_, end) = ReceiverArgs::parse_args(&args(&["--help"]));
    assert!(matches!(end, ArgsEnd::Help));
    let (_, end) = ReceiverArgs::parse_args(&args(&["--output"]));
    assert!(matches!(end, ArgsEnd::MissingValue("--output")));
}

#[test]
fn values_that_are_no_numbers_are_named() {
    for raw in ["", "+", "-1", "1 ", "0x1", "18446744073709551616"] {
        let (_, end) = ReceiverArgs::parse_args(&args(&["--stats-interval-secs", raw]));
        match end {
            ArgsEnd::Invalid {
                flag,
                raw: named,
                error,
            } => {
                assert_eq!(Err(error), raw.parse::<u64>());
                assert_eq!(flag, "--stats-interval-secs");
                assert_eq!(named, raw);
            }
            _ => panic!("{raw:?} is no number"),
        }
    }
    let (parsed, end) = ReceiverArgs::parse_args(&args(&["--slow-ms", "18446744073709551615"]));
    assert!(matches!(end, ArgsEnd::Complete));
    assert_eq!(parsed.slow_ms, u64::MAX);
}

#[test]
fn fast_send_needs_a_key_unless_it_is_a_dry_run() {
    let (_, end) = FastSendArgs::parse_args(&args(&[]), String::new());
    assert!(matches!(end, ArgsEnd::Required("--api-key")));
    let (parsed, end) = FastSendArgs::parse_args(&args(&["--dry-run"]), String::new());
    assert!(matches!(end, ArgsEnd::Complete));
    assert!(parsed.dry_run);
    let (parsed, end) = FastSendArgs::parse_args(&args(&[]), "from-env".to_string());
    assert!(matches!(end, ArgsEnd::Complete));
    assert_eq!(parsed.api_key, "from-env");
    assert_eq!(parsed.url, "http://cashback.circular.fi");
    assert_eq!(parsed.rpc, "https://api.mainnet-beta.solana.com");
    assert_eq!(parsed.count, 1);
    assert_eq!(parsed.memo, None);
}

#[test]
fn fast_send_flags() {
    let (parsed, end) = FastSendArgs::parse_args(
        &args(&[
            "--dry-run",
            "--count",
            "0",
            "--url",
            "u",
            "--api-key",
            "k",
            "--rpc",
            "r",
            "--memo",
            "circular test",
        ]),
        "from-env".to_string(),
    );
    assert!(matches!(end, ArgsEnd::Complete));
    assert_eq!(parsed.count, 1);
    assert_eq!(parsed.url, "u");
    assert_eq!(parsed.api_key, "k");
    assert_eq!(parsed.rpc, "r");
    assert_eq!(parsed.memo.as_deref(), Some("circular test"));

    let (parsed, _) = FastSendArgs::parse_args(&args(&["--count", "12"]), "k".to_string());
    assert_eq!(parsed.count, 12);
    let (_, end) = FastSendArgs::parse_args(&args(&["--count", "many"]), "k".to_string());
    assert!(matches!(end, ArgsEnd::Invalid { flag: "--count", .. }));
    let (_, end) = FastSendArgs::parse_args(&args(&["--memo"]), "k".to_string());
    assert!(matches!(end, ArgsEnd::MissingValue("--memo")));
    let (_, end) = FastSendArgs::parse_args(&args(&["--help"]), String::new());
    assert!(matches!(end, ArgsEnd::Help));
}

#[test]
fn injector_flags() {
    let (parsed, end) = InjectorArgs::parse_args(&args(&["--keypair", "payer.json"]));
    assert!(matches!(end, ArgsEnd::Complete));
    assert!(parsed.tpus.is_empty());
    assert_eq!(parsed.tpu_address(), "127.0.0.1:8002");
    assert_eq!(parsed.rpc, "http://127.0.0.1:8899");
    assert_eq!(parsed.keypair_path, "payer.json");
    assert_eq!(parsed.count, 10);
    assert!(!parsed.corrupt);

    let (parsed, end) = InjectorArgs::parse_args(&args(&[
        "--corrupt",
        "--tpu",
        "127.0.0.1:9",
        "--rpc",
        "r",
        "--count",
        "3",
        "--keypair",
        "k",
    ]));
    assert!(matches!(end, ArgsEnd::Complete));
    assert_eq!(parsed.tpus, args(&["127.0.0.1:9"]));
    assert_eq!(parsed.tpu_address(), "127.0.0.1:9");
    assert_eq!(parsed.rpc, "r");
    assert_eq!(parsed.count, 3);
    assert!(parsed.corrupt);

    let (_, end) = InjectorArgs::parse_args(&args(&["--count", "3"]));
    assert!(matches!(end, ArgsEnd::Required("--keypair")));
    let (_, end) = InjectorArgs::parse_args(&args(&["--help"]));
    assert!(matches!(end, ArgsEnd::Unknown(flag) if flag == "--help"));
}
