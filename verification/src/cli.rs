//! Command lines of the tools.
//!
//! Arguments are read from left to right and the first problem ends the
//! reading. Socket addresses are kept as they were given, in order: whoever
//! asked for the arguments checks them before looking at how the reading ended.
use vstd::prelude::*;
use std::num::ParseIntError;
use crate::text::same_text;

verus! {

/// The error of a text that is no number.
#[verifier::external_type_specification]
#[verifier::external_body]
pub struct ExParseIntError(ParseIntError);

/// The number that a text stands for: decimal digits, with or without a plus
/// sign before them.
pub open spec fn number(text: Seq<char>) -> Option<nat> {
    let digits = if text.len() > 0 && text[0] == '+' {
        text.skip(1)
    } else {
        text
    };
    if digits.len() > 0 && crate::text::all_digits(digits) {
        Some(crate::text::digits_value(digits))
    } else {
        None
    }
}

/// The number that a text stands for, if it is at most `max`.
pub open spec fn number_up_to(text: Seq<char>, max: nat) -> Option<nat> {
    match number(text) {
        Some(value) => if value <= max {
            Some(value)
        } else {
            None
        },
        None => None,
    }
}

/// Why a text is no 64-bit number.
pub uninterp spec fn u64_error(text: Seq<char>) -> ParseIntError;

/// Why a text is no number of the size of an address.
pub uninterp spec fn usize_error(text: Seq<char>) -> ParseIntError;

/// `<u64 as FromStr>::from_str`: reads decimal digits, with an optional plus
/// sign, and fails on any other text and on numbers that are too large, with an
/// error that depends on the text alone.
#[verifier::external_body]
pub(crate) fn parse_u64(text: &str) -> (parsed: Result<u64, ParseIntError>)
    ensures
        match parsed {
            Ok(value) => number_up_to(text@, u64::MAX as nat) == Some(value as nat),
            Err(error) => number_up_to(text@, u64::MAX as nat) is None && error == u64_error(text@),
        },
{
    text.parse()
}

/// `<usize as FromStr>::from_str`: reads decimal digits, with an optional plus
/// sign, and fails on any other text and on numbers that are too large, with an
/// error that depends on the text alone.
#[verifier::external_body]
pub(crate) fn parse_usize(text: &str) -> (parsed: Result<usize, ParseIntError>)
    ensures
        match parsed {
            Ok(value) => number_up_to(text@, usize::MAX as nat) == Some(value as nat),
            Err(error) => number_up_to(text@, usize::MAX as nat) is None && error == usize_error(
                text@,
            ),
        },
{
    text.parse()
}

/// How the reading of a command line ended.
#[derive(Debug)]
pub enum ArgsEnd {
    /// All arguments were read.
    Complete,
    /// The usage was asked for.
    Help,
    /// The last flag lacks its value.
    MissingValue(&'static str),
    /// The value of a flag is no number.
    Invalid { flag: &'static str, raw: String, error: ParseIntError },
    /// There is no such flag.
    Unknown(String),
    /// All arguments were read, and what is needed is not among them.
    Required(&'static str),
}

/// How the reading of a command line ended, as a mathematical value.
#[verifier::ext_equal]
pub enum EndModel {
    Complete,
    Help,
    MissingValue(Seq<char>),
    Invalid { flag: Seq<char>, raw: Seq<char>, error: ParseIntError },
    Unknown(Seq<char>),
    Required(Seq<char>),
}

impl View for ArgsEnd {
    type V = EndModel;

    open spec fn view(&self) -> EndModel {
        match *self {
            ArgsEnd::Complete => EndModel::Complete,
            ArgsEnd::Help => EndModel::Help,
            ArgsEnd::MissingValue(flag) => EndModel::MissingValue(flag@),
            ArgsEnd::Invalid { flag, raw, error } => EndModel::Invalid {
                flag: flag@,
                raw: raw@,
                error,
            },
            ArgsEnd::Unknown(flag) => EndModel::Unknown(flag@),
            ArgsEnd::Required(flag) => EndModel::Required(flag@),
        }
    }
}

/// The texts of a sequence of strings.
pub open spec fn texts(strings: Seq<String>) -> Seq<Seq<char>> {
    strings.map_values(|string: String| string@)
}

/// Where the test receiver listens unless told otherwise.
pub const DEFAULT_LISTEN: &'static str = "127.0.0.1:50051";

/// Where the injector sends to unless told otherwise.
pub const DEFAULT_TPU: &'static str = "127.0.0.1:8002";

/// The last of the texts given, or the default if none was.
pub open spec fn last_or(given: Seq<Seq<char>>, default: Seq<char>) -> Seq<char> {
    if given.len() == 0 {
        default
    } else {
        given.last()
    }
}

/// The arguments of the test receiver.
pub struct ReceiverArgs {
    /// The `--listen` addresses in order; the last one counts.
    pub listens: Vec<String>,
    /// Where the records are appended; standard output otherwise.
    pub output: Option<String>,
    /// How long every request is held back.
    pub slow_ms: u64,
    /// The API key that callers must present.
    pub expect_api_key: Option<String>,
    /// How often the counters are printed.
    pub stats_interval_secs: u64,
}

/// The arguments of the test receiver, as a mathematical value.
#[verifier::ext_equal]
pub struct ReceiverArgsModel {
    pub listens: Seq<Seq<char>>,
    pub output: Option<Seq<char>>,
    pub slow_ms: u64,
    pub expect_api_key: Option<Seq<char>>,
    pub stats_interval_secs: u64,
}

impl View for ReceiverArgs {
    type V = ReceiverArgsModel;

    open spec fn view(&self) -> ReceiverArgsModel {
        ReceiverArgsModel {
            listens: texts(self.listens@),
            output: crate::config::text_of(self.output),
            slow_ms: self.slow_ms,
            expect_api_key: crate::config::text_of(self.expect_api_key),
            stats_interval_secs: self.stats_interval_secs,
        }
    }
}

impl ReceiverArgsModel {
    /// The arguments of an empty command line.
    pub open spec fn defaults() -> Self {
        ReceiverArgsModel {
            listens: Seq::empty(),
            output: None,
            slow_ms: 0,
            expect_api_key: None,
            stats_interval_secs: 5,
        }
    }

    /// The arguments with the value of one flag set, or how the reading ends.
    pub open spec fn set(self, flag: Seq<char>, value: Option<Seq<char>>) -> Result<
        Self,
        EndModel,
    > {
        if flag == "--listen"@ {
            match value {
                Some(value) => Ok(ReceiverArgsModel { listens: self.listens.push(value), ..self }),
                None => Err(EndModel::MissingValue(flag)),
            }
        } else if flag == "--output"@ {
            match value {
                Some(value) => Ok(ReceiverArgsModel { output: Some(value), ..self }),
                None => Err(EndModel::MissingValue(flag)),
            }
        } else if flag == "--slow-ms"@ {
            match value {
                Some(value) => match number_up_to(value, u64::MAX as nat) {
                    Some(number) => Ok(ReceiverArgsModel { slow_ms: number as u64, ..self }),
                    None => Err(EndModel::Invalid { flag, raw: value, error: u64_error(value) }),
                },
                None => Err(EndModel::MissingValue(flag)),
            }
        } else if flag == "--expect-api-key"@ {
            match value {
                Some(value) => Ok(ReceiverArgsModel { expect_api_key: Some(value), ..self }),
                None => Err(EndModel::MissingValue(flag)),
            }
        } else if flag == "--stats-interval-secs"@ {
            match value {
                Some(value) => match number_up_to(value, u64::MAX as nat) {
                    Some(number) => Ok(
                        ReceiverArgsModel { stats_interval_secs: number as u64, ..self },
                    ),
                    None => Err(EndModel::Invalid { flag, raw: value, error: u64_error(value) }),
                },
                None => Err(EndModel::MissingValue(flag)),
            }
        } else if flag == "--help"@ || flag == "-h"@ {
            Err(EndModel::Help)
        } else {
            Err(EndModel::Unknown(flag))
        }
    }

    /// The arguments after reading on from `args[from]`, and how that ended.
    pub open spec fn read(self, args: Seq<Seq<char>>, from: nat) -> (Self, EndModel)
        decreases args.len() - from,
    {
        if from >= args.len() {
            (self, EndModel::Complete)
        } else {
            match self.set(args[from as int], value_at(args, from + 1)) {
                Ok(next) => next.read(args, from + 2),
                Err(end) => (self, end),
            }
        }
    }
}

/// The argument at a position, if there is one.
pub open spec fn value_at(args: Seq<Seq<char>>, at: nat) -> Option<Seq<char>> {
    if at < args.len() {
        Some(args[at as int])
    } else {
        None
    }
}

/// The argument after the flag at `at`, if there is one.
fn value_after(args: &Vec<String>, at: usize) -> (value: Option<String>)
    requires
        at < args.len(),
    ensures
        crate::config::text_of(value) == value_at(texts(args@), (at + 1) as nat),
{
    if at < args.len() - 1 {
        Some(args[at + 1].clone())
    } else {
        None
    }
}

impl ReceiverArgs {
    /// Reads the command line of the test receiver, without the program name.
    pub fn parse_args(args: &Vec<String>) -> (parsed: (ReceiverArgs, ArgsEnd))
        ensures
            (parsed.0@, parsed.1@) == ReceiverArgsModel::defaults().read(texts(args@), 0),
    {
        let mut parsed = ReceiverArgs {
            listens: Vec::new(),
            output: None,
            slow_ms: 0,
            expect_api_key: None,
            stats_interval_secs: 5,
        };
        assert(parsed@ =~= ReceiverArgsModel::defaults());
        let mut i: usize = 0;
        while i < args.len()
            invariant
                parsed@.read(texts(args@), i as nat) == ReceiverArgsModel::defaults().read(
                    texts(args@),
                    0,
                ),
            decreases args.len() - i,
        {
            let flag = args[i].as_str();
            let value = value_after(args, i);
            let ghost before = parsed@;
            if same_text(flag, "--listen") {
                match value {
                    None => return (parsed, ArgsEnd::MissingValue("--listen")),
                    Some(value) => {
                        parsed.listens.push(value);
                        assert(parsed@ =~= before.set(
                            "--listen"@,
                            Some(value@),
                        )->Ok_0);
                    },
                }
            } else if same_text(flag, "--output") {
                match value {
                    None => return (parsed, ArgsEnd::MissingValue("--output")),
                    Some(value) => parsed.output = Some(value),
                }
            } else if same_text(flag, "--slow-ms") {
                match value {
                    None => return (parsed, ArgsEnd::MissingValue("--slow-ms")),
                    Some(raw) => match parse_u64(raw.as_str()) {
                        Ok(number) => parsed.slow_ms = number,
                        Err(error) => return (
                            parsed,
                            ArgsEnd::Invalid { flag: "--slow-ms", raw, error },
                        ),
                    },
                }
            } else if same_text(flag, "--expect-api-key") {
                match value {
                    None => return (parsed, ArgsEnd::MissingValue("--expect-api-key")),
                    Some(value) => parsed.expect_api_key = Some(value),
                }
            } else if same_text(flag, "--stats-interval-secs") {
                match value {
                    None => return (parsed, ArgsEnd::MissingValue("--stats-interval-secs")),
                    Some(raw) => match parse_u64(raw.as_str()) {
                        Ok(number) => parsed.stats_interval_secs = number,
                        Err(error) => return (
                            parsed,
                            ArgsEnd::Invalid { flag: "--stats-interval-secs", raw, error },
                        ),
                    },
                }
            } else if same_text(flag, "--help") || same_text(flag, "-h") {
                return (parsed, ArgsEnd::Help);
            } else {
                return (parsed, ArgsEnd::Unknown(args[i].clone()));
            }
            i = i + 2;
        }
        (parsed, ArgsEnd::Complete)
    }

    /// The address to listen on: the last one that was given, or the default.
    pub fn listen_address(&self) -> (address: &str)
        ensures
            address@ == last_or(texts(self.listens@), DEFAULT_LISTEN@),
    {
        if self.listens.len() == 0 {
            DEFAULT_LISTEN
        } else {
            self.listens[self.listens.len() - 1].as_str()
        }
    }

    /// How often the counters are printed: every second at most.
    pub fn report_interval_secs(&self) -> (secs: u64)
        ensures
            secs == if self.stats_interval_secs == 0 {
                1
            } else {
                self.stats_interval_secs
            },
    {
        if self.stats_interval_secs == 0 {
            1
        } else {
            self.stats_interval_secs
        }
    }
}

/// The arguments of `fast-send`.
pub struct FastSendArgs {
    /// The Fast gRPC endpoint.
    pub url: String,
    /// The API key to present.
    pub api_key: String,
    /// The RPC endpoint to get a recent blockhash from.
    pub rpc: String,
    /// How many transactions to send.
    pub count: usize,
    /// The memo to attach.
    pub memo: Option<String>,
    /// Print the transactions instead of sending them.
    pub dry_run: bool,
}

/// The arguments of `fast-send`, as a mathematical value.
#[verifier::ext_equal]
pub struct FastSendArgsModel {
    pub url: Seq<char>,
    pub api_key: Seq<char>,
    pub rpc: Seq<char>,
    pub count: usize,
    pub memo: Option<Seq<char>>,
    pub dry_run: bool,
}

impl View for FastSendArgs {
    type V = FastSendArgsModel;

    open spec fn view(&self) -> FastSendArgsModel {
        FastSendArgsModel {
            url: self.url@,
            api_key: self.api_key@,
            rpc: self.rpc@,
            count: self.count,
            memo: crate::config::text_of(self.memo),
            dry_run: self.dry_run,
        }
    }
}

impl FastSendArgsModel {
    /// The arguments of an empty command line, with the API key of the
    /// environment.
    pub open spec fn defaults(api_key: Seq<char>) -> Self {
        FastSendArgsModel {
            url: crate::config::DEFAULT_URL@,
            api_key,
            rpc: DEFAULT_RPC@,
            count: 1,
            memo: None,
            dry_run: false,
        }
    }

    /// The arguments with one flag set and the number of arguments that took,
    /// or how the reading ends.
    pub open spec fn set(self, flag: Seq<char>, value: Option<Seq<char>>) -> Result<
        (Self, nat),
        EndModel,
    > {
        if flag == "--url"@ {
            match value {
                Some(value) => Ok((FastSendArgsModel { url: value, ..self }, 2)),
                None => Err(EndModel::MissingValue(flag)),
            }
        } else if flag == "--api-key"@ {
            match value {
                Some(value) => Ok((FastSendArgsModel { api_key: value, ..self }, 2)),
                None => Err(EndModel::MissingValue(flag)),
            }
        } else if flag == "--rpc"@ {
            match value {
                Some(value) => Ok((FastSendArgsModel { rpc: value, ..self }, 2)),
                None => Err(EndModel::MissingValue(flag)),
            }
        } else if flag == "--count"@ {
            match value {
                Some(value) => match number_up_to(value, usize::MAX as nat) {
                    Some(number) => Ok((FastSendArgsModel { count: number as usize, ..self }, 2)),
                    None => Err(EndModel::Invalid { flag, raw: value, error: usize_error(value) }),
                },
                None => Err(EndModel::MissingValue(flag)),
            }
        } else if flag == "--memo"@ {
            match value {
                Some(value) => Ok((FastSendArgsModel { memo: Some(value), ..self }, 2)),
                None => Err(EndModel::MissingValue(flag)),
            }
        } else if flag == "--dry-run"@ {
            Ok((FastSendArgsModel { dry_run: true, ..self }, 1))
        } else if flag == "--help"@ || flag == "-h"@ {
            Err(EndModel::Help)
        } else {
            Err(EndModel::Unknown(flag))
        }
    }

    /// The arguments when all were read: at least one transaction is sent, and
    /// sending takes an API key.
    pub open spec fn complete(self) -> (Self, EndModel) {
        if !self.dry_run && self.api_key.len() == 0 {
            (self, EndModel::Required("--api-key"@))
        } else if self.count == 0 {
            (FastSendArgsModel { count: 1, ..self }, EndModel::Complete)
        } else {
            (self, EndModel::Complete)
        }
    }

    /// The arguments after reading on from `args[from]`, and how that ended.
    pub open spec fn read(self, args: Seq<Seq<char>>, from: nat) -> (Self, EndModel)
        decreases args.len() - from,
    {
        if from >= args.len() {
            self.complete()
        } else {
            match self.set(args[from as int], value_at(args, from + 1)) {
                Ok((next, taken)) => if taken == 1 {
                    next.read(args, from + 1)
                } else {
                    next.read(args, from + 2)
                },
                Err(end) => (self, end),
            }
        }
    }
}

/// The RPC endpoint that `fast-send` asks unless told otherwise.
pub const DEFAULT_RPC: &'static str = "https://api.mainnet-beta.solana.com";

impl FastSendArgs {
    /// Reads the command line of `fast-send`, without the program name, on top
    /// of the API key of the environment.
    pub fn parse_args(args: &Vec<String>, api_key: String) -> (parsed: (FastSendArgs, ArgsEnd))
        ensures
            (parsed.0@, parsed.1@) == FastSendArgsModel::defaults(api_key@).read(texts(args@), 0),
    {
        let ghost given = api_key@;
        let mut parsed = FastSendArgs {
            url: crate::config::DEFAULT_URL.to_string(),
            api_key,
            rpc: DEFAULT_RPC.to_string(),
            count: 1,
            memo: None,
            dry_run: false,
        };
        assert(parsed@ =~= FastSendArgsModel::defaults(given));
        let mut i: usize = 0;
        while i < args.len()
            invariant
                given == api_key@,
                parsed@.read(texts(args@), i as nat) == FastSendArgsModel::defaults(given).read(
                    texts(args@),
                    0,
                ),
            decreases args.len() - i,
        {
            let flag = args[i].as_str();
            let value = value_after(args, i);
            if same_text(flag, "--url") {
                match value {
                    None => return (parsed, ArgsEnd::MissingValue("--url")),
                    Some(value) => parsed.url = value,
                }
                i = i + 2;
            } else if same_text(flag, "--api-key") {
                match value {
                    None => return (parsed, ArgsEnd::MissingValue("--api-key")),
                    Some(value) => parsed.api_key = value,
                }
                i = i + 2;
            } else if same_text(flag, "--rpc") {
                match value {
                    None => return (parsed, ArgsEnd::MissingValue("--rpc")),
                    Some(value) => parsed.rpc = value,
                }
                i = i + 2;
            } else if same_text(flag, "--count") {
                match value {
                    None => return (parsed, ArgsEnd::MissingValue("--count")),
                    Some(raw) => match parse_usize(raw.as_str()) {
                        Ok(number) => parsed.count = number,
                        Err(error) => return (
                            parsed,
                            ArgsEnd::Invalid { flag: "--count", raw, error },
                        ),
                    },
                }
                i = i + 2;
            } else if same_text(flag, "--memo") {
                match value {
                    None => return (parsed, ArgsEnd::MissingValue("--memo")),
                    Some(value) => parsed.memo = Some(value),
                }
                i = i + 2;
            } else if same_text(flag, "--dry-run") {
                parsed.dry_run = true;
                i = i + 1;
            } else if same_text(flag, "--help") || same_text(flag, "-h") {
                return (parsed, ArgsEnd::Help);
            } else {
                return (parsed, ArgsEnd::Unknown(args[i].clone()));
            }
        }
        if !parsed.dry_run && is_blank(&parsed.api_key) {
            return (parsed, ArgsEnd::Required("--api-key"));
        }
        if parsed.count == 0 {
            parsed.count = 1;
        }
        (parsed, ArgsEnd::Complete)
    }
}

/// Whether a text is empty.
fn is_blank(text: &String) -> (blank: bool)
    ensures
        blank == (text@.len() == 0),
{
    let blank = same_text(text.as_str(), String::new().as_str());
    assert(text@.len() == 0 ==> text@ =~= Seq::empty());
    blank
}

/// The arguments of the TPU injector.
pub struct InjectorArgs {
    /// The `--tpu` addresses in order; the last one counts.
    pub tpus: Vec<String>,
    /// The RPC endpoint to get a recent blockhash from.
    pub rpc: String,
    /// The file that holds the paying keypair.
    pub keypair_path: String,
    /// How many transactions to send.
    pub count: u64,
    /// Corrupt the primary signature after signing.
    pub corrupt: bool,
}

/// The arguments of the TPU injector, as a mathematical value.
#[verifier::ext_equal]
pub struct InjectorArgsModel {
    pub tpus: Seq<Seq<char>>,
    pub rpc: Seq<char>,
    pub keypair_path: Seq<char>,
    pub count: u64,
    pub corrupt: bool,
}

impl View for InjectorArgs {
    type V = InjectorArgsModel;

    open spec fn view(&self) -> InjectorArgsModel {
        InjectorArgsModel {
            tpus: texts(self.tpus@),
            rpc: self.rpc@,
            keypair_path: self.keypair_path@,
            count: self.count,
            corrupt: self.corrupt,
        }
    }
}

/// The RPC endpoint that the injector asks unless told otherwise.
pub const LOCAL_RPC: &'static str = "http://127.0.0.1:8899";

impl InjectorArgsModel {
    /// The arguments of an empty command line.
    pub open spec fn defaults() -> Self {
        InjectorArgsModel {
            tpus: Seq::empty(),
            rpc: LOCAL_RPC@,
            keypair_path: Seq::empty(),
            count: 10,
            corrupt: false,
        }
    }

    /// The arguments with one flag set and the number of arguments that took,
    /// or how the reading ends.
    pub open spec fn set(self, flag: Seq<char>, value: Option<Seq<char>>) -> Result<
        (Self, nat),
        EndModel,
    > {
        if flag == "--tpu"@ {
            match value {
                Some(value) => Ok((InjectorArgsModel { tpus: self.tpus.push(value), ..self }, 2)),
                None => Err(EndModel::MissingValue(flag)),
            }
        } else if flag == "--rpc"@ {
            match value {
                Some(value) => Ok((InjectorArgsModel { rpc: value, ..self }, 2)),
                None => Err(EndModel::MissingValue(flag)),
            }
        } else if flag == "--keypair"@ {
            match value {
                Some(value) => Ok((InjectorArgsModel { keypair_path: value, ..self }, 2)),
                None => Err(EndModel::MissingValue(flag)),
            }
        } else if flag == "--count"@ {
            match value {
                Some(value) => match number_up_to(value, u64::MAX as nat) {
                    Some(number) => Ok((InjectorArgsModel { count: number as u64, ..self }, 2)),
                    None => Err(EndModel::Invalid { flag, raw: value, error: u64_error(value) }),
                },
                None => Err(EndModel::MissingValue(flag)),
            }
        } else if flag == "--corrupt"@ {
            Ok((InjectorArgsModel { corrupt: true, ..self }, 1))
        } else {
            Err(EndModel::Unknown(flag))
        }
    }

    /// The arguments when all were read: a keypair is needed.
    pub open spec fn complete(self) -> (Self, EndModel) {
        if self.keypair_path.len() == 0 {
            (self, EndModel::Required("--keypair"@))
        } else {
            (self, EndModel::Complete)
        }
    }

    /// The arguments after reading on from `args[from]`, and how that ended.
    pub open spec fn read(self, args: Seq<Seq<char>>, from: nat) -> (Self, EndModel)
        decreases args.len() - from,
    {
        if from >= args.len() {
            self.complete()
        } else {
            match self.set(args[from as int], value_at(args, from + 1)) {
                Ok((next, taken)) => if taken == 1 {
                    next.read(args, from + 1)
                } else {
                    next.read(args, from + 2)
                },
                Err(end) => (self, end),
            }
        }
    }
}

impl InjectorArgs {
    /// Reads the command line of the TPU injector, without the program name.
    pub fn parse_args(args: &Vec<String>) -> (parsed: (InjectorArgs, ArgsEnd))
        ensures
            (parsed.0@, parsed.1@) == InjectorArgsModel::defaults().read(texts(args@), 0),
    {
        let mut parsed = InjectorArgs {
            tpus: Vec::new(),
            rpc: LOCAL_RPC.to_string(),
            keypair_path: String::new(),
            count: 10,
            corrupt: false,
        };
        assert(parsed@ =~= InjectorArgsModel::defaults());
        let mut i: usize = 0;
        while i < args.len()
            invariant
                parsed@.read(texts(args@), i as nat) == InjectorArgsModel::defaults().read(
                    texts(args@),
                    0,
                ),
            decreases args.len() - i,
        {
            let flag = args[i].as_str();
            let value = value_after(args, i);
            let ghost before = parsed@;
            if same_text(flag, "--tpu") {
                match value {
                    None => return (parsed, ArgsEnd::MissingValue("--tpu")),
                    Some(value) => {
                        parsed.tpus.push(value);
                        assert(parsed@ =~= before.set("--tpu"@, Some(value@))->Ok_0.0);
                    },
                }
                i = i + 2;
            } else if same_text(flag, "--rpc") {
                match value {
                    None => return (parsed, ArgsEnd::MissingValue("--rpc")),
                    Some(value) => parsed.rpc = value,
                }
                i = i + 2;
            } else if same_text(flag, "--keypair") {
                match value {
                    None => return (parsed, ArgsEnd::MissingValue("--keypair")),
                    Some(value) => parsed.keypair_path = value,
                }
                i = i + 2;
            } else if same_text(flag, "--count") {
                match value {
                    None => return (parsed, ArgsEnd::MissingValue("--count")),
                    Some(raw) => match parse_u64(raw.as_str()) {
                        Ok(number) => parsed.count = number,
                        Err(error) => return (
                            parsed,
                            ArgsEnd::Invalid { flag: "--count", raw, error },
                        ),
                    },
                }
                i = i + 2;
            } else if same_text(flag, "--corrupt") {
                parsed.corrupt = true;
                i = i + 1;
            } else {
                return (parsed, ArgsEnd::Unknown(args[i].clone()));
            }
        }
        if is_blank(&parsed.keypair_path) {
            return (parsed, ArgsEnd::Required("--keypair"));
        }
        (parsed, ArgsEnd::Complete)
    }

    /// The address to send to: the last one that was given, or the default.
    pub fn tpu_address(&self) -> (address: &str)
        ensures
            address@ == last_or(texts(self.tpus@), DEFAULT_TPU@),
    {
        if self.tpus.len() == 0 {
            DEFAULT_TPU
        } else {
            self.tpus[self.tpus.len() - 1].as_str()
        }
    }
}

/// Decimal digits are read as the number they were written for, with a plus
/// sign or without, and up to the limit.
pub proof fn law_decimal_numbers_are_read(value: nat)
    ensures
        number(crate::text::decimal_digits(value)) == Some(value),
        number(seq!['+'] + crate::text::decimal_digits(value)) == Some(value),
        forall|max: nat|
            value <= max ==> #[trigger] number_up_to(crate::text::decimal_digits(value), max)
                == Some(value),
        forall|max: nat|
            value > max ==> (#[trigger] number_up_to(crate::text::decimal_digits(value), max)
                is None),
{
    let digits = crate::text::decimal_digits(value);
    crate::text::law_decimal_reads_back(value);
    assert('0' <= digits[0] <= '9');
    assert((seq!['+'] + digits).skip(1) =~= digits);
}

/// A text with anything but digits behind its sign is no number.
pub proof fn law_other_texts_are_no_numbers(text: Seq<char>, i: int)
    requires
        0 <= i < text.len(),
        !('0' <= text[i] <= '9'),
        i > 0 || text[0] != '+' || text.len() == 1,
    ensures
        number(text) is None,
        forall|max: nat| (#[trigger] number_up_to(text, max) is None),
{
    if text[0] == '+' {
        if i > 0 {
            assert(text.skip(1)[i - 1] == text[i]);
        }
    } else {
        assert(text[i] == text[i]);
    }
}

/// How the reading ended is told as it was.
pub proof fn law_ends_are_told_as_they_are(
    flag: &'static str,
    raw: String,
    error: ParseIntError,
)
    ensures
        ArgsEnd::Complete@ == EndModel::Complete,
        ArgsEnd::Help@ == EndModel::Help,
        ArgsEnd::MissingValue(flag)@ == EndModel::MissingValue(flag@),
        (ArgsEnd::Invalid { flag, raw, error })@ == (EndModel::Invalid {
            flag: flag@,
            raw: raw@,
            error,
        }),
        ArgsEnd::Unknown(raw)@ == EndModel::Unknown(raw@),
        ArgsEnd::Required(flag)@ == EndModel::Required(flag@),
{
}

/// The words of a command line are kept, in order, and the last of several
/// addresses counts.
pub proof fn law_words_are_kept(strings: Seq<String>, i: int, default: Seq<char>)
    requires
        0 <= i < strings.len(),
    ensures
        texts(strings).len() == strings.len(),
        texts(strings)[i] == strings[i]@,
        last_or(texts(strings), default) == strings[strings.len() - 1]@,
        last_or(texts(Seq::<String>::empty()), default) == default,
{
}

/// The arguments of the receiver are their fields.
pub proof fn law_receiver_arguments_are_their_fields(args: ReceiverArgs)
    ensures
        args@.listens == texts(args.listens@),
        args.output is None ==> args@.output is None,
        args.output matches Some(path) ==> args@.output == Some(path@),
        args@.slow_ms == args.slow_ms,
        args.expect_api_key is None ==> args@.expect_api_key is None,
        args.expect_api_key matches Some(key) ==> args@.expect_api_key == Some(key@),
        args@.stats_interval_secs == args.stats_interval_secs,
{
}

/// Each flag of the receiver sets its own argument to its value and no other,
/// and fails where the value is missing or no number.
pub proof fn law_receiver_flags_set_their_arguments(
    args: ReceiverArgsModel,
    flag: Seq<char>,
    word: Seq<char>,
    value: Option<Seq<char>>,
)
    ensures
        args.set("--listen"@, Some(word)) == Ok::<_, EndModel>(
            ReceiverArgsModel { listens: args.listens.push(word), ..args },
        ),
        args.set("--output"@, Some(word)) == Ok::<_, EndModel>(
            ReceiverArgsModel { output: Some(word), ..args },
        ),
        args.set("--expect-api-key"@, Some(word)) == Ok::<_, EndModel>(
            ReceiverArgsModel { expect_api_key: Some(word), ..args },
        ),
        number_up_to(word, u64::MAX as nat) matches Some(n) ==> args.set("--slow-ms"@, Some(word))
            == Ok::<_, EndModel>(ReceiverArgsModel { slow_ms: n as u64, ..args }),
        number_up_to(word, u64::MAX as nat) matches Some(n) ==> args.set(
            "--stats-interval-secs"@,
            Some(word),
        ) == Ok::<_, EndModel>(ReceiverArgsModel { stats_interval_secs: n as u64, ..args }),
        number_up_to(word, u64::MAX as nat) is None ==> args.set("--slow-ms"@, Some(word)) == Err::<
            ReceiverArgsModel,
            _,
        >(EndModel::Invalid { flag: "--slow-ms"@, raw: word, error: u64_error(word) }),
        number_up_to(word, u64::MAX as nat) is None ==> args.set(
            "--stats-interval-secs"@,
            Some(word),
        ) == Err::<ReceiverArgsModel, _>(
            EndModel::Invalid { flag: "--stats-interval-secs"@, raw: word, error: u64_error(word) },
        ),
        args.set("--listen"@, None) == Err::<ReceiverArgsModel, EndModel>(EndModel::MissingValue("--listen"@)),
        args.set("--output"@, None) == Err::<ReceiverArgsModel, EndModel>(EndModel::MissingValue("--output"@)),
        args.set("--slow-ms"@, None) == Err::<ReceiverArgsModel, EndModel>(EndModel::MissingValue("--slow-ms"@)),
        args.set("--expect-api-key"@, None) == Err::<ReceiverArgsModel, EndModel>(EndModel::MissingValue("--expect-api-key"@)),
        args.set("--stats-interval-secs"@, None) == Err::<ReceiverArgsModel, EndModel>(EndModel::MissingValue("--stats-interval-secs"@)),
        args.set("--help"@, value) == Err::<ReceiverArgsModel, _>(EndModel::Help),
        args.set("-h"@, value) == Err::<ReceiverArgsModel, _>(EndModel::Help),
        flag != "--listen"@
            && flag != "--output"@
            && flag != "--slow-ms"@
            && flag != "--expect-api-key"@
            && flag != "--stats-interval-secs"@
            && flag != "--help"@
            && flag != "-h"@ ==> args.set(flag, value) == Err::<ReceiverArgsModel, EndModel>(
            EndModel::Unknown(flag),
        ),
{
    reveal_strlit("--listen");
    reveal_strlit("--output");
    reveal_strlit("--slow-ms");
    reveal_strlit("--expect-api-key");
    reveal_strlit("--stats-interval-secs");
    reveal_strlit("--help");
    reveal_strlit("-h");
    assert("--listen"@.len() == 8);
    assert("--output"@.len() == 8);
    assert("--slow-ms"@.len() == 9);
    assert("--expect-api-key"@.len() == 16);
    assert("--stats-interval-secs"@.len() == 21);
    assert("--help"@.len() == 6);
    assert("-h"@.len() == 2);
    assert("--listen"@[2] == 'l' && "--output"@[2] == 'o');
}

/// A command line of the receiver is read from the left, a flag and its value
/// at a time, up to the first problem; an empty one leaves every default.
pub proof fn law_receiver_lines_are_read_in_order(
    args: ReceiverArgsModel,
    words: Seq<Seq<char>>,
    from: nat,
)
    ensures
        from >= words.len() ==> args.read(words, from) == (args, EndModel::Complete),
        from < words.len() ==> ({
            let value = if from + 1 < words.len() {
                Some(words[(from + 1) as int])
            } else {
                None
            };
            match args.set(words[from as int], value) {
                Ok(next) => args.read(words, from) == next.read(words, from + 2),
                Err(end) => args.read(words, from) == (args, end),
            }
        }),
        ReceiverArgsModel::defaults().listens.len() == 0,
        ReceiverArgsModel::defaults().output is None,
        ReceiverArgsModel::defaults().slow_ms == 0,
        ReceiverArgsModel::defaults().expect_api_key is None,
        ReceiverArgsModel::defaults().stats_interval_secs == 5,
{
}

/// The arguments of `fast-send` are their fields.
pub proof fn law_fast_send_arguments_are_their_fields(args: FastSendArgs)
    ensures
        args@.url == args.url@,
        args@.api_key == args.api_key@,
        args@.rpc == args.rpc@,
        args@.count == args.count,
        args.memo is None ==> args@.memo is None,
        args.memo matches Some(memo) ==> args@.memo == Some(memo@),
        args@.dry_run == args.dry_run,
{
}

/// Each flag of `fast-send` sets its own argument and no other.
pub proof fn law_fast_send_flags_set_their_arguments(
    args: FastSendArgsModel,
    flag: Seq<char>,
    word: Seq<char>,
    value: Option<Seq<char>>,
)
    ensures
        args.set("--url"@, Some(word)) == Ok::<_, EndModel>(
            (FastSendArgsModel { url: word, ..args }, 2nat),
        ),
        args.set("--api-key"@, Some(word)) == Ok::<_, EndModel>(
            (FastSendArgsModel { api_key: word, ..args }, 2nat),
        ),
        args.set("--rpc"@, Some(word)) == Ok::<_, EndModel>(
            (FastSendArgsModel { rpc: word, ..args }, 2nat),
        ),
        args.set("--memo"@, Some(word)) == Ok::<_, EndModel>(
            (FastSendArgsModel { memo: Some(word), ..args }, 2nat),
        ),
        args.set("--dry-run"@, value) == Ok::<_, EndModel>(
            (FastSendArgsModel { dry_run: true, ..args }, 1nat),
        ),
        number_up_to(word, usize::MAX as nat) matches Some(n) ==> args.set("--count"@, Some(word))
            == Ok::<_, EndModel>((FastSendArgsModel { count: n as usize, ..args }, 2nat)),
        number_up_to(word, usize::MAX as nat) is None ==> args.set("--count"@, Some(word)) == Err::<
            (FastSendArgsModel, nat),
            _,
        >(EndModel::Invalid { flag: "--count"@, raw: word, error: usize_error(word) }),
        args.set("--url"@, None) == Err::<(FastSendArgsModel, nat), EndModel>(EndModel::MissingValue("--url"@)),
        args.set("--api-key"@, None) == Err::<(FastSendArgsModel, nat), EndModel>(EndModel::MissingValue("--api-key"@)),
        args.set("--rpc"@, None) == Err::<(FastSendArgsModel, nat), EndModel>(EndModel::MissingValue("--rpc"@)),
        args.set("--count"@, None) == Err::<(FastSendArgsModel, nat), EndModel>(EndModel::MissingValue("--count"@)),
        args.set("--memo"@, None) == Err::<(FastSendArgsModel, nat), EndModel>(EndModel::MissingValue("--memo"@)),
        args.set("--help"@, value) == Err::<(FastSendArgsModel, nat), _>(EndModel::Help),
        args.set("-h"@, value) == Err::<(FastSendArgsModel, nat), _>(EndModel::Help),
        flag != "--url"@
            && flag != "--api-key"@
            && flag != "--rpc"@
            && flag != "--count"@
            && flag != "--memo"@
            && flag != "--dry-run"@
            && flag != "--help"@
            && flag != "-h"@ ==> args.set(flag, value) == Err::<(FastSendArgsModel, nat), EndModel>(
            EndModel::Unknown(flag),
        ),
{
    reveal_strlit("--url");
    reveal_strlit("--api-key");
    reveal_strlit("--rpc");
    reveal_strlit("--count");
    reveal_strlit("--memo");
    reveal_strlit("--dry-run");
    reveal_strlit("--help");
    reveal_strlit("-h");
    assert("--url"@.len() == 5);
    assert("--api-key"@.len() == 9);
    assert("--rpc"@.len() == 5);
    assert("--count"@.len() == 7);
    assert("--memo"@.len() == 6);
    assert("--dry-run"@.len() == 9);
    assert("--help"@.len() == 6);
    assert("-h"@.len() == 2);
    assert("--url"@[2] == 'u' && "--rpc"@[2] == 'r');
    assert("--api-key"@[2] == 'a' && "--dry-run"@[2] == 'd');
    assert("--memo"@[2] == 'm' && "--help"@[2] == 'h');
}

/// A command line of `fast-send` is read from the left, up to the first
/// problem. Read whole, it is complete if it is a dry run or has an API key,
/// and sends at least once.
pub proof fn law_fast_send_lines_are_read_in_order(
    args: FastSendArgsModel,
    words: Seq<Seq<char>>,
    from: nat,
    api_key: Seq<char>,
)
    ensures
        from >= words.len() && !args.dry_run && args.api_key.len() == 0 ==> args.read(words, from)
            == (args, EndModel::Required("--api-key"@)),
        from >= words.len() && (args.dry_run || args.api_key.len() > 0) ==> ({
            let (read, end) = args.read(words, from);
            &&& end == EndModel::Complete
            &&& read.count >= 1
            &&& args.count >= 1 ==> read.count == args.count
            &&& args.count == 0 ==> read.count == 1
            &&& (FastSendArgsModel { count: args.count, ..read }) == args
        }),
        from < words.len() ==> ({
            let value = if from + 1 < words.len() {
                Some(words[(from + 1) as int])
            } else {
                None
            };
            match args.set(words[from as int], value) {
                Ok((next, taken)) => {
                    &&& taken == 1 ==> args.read(words, from) == next.read(words, from + 1)
                    &&& taken == 2 ==> args.read(words, from) == next.read(words, from + 2)
                },
                Err(end) => args.read(words, from) == (args, end),
            }
        }),
        FastSendArgsModel::defaults(api_key).url == crate::config::DEFAULT_URL@,
        FastSendArgsModel::defaults(api_key).api_key == api_key,
        FastSendArgsModel::defaults(api_key).rpc == DEFAULT_RPC@,
        FastSendArgsModel::defaults(api_key).count == 1,
        FastSendArgsModel::defaults(api_key).memo is None,
        !FastSendArgsModel::defaults(api_key).dry_run,
{
}

/// The arguments of the injector are their fields.
pub proof fn law_injector_arguments_are_their_fields(args: InjectorArgs)
    ensures
        args@.tpus == texts(args.tpus@),
        args@.rpc == args.rpc@,
        args@.keypair_path == args.keypair_path@,
        args@.count == args.count,
        args@.corrupt == args.corrupt,
{
}

/// Each flag of the injector sets its own argument and no other.
pub proof fn law_injector_flags_set_their_arguments(
    args: InjectorArgsModel,
    flag: Seq<char>,
    word: Seq<char>,
    value: Option<Seq<char>>,
)
    ensures
        args.set("--tpu"@, Some(word)) == Ok::<_, EndModel>(
            (InjectorArgsModel { tpus: args.tpus.push(word), ..args }, 2nat),
        ),
        args.set("--rpc"@, Some(word)) == Ok::<_, EndModel>(
            (InjectorArgsModel { rpc: word, ..args }, 2nat),
        ),
        args.set("--keypair"@, Some(word)) == Ok::<_, EndModel>(
            (InjectorArgsModel { keypair_path: word, ..args }, 2nat),
        ),
        args.set("--corrupt"@, value) == Ok::<_, EndModel>(
            (InjectorArgsModel { corrupt: true, ..args }, 1nat),
        ),
        number_up_to(word, u64::MAX as nat) matches Some(n) ==> args.set("--count"@, Some(word))
            == Ok::<_, EndModel>((InjectorArgsModel { count: n as u64, ..args }, 2nat)),
        number_up_to(word, u64::MAX as nat) is None ==> args.set("--count"@, Some(word)) == Err::<
            (InjectorArgsModel, nat),
            _,
        >(EndModel::Invalid { flag: "--count"@, raw: word, error: u64_error(word) }),
        args.set("--tpu"@, None) == Err::<(InjectorArgsModel, nat), EndModel>(EndModel::MissingValue("--tpu"@)),
        args.set("--rpc"@, None) == Err::<(InjectorArgsModel, nat), EndModel>(EndModel::MissingValue("--rpc"@)),
        args.set("--keypair"@, None) == Err::<(InjectorArgsModel, nat), EndModel>(EndModel::MissingValue("--keypair"@)),
        args.set("--count"@, None) == Err::<(InjectorArgsModel, nat), EndModel>(EndModel::MissingValue("--count"@)),
        flag != "--tpu"@
            && flag != "--rpc"@
            && flag != "--keypair"@
            && flag != "--count"@
            && flag != "--corrupt"@ ==> args.set(flag, value) == Err::<(InjectorArgsModel, nat), EndModel>(
            EndModel::Unknown(flag),
        ),
{
    reveal_strlit("--tpu");
    reveal_strlit("--rpc");
    reveal_strlit("--keypair");
    reveal_strlit("--count");
    reveal_strlit("--corrupt");
    assert("--tpu"@.len() == 5);
    assert("--rpc"@.len() == 5);
    assert("--keypair"@.len() == 9);
    assert("--count"@.len() == 7);
    assert("--corrupt"@.len() == 9);
    assert("--tpu"@[2] == 't' && "--rpc"@[2] == 'r');
    assert("--keypair"@[2] == 'k' && "--corrupt"@[2] == 'c');
}

/// A command line of the injector is read from the left, up to the first
/// problem. Read whole, it is complete if it names a keypair.
pub proof fn law_injector_lines_are_read_in_order(
    args: InjectorArgsModel,
    words: Seq<Seq<char>>,
    from: nat,
)
    ensures
        from >= words.len() && args.keypair_path.len() == 0 ==> args.read(words, from) == (
            args,
            EndModel::Required("--keypair"@),
        ),
        from >= words.len() && args.keypair_path.len() > 0 ==> args.read(words, from) == (
            args,
            EndModel::Complete,
        ),
        from < words.len() ==> ({
            let value = if from + 1 < words.len() {
                Some(words[(from + 1) as int])
            } else {
                None
            };
            match args.set(words[from as int], value) {
                Ok((next, taken)) => {
                    &&& taken == 1 ==> args.read(words, from) == next.read(words, from + 1)
                    &&& taken == 2 ==> args.read(words, from) == next.read(words, from + 2)
                },
                Err(end) => args.read(words, from) == (args, end),
            }
        }),
        InjectorArgsModel::defaults().tpus.len() == 0,
        InjectorArgsModel::defaults().rpc == LOCAL_RPC@,
        InjectorArgsModel::defaults().keypair_path.len() == 0,
        InjectorArgsModel::defaults().count == 10,
        !InjectorArgsModel::defaults().corrupt,
{
}

} // verus!
