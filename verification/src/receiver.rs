//! The Fast test receiver: authorizes requests, records every transaction as
//! one JSON line, and answers.
//!
//! The receiver decides; whoever serves it waits, writes the lines and sends
//! the answers.
use vstd::prelude::*;
use vstd::string::StringExecFns;
use crate::codec::{
    JsonField, base58_text, flag_field, json_insert, json_line, json_object, text_field,
    wire_sha256,
};
use crate::metrics::add_to_counter;
use crate::proto::{SendTransactionRequest, SendTransactionResponse};
use crate::text::{decimal, same_text};

verus! {

/// What an unauthorized caller is told.
pub const UNAUTHENTICATED: &'static str = "invalid or missing x-api-key";

/// A compact-u16 number at the front of `bytes` and the number of bytes it
/// takes: up to three bytes of seven bits, the low ones first, of which all but
/// the last have their high bit set.
pub open spec fn compact_u16(bytes: Seq<u8>) -> Option<(int, int)> {
    if bytes.len() > 0 && bytes[0] < 128 {
        Some((bytes[0] as int, 1))
    } else if bytes.len() > 1 && bytes[1] < 128 {
        Some((bytes[0] - 128 + 128 * bytes[1], 2))
    } else if bytes.len() > 2 && bytes[2] < 128 {
        Some((bytes[0] - 128 + 128 * (bytes[1] - 128) + 16384 * bytes[2], 3))
    } else {
        None
    }
}

/// The value of the low seven bits of the first `count` bytes, the low ones
/// first.
spec fn low_bits_value(bytes: Seq<u8>, count: int) -> int {
    if count <= 0 {
        0
    } else if count == 1 {
        bytes[0] as int % 128
    } else if count == 2 {
        bytes[0] as int % 128 + 128 * (bytes[1] as int % 128)
    } else {
        bytes[0] as int % 128 + 128 * (bytes[1] as int % 128) + 16384 * (bytes[2] as int % 128)
    }
}

/// Decodes the compact-u16 number at the front of `bytes`, with the number of
/// bytes it takes.
pub fn decode_compact_u16(bytes: &[u8]) -> (decoded: Option<(usize, usize)>)
    ensures
        match decoded {
            Some((value, offset)) => compact_u16(bytes@) == Some((value as int, offset as int)),
            None => compact_u16(bytes@) is None,
        },
{
    let mut value: u32 = 0;
    let mut index: usize = 0;
    while index < 3 && index < bytes.len()
        invariant
            index <= 3,
            index <= bytes.len(),
            forall|i: int| 0 <= i < index ==> bytes@[i] >= 128,
            value == low_bits_value(bytes@, index as int),
        decreases 3 - index,
    {
        let byte: u8 = bytes[index];
        let shift: u32 = 7 * index as u32;
        let bits: u32 = (byte & 0x7f) as u32;
        proof {
            assert(byte & 0x7f == byte % 128) by (bit_vector);
            assert(byte & 0x80 == 0 <==> byte < 128) by (bit_vector);
            assert(bits < 128 && shift == 0 ==> 0u32 | (bits << shift) == bits) by (bit_vector);
            assert(bits < 128 && shift == 7 && value < 128 ==> value | (bits << shift) == value
                + 128 * bits) by (bit_vector);
            assert(bits < 128 && shift == 14 && value < 16384 ==> value | (bits << shift) == value
                + 16384 * bits) by (bit_vector);
        }
        value = value | (bits << shift);
        index = index + 1;
        if byte & 0x80 == 0 {
            return Some((value as usize, index));
        }
    }
    None
}

/// The first signature of a Solana wire-format transaction, in base58: a
/// compact-u16 signature count followed by 64-byte signatures.
pub open spec fn first_signature(wire: Seq<u8>) -> Option<Seq<char>> {
    match compact_u16(wire) {
        Some((count, offset)) => if count > 0 && offset + 64 <= wire.len() {
            Some(crate::codec::base58(wire.subrange(offset, offset + 64)))
        } else {
            None
        },
        None => None,
    }
}

/// Base58 of the first signature of a Solana wire-format transaction.
pub fn primary_signature(wire: &[u8]) -> (signature: Option<String>)
    ensures
        crate::config::text_of(signature) == first_signature(wire@),
{
    match decode_compact_u16(wire) {
        Some((count, offset)) => {
            if count == 0 || wire.len() - offset < 64 {
                return None;
            }
            let end: usize = offset + 64;
            Some(base58_text(vstd::slice::slice_subrange(wire, offset, end)))
        },
        None => None,
    }
}

/// What the receiver has counted.
#[derive(Clone, Copy, Debug, PartialEq, Eq, Structural)]
pub struct Counters {
    /// Authorized requests.
    pub requests_received: u64,
    /// Transactions written to the record.
    pub transactions_recorded: u64,
    /// Bytes of the recorded transactions.
    pub bytes_received: u64,
    /// Requests turned away for their API key.
    pub auth_failures: u64,
    /// Authorized requests that did not disable forwarding.
    pub bad_flags: u64,
}

impl Counters {
    /// All counters at zero.
    pub open spec fn zero() -> Self {
        Counters {
            requests_received: 0,
            transactions_recorded: 0,
            bytes_received: 0,
            auth_failures: 0,
            bad_flags: 0,
        }
    }

    /// The line that reports the counters.
    pub open spec fn report_line(self) -> Seq<char> {
        "receiver: requests_received="@ + crate::text::decimal_digits(
            self.requests_received as nat,
        ) + " transactions_recorded="@ + crate::text::decimal_digits(
            self.transactions_recorded as nat,
        ) + " bytes_received="@ + crate::text::decimal_digits(self.bytes_received as nat)
            + " auth_failures="@ + crate::text::decimal_digits(self.auth_failures as nat)
            + " bad_flags="@ + crate::text::decimal_digits(self.bad_flags as nat)
    }

    /// The line that reports the counters.
    pub fn report(&self) -> (line: String)
        ensures
            line@ == self.report_line(),
    {
        let mut line = "receiver: requests_received=".to_string();
        line.append(decimal(self.requests_received).as_str());
        line.append(" transactions_recorded=");
        line.append(decimal(self.transactions_recorded).as_str());
        line.append(" bytes_received=");
        line.append(decimal(self.bytes_received).as_str());
        line.append(" auth_failures=");
        line.append(decimal(self.auth_failures).as_str());
        line.append(" bad_flags=");
        line.append(decimal(self.bad_flags).as_str());
        line
    }
}

impl Default for Counters {
    fn default() -> (counters: Self)
        ensures
            counters == Counters::zero(),
    {
        Counters {
            requests_received: 0,
            transactions_recorded: 0,
            bytes_received: 0,
            auth_failures: 0,
            bad_flags: 0,
        }
    }
}

/// What becomes of a request that came in.
#[derive(Clone, Copy, Debug, PartialEq, Eq, Structural)]
pub enum Admission {
    /// It is turned away with the [`UNAUTHENTICATED`] status.
    Unauthenticated,
    /// It is to be recorded and answered. `unexpected_flags` tells that it does
    /// not disable forwarding, as the validator integration always must.
    Admitted { unexpected_flags: bool },
}

/// The record of one transaction.
pub struct TransactionRecord {
    /// The JSON line, without the line break.
    pub line: String,
    /// The first signature of the transaction, if it has one.
    pub signature: Option<String>,
}

/// The members of the record of a request.
pub open spec fn record_members(request: crate::proto::RequestModel) -> Map<
    Seq<char>,
    crate::codec::JsonModel,
> {
    Map::empty().insert(
        "wire_size"@,
        crate::codec::JsonModel::Number(request.transaction.len() as u64),
    ).insert(
        "wire_sha256"@,
        crate::codec::JsonModel::Text(
            crate::codec::hex(crate::codec::sha256(request.transaction)),
        ),
    ).insert(
        "primary_signature"@,
        crate::codec::json_of_text(first_signature(request.transaction)),
    ).insert("forward"@, crate::codec::json_of_flag(request.forward)).insert(
        "memo"@,
        crate::codec::json_of_text(request.memo),
    ).insert("cashback_address"@, crate::codec::json_of_text(request.cashback_address))
}

/// The receiver: its counters and the API key it asks for, if any.
pub struct ReceiverService {
    counters: Counters,
    expected_api_key: Option<String>,
}

/// The receiver, as a mathematical value.
#[verifier::ext_equal]
pub struct ReceiverModel {
    pub counters: Counters,
    pub expected_api_key: Option<Seq<char>>,
}

impl View for ReceiverService {
    type V = ReceiverModel;

    closed spec fn view(&self) -> ReceiverModel {
        ReceiverModel {
            counters: self.counters,
            expected_api_key: crate::config::text_of(self.expected_api_key),
        }
    }
}

/// The text of an optional string slice.
pub open spec fn slice_text(text: Option<&str>) -> Option<Seq<char>> {
    match text {
        Some(text) => Some(text@),
        None => None,
    }
}

impl ReceiverModel {
    /// A caller that presents this key may go on: no key is asked for, or this
    /// is the one.
    pub open spec fn authorizes(self, presented: Option<Seq<char>>) -> bool {
        self.expected_api_key is None || presented == self.expected_api_key
    }

    /// What becomes of a request.
    pub open spec fn admission(
        self,
        presented: Option<Seq<char>>,
        forward: Option<bool>,
    ) -> Admission {
        if self.authorizes(presented) {
            Admission::Admitted { unexpected_flags: forward != Some(false) }
        } else {
            Admission::Unauthenticated
        }
    }

    /// The receiver after a request was admitted or turned away.
    pub open spec fn admitting(self, presented: Option<Seq<char>>, forward: Option<bool>) -> Self {
        ReceiverModel {
            counters: match self.admission(presented, forward) {
                Admission::Unauthenticated => Counters {
                    auth_failures: crate::metrics::bump(self.counters.auth_failures, 1),
                    ..self.counters
                },
                Admission::Admitted { unexpected_flags } => Counters {
                    requests_received: crate::metrics::bump(self.counters.requests_received, 1),
                    bad_flags: crate::metrics::bump(
                        self.counters.bad_flags,
                        if unexpected_flags {
                            1
                        } else {
                            0
                        },
                    ),
                    ..self.counters
                },
            },
            ..self
        }
    }

    /// The receiver after a transaction of `wire_size` bytes was recorded.
    pub open spec fn recording(self, wire_size: nat) -> Self {
        ReceiverModel {
            counters: Counters {
                transactions_recorded: crate::metrics::bump(
                    self.counters.transactions_recorded,
                    1,
                ),
                bytes_received: crate::metrics::bump(self.counters.bytes_received, wire_size),
                ..self.counters
            },
            ..self
        }
    }

    /// The answer to a recorded request: its first signature or nothing, and
    /// the number of requests so far.
    pub open spec fn response(self, signature: Option<Seq<char>>) -> crate::proto::ResponseModel {
        crate::proto::ResponseModel {
            signature: match signature {
                Some(signature) => signature,
                None => Seq::empty(),
            },
            bundle_id: None,
            request_id: crate::text::decimal_digits(self.counters.requests_received as nat),
        }
    }
}

impl ReceiverService {
    /// A receiver that has counted nothing yet.
    pub fn new(expected_api_key: Option<String>) -> (service: ReceiverService)
        ensures
            service@ == (ReceiverModel {
                counters: Counters::zero(),
                expected_api_key: crate::config::text_of(expected_api_key),
            }),
    {
        ReceiverService { counters: Counters::default(), expected_api_key }
    }

    /// What has been counted so far.
    pub fn counters(&self) -> (counters: Counters)
        ensures
            counters == self@.counters,
    {
        self.counters
    }

    /// Takes a request with the API key that its caller presents, and decides
    /// whether it goes on.
    pub fn check_in(&mut self, presented: Option<&str>, forward: Option<bool>) -> (admission:
        Admission)
        ensures
            admission == old(self)@.admission(slice_text(presented), forward),
            final(self)@ == old(self)@.admitting(slice_text(presented), forward),
    {
        if !self.authorized(presented) {
            self.counters.auth_failures = add_to_counter(self.counters.auth_failures, 1);
            return Admission::Unauthenticated;
        }
        self.counters.requests_received = add_to_counter(self.counters.requests_received, 1);
        let unexpected_flags = match forward {
            Some(forward) => forward,
            None => true,
        };
        if unexpected_flags {
            self.counters.bad_flags = add_to_counter(self.counters.bad_flags, 1);
        }
        Admission::Admitted { unexpected_flags }
    }

    /// Whether a caller that presents this key may go on.
    fn authorized(&self, presented: Option<&str>) -> (authorized: bool)
        ensures
            authorized == self@.authorizes(slice_text(presented)),
    {
        match &self.expected_api_key {
            None => true,
            Some(expected) => match presented {
                None => false,
                Some(presented) => same_text(presented, expected.as_str()),
            },
        }
    }

    /// Describes a request as one JSON line: the size and digest of its wire
    /// transaction, its first signature, and what it carries besides.
    pub fn record(request: &SendTransactionRequest) -> (record: TransactionRecord)
        ensures
            record.line@ == crate::codec::json_text(record_members(request@)),
            crate::codec::is_one_line(record.line@),
            crate::config::text_of(record.signature) == first_signature(request@.transaction),
    {
        let wire = request.transaction.as_slice();
        let signature = primary_signature(wire);
        let mut object = json_object();
        json_insert(&mut object, "wire_size", JsonField::Number(wire.len() as u64));
        json_insert(&mut object, "wire_sha256", JsonField::Text(wire_sha256(wire)));
        json_insert(&mut object, "primary_signature", text_field(&signature));
        json_insert(&mut object, "forward", flag_field(request.forward));
        json_insert(&mut object, "memo", text_field(&request.memo));
        json_insert(&mut object, "cashback_address", text_field(&request.cashback_address));
        TransactionRecord { line: json_line(object), signature }
    }

    /// Counts a request whose record was written, and answers it.
    pub fn acknowledge(
        &mut self,
        request: &SendTransactionRequest,
        signature: Option<String>,
    ) -> (response: SendTransactionResponse)
        ensures
            final(self)@ == old(self)@.recording(request@.transaction.len()),
            response@ == final(self)@.response(crate::config::text_of(signature)),
    {
        self.counters.transactions_recorded = add_to_counter(
            self.counters.transactions_recorded,
            1,
        );
        self.counters.bytes_received = add_to_counter(
            self.counters.bytes_received,
            request.transaction.len() as u64,
        );
        SendTransactionResponse {
            signature: match signature {
                Some(signature) => signature,
                None => String::new(),
            },
            bundle_id: None,
            request_id: decimal(self.counters.requests_received),
        }
    }
}

/// Every request is counted once, as authorized or as turned away, and a
/// request that is turned away changes nothing else.
pub proof fn law_requests_are_counted_once(
    model: ReceiverModel,
    presented: Option<Seq<char>>,
    forward: Option<bool>,
)
    ensures
        ({
            let after = model.admitting(presented, forward).counters;
            &&& crate::metrics::bump(after.requests_received, after.auth_failures as nat)
                == crate::metrics::bump(
                crate::metrics::bump(
                    model.counters.requests_received,
                    model.counters.auth_failures as nat,
                ),
                1,
            )
            &&& !model.authorizes(presented) ==> after == (Counters {
                auth_failures: after.auth_failures,
                ..model.counters
            })
        }),
{
}

/// The signature count and the signature lie within the transaction: a
/// compact-u16 number takes at most three bytes, which are there, and is below
/// 2^21.
pub proof fn law_compact_u16_is_bounded(bytes: Seq<u8>)
    ensures
        compact_u16(bytes) matches Some((value, offset)) ==> 1 <= offset <= 3 && offset
            <= bytes.len() && 0 <= value < 0x20_0000,
{
}

/// A compact-u16 number depends on no byte past its end.
pub proof fn law_compact_u16_reads_its_prefix(bytes: Seq<u8>, rest: Seq<u8>)
    ensures
        compact_u16(bytes) is Some ==> compact_u16(bytes + rest) == compact_u16(bytes),
{
}

/// A receiver that asks for no API key takes every request, whatever key its
/// caller presents; one that asks for a key takes exactly the requests that
/// present that key.
pub proof fn law_only_the_expected_key_is_asked_for(
    model: ReceiverModel,
    presented: Option<Seq<char>>,
    forward: Option<bool>,
)
    ensures
        model.expected_api_key is None ==> model.admission(presented, forward) is Admitted,
        model.expected_api_key matches Some(expected) ==> (model.admission(
            presented,
            forward,
        ) is Admitted <==> presented == Some(expected)),
        model.expected_api_key is None ==> model.admitting(
            presented,
            forward,
        ).counters.auth_failures == model.counters.auth_failures,
{
}

/// A request that is taken is flagged exactly unless it says that it is not to
/// be forwarded.
pub proof fn law_forwarding_must_be_disabled(
    model: ReceiverModel,
    presented: Option<Seq<char>>,
    forward: Option<bool>,
)
    ensures
        model.admission(presented, forward) matches Admission::Admitted { unexpected_flags }
            ==> unexpected_flags == !(forward is Some && !forward->0),
{
}

/// A request that comes in moves the counters of its fate and no other: turned
/// away, or received and flagged or not. The key that is asked for stays.
pub proof fn law_requests_move_their_counters(
    model: ReceiverModel,
    presented: Option<Seq<char>>,
    forward: Option<bool>,
)
    ensures
        ({
            let before = model.counters;
            let after = model.admitting(presented, forward).counters;
            match model.admission(presented, forward) {
                Admission::Unauthenticated => {
                    &&& after.auth_failures == crate::metrics::bump(before.auth_failures, 1)
                    &&& after.requests_received == before.requests_received
                    &&& after.bad_flags == before.bad_flags
                },
                Admission::Admitted { unexpected_flags } => {
                    &&& after.auth_failures == before.auth_failures
                    &&& after.requests_received == crate::metrics::bump(
                        before.requests_received,
                        1,
                    )
                    &&& unexpected_flags ==> after.bad_flags == crate::metrics::bump(
                        before.bad_flags,
                        1,
                    )
                    &&& !unexpected_flags ==> after.bad_flags == before.bad_flags
                },
            }
        }),
        model.admitting(presented, forward).counters.transactions_recorded
            == model.counters.transactions_recorded,
        model.admitting(presented, forward).counters.bytes_received
            == model.counters.bytes_received,
        model.admitting(presented, forward).expected_api_key == model.expected_api_key,
{
}

/// A transaction that is recorded is counted once, with its bytes, and nothing
/// else changes.
pub proof fn law_records_move_their_counters(model: ReceiverModel, wire_size: nat)
    ensures
        ({
            let after = model.recording(wire_size);
            &&& after.counters.transactions_recorded == crate::metrics::bump(
                model.counters.transactions_recorded,
                1,
            )
            &&& after.counters.bytes_received == crate::metrics::bump(
                model.counters.bytes_received,
                wire_size,
            )
            &&& after.counters.requests_received == model.counters.requests_received
            &&& after.counters.auth_failures == model.counters.auth_failures
            &&& after.counters.bad_flags == model.counters.bad_flags
            &&& after.expected_api_key == model.expected_api_key
        }),
{
}

/// An answer carries the signature that was found, or none, no bundle, and the
/// number of requests received so far as its identity.
pub proof fn law_answers_tell_the_signature(model: ReceiverModel, signature: Option<Seq<char>>)
    ensures
        ({
            let response = model.response(signature);
            &&& signature matches Some(signature) ==> response.signature == signature
            &&& signature is None ==> response.signature.len() == 0
            &&& response.bundle_id is None
            &&& crate::text::all_digits(response.request_id)
            &&& crate::text::digits_value(response.request_id)
                == model.counters.requests_received
        }),
{
    crate::text::law_decimal_reads_back(model.counters.requests_received as nat);
}

/// The caller's key is taken as it is.
pub proof fn law_presented_keys_are_kept(text: Option<&str>)
    ensures
        text is None ==> slice_text(text) is None,
        text matches Some(key) ==> slice_text(text) == Some(key@),
{
}

/// A number in compact form: seven bits a byte, the low ones first, with the
/// high bit set on all bytes but the last.
pub open spec fn in_compact_form(value: nat) -> Seq<u8> {
    if value < 0x80 {
        seq![value as u8]
    } else if value < 0x4000 {
        seq![(value % 128 + 128) as u8, (value / 128) as u8]
    } else {
        seq![
            (value % 128 + 128) as u8,
            (value / 128 % 128 + 128) as u8,
            (value / 16384) as u8,
        ]
    }
}

/// A number in compact form reads back as itself, with the bytes it takes,
/// whatever follows it.
pub proof fn law_compact_u16_reads_back(value: nat, rest: Seq<u8>)
    requires
        value < 0x20_0000,
    ensures
        compact_u16(in_compact_form(value) + rest) == Some(
            (value as int, in_compact_form(value).len() as int),
        ),
{
    let bytes = in_compact_form(value) + rest;
    assert(bytes[0] == in_compact_form(value)[0]);
    if value >= 0x80 {
        assert(bytes[1] == in_compact_form(value)[1]);
    }
    if value >= 0x4000 {
        assert(bytes[2] == in_compact_form(value)[2]);
        assert(value / 16384 == value / 128 / 128);
        assert(value == value % 128 + 128 * (value / 128));
        assert(value / 128 == (value / 128) % 128 + 128 * (value / 128 / 128));
    }
}

/// There is no number exactly where none of the first three bytes ends one.
pub proof fn law_compact_u16_ends_in_time(bytes: Seq<u8>)
    ensures
        compact_u16(bytes) is Some <==> exists|i: int|
            0 <= i < 3 && i < bytes.len() && #[trigger] bytes[i] < 128,
{
}

/// The first signature of a transaction is the 64 bytes after the signature
/// count, whatever follows them; a transaction without signatures has none, nor
/// has one that ends before them.
pub proof fn law_the_first_signature_follows_the_count(
    count: nat,
    signature: Seq<u8>,
    rest: Seq<u8>,
)
    requires
        count < 0x20_0000,
    ensures
        count > 0 && signature.len() == 64 ==> first_signature(
            in_compact_form(count) + signature + rest,
        ) == Some(crate::codec::base58(signature)),
        count == 0 ==> first_signature(in_compact_form(count) + rest) is None,
        rest.len() < 64 ==> first_signature(in_compact_form(count) + rest) is None,
{
    let form = in_compact_form(count);
    law_compact_u16_reads_back(count, rest);
    if signature.len() == 64 {
        law_compact_u16_reads_back(count, signature + rest);
        assert(form + signature + rest =~= form + (signature + rest));
        assert((form + (signature + rest)).subrange(form.len() as int, (form.len() + 64) as int)
            =~= signature);
    }
}

/// The record of a request has six members: the size, digest and first
/// signature of its transaction, and its flag, memo and address, with null for
/// what it lacks.
pub proof fn law_records_describe_the_request(request: crate::proto::RequestModel)
    ensures
        ({
            let members = record_members(request);
            &&& members.dom() == set![
                "wire_size"@,
                "wire_sha256"@,
                "primary_signature"@,
                "forward"@,
                "memo"@,
                "cashback_address"@,
            ]
            &&& members["wire_size"@] == crate::codec::JsonModel::Number(
                request.transaction.len() as u64,
            )
            &&& members["wire_sha256"@] == crate::codec::JsonModel::Text(
                crate::codec::hex(crate::codec::sha256(request.transaction)),
            )
            &&& members["primary_signature"@] == match first_signature(request.transaction) {
                Some(signature) => crate::codec::JsonModel::Text(signature),
                None => crate::codec::JsonModel::Null,
            }
            &&& members["forward"@] == match request.forward {
                Some(forward) => crate::codec::JsonModel::Bool(forward),
                None => crate::codec::JsonModel::Null,
            }
            &&& members["memo"@] == match request.memo {
                Some(memo) => crate::codec::JsonModel::Text(memo),
                None => crate::codec::JsonModel::Null,
            }
            &&& members["cashback_address"@] == match request.cashback_address {
                Some(address) => crate::codec::JsonModel::Text(address),
                None => crate::codec::JsonModel::Null,
            }
        }),
{
    reveal_strlit("wire_size");
    reveal_strlit("wire_sha256");
    reveal_strlit("primary_signature");
    reveal_strlit("forward");
    reveal_strlit("memo");
    reveal_strlit("cashback_address");
    assert("wire_size"@.len() == 9);
    assert("wire_sha256"@.len() == 11);
    assert("primary_signature"@.len() == 17);
    assert("forward"@.len() == 7);
    assert("memo"@.len() == 4);
    assert("cashback_address"@.len() == 16);
    assert(record_members(request).dom() =~= set![
        "wire_size"@,
        "wire_sha256"@,
        "primary_signature"@,
        "forward"@,
        "memo"@,
        "cashback_address"@,
    ]);
}

/// The report names each counter with its own number, in decimal.
pub proof fn law_reports_name_each_counter(counters: Counters)
    ensures
        exists|received: Seq<char>, recorded: Seq<char>, bytes: Seq<char>, failures: Seq<char>,
            flags: Seq<char>|
            {
                &&& counters.report_line() == #[trigger] reported_as(
                    received,
                    recorded,
                    bytes,
                    failures,
                    flags,
                )
                &&& crate::cli::number(received) == Some(counters.requests_received as nat)
                &&& crate::cli::number(recorded) == Some(counters.transactions_recorded as nat)
                &&& crate::cli::number(bytes) == Some(counters.bytes_received as nat)
                &&& crate::cli::number(failures) == Some(counters.auth_failures as nat)
                &&& crate::cli::number(flags) == Some(counters.bad_flags as nat)
            },
{
    let received = crate::text::decimal_digits(counters.requests_received as nat);
    let recorded = crate::text::decimal_digits(counters.transactions_recorded as nat);
    let bytes = crate::text::decimal_digits(counters.bytes_received as nat);
    let failures = crate::text::decimal_digits(counters.auth_failures as nat);
    let flags = crate::text::decimal_digits(counters.bad_flags as nat);
    crate::cli::law_decimal_numbers_are_read(counters.requests_received as nat);
    crate::cli::law_decimal_numbers_are_read(counters.transactions_recorded as nat);
    crate::cli::law_decimal_numbers_are_read(counters.bytes_received as nat);
    crate::cli::law_decimal_numbers_are_read(counters.auth_failures as nat);
    crate::cli::law_decimal_numbers_are_read(counters.bad_flags as nat);
    assert(counters.report_line() =~= reported_as(received, recorded, bytes, failures, flags));
}

/// The report with these numbers in it.
pub open spec fn reported_as(
    received: Seq<char>,
    recorded: Seq<char>,
    bytes: Seq<char>,
    failures: Seq<char>,
    flags: Seq<char>,
) -> Seq<char> {
    "receiver: requests_received="@ + received + " transactions_recorded="@ + recorded
        + " bytes_received="@ + bytes + " auth_failures="@ + failures + " bad_flags="@ + flags
}

/// A number ends at the first byte without the high bit, and its value is the
/// low seven bits of each byte up to there, each worth 128 times the one
/// before. It need not be in its shortest form.
pub proof fn law_compact_u16_is_positional(bytes: Seq<u8>)
    ensures
        compact_u16(bytes) matches Some((value, taken)) ==> {
            &&& 1 <= taken <= 3 && taken <= bytes.len()
            &&& bytes[taken - 1] < 128
            &&& forall|i: int| 0 <= i < taken - 1 ==> #[trigger] bytes[i] >= 128
            &&& taken == 1 ==> value == bytes[0] as int % 128
            &&& taken == 2 ==> value == bytes[0] as int % 128 + 128 * (bytes[1] as int % 128)
            &&& taken == 3 ==> value == bytes[0] as int % 128 + 128 * (bytes[1] as int % 128)
                + 16384 * (bytes[2] as int % 128)
        },
{
}

/// A transaction has a first signature exactly if it counts one and has the
/// bytes for it, and these are the 64 bytes right behind the count.
pub proof fn law_signatures_are_found_where_they_are(wire: Seq<u8>)
    ensures
        compact_u16(wire) is None ==> first_signature(wire) is None,
        compact_u16(wire) matches Some((count, taken)) ==> {
            &&& count == 0 ==> first_signature(wire) is None
            &&& wire.len() < taken + 64 ==> first_signature(wire) is None
            &&& count > 0 && wire.len() >= taken + 64 ==> first_signature(wire) == Some(
                crate::codec::base58(wire.skip(taken).take(64)),
            )
        },
{
    if let Some((count, taken)) = compact_u16(wire) {
        if wire.len() >= taken + 64 {
            assert(wire.skip(taken).take(64) =~= wire.subrange(taken, taken + 64));
        }
    }
}

/// A receiver starts at zero.
pub proof fn law_receivers_start_at_zero()
    ensures
        Counters::zero().requests_received == 0,
        Counters::zero().transactions_recorded == 0,
        Counters::zero().bytes_received == 0,
        Counters::zero().auth_failures == 0,
        Counters::zero().bad_flags == 0,
{
}

} // verus!
