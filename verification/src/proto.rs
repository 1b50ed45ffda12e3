//! The messages of the Fast gRPC contract (`fast_tx.FastTx`).
use vstd::prelude::*;

verus! {

/// One `SendTransaction` request.
#[derive(Debug)]
pub struct SendTransactionRequest {
    /// The wire transaction.
    pub transaction: Vec<u8>,
    /// Optional memo of the submission.
    pub memo: Option<String>,
    /// Whether Fast forwards the transaction itself; with `false` it goes to
    /// the ARB stream only.
    pub forward: Option<bool>,
    /// Optional cashback destination pubkey.
    pub cashback_address: Option<String>,
}

/// One `SendTransaction` request, as a mathematical value.
#[verifier::ext_equal]
pub struct RequestModel {
    pub transaction: Seq<u8>,
    pub memo: Option<Seq<char>>,
    pub forward: Option<bool>,
    pub cashback_address: Option<Seq<char>>,
}

impl View for SendTransactionRequest {
    type V = RequestModel;

    open spec fn view(&self) -> RequestModel {
        RequestModel {
            transaction: self.transaction@,
            memo: crate::config::text_of(self.memo),
            forward: self.forward,
            cashback_address: crate::config::text_of(self.cashback_address),
        }
    }
}

/// The answer to a `SendTransaction` request.
#[derive(Debug)]
pub struct SendTransactionResponse {
    /// The signature of the transaction.
    pub signature: String,
    /// The bundle the transaction went into, if any.
    pub bundle_id: Option<String>,
    /// The identity of the request.
    pub request_id: String,
}

/// The answer to a `SendTransaction` request, as a mathematical value.
#[verifier::ext_equal]
pub struct ResponseModel {
    pub signature: Seq<char>,
    pub bundle_id: Option<Seq<char>>,
    pub request_id: Seq<char>,
}

impl View for SendTransactionResponse {
    type V = ResponseModel;

    open spec fn view(&self) -> ResponseModel {
        ResponseModel {
            signature: self.signature@,
            bundle_id: crate::config::text_of(self.bundle_id),
            request_id: self.request_id@,
        }
    }
}

/// A request is its fields.
pub proof fn law_requests_are_their_fields(request: SendTransactionRequest)
    ensures
        request@.transaction == request.transaction@,
        request@.forward == request.forward,
        request.memo is None ==> request@.memo is None,
        request.memo matches Some(memo) ==> request@.memo == Some(memo@),
        request.cashback_address is None ==> request@.cashback_address is None,
        request.cashback_address matches Some(address) ==> request@.cashback_address == Some(
            address@,
        ),
{
}

/// An answer is its fields.
pub proof fn law_responses_are_their_fields(response: SendTransactionResponse)
    ensures
        response@.signature == response.signature@,
        response@.request_id == response.request_id@,
        response.bundle_id is None ==> response@.bundle_id is None,
        response.bundle_id matches Some(bundle) ==> response@.bundle_id == Some(bundle@),
{
}

} // verus!
