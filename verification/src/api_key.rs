//! The API key that every submission carries as gRPC metadata.
use vstd::prelude::*;
use vstd::string::StrSliceExecFns;
use tonic::metadata::errors::InvalidMetadataValue;
use tonic::metadata::{Ascii, MetadataValue};

verus! {

/// The metadata key that the API key is sent under.
pub const API_KEY_HEADER: &'static str = "x-api-key";

/// The error of a text that is no metadata value.
#[verifier::external_type_specification]
#[verifier::external_body]
pub struct ExInvalidMetadataValue(InvalidMetadataValue);

/// A text can be sent as a metadata value: it holds no control character but
/// the tab.
pub open spec fn sendable(text: Seq<char>) -> bool {
    forall|i: int|
        0 <= i < text.len() ==> (#[trigger] text[i] as u32 >= 32 && text[i] as u32 != 127)
            || text[i] == '\t'
}

/// `<MetadataValue<Ascii> as FromStr>::from_str`: succeeds exactly on the texts
/// that hold no control character but the tab.
#[verifier::external_body]
pub(crate) fn check_metadata(text: &str) -> (checked: Result<(), InvalidMetadataValue>)
    ensures
        checked is Ok <==> sendable(text@),
{
    match text.parse::<MetadataValue<Ascii>>() {
        Ok(_) => Ok(()),
        Err(error) => Err(error),
    }
}

/// An API key: a text that can be sent as a metadata value, and is not empty.
#[derive(Debug)]
pub struct ApiKey {
    text: String,
}

/// Why a configured API key was turned down.
#[derive(Debug)]
pub enum ApiKeyError {
    /// No key is configured.
    Missing,
    /// The key cannot be sent as a metadata value.
    Invalid(InvalidMetadataValue),
}

impl View for ApiKey {
    type V = Seq<char>;

    closed spec fn view(&self) -> Seq<char> {
        self.text@
    }
}

impl ApiKey {
    #[verifier::type_invariant]
    spec fn inv(self) -> bool {
        self.text@.len() > 0 && sendable(self.text@)
    }

    /// Takes the configured key, if there is one and it can be sent.
    pub fn parse(text: &str) -> (key: Result<ApiKey, ApiKeyError>)
        ensures
            match key {
                Ok(key) => text@.len() > 0 && sendable(text@) && key@ == text@,
                Err(ApiKeyError::Missing) => text@.len() == 0,
                Err(ApiKeyError::Invalid(_)) => text@.len() > 0 && !sendable(text@),
            },
    {
        if text.unicode_len() == 0 {
            return Err(ApiKeyError::Missing);
        }
        match check_metadata(text) {
            Ok(_) => Ok(ApiKey { text: text.to_string() }),
            Err(error) => Err(ApiKeyError::Invalid(error)),
        }
    }

    /// The text of the key.
    pub fn as_str(&self) -> (text: &str)
        ensures
            text@ == self@,
            text@.len() > 0,
            sendable(text@),
    {
        proof {
            use_type_invariant(self);
        }
        self.text.as_str()
    }
}

impl Clone for ApiKey {
    fn clone(&self) -> (key: Self)
        ensures
            key@ == self@,
    {
        proof {
            use_type_invariant(self);
        }
        ApiKey { text: self.text.clone() }
    }
}

} // verus!
