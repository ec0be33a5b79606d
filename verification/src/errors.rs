//! The error surface of the conversion workflow.
//!
//! Every failure of a conversion run is one of these values; the first
//! error anywhere in the chain aborts the whole run and is returned to
//! the caller as-is.

use vstd::prelude::*;

verus! {

/// A key that the presigned-upload reply is required to carry.
///
/// The vendor's reply to an upload-slot request is loosely shaped, so
/// each expected key is checked for presence; the first absent one is
/// reported in [`ConvertError::MissingField`].
#[derive(Debug, Clone, Copy, PartialEq, Eq, Structural)]
pub enum FieldName {
    Form,
    Url,
    Parameters,
    Key,
    Acl,
    AmzAlgorithm,
    AmzCredential,
    AmzDate,
    AmzSignature,
    Policy,
    SuccessActionStatus,
}

impl FieldName {
    /// The key under which the field appears in the vendor's reply.
    pub fn wire_name(&self) -> (r: String)
        ensures
            r@ == self.spec_wire_name(),
    {
        match self {
            FieldName::Form => "form".to_owned(),
            FieldName::Url => "url".to_owned(),
            FieldName::Parameters => "parameters".to_owned(),
            FieldName::Key => "key".to_owned(),
            FieldName::Acl => "acl".to_owned(),
            FieldName::AmzAlgorithm => "X-Amz-Algorithm".to_owned(),
            FieldName::AmzCredential => "X-Amz-Credential".to_owned(),
            FieldName::AmzDate => "X-Amz-Date".to_owned(),
            FieldName::AmzSignature => "X-Amz-Signature".to_owned(),
            FieldName::Policy => "Policy".to_owned(),
            FieldName::SuccessActionStatus => "success_action_status".to_owned(),
        }
    }

    /// The wire key of each field, as a sequence of characters.
    pub open spec fn spec_wire_name(self) -> Seq<char> {
        match self {
            FieldName::Form => "form"@,
            FieldName::Url => "url"@,
            FieldName::Parameters => "parameters"@,
            FieldName::Key => "key"@,
            FieldName::Acl => "acl"@,
            FieldName::AmzAlgorithm => "X-Amz-Algorithm"@,
            FieldName::AmzCredential => "X-Amz-Credential"@,
            FieldName::AmzDate => "X-Amz-Date"@,
            FieldName::AmzSignature => "X-Amz-Signature"@,
            FieldName::Policy => "Policy"@,
            FieldName::SuccessActionStatus => "success_action_status"@,
        }
    }
}

/// Why a conversion run failed.
///
/// Every step fails fast: the first error aborts the run, with no retry
/// and no rollback of remote tasks already created.
#[derive(Debug, Clone, PartialEq, Eq)]
pub enum ConvertError {
    /// An outbound call failed at the transport level (connection,
    /// timeout, TLS) before a status code was available.
    Network,
    /// An upload host answered with a status other than the one that
    /// signals success; carries the status and the response body.
    HttpStatus { status: u16, body: String },
    /// A response body did not match the shape expected of it.
    Deserialization,
    /// An expected key was absent from the loosely shaped
    /// presigned-upload reply.
    MissingField { field: FieldName },
    /// The export poll answered with an empty list of produced files.
    EmptyResult,
}

} // verus!
