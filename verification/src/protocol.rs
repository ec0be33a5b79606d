//! Models of the conversion service's replies, and the checks the
//! workflow performs on them.
//!
//! Each remote endpoint answers with JSON; the embedding application
//! deserializes a body and hands the workflow one of these plain-value
//! types. The loosely shaped presigned-upload reply keeps each expected
//! key as an `Option`, so that the required presence checks are made
//! here, in verified code, and an absent key becomes a typed error
//! rather than a crash.

use vstd::prelude::*;
use crate::errors::{ConvertError, FieldName};

verus! {

/// A task reply: `{data: {id, status}}` of the import, convert, poll
/// and export endpoints. Task identifiers are opaque: they are threaded
/// unchanged from the call that produced them to the call that
/// consumes them, never synthesized.
#[derive(Debug, Clone, PartialEq, Eq)]
pub struct Task {
    pub id: String,
    pub status: String,
}

/// The export poll's reply: the URLs of the produced files, in the
/// order the service listed them.
#[derive(Debug, Clone, PartialEq, Eq)]
pub struct ExportList {
    pub urls: Vec<String>,
}

/// The signed multipart parameters of a presigned-upload reply, each
/// possibly absent.
#[derive(Debug, Clone, PartialEq, Eq)]
pub struct UploadParams {
    pub key: Option<String>,
    pub acl: Option<String>,
    pub amz_algorithm: Option<String>,
    pub amz_credential: Option<String>,
    pub amz_date: Option<String>,
    pub amz_signature: Option<String>,
    pub policy: Option<String>,
    pub success_action_status: Option<String>,
}

/// The `form` object of a presigned-upload reply: the destination URL
/// and the signed parameters, each possibly absent.
#[derive(Debug, Clone, PartialEq, Eq)]
pub struct UploadForm {
    pub url: Option<String>,
    pub parameters: Option<UploadParams>,
}

/// The vendor's reply to an upload-slot request: the task id under
/// which the upload will be known, and the loosely shaped `form`
/// object describing where and how to post the file.
#[derive(Debug, Clone, PartialEq, Eq)]
pub struct UploadSlot {
    pub id: String,
    pub form: Option<UploadForm>,
}

/// The signed multipart parameters once their presence is established.
#[derive(Debug, Clone, PartialEq, Eq)]
pub struct SignedFields {
    pub key: String,
    pub acl: String,
    pub amz_algorithm: String,
    pub amz_credential: String,
    pub amz_date: String,
    pub amz_signature: String,
    pub policy: String,
    pub success_action_status: String,
}

/// A validated upload destination: where to post the file, and exactly
/// which signed fields to send with it.
#[derive(Debug, Clone, PartialEq, Eq)]
pub struct UploadTarget {
    pub url: String,
    pub fields: SignedFields,
}

/// The first expected key absent from a presigned-upload reply, in the
/// order the workflow reads them; `None` when every key is present.
pub open spec fn spec_missing_field(slot: UploadSlot) -> Option<FieldName> {
    if slot.form is None {
        Some(FieldName::Form)
    } else if slot.form->0.url is None {
        Some(FieldName::Url)
    } else if slot.form->0.parameters is None {
        Some(FieldName::Parameters)
    } else if slot.form->0.parameters->0.key is None {
        Some(FieldName::Key)
    } else if slot.form->0.parameters->0.acl is None {
        Some(FieldName::Acl)
    } else if slot.form->0.parameters->0.amz_algorithm is None {
        Some(FieldName::AmzAlgorithm)
    } else if slot.form->0.parameters->0.amz_credential is None {
        Some(FieldName::AmzCredential)
    } else if slot.form->0.parameters->0.amz_date is None {
        Some(FieldName::AmzDate)
    } else if slot.form->0.parameters->0.amz_signature is None {
        Some(FieldName::AmzSignature)
    } else if slot.form->0.parameters->0.policy is None {
        Some(FieldName::Policy)
    } else if slot.form->0.parameters->0.success_action_status is None {
        Some(FieldName::SuccessActionStatus)
    } else {
        None
    }
}

/// What validating a presigned-upload reply yields: the vendor task id
/// and the upload destination when every key is present, else the
/// first missing key as a typed error.
pub open spec fn spec_validate_slot(slot: UploadSlot) -> Result<(String, UploadTarget), ConvertError> {
    match spec_missing_field(slot) {
        Some(f) => Err(ConvertError::MissingField { field: f }),
        None => Ok(
            (
                slot.id,
                UploadTarget {
                    url: slot.form->0.url->0,
                    fields: SignedFields {
                        key: slot.form->0.parameters->0.key->0,
                        acl: slot.form->0.parameters->0.acl->0,
                        amz_algorithm: slot.form->0.parameters->0.amz_algorithm->0,
                        amz_credential: slot.form->0.parameters->0.amz_credential->0,
                        amz_date: slot.form->0.parameters->0.amz_date->0,
                        amz_signature: slot.form->0.parameters->0.amz_signature->0,
                        policy: slot.form->0.parameters->0.policy->0,
                        success_action_status: slot.form->0.parameters->0.success_action_status->0,
                    },
                },
            ),
        ),
    }
}

/// Validates a presigned-upload reply. The reply's shape is not
/// guaranteed, so an absent key is fatal — never a zero-valued
/// default — and the first absent key, in reading order, names the
/// error.
pub fn validate_slot(slot: UploadSlot) -> (r: Result<(String, UploadTarget), ConvertError>)
    ensures
        r == spec_validate_slot(slot),
{
    let UploadSlot { id, form } = slot;
    let form = match form {
        None => {
            return Err(ConvertError::MissingField { field: FieldName::Form });
        },
        Some(f) => f,
    };
    let url = match form.url {
        None => {
            return Err(ConvertError::MissingField { field: FieldName::Url });
        },
        Some(u) => u,
    };
    let p = match form.parameters {
        None => {
            return Err(ConvertError::MissingField { field: FieldName::Parameters });
        },
        Some(p) => p,
    };
    let key = match p.key {
        None => {
            return Err(ConvertError::MissingField { field: FieldName::Key });
        },
        Some(v) => v,
    };
    let acl = match p.acl {
        None => {
            return Err(ConvertError::MissingField { field: FieldName::Acl });
        },
        Some(v) => v,
    };
    let amz_algorithm = match p.amz_algorithm {
        None => {
            return Err(ConvertError::MissingField { field: FieldName::AmzAlgorithm });
        },
        Some(v) => v,
    };
    let amz_credential = match p.amz_credential {
        None => {
            return Err(ConvertError::MissingField { field: FieldName::AmzCredential });
        },
        Some(v) => v,
    };
    let amz_date = match p.amz_date {
        None => {
            return Err(ConvertError::MissingField { field: FieldName::AmzDate });
        },
        Some(v) => v,
    };
    let amz_signature = match p.amz_signature {
        None => {
            return Err(ConvertError::MissingField { field: FieldName::AmzSignature });
        },
        Some(v) => v,
    };
    let policy = match p.policy {
        None => {
            return Err(ConvertError::MissingField { field: FieldName::Policy });
        },
        Some(v) => v,
    };
    let success_action_status = match p.success_action_status {
        None => {
            return Err(ConvertError::MissingField { field: FieldName::SuccessActionStatus });
        },
        Some(v) => v,
    };
    Ok(
        (
            id,
            UploadTarget {
                url,
                fields: SignedFields {
                    key,
                    acl,
                    amz_algorithm,
                    amz_credential,
                    amz_date,
                    amz_signature,
                    policy,
                    success_action_status,
                },
            },
        ),
    )
}

impl SignedFields {
    /// The multipart form entries of a direct vendor upload: exactly
    /// the signed fields, under their wire names, in the order the
    /// vendor's workflow lists them.
    pub fn pairs(&self) -> (r: Vec<(String, String)>)
        ensures
            r@.len() == 8,
            r@[0].0@ == "key"@ && r@[0].1 == self.key,
            r@[1].0@ == "acl"@ && r@[1].1 == self.acl,
            r@[2].0@ == "X-Amz-Algorithm"@ && r@[2].1 == self.amz_algorithm,
            r@[3].0@ == "X-Amz-Credential"@ && r@[3].1 == self.amz_credential,
            r@[4].0@ == "X-Amz-Date"@ && r@[4].1 == self.amz_date,
            r@[5].0@ == "X-Amz-Signature"@ && r@[5].1 == self.amz_signature,
            r@[6].0@ == "Policy"@ && r@[6].1 == self.policy,
            r@[7].0@ == "success_action_status"@ && r@[7].1 == self.success_action_status,
    {
        let mut v: Vec<(String, String)> = Vec::new();
        v.push(("key".to_owned(), self.key.clone()));
        v.push(("acl".to_owned(), self.acl.clone()));
        v.push(("X-Amz-Algorithm".to_owned(), self.amz_algorithm.clone()));
        v.push(("X-Amz-Credential".to_owned(), self.amz_credential.clone()));
        v.push(("X-Amz-Date".to_owned(), self.amz_date.clone()));
        v.push(("X-Amz-Signature".to_owned(), self.amz_signature.clone()));
        v.push(("Policy".to_owned(), self.policy.clone()));
        v.push(("success_action_status".to_owned(), self.success_action_status.clone()));
        v
    }
}

/// Picks the result URL out of the export poll's reply: the first
/// produced file's URL, or a typed error — never an out-of-bounds
/// access — when the list is empty.
pub fn first_result_url(list: ExportList) -> (r: Result<String, ConvertError>)
    ensures
        list.urls@.len() == 0 ==> r == Err::<String, ConvertError>(ConvertError::EmptyResult),
        list.urls@.len() > 0 ==> r == Ok::<String, ConvertError>(list.urls@[0]),
{
    if list.urls.len() == 0 {
        Err(ConvertError::EmptyResult)
    } else {
        Ok(list.urls[0].clone())
    }
}

} // verus!
