//! The conversion workflow as a state machine.
//!
//! A conversion run is a fixed sequence of remote exchanges: make the
//! file reachable (one of three upload transports), import it, poll,
//! convert, poll, export, poll the export for the produced files, and
//! read the first file's URL. A [`Session`] holds the state of one run;
//! [`Session::step`] consumes the reply to the previous call and says
//! which call to issue next. The embedding application performs each
//! [`Action`] over HTTP and hands the reply back as an [`Event`]; every
//! decision — which identifier feeds which call, which reply is an
//! error, when the run is over — is made here, in verified code.

use vstd::prelude::*;
use crate::errors::{ConvertError, FieldName};
use crate::protocol::{
    ExportList,
    SignedFields,
    Task,
    UploadSlot,
    first_result_url,
    spec_validate_slot,
    validate_slot,
};
use crate::transport::{bin_path_url, bin_url_of, is_token};

verus! {

/// The next remote call the workflow asks the application to perform.
#[derive(Debug, Clone, PartialEq, Eq)]
pub enum Action {
    /// Request a presigned upload slot from the vendor (no body).
    RequestUploadSlot,
    /// Post the file as a multipart form to the presigned destination,
    /// with exactly the signed fields.
    PostSignedForm { url: String, fields: SignedFields },
    /// Post the file as a multipart form to the generic anonymous host.
    PostFileToHost { url: String },
    /// Put the raw file bytes at the randomized bin-style path.
    PutFileAtPath { url: String },
    /// Register the uploaded file with the conversion service by URL.
    PostImport { url: String },
    /// Fetch a task's state once.
    GetTask { id: String },
    /// Request the conversion of an imported task.
    PostConvert { input: String, input_format: String, output_format: String },
    /// Request an export of the converted task.
    PostExport { input: String },
    /// Fetch the export task, expecting the produced file list.
    GetExportResult { id: String },
}

/// The reply to the previously issued [`Action`], reduced to plain
/// values by the embedding application.
#[derive(Debug, Clone, PartialEq, Eq)]
pub enum Event {
    /// The vendor's presigned-upload reply.
    SlotReply(UploadSlot),
    /// The presigned multipart post returned; its body is not read.
    FormAck,
    /// The generic host's reply: status, the parsed link if the body
    /// held one, and the raw body.
    HostReply { status: u16, link: Option<String>, body: String },
    /// The bin-style host's reply to the raw put.
    BinReply { status: u16, body: String },
    /// A task reply of the import, poll, convert or export endpoint.
    TaskReply(Task),
    /// The export poll's reply: the produced files' URLs.
    ExportReply(ExportList),
    /// The call went through but its body did not match the expected
    /// shape.
    MalformedReply,
    /// The call itself failed before a status was available.
    TransportFailed,
}

/// Where in the workflow a run stands: which reply it is waiting for,
/// or how it ended.
#[derive(Debug, Clone, PartialEq, Eq)]
pub enum Phase {
    /// Waiting for the vendor's presigned-upload reply.
    AwaitSlot,
    /// Waiting for the presigned multipart post to return; `task` is
    /// the vendor task id under which the upload is known.
    AwaitFormAck { task: String },
    /// Waiting for the generic host's upload reply.
    AwaitHost,
    /// Waiting for the bin-style host to accept the put at `url`.
    AwaitBin { url: String },
    /// Waiting for the import reply.
    AwaitImport,
    /// Waiting for the first poll's reply; `task` is the imported
    /// task's id, the conversion's input.
    AwaitFirstPoll { task: String },
    /// Waiting for the convert reply.
    AwaitConvert,
    /// Waiting for the second poll's reply; `task` is the converted
    /// task's id, the export's input.
    AwaitSecondPoll { task: String },
    /// Waiting for the export reply.
    AwaitExport,
    /// Waiting for the export poll's file list.
    AwaitResult,
    /// The run succeeded: `url` is the converted file's address.
    Done { url: String },
    /// The run failed; the first error ends it.
    Failed { error: ConvertError },
}

/// One conversion run: the requested formats and the workflow phase.
#[derive(Debug, Clone, PartialEq, Eq)]
pub struct Session {
    /// The source format, passed through verbatim to the service.
    pub input_format: String,
    /// The target format, passed through verbatim to the service.
    pub output_format: String,
    /// Where the run stands.
    pub phase: Phase,
}

/// The step a failing reply leads to: the run ends with the error,
/// and no further call is issued.
pub open spec fn spec_fail(s: Session, error: ConvertError) -> (Session, Option<Action>) {
    (Session { phase: Phase::Failed { error }, ..s }, None)
}

/// The workflow's transition function: what receiving `ev` in state
/// `s` leads to, and which call to issue next. Total: any reply that
/// does not fit the awaited one ends the run with a typed error, and
/// a finished run absorbs every further event.
pub open spec fn spec_step(s: Session, ev: Event) -> (Session, Option<Action>) {
    match s.phase {
        Phase::AwaitSlot => match ev {
            Event::SlotReply(slot) => match spec_validate_slot(slot) {
                Err(e) => spec_fail(s, e),
                Ok(pair) => (
                    Session { phase: Phase::AwaitFormAck { task: pair.0 }, ..s },
                    Some(Action::PostSignedForm { url: pair.1.url, fields: pair.1.fields }),
                ),
            },
            Event::TransportFailed => spec_fail(s, ConvertError::Network),
            _ => spec_fail(s, ConvertError::Deserialization),
        },
        Phase::AwaitFormAck { task } => match ev {
            Event::FormAck => (
                Session { phase: Phase::AwaitFirstPoll { task }, ..s },
                Some(Action::GetTask { id: task }),
            ),
            Event::TransportFailed => spec_fail(s, ConvertError::Network),
            _ => spec_fail(s, ConvertError::Deserialization),
        },
        Phase::AwaitHost => match ev {
            Event::HostReply { status, link, body } => if status != 200 {
                spec_fail(s, ConvertError::HttpStatus { status, body })
            } else {
                match link {
                    Some(l) => (
                        Session { phase: Phase::AwaitImport, ..s },
                        Some(Action::PostImport { url: l }),
                    ),
                    None => spec_fail(s, ConvertError::Deserialization),
                }
            },
            Event::TransportFailed => spec_fail(s, ConvertError::Network),
            _ => spec_fail(s, ConvertError::Deserialization),
        },
        Phase::AwaitBin { url } => match ev {
            Event::BinReply { status, body } => if status == 201 {
                (Session { phase: Phase::AwaitImport, ..s }, Some(Action::PostImport { url }))
            } else {
                spec_fail(s, ConvertError::HttpStatus { status, body })
            },
            Event::TransportFailed => spec_fail(s, ConvertError::Network),
            _ => spec_fail(s, ConvertError::Deserialization),
        },
        Phase::AwaitImport => match ev {
            Event::TaskReply(t) => (
                Session { phase: Phase::AwaitFirstPoll { task: t.id }, ..s },
                Some(Action::GetTask { id: t.id }),
            ),
            Event::TransportFailed => spec_fail(s, ConvertError::Network),
            _ => spec_fail(s, ConvertError::Deserialization),
        },
        Phase::AwaitFirstPoll { task } => match ev {
            Event::TaskReply(_) => (
                Session { phase: Phase::AwaitConvert, ..s },
                Some(
                    Action::PostConvert {
                        input: task,
                        input_format: s.input_format,
                        output_format: s.output_format,
                    },
                ),
            ),
            Event::TransportFailed => spec_fail(s, ConvertError::Network),
            _ => spec_fail(s, ConvertError::Deserialization),
        },
        Phase::AwaitConvert => match ev {
            Event::TaskReply(t) => (
                Session { phase: Phase::AwaitSecondPoll { task: t.id }, ..s },
                Some(Action::GetTask { id: t.id }),
            ),
            Event::TransportFailed => spec_fail(s, ConvertError::Network),
            _ => spec_fail(s, ConvertError::Deserialization),
        },
        Phase::AwaitSecondPoll { task } => match ev {
            Event::TaskReply(_) => (
                Session { phase: Phase::AwaitExport, ..s },
                Some(Action::PostExport { input: task }),
            ),
            Event::TransportFailed => spec_fail(s, ConvertError::Network),
            _ => spec_fail(s, ConvertError::Deserialization),
        },
        Phase::AwaitExport => match ev {
            Event::TaskReply(t) => (
                Session { phase: Phase::AwaitResult, ..s },
                Some(Action::GetExportResult { id: t.id }),
            ),
            Event::TransportFailed => spec_fail(s, ConvertError::Network),
            _ => spec_fail(s, ConvertError::Deserialization),
        },
        Phase::AwaitResult => match ev {
            Event::ExportReply(list) => if list.urls@.len() == 0 {
                spec_fail(s, ConvertError::EmptyResult)
            } else {
                (Session { phase: Phase::Done { url: list.urls@[0] }, ..s }, None)
            },
            Event::TransportFailed => spec_fail(s, ConvertError::Network),
            _ => spec_fail(s, ConvertError::Deserialization),
        },
        Phase::Done { .. } => (s, None),
        Phase::Failed { .. } => (s, None),
    }
}

impl Session {
    /// Begins a direct-to-vendor run: first request a presigned upload
    /// slot; the file then goes straight to the vendor, and the import
    /// step is skipped.
    pub fn start_direct(input_format: String, output_format: String) -> (r: (Session, Action))
        ensures
            r.0 == (Session { input_format, output_format, phase: Phase::AwaitSlot }),
            r.1 == Action::RequestUploadSlot,
    {
        (
            Session { input_format, output_format, phase: Phase::AwaitSlot },
            Action::RequestUploadSlot,
        )
    }

    /// Begins a run over the generic anonymous host: first post the
    /// file there; its reply carries the link the import will use.
    pub fn start_generic(host: String, input_format: String, output_format: String) -> (r: (
        Session,
        Action,
    ))
        ensures
            r.0 == (Session { input_format, output_format, phase: Phase::AwaitHost }),
            r.1 == (Action::PostFileToHost { url: host }),
    {
        (
            Session { input_format, output_format, phase: Phase::AwaitHost },
            Action::PostFileToHost { url: host },
        )
    }

    /// Begins a randomized-path run: the upload URL is built
    /// client-side from the host and two freshly drawn tokens, and the
    /// put is confirmed only by the host's status code.
    pub fn start_randomized(
        host: &str,
        token1: &str,
        token2: &str,
        input_format: String,
        output_format: String,
    ) -> (r: (Session, Action))
        requires
            is_token(token1@),
            is_token(token2@),
        ensures
            r.0.input_format == input_format,
            r.0.output_format == output_format,
            r.0.phase matches Phase::AwaitBin { url } && url@ == bin_url_of(
                host@,
                token1@,
                token2@,
            ),
            r.1 matches Action::PutFileAtPath { url } && url@ == bin_url_of(
                host@,
                token1@,
                token2@,
            ),
    {
        let url = bin_path_url(host, token1, token2);
        (
            Session { input_format, output_format, phase: Phase::AwaitBin { url: url.clone() } },
            Action::PutFileAtPath { url },
        )
    }

    /// Feeds the reply to the previously issued call into the run and
    /// returns the next call to issue, if any. The behaviour is
    /// exactly [`spec_step`].
    pub fn step(&mut self, ev: Event) -> (act: Option<Action>)
        ensures
            (*final(self), act) == spec_step(*old(self), ev),
    {
        let (new_phase, act): (Phase, Option<Action>) = match (&self.phase, ev) {
            (Phase::Done { .. }, _) => {
                return None;
            },
            (Phase::Failed { .. }, _) => {
                return None;
            },
            (Phase::AwaitSlot, Event::SlotReply(slot)) => match validate_slot(slot) {
                Err(e) => (Phase::Failed { error: e }, None),
                Ok((task, target)) => (
                    Phase::AwaitFormAck { task },
                    Some(Action::PostSignedForm { url: target.url, fields: target.fields }),
                ),
            },
            (Phase::AwaitFormAck { task }, Event::FormAck) => {
                let t = task.clone();
                (Phase::AwaitFirstPoll { task: t.clone() }, Some(Action::GetTask { id: t }))
            },
            (Phase::AwaitHost, Event::HostReply { status, link, body }) => {
                if status != 200 {
                    (Phase::Failed { error: ConvertError::HttpStatus { status, body } }, None)
                } else {
                    match link {
                        Some(l) => (Phase::AwaitImport, Some(Action::PostImport { url: l })),
                        None => (Phase::Failed { error: ConvertError::Deserialization }, None),
                    }
                }
            },
            (Phase::AwaitBin { url }, Event::BinReply { status, body }) => {
                if status == 201 {
                    (Phase::AwaitImport, Some(Action::PostImport { url: url.clone() }))
                } else {
                    (Phase::Failed { error: ConvertError::HttpStatus { status, body } }, None)
                }
            },
            (Phase::AwaitImport, Event::TaskReply(t)) => (
                Phase::AwaitFirstPoll { task: t.id.clone() },
                Some(Action::GetTask { id: t.id }),
            ),
            (Phase::AwaitFirstPoll { task }, Event::TaskReply(_)) => {
                let input = task.clone();
                (
                    Phase::AwaitConvert,
                    Some(
                        Action::PostConvert {
                            input,
                            input_format: self.input_format.clone(),
                            output_format: self.output_format.clone(),
                        },
                    ),
                )
            },
            (Phase::AwaitConvert, Event::TaskReply(t)) => (
                Phase::AwaitSecondPoll { task: t.id.clone() },
                Some(Action::GetTask { id: t.id }),
            ),
            (Phase::AwaitSecondPoll { task }, Event::TaskReply(_)) => {
                let input = task.clone();
                (Phase::AwaitExport, Some(Action::PostExport { input }))
            },
            (Phase::AwaitExport, Event::TaskReply(t)) => (
                Phase::AwaitResult,
                Some(Action::GetExportResult { id: t.id }),
            ),
            (Phase::AwaitResult, Event::ExportReply(list)) => match first_result_url(list) {
                Err(e) => (Phase::Failed { error: e }, None),
                Ok(u) => (Phase::Done { url: u }, None),
            },
            (_, Event::TransportFailed) => (
                Phase::Failed { error: ConvertError::Network },
                None,
            ),
            (_, _) => (Phase::Failed { error: ConvertError::Deserialization }, None),
        };
        self.phase = new_phase;
        act
    }

    /// Ends the run: the result URL when it reached `Done`, the error
    /// when it failed, and `None` when it is still under way.
    pub fn into_outcome(self) -> (r: Option<Result<String, ConvertError>>)
        ensures
            match self.phase {
                Phase::Done { url } => r == Some(Ok::<String, ConvertError>(url)),
                Phase::Failed { error } => r == Some(Err::<String, ConvertError>(error)),
                _ => r is None,
            },
    {
        match self.phase {
            Phase::Done { url } => Some(Ok(url)),
            Phase::Failed { error } => Some(Err(error)),
            _ => None,
        }
    }
}

/// The orchestrator issues its calls in exactly the workflow's order —
/// import, poll, convert, poll, export, export poll — and each call
/// uses the identifier returned by the call that produced it: the poll
/// replies' own identifiers are never picked up, and no identifier is
/// synthesized.
pub proof fn lemma_call_order(
    s0: Session,
    imp: Task,
    poll1: Task,
    conv: Task,
    poll2: Task,
    exp: Task,
    list: ExportList,
)
    requires
        s0.phase is AwaitImport,
        list.urls@.len() > 0,
    ensures
        ({
            let (s1, a1) = spec_step(s0, Event::TaskReply(imp));
            let (s2, a2) = spec_step(s1, Event::TaskReply(poll1));
            let (s3, a3) = spec_step(s2, Event::TaskReply(conv));
            let (s4, a4) = spec_step(s3, Event::TaskReply(poll2));
            let (s5, a5) = spec_step(s4, Event::TaskReply(exp));
            let (s6, a6) = spec_step(s5, Event::ExportReply(list));
            a1 == Some((Action::GetTask { id: imp.id })) && a2 == Some(
                (
                    Action::PostConvert {
                        input: imp.id,
                        input_format: s0.input_format,
                        output_format: s0.output_format,
                    }
                ),
            ) && a3 == Some((Action::GetTask { id: conv.id })) && a4 == Some(
                (Action::PostExport { input: conv.id }),
            ) && a5 == Some((Action::GetExportResult { id: exp.id })) && a6 is None
                && s6.phase == (Phase::Done { url: list.urls@[0] })
        }),
{
}

/// The direct-to-vendor transport threads the slot's task id through
/// the whole run: the file goes to the presigned destination with the
/// signed fields, no import call is made, and the first poll and the
/// conversion use the vendor task id from the slot reply unchanged.
pub proof fn lemma_direct_vendor_threading(s0: Session, slot: UploadSlot, poll: Task)
    requires
        s0.phase is AwaitSlot,
        spec_validate_slot(slot) is Ok,
    ensures
        ({
            let target = spec_validate_slot(slot)->Ok_0.1;
            let (s1, a1) = spec_step(s0, Event::SlotReply(slot));
            let (s2, a2) = spec_step(s1, Event::FormAck);
            let (s3, a3) = spec_step(s2, Event::TaskReply(poll));
            a1 == Some((Action::PostSignedForm { url: target.url, fields: target.fields }))
                && a2 == Some((Action::GetTask { id: slot.id })) && a3 == Some(
                (
                    Action::PostConvert {
                        input: slot.id,
                        input_format: s0.input_format,
                        output_format: s0.output_format,
                    }
                ),
            )
        }),
{
}

/// An empty export file list ends the run with the typed empty-result
/// error — never an out-of-bounds access — and issues no further call.
pub proof fn lemma_empty_export_is_typed_error(s: Session, list: ExportList)
    requires
        s.phase is AwaitResult,
        list.urls@.len() == 0,
    ensures
        spec_step(s, Event::ExportReply(list)).0.phase == (Phase::Failed {
            error: ConvertError::EmptyResult,
        }),
        spec_step(s, Event::ExportReply(list)).1 is None,
{
}

/// A non-success status from the generic upload host ends the run with
/// the status error and issues no call: nothing downstream is reached.
pub proof fn lemma_host_rejection_stops_flow(
    s: Session,
    status: u16,
    link: Option<String>,
    body: String,
)
    requires
        s.phase is AwaitHost,
        status != 200,
    ensures
        spec_step(s, Event::HostReply { status, link, body }).0.phase == (Phase::Failed {
            error: (ConvertError::HttpStatus { status, body }),
        }),
        spec_step(s, Event::HostReply { status, link, body }).1 is None,
{
}

/// A status other than Created from the bin-style host ends the run
/// with the status error and issues no call.
pub proof fn lemma_bin_rejection_stops_flow(s: Session, status: u16, body: String)
    requires
        s.phase is AwaitBin,
        status != 201,
    ensures
        spec_step(s, Event::BinReply { status, body }).0.phase == (Phase::Failed {
            error: (ConvertError::HttpStatus { status, body }),
        }),
        spec_step(s, Event::BinReply { status, body }).1 is None,
{
}

/// A finished run — succeeded or failed — absorbs every further event
/// and never issues another call: an upload error therefore comes
/// before any import, convert or export call is attempted.
pub proof fn lemma_terminal_phase_is_absorbing(s: Session, ev: Event)
    requires
        s.phase is Done || s.phase is Failed,
    ensures
        spec_step(s, ev) == (s, None::<Action>),
{
}

/// A presigned-upload reply whose `form` lacks the `url` key ends the
/// run with the missing-field error for `url`, and no multipart post
/// is issued.
pub proof fn lemma_missing_form_url_stops_upload(s: Session, slot: UploadSlot)
    requires
        s.phase is AwaitSlot,
        slot.form is Some,
        slot.form->0.url is None,
    ensures
        spec_step(s, Event::SlotReply(slot)).0.phase == (Phase::Failed {
            error: (ConvertError::MissingField { field: FieldName::Url }),
        }),
        spec_step(s, Event::SlotReply(slot)).1 is None,
{
}

} // verus!
