//! End-to-end runs of the conversion workflow state machine.

use cloudconv::errors::ConvertError;
use cloudconv::orchestrator::{Action, Event, Phase, Session};
use cloudconv::protocol::{ExportList, Task, UploadForm, UploadParams, UploadSlot};

fn s(x: &str) -> String {
    x.to_string()
}

fn task(id: &str) -> Task {
    Task { id: s(id), status: s("finished") }
}

fn full_slot() -> UploadSlot {
    UploadSlot {
        id: s("vendor-task-9"),
        form: Some(UploadForm {
            url: Some(s("https://bucket.example/upload")),
            parameters: Some(UploadParams {
                key: Some(s("uploads/abc")),
                acl: Some(s("private")),
                amz_algorithm: Some(s("AWS4-HMAC-SHA256")),
                amz_credential: Some(s("cred/20200101")),
                amz_date: Some(s("20200101T000000Z")),
                amz_signature: Some(s("sig")),
                policy: Some(s("cG9saWN5")),
                success_action_status: Some(s("201")),
            }),
        }),
    }
}

#[test]
fn round_trip_generic_host() {
    let (mut sess, first) = Session::start_generic(
        s("https://files.example/upload"),
        s("docx"),
        s("pdf"),
    );
    assert_eq!(first, Action::PostFileToHost { url: s("https://files.example/upload") });

    let act = sess.step(Event::HostReply {
        status: 200,
        link: Some(s("https://files.example/f/abc")),
        body: s("{\"link\":\"https://files.example/f/abc\"}"),
    });
    assert_eq!(act, Some(Action::PostImport { url: s("https://files.example/f/abc") }));

    let act = sess.step(Event::TaskReply(task("t1")));
    assert_eq!(act, Some(Action::GetTask { id: s("t1") }));

    // The poll reply's own id must not be picked up: t1 stays the input.
    let act = sess.step(Event::TaskReply(task("stale-poll-id")));
    assert_eq!(
        act,
        Some(Action::PostConvert {
            input: s("t1"),
            input_format: s("docx"),
            output_format: s("pdf"),
        })
    );

    let act = sess.step(Event::TaskReply(task("t2")));
    assert_eq!(act, Some(Action::GetTask { id: s("t2") }));

    let act = sess.step(Event::TaskReply(task("another-stale-id")));
    assert_eq!(act, Some(Action::PostExport { input: s("t2") }));

    let act = sess.step(Event::TaskReply(task("t3")));
    assert_eq!(act, Some(Action::GetExportResult { id: s("t3") }));

    let act = sess.step(Event::ExportReply(ExportList {
        urls: vec![s("https://host/out.pdf")],
    }));
    assert_eq!(act, None);
    assert_eq!(sess.into_outcome(), Some(Ok(s("https://host/out.pdf"))));
}

#[test]
fn direct_vendor_flow_skips_import() {
    let (mut sess, first) = Session::start_direct(s("md"), s("html"));
    assert_eq!(first, Action::RequestUploadSlot);

    let act = sess.step(Event::SlotReply(full_slot()));
    match act {
        Some(Action::PostSignedForm { url, fields }) => {
            assert_eq!(url, s("https://bucket.example/upload"));
            assert_eq!(fields.key, s("uploads/abc"));
            assert_eq!(fields.success_action_status, s("201"));
        }
        other => panic!("expected the signed multipart post, got {:?}", other),
    }

    // After the form is posted, the vendor task id goes straight to the
    // first poll: no import call for the direct transport.
    let act = sess.step(Event::FormAck);
    assert_eq!(act, Some(Action::GetTask { id: s("vendor-task-9") }));

    let act = sess.step(Event::TaskReply(task("poll-echo")));
    assert_eq!(
        act,
        Some(Action::PostConvert {
            input: s("vendor-task-9"),
            input_format: s("md"),
            output_format: s("html"),
        })
    );
}

#[test]
fn empty_export_gives_typed_error() {
    let mut sess = Session {
        input_format: s("docx"),
        output_format: s("pdf"),
        phase: Phase::AwaitResult,
    };
    let act = sess.step(Event::ExportReply(ExportList { urls: vec![] }));
    assert_eq!(act, None);
    assert_eq!(sess.into_outcome(), Some(Err(ConvertError::EmptyResult)));
}

#[test]
fn host_rejection_stops_flow() {
    let (mut sess, _) = Session::start_generic(s("https://files.example/upload"), s("a"), s("b"));
    let act = sess.step(Event::HostReply { status: 500, link: None, body: s("oops") });
    assert_eq!(act, None);
    // Once failed, no later event can make the run issue a call.
    let act = sess.step(Event::TaskReply(task("t1")));
    assert_eq!(act, None);
    assert_eq!(
        sess.into_outcome(),
        Some(Err(ConvertError::HttpStatus { status: 500, body: s("oops") }))
    );
}

#[test]
fn bin_rejection_stops_flow() {
    let (mut sess, _) = Session::start_randomized(
        "https://bin.example",
        "aaaaaaaaaaaaaa",
        "bbbbbbbbbbbbbb",
        s("a"),
        s("b"),
    );
    let act = sess.step(Event::BinReply { status: 403, body: s("forbidden") });
    assert_eq!(act, None);
    assert_eq!(
        sess.into_outcome(),
        Some(Err(ConvertError::HttpStatus { status: 403, body: s("forbidden") }))
    );
}

#[test]
fn bin_acceptance_imports_constructed_url() {
    let (mut sess, first) = Session::start_randomized(
        "https://bin.example",
        "ABCDEFGHIJKLMN",
        "abcdefghijklm0",
        s("a"),
        s("b"),
    );
    let constructed = s("https://bin.example/ABCDEFGHIJKLMN/abcdefghijklm0");
    assert_eq!(first, Action::PutFileAtPath { url: constructed.clone() });
    let act = sess.step(Event::BinReply { status: 201, body: s("") });
    assert_eq!(act, Some(Action::PostImport { url: constructed }));
}

#[test]
fn host_success_without_link_is_deserialization() {
    let (mut sess, _) = Session::start_generic(s("https://files.example/upload"), s("a"), s("b"));
    let act = sess.step(Event::HostReply { status: 200, link: None, body: s("{}") });
    assert_eq!(act, None);
    assert_eq!(sess.into_outcome(), Some(Err(ConvertError::Deserialization)));
}

#[test]
fn network_failure_fails_run() {
    let mut sess = Session {
        input_format: s("docx"),
        output_format: s("pdf"),
        phase: Phase::AwaitImport,
    };
    let act = sess.step(Event::TransportFailed);
    assert_eq!(act, None);
    assert_eq!(sess.into_outcome(), Some(Err(ConvertError::Network)));
}

#[test]
fn malformed_reply_fails_run() {
    let mut sess = Session {
        input_format: s("docx"),
        output_format: s("pdf"),
        phase: Phase::AwaitConvert,
    };
    let act = sess.step(Event::MalformedReply);
    assert_eq!(act, None);
    assert_eq!(sess.into_outcome(), Some(Err(ConvertError::Deserialization)));
}

#[test]
fn mismatched_reply_kind_fails_run() {
    let mut sess = Session {
        input_format: s("docx"),
        output_format: s("pdf"),
        phase: Phase::AwaitImport,
    };
    let act = sess.step(Event::ExportReply(ExportList { urls: vec![s("https://x/y")] }));
    assert_eq!(act, None);
    assert_eq!(sess.into_outcome(), Some(Err(ConvertError::Deserialization)));
}

#[test]
fn unfinished_run_has_no_outcome() {
    let (sess, _) = Session::start_direct(s("a"), s("b"));
    assert_eq!(sess.into_outcome(), None);
}
