//! The replies of the file routes: download, upload and metadata.
use vstd::prelude::*;
use crate::json::{json_string, json_string_literal};
use crate::routes::general::{HttpReply, TaskOutcome, handle_common_ending, status_body, status_message};
use crate::text::{parse_usize_decimal, usize_decimal_value};

verus! {

/// How the task that fetched a file for download ended.
#[derive(Debug, Clone, PartialEq, Eq)]
pub enum DownloadOutcome {
    /// The handler handed over the file: it is streamed to the client.
    Ready,
    /// The handler failed with this error text.
    HandlerFailed(String),
    /// The task itself failed (it panicked or was cancelled).
    Crashed(String),
    /// The service was shut down first.
    ShutDown,
}

/// The body of a failed download: the text `{"status": "Error", "message": ..}`,
/// itself sent as a JSON string.
pub open spec fn download_error_body(message: Seq<char>) -> Seq<char> {
    json_string_literal(status_body("Error"@, message))
}

/// The reply to a download whose task has ended: none when the file is ready
/// (it is streamed with `200 OK`); `500` when the handler failed, `400` when
/// its task failed, and `503` when the service was shut down (`Service closed
/// forcefully`), each with the error body sent as a JSON string.
pub fn process_download_reply(outcome: DownloadOutcome) -> (reply: Option<HttpReply>)
    ensures
        match outcome {
            DownloadOutcome::Ready => reply is None,
            DownloadOutcome::HandlerFailed(e) => reply matches Some(r) && r.status == 500
                && r.body@ == download_error_body(e@),
            DownloadOutcome::Crashed(e) => reply matches Some(r) && r.status == 400 && r.body@
                == download_error_body(e@),
            DownloadOutcome::ShutDown => reply matches Some(r) && r.status == 503 && r.body@
                == download_error_body("Service closed forcefully"@),
        },
{
    match outcome {
        DownloadOutcome::Ready => None,
        DownloadOutcome::HandlerFailed(e) => {
            let text = status_message("Error", e);
            Some(HttpReply { status: 500, body: json_string(text.as_str()) })
        },
        DownloadOutcome::Crashed(e) => {
            let text = status_message("Error", e);
            Some(HttpReply { status: 400, body: json_string(text.as_str()) })
        },
        DownloadOutcome::ShutDown => {
            let text = status_message("Error", String::from_str("Service closed forcefully"));
            Some(HttpReply { status: 503, body: json_string(text.as_str()) })
        },
    }
}

/// The size an upload announces in its `Approximate-Size` header, or the
/// `400 Bad Request` reply (`{"status": "Error", "message": "Upload request
/// requires the Approximate-Size header"}`) when the header is missing. A
/// header that is not a decimal `usize` is refused by the caller.
pub fn approximate_size(header: Option<&str>) -> (size: Result<usize, HttpReply>)
    requires
        match header {
            Some(h) => usize_decimal_value(h@) is Some,
            None => true,
        },
    ensures
        match header {
            Some(h) => size matches Ok(n) && usize_decimal_value(h@) == Some(n as nat),
            None => size matches Err(r) && r.status == 400 && r.body@ == status_body(
                "Error"@,
                "Upload request requires the Approximate-Size header"@,
            ),
        },
{
    match header {
        Some(h) => match parse_usize_decimal(h) {
            Some(n) => Ok(n),
            None => Err(
                HttpReply {
                    status: 400,
                    body: status_message(
                        "Error",
                        String::from_str("Upload request requires the Approximate-Size header"),
                    ),
                },
            ),
        },
        None => Err(
            HttpReply {
                status: 400,
                body: status_message(
                    "Error",
                    String::from_str("Upload request requires the Approximate-Size header"),
                ),
            },
        ),
    }
}

/// The reply to an upload whose stream stalled: `408 Request Timeout` with
/// `{"status": "Error", "message": "Stream read timed out"}`.
pub fn upload_timeout_reply() -> (reply: HttpReply)
    ensures
        reply.status == 408,
        reply.body@ == status_body("Error"@, "Stream read timed out"@),
{
    HttpReply { status: 408, body: status_message("Error", String::from_str("Stream read timed out")) }
}

/// The reply to an upload or a metadata request once its task has ended: as
/// `handle_common_ending`, except that a shutdown is answered with
/// `503 Service Unavailable` (`{"status": "Error", "message": "Service closed
/// forcefully"}`).
pub fn handle_file_ending(outcome: TaskOutcome) -> (reply: HttpReply)
    ensures
        match outcome {
            TaskOutcome::Finished(Ok(answer)) => reply.status == 200 && reply.body@ == status_body(
                "Ok"@,
                answer@,
            ),
            TaskOutcome::Finished(Err(e)) => reply.status == 500 && reply.body@ == status_body(
                "Error"@,
                e@,
            ),
            TaskOutcome::Crashed(e) => reply.status == 500 && reply.body@ == status_body(
                "Error"@,
                e@,
            ),
            TaskOutcome::ShutDown => reply.status == 503 && reply.body@ == status_body(
                "Error"@,
                "Service closed forcefully"@,
            ),
        },
{
    match outcome {
        TaskOutcome::ShutDown => HttpReply {
            status: 503,
            body: status_message("Error", String::from_str("Service closed forcefully")),
        },
        other => handle_common_ending(other),
    }
}

} // verus!
