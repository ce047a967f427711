//! The replies of the general routes: a handler request, the shutdown call and
//! the fallback for unknown routes.
use vstd::prelude::*;
use crate::json::{json_object_of_strings, json_object_text, pair_views};

verus! {

/// An HTTP reply: its status code and its body.
#[derive(Debug, Clone, PartialEq, Eq)]
pub struct HttpReply {
    pub status: u16,
    pub body: String,
}

/// The body `{"status": status, "message": message}`.
pub open spec fn status_body(status: Seq<char>, message: Seq<char>) -> Seq<char> {
    json_object_text(seq![("status"@, status), ("message"@, message)])
}

/// Prints the body `{"status": status, "message": message}`.
pub fn status_message(status: &str, message: String) -> (body: String)
    ensures
        body@ == status_body(status@, message@),
{
    let members = vec![
        (String::from_str("status"), status.to_owned()),
        (String::from_str("message"), message),
    ];
    let ghost fields = seq![("status"@, status@), ("message"@, members@[1].1@)];
    assert(pair_views(members@) =~= fields);
    json_object_of_strings(&members)
}

/// The reply to a route that does not exist: `401 Unauthorized` with
/// `{"message": "Unauthorized: Access is denied"}`.
pub fn unauthorized() -> (reply: HttpReply)
    ensures
        reply.status == 401,
        reply.body@ == json_object_text(
            seq![("message"@, "Unauthorized: Access is denied"@)],
        ),
{
    let members = vec![
        (String::from_str("message"), String::from_str("Unauthorized: Access is denied")),
    ];
    assert(pair_views(members@) =~= seq![("message"@, "Unauthorized: Access is denied"@)]);
    HttpReply { status: 401, body: json_object_of_strings(&members) }
}

/// The reply to the shutdown call: `200 OK` with `{"status": "Shutting down"}`.
pub fn shutdown_reply() -> (reply: HttpReply)
    ensures
        reply.status == 200,
        reply.body@ == json_object_text(seq![("status"@, "Shutting down"@)]),
{
    let members = vec![(String::from_str("status"), String::from_str("Shutting down"))];
    assert(pair_views(members@) =~= seq![("status"@, "Shutting down"@)]);
    HttpReply { status: 200, body: json_object_of_strings(&members) }
}

/// How the task that ran a handler for a request ended.
#[derive(Debug, PartialEq, Eq)]
pub enum TaskOutcome {
    /// The handler returned: its answer, or the text of its error.
    Finished(Result<String, String>),
    /// The task itself failed (it panicked or was cancelled); the text of the
    /// failure.
    Crashed(String),
    /// The service was shut down before the task ended.
    ShutDown,
}

/// The reply to a request once its task has ended: `200 OK` with
/// `{"status": "Ok", "message": answer}` when the handler answered, and
/// `500 Internal Server Error` with `{"status": "Error", "message": ..}` when
/// the handler or its task failed, or the service was shut down
/// (`Service closed forcefully`).
pub fn handle_common_ending(outcome: TaskOutcome) -> (reply: HttpReply)
    ensures
        match outcome {
            TaskOutcome::Finished(Ok(answer)) => reply.status == 200 && reply.body@ == status_body(
                "Ok"@,
                answer@,
            ),
            TaskOutcome::Finished(Err(e)) => reply.status == 500 && reply.body@ == status_body(
                "Error"@,
                e@,
            ),
            TaskOutcome::Crashed(e) => reply.status == 500 && reply.body@ == status_body(
                "Error"@,
                e@,
            ),
            TaskOutcome::ShutDown => reply.status == 500 && reply.body@ == status_body(
                "Error"@,
                "Service closed forcefully"@,
            ),
        },
{
    match outcome {
        TaskOutcome::Finished(Ok(answer)) => HttpReply {
            status: 200,
            body: status_message("Ok", answer),
        },
        TaskOutcome::Finished(Err(e)) => HttpReply { status: 500, body: status_message("Error", e) },
        TaskOutcome::Crashed(e) => HttpReply { status: 500, body: status_message("Error", e) },
        TaskOutcome::ShutDown => HttpReply {
            status: 500,
            body: status_message("Error", String::from_str("Service closed forcefully")),
        },
    }
}

/// The reply to a request for a handler that is not registered:
/// `404 Not Found` with `{"status": "error", "message": "Handler not found: <name>"}`.
pub fn handler_not_found(name: &str) -> (reply: HttpReply)
    ensures
        reply.status == 404,
        reply.body@ == status_body("error"@, "Handler not found: "@ + name@),
{
    let mut message = String::from_str("Handler not found: ");
    message.append(name);
    HttpReply { status: 404, body: status_message("error", message) }
}

} // verus!
