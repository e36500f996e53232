//! The one-shot commands of the command line: send a message to the chat,
//! or probe one service by identifier and report the verdict.

use vstd::prelude::*;
use vstd::string::*;
use crate::config::{CheckType, Config, State, StateView};
use crate::telegram::{alert_text, recovery_text, SendMessageRequest, TelegramClient};
use crate::text::{concat2, concat3, str_eq};

verus! {

/// What the command that sends a message does: the request to post, and
/// the line to print once it went through.
#[derive(Debug, PartialEq, Eq)]
pub struct TelegramCommand {
    pub request: SendMessageRequest,
    pub confirmation: &'static str,
}

/// Works out the message that the command line asks for. The type
/// `success` sends a recovery note and `error` an alert, both in the name
/// of `CLI`; any other type is refused.
pub fn handle_telegram_command(config: &Config, message_type: &str, message: &str) -> (r: Result<
    TelegramCommand,
    String,
>)
    ensures
        r is Ok <==> message_type@ == "success"@ || message_type@ == "error"@,
        message_type@ == "success"@ ==> (r matches Ok(command) && command.confirmation@
            == "Success message sent to Telegram"@ && command.request.carries(
            config.telegram_token@,
            config.telegram_chat_id,
            recovery_text("CLI"@, message@),
        )),
        message_type@ == "error"@ && message_type@ != "success"@ ==> (r matches Ok(command)
            && command.confirmation@ == "Error message sent to Telegram"@
            && command.request.carries(
            config.telegram_token@,
            config.telegram_chat_id,
            alert_text("CLI"@, message@),
        )),
        r matches Err(why) ==> why@ == "Invalid message type: "@ + message_type@,
{
    let telegram = TelegramClient::new(config.telegram_token.clone(), config.telegram_chat_id);
    if str_eq(message_type, "success") {
        Ok(
            TelegramCommand {
                request: telegram.send_recovery("CLI", message),
                confirmation: "Success message sent to Telegram",
            },
        )
    } else if str_eq(message_type, "error") {
        Ok(
            TelegramCommand {
                request: telegram.send_alert("CLI", message),
                confirmation: "Error message sent to Telegram",
            },
        )
    } else {
        Err(concat2("Invalid message type: ", message_type))
    }
}

/// What the command that probes a service starts with: the lines to print
/// and the probe to run.
#[derive(Debug, PartialEq, Eq)]
pub struct TestServiceCommand {
    pub lines: Vec<String>,
    pub check: CheckType,
}

/// The text that says that no service is stored under `id`.
pub open spec fn not_found_text(id: Seq<char>) -> Seq<char> {
    "Service with ID '"@ + id + "' not found"@
}

/// Looks up the service that the command line asks to probe. A service
/// that is stored under `id` is announced by name and description, with a
/// warning where it is disabled; an identifier that names no service is
/// reported as not found.
pub fn handle_test_service_command(config: &Config, id: &str) -> (r: Result<
    TestServiceCommand,
    String,
>)
    ensures
        r is Ok <==> config@.services.contains_key(id@),
        r matches Err(why) ==> why@ == not_found_text(id@),
        r matches Ok(command) ==> {
            let service = config@.services[id@];
            &&& command.check@ == service.check
            &&& command.lines@.len() == (if service.enabled {
                2int
            } else {
                3int
            })
            &&& command.lines@[0]@ == "Testing service: "@ + service.name
            &&& command.lines@[1]@ == "Description: "@ + service.description
            &&& !service.enabled ==> command.lines@[2]@
                == "Warning: Service is disabled in configuration"@
        },
{
    match config.service(id) {
        None => Err(concat3("Service with ID '", id, "' not found")),
        Some(service) => {
            let mut lines: Vec<String> = Vec::new();
            lines.push(concat2("Testing service: ", service.name.as_str()));
            lines.push(concat2("Description: ", service.description.as_str()));
            if !service.enabled {
                lines.push(String::from_str("Warning: Service is disabled in configuration"));
            }
            Ok(TestServiceCommand { lines, check: service.check.clone() })
        },
    }
}

/// The line that reports a verdict.
pub open spec fn report_text(state: StateView) -> Seq<char> {
    match state {
        StateView::Success => "✓ Service check PASSED"@,
        StateView::Failure(reason) => "✗ Service check FAILED: "@ + reason,
        StateView::Unknown => "? Service check returned UNKNOWN state"@,
    }
}

/// The exit status that reports a verdict. It is zero after a success, one
/// after a failure, two where the probe could not tell.
pub open spec fn exit_code(state: StateView) -> i32 {
    match state {
        StateView::Success => 0,
        StateView::Failure(_) => 1,
        StateView::Unknown => 2,
    }
}

/// The line to print for the verdict of a one-shot probe, and the exit
/// code of the process.
pub fn report(state: &State) -> (r: (String, i32))
    ensures
        r.0@ == report_text(state@),
        r.1 == exit_code(state@),
{
    match state {
        State::Success => (String::from_str("✓ Service check PASSED"), 0),
        State::Failure(reason) => (concat2("✗ Service check FAILED: ", reason.as_str()), 1),
        State::Unknown => (String::from_str("? Service check returned UNKNOWN state"), 2),
    }
}

} // verus!
