//! The wording of what is sent to the operators' Telegram chat, and the
//! reading of the answer. Sending itself is left to the caller.

use vstd::prelude::*;
use vstd::string::*;
use crate::record::{Notification, NotificationKind};
use crate::text::concat3;

verus! {

/// Where messages go: a bot and a chat.
#[derive(Debug, PartialEq, Eq)]
pub struct TelegramClient {
    pub bot_token: String,
    pub chat_id: i64,
}

/// One call of the bot API's `sendMessage`, ready to be posted to `url`.
#[derive(Debug, PartialEq, Eq)]
pub struct SendMessageRequest {
    pub url: String,
    pub chat_id: i64,
    pub text: String,
    pub parse_mode: Option<String>,
}

/// The address of `sendMessage` for the bot with the given token.
pub open spec fn endpoint(bot_token: Seq<char>) -> Seq<char> {
    "https://api.telegram.org/bot"@ + bot_token + "/sendMessage"@
}

/// The text of an alert about `service_name`.
pub open spec fn alert_text(service_name: Seq<char>, message: Seq<char>) -> Seq<char> {
    "🚨 <b>Alert: "@ + service_name + "</b>\n\n"@ + message
}

/// The text of a recovery note about `service_name`.
pub open spec fn recovery_text(service_name: Seq<char>, message: Seq<char>) -> Seq<char> {
    "✅ <b>Recovery: "@ + service_name + "</b>\n\n"@ + message
}

/// What the bot API is told when it did not accept a message.
pub open spec fn api_error_text(status_line: Seq<char>, detail: Seq<char>) -> Seq<char> {
    "Telegram API error: "@ + status_line + " - "@ + detail
}

/// The body of an answer, or the stock phrase where it could not be read.
pub open spec fn detail_of(body: Option<String>) -> Seq<char> {
    match body {
        Some(text) => text@,
        None => "Unknown error"@,
    }
}

impl SendMessageRequest {
    /// The request that carries `text` to the chat `chat_id` of the bot
    /// with the token `bot_token`, marked up as HTML.
    pub open spec fn carries(&self, bot_token: Seq<char>, chat_id: i64, text: Seq<char>) -> bool {
        &&& self.url@ == endpoint(bot_token)
        &&& self.chat_id == chat_id
        &&& self.text@ == text
        &&& self.parse_mode matches Some(mode)
        &&& mode@ == "HTML"@
    }
}

impl Clone for TelegramClient {
    fn clone(&self) -> (res: Self)
        ensures
            res == *self,
    {
        TelegramClient { bot_token: self.bot_token.clone(), chat_id: self.chat_id }
    }
}

impl TelegramClient {
    pub fn new(bot_token: String, chat_id: i64) -> (client: Self)
        ensures
            client.bot_token == bot_token,
            client.chat_id == chat_id,
    {
        TelegramClient { bot_token, chat_id }
    }

    /// The request that sends `text` to the chat.
    pub fn send_message(&self, text: &str) -> (request: SendMessageRequest)
        ensures
            request.carries(self.bot_token@, self.chat_id, text@),
    {
        SendMessageRequest {
            url: concat3(
                "https://api.telegram.org/bot",
                self.bot_token.as_str(),
                "/sendMessage",
            ),
            chat_id: self.chat_id,
            text: String::from_str(text),
            parse_mode: Some(String::from_str("HTML")),
        }
    }

    /// The request that alerts the chat about `service_name`.
    pub fn send_alert(&self, service_name: &str, message: &str) -> (request: SendMessageRequest)
        ensures
            request.carries(self.bot_token@, self.chat_id, alert_text(service_name@, message@)),
    {
        let mut text = concat3("🚨 <b>Alert: ", service_name, "</b>\n\n");
        text.append(message);
        self.send_message(text.as_str())
    }

    /// The request that tells the chat that `service_name` is back.
    pub fn send_recovery(&self, service_name: &str, message: &str) -> (request: SendMessageRequest)
        ensures
            request.carries(self.bot_token@, self.chat_id, recovery_text(service_name@, message@)),
    {
        let mut text = concat3("✅ <b>Recovery: ", service_name, "</b>\n\n");
        text.append(message);
        self.send_message(text.as_str())
    }

    /// The request that delivers a notification: a recovery note or an
    /// alert, by its kind.
    pub fn notify(&self, notification: &Notification) -> (request: SendMessageRequest)
        ensures
            notification.kind == NotificationKind::Recovery ==> request.carries(
                self.bot_token@,
                self.chat_id,
                recovery_text(notification.service_name@, notification.message@),
            ),
            notification.kind == NotificationKind::Alert ==> request.carries(
                self.bot_token@,
                self.chat_id,
                alert_text(notification.service_name@, notification.message@),
            ),
    {
        match notification.kind {
            NotificationKind::Recovery => self.send_recovery(
                notification.service_name.as_str(),
                notification.message.as_str(),
            ),
            NotificationKind::Alert => self.send_alert(
                notification.service_name.as_str(),
                notification.message.as_str(),
            ),
        }
    }

    /// Reads the answer to a request. A status from 200 to 299 means the
    /// message was accepted; any other is an error that quotes the status
    /// line and the body of the answer.
    pub fn delivery(status: u16, status_line: &str, body: Option<String>) -> (r: Result<(), String>)
        ensures
            r is Ok <==> 200 <= status < 300,
            r matches Err(text) ==> text@ == api_error_text(status_line@, detail_of(body)),
    {
        if 200 <= status && status < 300 {
            Ok(())
        } else {
            let mut text = concat3("Telegram API error: ", status_line, " - ");
            match &body {
                Some(detail) => text.append(detail.as_str()),
                None => text.append("Unknown error"),
            }
            Err(text)
        }
    }
}

} // verus!
