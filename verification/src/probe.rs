//! A plain monitor of one URL: it counts successes and failures of a
//! repeated fetch and decides when a message about them is due.

use vstd::prelude::*;
use vstd::string::*;
use crate::text::{concat2, decimal, decimal_string};

verus! {

/// The settings of the plain monitor.
#[derive(Debug, PartialEq, Eq)]
pub struct UrlConfig {
    pub telegram_token: String,
    pub telegram_chat_id: i64,
    /// Milliseconds to wait after a fetch that calls for no message.
    pub check_interval_success: u64,
    /// Milliseconds to wait after a fetch that calls for a message.
    pub check_interval_fail: u64,
    /// The count of failures in a row at which a message is sent.
    pub notify_failures: u64,
    /// A message is also sent whenever the count of failures in a row is
    /// a multiple of this.
    pub rereport: u64,
    pub addresses: Vec<String>,
}

/// What one fetch of the URL came back with.
#[derive(Debug, PartialEq, Eq)]
pub enum Fetch {
    /// A response, with its status code and its status line.
    Response { status: u16, status_line: String },
    /// No response; the text says why.
    Failed(String),
}

/// The counters of the monitor of one URL.
#[derive(Debug, PartialEq, Eq)]
pub struct UrlMonitor {
    pub url: String,
    pub number_of_fail: u64,
    pub number_of_success: u64,
    pub fail_in_row: u64,
}

/// What the monitor does after a fetch.
#[derive(Debug, PartialEq, Eq)]
pub struct UrlStep {
    /// What there is to say about the fetch, if anything.
    pub message: Option<String>,
    /// Whether the message is to be sent to the chat.
    pub send: bool,
    /// How long to sleep before the next fetch, in milliseconds.
    pub sleep_ms: u64,
}

/// Whether `url::Url::parse`, which `reqwest` hands on as `reqwest::Url`,
/// accepts the text as an absolute URL.
pub uninterp spec fn is_url(text: Seq<char>) -> bool;

/// Asks `reqwest::Url::parse` whether `text` is an absolute URL. The parser
/// works on the text alone; the contract names its answer and claims
/// nothing else of it.
#[verifier::external_body]
fn parses_as_url(text: &str) -> (b: bool)
    ensures
        b == is_url(text@),
{
    reqwest::Url::parse(text).is_ok()
}

/// The tail that every message about a failure ends with.
pub open spec fn tally_text(failures: nat, successes: nat) -> Seq<char> {
    ", failures: "@ + decimal(failures) + ", succes: "@ + decimal(successes)
}

/// Whether a fetch counts as healthy: a response with status 200.
pub open spec fn healthy(fetch: Fetch) -> bool {
    fetch matches Fetch::Response { status, .. } && status == 200
}

impl UrlMonitor {
    /// The counters after `fetch`.
    pub open spec fn after(self, fetch: Fetch) -> UrlMonitor {
        if healthy(fetch) {
            UrlMonitor {
                number_of_success: (self.number_of_success + 1) as u64,
                fail_in_row: 0,
                ..self
            }
        } else {
            UrlMonitor {
                number_of_fail: (self.number_of_fail + 1) as u64,
                fail_in_row: (self.fail_in_row + 1) as u64,
                ..self
            }
        }
    }

    /// What there is to say about `fetch`: nothing about a healthy one
    /// that follows no failure, the recovery after failures, and otherwise
    /// the status line or the error with the counts so far.
    pub open spec fn message_text(self, fetch: Fetch) -> Option<Seq<char>> {
        match fetch {
            Fetch::Response { status, status_line } => if status == 200 {
                if self.fail_in_row > 0 {
                    Some(self.url@ + " Recovered"@)
                } else {
                    None
                }
            } else {
                Some(
                    self.url@ + ": status "@ + status_line@ + tally_text(
                        (self.number_of_fail + 1) as nat,
                        self.number_of_success as nat,
                    ),
                )
            },
            Fetch::Failed(why) => Some(
                self.url@ + ": "@ + why@ + tally_text(
                    (self.number_of_fail + 1) as nat,
                    self.number_of_success as nat,
                ),
            ),
        }
    }

    /// Whether the message about `fetch` is sent: there is one, and the
    /// count of failures in a row after the fetch has reached the
    /// threshold or is a multiple of the repeat interval.
    pub open spec fn sends(self, fetch: Fetch, config: UrlConfig) -> bool {
        let row = self.after(fetch).fail_in_row;
        self.message_text(fetch) is Some && (row == config.notify_failures || row as int % (
        config.rereport as int) == 0)
    }

    /// The monitor of `url`, with all counters at zero; none where `url`
    /// is no absolute URL.
    pub fn new(url: &str) -> (r: Option<UrlMonitor>)
        ensures
            r is Some <==> is_url(url@),
            r matches Some(m) ==> m.url@ == url@ && m.number_of_fail == 0 && m.number_of_success
                == 0 && m.fail_in_row == 0,
    {
        if parses_as_url(url) {
            Some(
                UrlMonitor {
                    url: String::from_str(url),
                    number_of_fail: 0,
                    number_of_success: 0,
                    fail_in_row: 0,
                },
            )
        } else {
            None
        }
    }

    fn tally(&self) -> (s: String)
        ensures
            s@ == tally_text(self.number_of_fail as nat, self.number_of_success as nat),
    {
        let failures = decimal_string(self.number_of_fail);
        let successes = decimal_string(self.number_of_success);
        let mut s = concat2(", failures: ", failures.as_str());
        s.append(", succes: ");
        s.append(successes.as_str());
        s
    }

    /// Counts one fetch and says what to do next: the message about it,
    /// whether to send it, and how long to sleep, which is the failure
    /// interval whenever there is a message.
    pub fn check(&mut self, fetch: Fetch, config: &UrlConfig) -> (step: UrlStep)
        requires
            config.rereport > 0,
            old(self).number_of_fail < u64::MAX,
            old(self).number_of_success < u64::MAX,
            old(self).fail_in_row < u64::MAX,
        ensures
            *final(self) == old(self).after(fetch),
            crate::config::text_view(step.message) == old(self).message_text(fetch),
            step.send == old(self).sends(fetch, *config),
            step.sleep_ms == (if step.message is Some {
                config.check_interval_fail
            } else {
                config.check_interval_success
            }),
    {
        let message = match &fetch {
            Fetch::Response { status, status_line } => {
                if *status == 200 {
                    self.number_of_success = self.number_of_success + 1;
                    if self.fail_in_row > 0 {
                        self.fail_in_row = 0;
                        Some(concat2(self.url.as_str(), " Recovered"))
                    } else {
                        None
                    }
                } else {
                    self.number_of_fail = self.number_of_fail + 1;
                    self.fail_in_row = self.fail_in_row + 1;
                    let mut text = concat2(self.url.as_str(), ": status ");
                    text.append(status_line.as_str());
                    text.append(self.tally().as_str());
                    Some(text)
                }
            },
            Fetch::Failed(why) => {
                self.number_of_fail = self.number_of_fail + 1;
                self.fail_in_row = self.fail_in_row + 1;
                let mut text = concat2(self.url.as_str(), ": ");
                text.append(why.as_str());
                text.append(self.tally().as_str());
                Some(text)
            },
        };
        match message {
            None => UrlStep { message: None, send: false, sleep_ms: config.check_interval_success },
            Some(text) => {
                let send = self.fail_in_row == config.notify_failures || self.fail_in_row
                    % config.rereport == 0;
                UrlStep { message: Some(text), send, sleep_ms: config.check_interval_fail }
            },
        }
    }
}

} // verus!
