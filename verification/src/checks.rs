//! The verdicts of the three probes. A probe itself talks to the network;
//! what it observed comes in here as a value, and the verdict is a function
//! of that value and of the probe's parameters.

use vstd::prelude::*;
use vstd::string::*;
use crate::config::{ServiceCertificate, ServiceHttp, ServiceTcpPing, State, StateView};
use crate::text::{concat2, concat3, decimal, decimal_string};
use crate::time::Timestamp;

verus! {

/// The view of a result that carries an error text.
pub open spec fn result_view<T>(r: Result<T, String>) -> Result<T, Seq<char>> {
    match r {
        Ok(t) => Ok(t),
        Err(e) => Err(e@),
    }
}

/// The text `host:port`.
pub open spec fn address_text(host: Seq<char>, port: u16) -> Seq<char> {
    host + ":"@ + decimal(port as nat)
}

fn address_of(host: &str, port: u16) -> (s: String)
    ensures
        s@ == address_text(host@, port),
{
    let digits = decimal_string(port as u64);
    concat3(host, ":", digits.as_str())
}

/// The verdict of an HTTP probe that expects `expected` (200 where absent)
/// on the response `response`: the status received, or the text of the
/// transport error.
pub open spec fn http_verdict(expected: Option<u16>, response: Result<u16, Seq<char>>) -> StateView {
    match response {
        Ok(status) => if status == (match expected {
            Some(e) => e,
            None => 200u16,
        }) {
            StateView::Success
        } else {
            StateView::Failure("Unexpected status: "@ + decimal(status as nat))
        },
        Err(why) => StateView::Failure("Request failed: "@ + why),
    }
}

impl ServiceHttp {
    /// The verdict on what a request to `url` came back with.
    pub fn check(&self, response: Result<u16, String>) -> (state: State)
        ensures
            state@ == http_verdict(self.expected_status, result_view(response)),
            state@ is Success <==> response is Ok && response->Ok_0 == (match self.expected_status {
                Some(e) => e,
                None => 200u16,
            }),
            !(state@ is Unknown),
    {
        match response {
            Ok(status) => {
                let expected = match self.expected_status {
                    Some(e) => e,
                    None => 200,
                };
                if status == expected {
                    State::Success
                } else {
                    let digits = decimal_string(status as u64);
                    State::Failure(concat2("Unexpected status: ", digits.as_str()))
                }
            },
            Err(why) => State::Failure(concat2("Request failed: ", why.as_str())),
        }
    }
}

/// How far an attempt to fetch the certificate of a peer got.
#[derive(Debug, PartialEq, Eq)]
pub enum TlsProbe {
    /// The TCP connection failed.
    ConnectFailed(String),
    /// No TLS connector could be made.
    ConnectorFailed(String),
    /// The TLS handshake failed.
    HandshakeFailed(String),
    /// The handshake succeeded and the peer presented no certificate.
    NoPeerCertificate,
    /// The certificate of the peer could not be read.
    PeerCertificateFailed(String),
    /// The certificate of the peer, in DER.
    Certificate(Vec<u8>),
}

/// The whole days in the span from `from` to `to`, both in seconds since
/// the epoch and `from` no later than `to`.
pub open spec fn whole_days(from: int, to: int) -> int {
    (to - from) / 86400
}

/// The days of validity that a probe asks for: `threshold`, 30 where absent.
pub open spec fn days_asked(threshold: Option<u64>) -> u64 {
    match threshold {
        Some(t) => t,
        None => 30u64,
    }
}

/// The verdict on a certificate that expires at `not_after`, seen at
/// `now`, when `threshold` days of validity are asked for. A certificate
/// whose expiry has passed fails, however short the time since and
/// whatever is asked for; one that is still valid fails where the whole
/// days left are fewer than asked for.
pub open spec fn expiry_verdict(threshold: Option<u64>, not_after: i64, now: i64) -> StateView {
    if not_after < now {
        StateView::Failure(
            "Certificate expired "@ + decimal(whole_days(not_after as int, now as int) as nat)
                + " days ago"@,
        )
    } else if whole_days(now as int, not_after as int) < days_asked(threshold) {
        StateView::Failure(
            "Certificate expires in "@ + decimal(whole_days(now as int, not_after as int) as nat)
                + " days (threshold: "@ + decimal(days_asked(threshold) as nat) + " days)"@,
        )
    } else {
        StateView::Success
    }
}

/// The verdict on a certificate by what parsing it gave: its expiry time,
/// or the text of the parse error.
pub open spec fn parsed_verdict(
    threshold: Option<u64>,
    parsed: Result<i64, Seq<char>>,
    now: i64,
) -> StateView {
    match parsed {
        Ok(not_after) => expiry_verdict(threshold, not_after, now),
        Err(why) => StateView::Failure("Failed to parse certificate: "@ + why),
    }
}

/// The verdict of a certificate probe that got as far as `probe`, where
/// `parsed` is what parsing the certificate gives.
pub open spec fn certificate_verdict(
    threshold: Option<u64>,
    probe: TlsProbe,
    parsed: Result<i64, Seq<char>>,
    now: i64,
) -> StateView {
    match probe {
        TlsProbe::ConnectFailed(why) => StateView::Failure("TCP connection failed: "@ + why@),
        TlsProbe::ConnectorFailed(why) => StateView::Failure(
            "Failed to create TLS connector: "@ + why@,
        ),
        TlsProbe::HandshakeFailed(why) => StateView::Failure("TLS handshake failed: "@ + why@),
        TlsProbe::NoPeerCertificate => StateView::Failure("No peer certificate found"@),
        TlsProbe::PeerCertificateFailed(why) => StateView::Failure(
            "Failed to get peer certificate: "@ + why@,
        ),
        TlsProbe::Certificate(_) => parsed_verdict(threshold, parsed, now),
    }
}

/// The DER bytes that a probe holds; none where it holds no certificate.
pub open spec fn der_of(probe: TlsProbe) -> Seq<u8> {
    match probe {
        TlsProbe::Certificate(der) => der@,
        _ => Seq::empty(),
    }
}

/// What `x509_parser::parse_x509_certificate` makes of the DER bytes `der`:
/// the `not_after` of the certificate's validity as a Unix timestamp, or the
/// text of the parser's error.
pub uninterp spec fn x509_not_after(der: Seq<u8>) -> Result<i64, Seq<char>>;

/// Parses a DER certificate with `x509_parser::parse_x509_certificate` and
/// reads `validity().not_after.timestamp()` off it; an error of the parser
/// is handed on as its display text. The parser works on the bytes alone,
/// so the contract names the result and claims nothing else of it.
#[verifier::external_body]
fn parse_not_after(der: &[u8]) -> (r: Result<i64, String>)
    ensures
        result_view(r) == x509_not_after(der@),
{
    match x509_parser::parse_x509_certificate(der) {
        Ok((_, certificate)) => Ok(certificate.validity().not_after.timestamp()),
        Err(e) => Err(format!("{}", e)),
    }
}

impl ServiceCertificate {
    /// The address that the probe connects to.
    pub fn address(&self) -> (s: String)
        ensures
            s@ == address_text(self.host@, self.port),
    {
        address_of(self.host.as_str(), self.port)
    }

    /// The verdict on a certificate that expires at `not_after`, seen at
    /// `now`; both are seconds since the epoch.
    pub fn expiry_state(&self, not_after: i64, now: i64) -> (state: State)
        ensures
            state@ == expiry_verdict(self.days_before_expiry, not_after, now),
            state@ is Success <==> not_after >= now && whole_days(now as int, not_after as int)
                >= days_asked(self.days_before_expiry),
            not_after < now ==> state@ is Failure,
            !(state@ is Unknown),
    {
        let asked: u64 = match self.days_before_expiry {
            Some(t) => t,
            None => 30,
        };
        if not_after < now {
            let ago: u64 = (now as i128 - not_after as i128) as u64 / 86400;
            let digits = decimal_string(ago);
            return State::Failure(concat3("Certificate expired ", digits.as_str(), " days ago"));
        }
        let days: u64 = (not_after as i128 - now as i128) as u64 / 86400;
        if days < asked {
            let left = decimal_string(days);
            let wanted = decimal_string(asked);
            let mut text = concat3("Certificate expires in ", left.as_str(), " days (threshold: ");
            text.append(wanted.as_str());
            text.append(" days)");
            State::Failure(text)
        } else {
            State::Success
        }
    }

    /// The verdict on a certificate by what parsing it gave.
    pub fn certificate_state(&self, parsed: Result<i64, String>, now: i64) -> (state: State)
        ensures
            state@ == parsed_verdict(self.days_before_expiry, result_view(parsed), now),
            state@ is Success <==> (parsed matches Ok(not_after) && not_after >= now && whole_days(
                now as int,
                not_after as int,
            ) >= days_asked(self.days_before_expiry)),
            !(state@ is Unknown),
    {
        match parsed {
            Ok(not_after) => self.expiry_state(not_after, now),
            Err(why) => State::Failure(concat2("Failed to parse certificate: ", why.as_str())),
        }
    }

    /// The verdict of a probe that got as far as `probe`, seen at `now`
    /// seconds since the epoch.
    pub fn check_certificate(&self, probe: TlsProbe, now: i64) -> (state: State)
        ensures
            state@ == certificate_verdict(
                self.days_before_expiry,
                probe,
                x509_not_after(der_of(probe)),
                now,
            ),
            !(state@ is Unknown),
            state@ is Success ==> probe is Certificate,
    {
        match probe {
            TlsProbe::ConnectFailed(why) => State::Failure(
                concat2("TCP connection failed: ", why.as_str()),
            ),
            TlsProbe::ConnectorFailed(why) => State::Failure(
                concat2("Failed to create TLS connector: ", why.as_str()),
            ),
            TlsProbe::HandshakeFailed(why) => State::Failure(
                concat2("TLS handshake failed: ", why.as_str()),
            ),
            TlsProbe::NoPeerCertificate => State::Failure(
                String::from_str("No peer certificate found"),
            ),
            TlsProbe::PeerCertificateFailed(why) => State::Failure(
                concat2("Failed to get peer certificate: ", why.as_str()),
            ),
            TlsProbe::Certificate(der) => {
                let parsed = parse_not_after(der.as_slice());
                self.certificate_state(parsed, now)
            },
        }
    }

    /// The verdict of a probe that got as far as `probe`, seen now.
    pub fn check(&self, probe: TlsProbe) -> (state: State)
        ensures
            exists|now: i64|
                state@ == certificate_verdict(
                    self.days_before_expiry,
                    probe,
                    x509_not_after(der_of(probe)),
                    now,
                ),
            !(probe is Certificate) ==> state@ == certificate_verdict(
                self.days_before_expiry,
                probe,
                x509_not_after(der_of(probe)),
                0,
            ),
            !(state@ is Unknown),
            state@ is Success ==> probe is Certificate,
    {
        let now = Timestamp::now().secs;
        self.check_certificate(probe, now)
    }
}

/// How an attempt to connect ended.
#[derive(Debug, PartialEq, Eq)]
pub enum TcpAttempt {
    Connected,
    /// The connection was refused or failed otherwise.
    Failed(String),
    /// The time allowed ran out first.
    TimedOut,
}

/// The verdict of a reachability probe that allows `timeout_ms`
/// milliseconds (1000 where absent) on the attempt `attempt`.
pub open spec fn tcp_verdict(timeout_ms: Option<u64>, attempt: TcpAttempt) -> StateView {
    match attempt {
        TcpAttempt::Connected => StateView::Success,
        TcpAttempt::Failed(why) => StateView::Failure("Connection failed: "@ + why@),
        TcpAttempt::TimedOut => StateView::Failure(
            "Timeout after "@ + decimal(
                (match timeout_ms {
                    Some(ms) => ms,
                    None => 1000u64,
                }) as nat,
            ) + "ms"@,
        ),
    }
}

impl ServiceTcpPing {
    /// The address that the probe connects to.
    pub fn address(&self) -> (s: String)
        ensures
            s@ == address_text(self.host@, self.port),
    {
        address_of(self.host.as_str(), self.port)
    }

    /// How long the probe waits for the connection, in milliseconds.
    pub fn timeout(&self) -> (ms: u64)
        ensures
            ms == (match self.timeout_ms {
                Some(t) => t,
                None => 1000u64,
            }),
    {
        match self.timeout_ms {
            Some(t) => t,
            None => 1000,
        }
    }

    /// The verdict on how the attempt to connect ended.
    pub fn check(&self, attempt: TcpAttempt) -> (state: State)
        ensures
            state@ == tcp_verdict(self.timeout_ms, attempt),
            state@ is Success <==> attempt is Connected,
            !(state@ is Unknown),
    {
        match attempt {
            TcpAttempt::Connected => State::Success,
            TcpAttempt::Failed(why) => State::Failure(concat2("Connection failed: ", why.as_str())),
            TcpAttempt::TimedOut => {
                let digits = decimal_string(self.timeout());
                State::Failure(concat3("Timeout after ", digits.as_str(), "ms"))
            },
        }
    }
}

} // verus!
