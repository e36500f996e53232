//! The configuration of the monitor: what to probe, how often, and when to
//! raise an alert; with the verdict type that every probe yields.

use vstd::prelude::*;
use crate::registry::{Entry, Registry};

verus! {

/// The verdict of one probe.
#[derive(Debug, PartialEq, Eq, Hash)]
pub enum State {
    /// No probe has completed yet, or the probe could not tell.
    Unknown,
    Success,
    /// The probe failed, for the reason given.
    Failure(String),
}

/// What a [`State`] stands for.
pub enum StateView {
    Unknown,
    Success,
    Failure(Seq<char>),
}

impl View for State {
    type V = StateView;

    open spec fn view(&self) -> StateView {
        match self {
            State::Unknown => StateView::Unknown,
            State::Success => StateView::Success,
            State::Failure(reason) => StateView::Failure(reason@),
        }
    }
}

impl Clone for State {
    fn clone(&self) -> (res: Self)
        ensures
            res == *self,
    {
        match self {
            State::Unknown => State::Unknown,
            State::Success => State::Success,
            State::Failure(reason) => State::Failure(reason.clone()),
        }
    }
}

impl Default for State {
    fn default() -> (res: Self)
        ensures
            res == State::Unknown,
    {
        State::Unknown
    }
}

/// The view of an optional text.
pub open spec fn text_view(o: Option<String>) -> Option<Seq<char>> {
    match o {
        Some(s) => Some(s@),
        None => None,
    }
}

fn clone_text(o: &Option<String>) -> (res: Option<String>)
    ensures
        res == *o,
{
    match o {
        Some(s) => Some(s.clone()),
        None => None,
    }
}

/// An HTTP probe: fetch `url` and look at the status of the response.
#[derive(Debug, PartialEq, Eq, Hash)]
pub struct ServiceHttp {
    pub url: String,
    /// The status that counts as healthy; 200 where absent.
    pub expected_status: Option<u16>,
}

pub struct ServiceHttpView {
    pub url: Seq<char>,
    pub expected_status: Option<u16>,
}

impl View for ServiceHttp {
    type V = ServiceHttpView;

    open spec fn view(&self) -> ServiceHttpView {
        ServiceHttpView { url: self.url@, expected_status: self.expected_status }
    }
}

impl Clone for ServiceHttp {
    fn clone(&self) -> (res: Self)
        ensures
            res == *self,
    {
        ServiceHttp { url: self.url.clone(), expected_status: self.expected_status }
    }
}

/// A certificate probe: complete a TLS handshake with `host:port` and look
/// at the expiry of the certificate that the peer presents.
#[derive(Debug, PartialEq, Eq, Hash)]
pub struct ServiceCertificate {
    pub host: String,
    pub port: u16,
    /// The fewest whole days of validity that count as healthy; 30 where
    /// absent.
    pub days_before_expiry: Option<u64>,
}

pub struct ServiceCertificateView {
    pub host: Seq<char>,
    pub port: u16,
    pub days_before_expiry: Option<u64>,
}

impl View for ServiceCertificate {
    type V = ServiceCertificateView;

    open spec fn view(&self) -> ServiceCertificateView {
        ServiceCertificateView {
            host: self.host@,
            port: self.port,
            days_before_expiry: self.days_before_expiry,
        }
    }
}

impl Clone for ServiceCertificate {
    fn clone(&self) -> (res: Self)
        ensures
            res == *self,
    {
        ServiceCertificate {
            host: self.host.clone(),
            port: self.port,
            days_before_expiry: self.days_before_expiry,
        }
    }
}

/// A reachability probe: open a TCP connection to `host:port`.
#[derive(Debug, PartialEq, Eq, Hash)]
pub struct ServiceTcpPing {
    pub host: String,
    pub port: u16,
    /// How long to wait for the connection, in milliseconds; 1000 where
    /// absent.
    pub timeout_ms: Option<u64>,
}

pub struct ServiceTcpPingView {
    pub host: Seq<char>,
    pub port: u16,
    pub timeout_ms: Option<u64>,
}

impl View for ServiceTcpPing {
    type V = ServiceTcpPingView;

    open spec fn view(&self) -> ServiceTcpPingView {
        ServiceTcpPingView { host: self.host@, port: self.port, timeout_ms: self.timeout_ms }
    }
}

impl Clone for ServiceTcpPing {
    fn clone(&self) -> (res: Self)
        ensures
            res == *self,
    {
        ServiceTcpPing { host: self.host.clone(), port: self.port, timeout_ms: self.timeout_ms }
    }
}

/// The probe of a service, with its parameters.
#[derive(Debug, PartialEq, Eq, Hash)]
pub enum CheckType {
    Http(ServiceHttp),
    Certificate(ServiceCertificate),
    TcpPing(ServiceTcpPing),
}

pub enum CheckTypeView {
    Http(ServiceHttpView),
    Certificate(ServiceCertificateView),
    TcpPing(ServiceTcpPingView),
}

impl View for CheckType {
    type V = CheckTypeView;

    open spec fn view(&self) -> CheckTypeView {
        match self {
            CheckType::Http(c) => CheckTypeView::Http(c@),
            CheckType::Certificate(c) => CheckTypeView::Certificate(c@),
            CheckType::TcpPing(c) => CheckTypeView::TcpPing(c@),
        }
    }
}

impl Clone for CheckType {
    fn clone(&self) -> (res: Self)
        ensures
            res == *self,
    {
        match self {
            CheckType::Http(c) => CheckType::Http(c.clone()),
            CheckType::Certificate(c) => CheckType::Certificate(c.clone()),
            CheckType::TcpPing(c) => CheckType::TcpPing(c.clone()),
        }
    }
}

/// One monitored service. The four optional numbers override the defaults
/// of the [`Config`] that holds it.
#[derive(Debug, PartialEq, Eq, Hash)]
pub struct Service {
    pub enabled: bool,
    pub name: String,
    pub description: String,
    /// Milliseconds to wait after a probe that did not fail.
    pub check_interval_success: Option<u64>,
    /// Milliseconds to wait after a probe that failed.
    pub check_interval_fail: Option<u64>,
    /// The count of failures in a row at which the first alert goes out.
    pub notify_failures: Option<u64>,
    /// The count of further failures in a row between repeated alerts.
    pub rereport: Option<u64>,
    pub check: CheckType,
}

pub struct ServiceView {
    pub enabled: bool,
    pub name: Seq<char>,
    pub description: Seq<char>,
    pub check_interval_success: Option<u64>,
    pub check_interval_fail: Option<u64>,
    pub notify_failures: Option<u64>,
    pub rereport: Option<u64>,
    pub check: CheckTypeView,
}

impl View for Service {
    type V = ServiceView;

    open spec fn view(&self) -> ServiceView {
        ServiceView {
            enabled: self.enabled,
            name: self.name@,
            description: self.description@,
            check_interval_success: self.check_interval_success,
            check_interval_fail: self.check_interval_fail,
            notify_failures: self.notify_failures,
            rereport: self.rereport,
            check: self.check@,
        }
    }
}

impl Clone for Service {
    fn clone(&self) -> (res: Self)
        ensures
            res == *self,
    {
        Service {
            enabled: self.enabled,
            name: self.name.clone(),
            description: self.description.clone(),
            check_interval_success: self.check_interval_success,
            check_interval_fail: self.check_interval_fail,
            notify_failures: self.notify_failures,
            rereport: self.rereport,
            check: self.check.clone(),
        }
    }
}

/// The whole configuration: where alerts go, the defaults for intervals
/// and thresholds, and the services by identifier.
#[derive(Debug, PartialEq, Eq)]
pub struct Config {
    pub telegram_token: String,
    pub telegram_chat_id: i64,
    pub check_interval_success: u64,
    pub check_interval_fail: u64,
    pub notify_failures: u64,
    pub rereport: u64,
    pub services: Registry<Service>,
    pub web_port: Option<u16>,
    /// Where present, reading or replacing the configuration over the
    /// front-end takes this bearer token.
    pub api_bearer_token: Option<String>,
}

pub struct ConfigView {
    pub telegram_token: Seq<char>,
    pub telegram_chat_id: i64,
    pub check_interval_success: u64,
    pub check_interval_fail: u64,
    pub notify_failures: u64,
    pub rereport: u64,
    pub services: Map<Seq<char>, ServiceView>,
    pub web_port: Option<u16>,
    pub api_bearer_token: Option<Seq<char>>,
}

impl View for Config {
    type V = ConfigView;

    open spec fn view(&self) -> ConfigView {
        ConfigView {
            telegram_token: self.telegram_token@,
            telegram_chat_id: self.telegram_chat_id,
            check_interval_success: self.check_interval_success,
            check_interval_fail: self.check_interval_fail,
            notify_failures: self.notify_failures,
            rereport: self.rereport,
            services: self.services@,
            web_port: self.web_port,
            api_bearer_token: text_view(self.api_bearer_token),
        }
    }
}

impl ConfigView {
    /// `id` names a service that is switched on.
    pub open spec fn enabled(self, id: Seq<char>) -> bool {
        self.services.contains_key(id) && self.services[id].enabled
    }

    /// The count of failures in a row at which the service `id` alerts: its
    /// own where it has one, the default otherwise, also for an identifier
    /// that names no service.
    pub open spec fn notify_failures_for(self, id: Seq<char>) -> u64 {
        if self.services.contains_key(id) && self.services[id].notify_failures is Some {
            self.services[id].notify_failures->0
        } else {
            self.notify_failures
        }
    }

    /// The count of further failures between repeated alerts of the service
    /// `id`, resolved like [`Self::notify_failures_for`].
    pub open spec fn rereport_for(self, id: Seq<char>) -> u64 {
        if self.services.contains_key(id) && self.services[id].rereport is Some {
            self.services[id].rereport->0
        } else {
            self.rereport
        }
    }

    /// No interval between repeated alerts is zero, neither the default nor
    /// that of any service.
    pub open spec fn rereport_positive(self) -> bool {
        &&& self.rereport > 0
        &&& forall|id: Seq<char>| #[trigger]
            self.services.contains_key(id) ==> self.services[id].rereport != Some(0u64)
    }
}

/// Why a configuration is refused.
#[derive(Clone, Copy, Debug, PartialEq, Eq, Structural)]
pub enum ConfigError {
    /// The default interval between repeated alerts is zero.
    ZeroRereport,
    /// Two services share one identifier.
    DuplicateService,
    /// Some service sets its interval between repeated alerts to zero.
    ServiceZeroRereport,
}

impl ConfigError {
    /// The error in words.
    pub open spec fn message_text(self) -> Seq<char> {
        match self {
            ConfigError::ZeroRereport => "rereport must be greater than zero"@,
            ConfigError::DuplicateService => "two services share one identifier"@,
            ConfigError::ServiceZeroRereport => "rereport of a service must be greater than zero"@,
        }
    }

    /// The error in words.
    pub fn message(&self) -> (s: &'static str)
        ensures
            s@ == self.message_text(),
    {
        match self {
            ConfigError::ZeroRereport => "rereport must be greater than zero",
            ConfigError::DuplicateService => "two services share one identifier",
            ConfigError::ServiceZeroRereport => "rereport of a service must be greater than zero",
        }
    }
}

impl Service {
    /// How long the monitor loop of this service sleeps after a probe with
    /// the verdict `state`, in milliseconds.
    pub open spec fn interval_after(self, state: StateView, config: ConfigView) -> u64 {
        match state {
            StateView::Failure(_) => match self.check_interval_fail {
                Some(ms) => ms,
                None => config.check_interval_fail,
            },
            _ => match self.check_interval_success {
                Some(ms) => ms,
                None => config.check_interval_success,
            },
        }
    }

    /// The pause before the next probe: after a failure the failure
    /// interval, otherwise the success interval; the service's own where it
    /// has one, the default of `config` otherwise.
    pub fn check_interval(&self, state: &State, config: &Config) -> (ms: u64)
        ensures
            ms == self.interval_after(state@, config@),
    {
        match state {
            State::Failure(_) => match self.check_interval_fail {
                Some(ms) => ms,
                None => config.check_interval_fail,
            },
            _ => match self.check_interval_success {
                Some(ms) => ms,
                None => config.check_interval_success,
            },
        }
    }
}

impl Config {
    /// The configuration can be run: no identifier is used twice and no
    /// interval between repeated alerts is zero.
    pub open spec fn valid(&self) -> bool {
        self.services.wf() && self@.rereport_positive()
    }

    /// Some stored service sets its interval between repeated alerts to
    /// zero.
    pub open spec fn has_zero_rereport(&self) -> bool {
        exists|i: int|
            0 <= i < self.services.entries.len() && #[trigger] self.services.entries[i].value.rereport
                == Some(0u64)
    }

    proof fn lemma_rereport_positive(&self)
        requires
            self.services.wf(),
        ensures
            self@.rereport_positive() <==> self.rereport > 0 && !self.has_zero_rereport(),
    {
        if self.rereport > 0 && !self.has_zero_rereport() {
            assert forall|id: Seq<char>| #[trigger]
                self@.services.contains_key(id) implies self@.services[id].rereport != Some(
                0u64,
            ) by {
                self.services.lemma_slot(id);
            }
        }
        if self.has_zero_rereport() {
            let i = choose|i: int|
                0 <= i < self.services.entries.len()
                    && #[trigger] self.services.entries[i].value.rereport == Some(0u64);
            self.services.lemma_entry(i);
            assert(self@.services.contains_key(self.services.entries[i].id@));
        }
    }

    /// What is wrong with the configuration, the first of: a zero default
    /// interval between repeated alerts, an identifier used twice, a
    /// service whose own interval between repeated alerts is zero.
    pub open spec fn fault(&self) -> Option<ConfigError> {
        if self.rereport == 0 {
            Some(ConfigError::ZeroRereport)
        } else if !self.services.wf() {
            Some(ConfigError::DuplicateService)
        } else if self.has_zero_rereport() {
            Some(ConfigError::ServiceZeroRereport)
        } else {
            None
        }
    }

    /// A configuration can be run exactly if nothing is wrong with it.
    pub proof fn lemma_fault(&self)
        ensures
            self.fault() is None <==> self.valid(),
    {
        if self.services.wf() {
            self.lemma_rereport_positive();
        }
    }

    /// Checks that the configuration can be run, and says what is wrong
    /// with it where it cannot.
    pub fn validate(&self) -> (r: Result<(), ConfigError>)
        ensures
            r is Ok <==> self.valid(),
            r is Ok <==> self.fault() is None,
            r matches Err(e) ==> self.fault() == Some(e),
    {
        if self.rereport == 0 {
            return Err(ConfigError::ZeroRereport);
        }
        if !self.services.is_wf() {
            return Err(ConfigError::DuplicateService);
        }
        proof {
            self.lemma_rereport_positive();
        }
        let mut i: usize = 0;
        while i < self.services.entries.len()
            invariant
                i <= self.services.entries.len(),
                self.rereport > 0,
                self.services.wf(),
                self@.rereport_positive() <==> !self.has_zero_rereport(),
                forall|j: int|
                    0 <= j < i ==> #[trigger] self.services.entries[j].value.rereport != Some(
                        0u64,
                    ),
            decreases self.services.entries.len() - i,
        {
            match self.services.entries[i].value.rereport {
                Some(n) => {
                    if n == 0 {
                        assert(self.services.entries[i as int].value.rereport == Some(0u64));
                        return Err(ConfigError::ServiceZeroRereport);
                    }
                },
                None => {},
            }
            i += 1;
        }
        Ok(())
    }

    /// The service stored under `id`.
    pub fn service(&self, id: &str) -> (r: Option<&Service>)
        ensures
            r is Some <==> self@.services.contains_key(id@),
            r matches Some(s) ==> s@ == self@.services[id@],
    {
        self.services.get(id)
    }

    /// The count of failures in a row at which the service `id` alerts.
    pub fn notify_failures_for(&self, id: &str) -> (n: u64)
        ensures
            n == self@.notify_failures_for(id@),
    {
        match self.services.get(id) {
            Some(service) => match service.notify_failures {
                Some(n) => n,
                None => self.notify_failures,
            },
            None => self.notify_failures,
        }
    }

    /// The count of further failures between repeated alerts of the
    /// service `id`.
    pub fn rereport_for(&self, id: &str) -> (n: u64)
        ensures
            n == self@.rereport_for(id@),
    {
        match self.services.get(id) {
            Some(service) => match service.rereport {
                Some(n) => n,
                None => self.rereport,
            },
            None => self.rereport,
        }
    }
}

impl Clone for Config {
    fn clone(&self) -> (res: Self)
        ensures
            res@ == self@,
            res.services.entries@ == self.services.entries@,
            res.valid() == self.valid(),
    {
        let mut entries: Vec<Entry<Service>> = Vec::new();
        let mut i: usize = 0;
        while i < self.services.entries.len()
            invariant
                i <= self.services.entries.len(),
                entries@ == self.services.entries@.subrange(0, i as int),
            decreases self.services.entries.len() - i,
        {
            let entry = &self.services.entries[i];
            entries.push(Entry { id: entry.id.clone(), value: entry.value.clone() });
            assert(entries@ =~= self.services.entries@.subrange(0, i + 1));
            i += 1;
        }
        assert(entries@ =~= self.services.entries@);
        let res = Config {
            telegram_token: self.telegram_token.clone(),
            telegram_chat_id: self.telegram_chat_id,
            check_interval_success: self.check_interval_success,
            check_interval_fail: self.check_interval_fail,
            notify_failures: self.notify_failures,
            rereport: self.rereport,
            services: Registry { entries },
            web_port: self.web_port,
            api_bearer_token: clone_text(&self.api_bearer_token),
        };
        proof {
            res.services.lemma_same_entries(&self.services);
        }
        res
    }
}

} // verus!
