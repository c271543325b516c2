//! The reconciliation cycle: one scrape is answered by logging in, fetching
//! the pools, the sessions and the machines, logging out, and handing every
//! count to the metric sink. What is fetched comes in as events; what is to be
//! done next goes out as actions.

use vstd::prelude::*;
use vstd::string::StringExecFns;
use crate::configuration::{validate_config, ConfigError, Configuration};
use crate::data::{DesktopPool, LoginRequest, LoginResponse, LogoutRequest, Machine, Session};
use crate::machines::{
    counted_machines, flush_machine_arch_map, flush_machine_os_map, flush_machine_state_map,
    machine_metric_collect, machine_metric_prepare, machine_metric_publish, machines_anomalies,
    prepared_machines, MachineCounts, MachineMetrics, MachineSamples,
};
use crate::matrix::{flushed, lemma_flushed_all_zero};
use crate::report::{anomaly_views, Anomaly, AnomalyView};
use crate::sessions::{
    counted_sessions, flush_agent_version_map, flush_session_map, flush_session_protocol_map,
    flush_session_type_map, prepared_sessions, session_metric_collect, session_metric_prepare,
    session_metric_publish, sessions_anomalies, SessionCounts, SessionMetrics, SessionSamples,
};

verus! {

/// Where a cycle stands: what it waits for.
#[derive(Clone, Copy, Debug, PartialEq, Eq, Structural)]
pub enum Phase {
    /// No cycle runs; a scrape starts one.
    Idle,
    LoggingIn,
    FetchingPools,
    FetchingSessions,
    FetchingMachines,
    LoggingOut,
}

/// What happened outside: a scrape came in, or a call to the inventory ended.
pub enum Event {
    Scrape,
    Login(Result<LoginResponse, String>),
    Pools(Result<Vec<DesktopPool>, String>),
    Sessions(Result<Vec<Session>, String>),
    Machines(Result<Vec<Machine>, String>),
    Logout(Result<(), String>),
}

/// Every count of every dimension, for the metric sink.
pub struct Publication {
    pub sessions: SessionSamples,
    pub machines: MachineSamples,
}

/// What is to be done next outside.
pub enum Action {
    Login(LoginRequest),
    FetchPools { access_token: String },
    FetchSessions { access_token: String },
    FetchMachines { access_token: String },
    Logout(LogoutRequest),
    /// The cycle is over: hand the counts to the sink and answer the scrape.
    Respond(Publication),
    /// The event was not awaited; nothing changed.
    Ignore,
}

/// The call to the inventory that failed, with what it reported.
pub enum CycleError {
    Login(String),
    Pools(String),
    Sessions(String),
    Machines(String),
    Logout(String),
}

impl CycleError {
    /// The failure in words: which call failed, and what it reported.
    pub open spec fn text(&self) -> Seq<char> {
        match self {
            CycleError::Login(e) => "horizon login failed: "@ + e@,
            CycleError::Pools(e) => "can't get list of desktop pools: "@ + e@,
            CycleError::Sessions(e) => "session metric update failed: "@ + e@,
            CycleError::Machines(e) => "machine metric update failed: "@ + e@,
            CycleError::Logout(e) => "horizon logout failed: "@ + e@,
        }
    }

    /// The failure in words.
    pub fn message(&self) -> (text: String)
        ensures
            text@ == self.text(),
    {
        match self {
            CycleError::Login(e) => {
                let mut text = String::from_str("horizon login failed: ");
                text.append(e.as_str());
                text
            },
            CycleError::Pools(e) => {
                let mut text = String::from_str("can't get list of desktop pools: ");
                text.append(e.as_str());
                text
            },
            CycleError::Sessions(e) => {
                let mut text = String::from_str("session metric update failed: ");
                text.append(e.as_str());
                text
            },
            CycleError::Machines(e) => {
                let mut text = String::from_str("machine metric update failed: ");
                text.append(e.as_str());
                text
            },
            CycleError::Logout(e) => {
                let mut text = String::from_str("horizon logout failed: ");
                text.append(e.as_str());
                text
            },
        }
    }

    /// Whether the failure is worth a warning only: a failed logout is, every
    /// other failure is an error.
    pub fn is_warning(&self) -> (mild: bool)
        ensures
            mild == (*self is Logout),
    {
        match self {
            CycleError::Logout(_) => true,
            _ => false,
        }
    }
}

/// What one event leads to.
pub struct Step {
    pub action: Action,
    pub error: Option<CycleError>,
    pub warnings: Vec<Anomaly>,
}

/// The reconciliation engine: the configuration, the pools as last fetched,
/// and the counters of every dimension.
pub struct Exporter {
    pub cfg: Configuration,
    pub desktop_pools: Vec<DesktopPool>,
    pub sessions: SessionMetrics,
    pub machines: MachineMetrics,
    pub phase: Phase,
    pub tokens: Option<LoginResponse>,
}

/// Every count of the session dimensions set to zero.
pub open spec fn flushed_sessions(before: SessionCounts) -> SessionCounts {
    SessionCounts {
        sessions: flushed(before.sessions),
        agents: flushed(before.agents),
        protocols: flushed(before.protocols),
        types: flushed(before.types),
    }
}

/// Every count of the machine dimensions set to zero.
pub open spec fn flushed_machines(before: MachineCounts) -> MachineCounts {
    MachineCounts {
        states: flushed(before.states),
        os: flushed(before.os),
        arch: flushed(before.arch),
    }
}

/// `event` is what a cycle in `phase` waits for.
pub open spec fn awaited(phase: Phase, event: Event) -> bool {
    match event {
        Event::Scrape => phase == Phase::Idle,
        Event::Login(_) => phase == Phase::LoggingIn,
        Event::Pools(_) => phase == Phase::FetchingPools,
        Event::Sessions(_) => phase == Phase::FetchingSessions,
        Event::Machines(_) => phase == Phase::FetchingMachines,
        Event::Logout(_) => phase == Phase::LoggingOut,
    }
}

/// The phase that follows `event`, which was awaited. A failed login and a
/// failed fetch of the pools end the cycle; a failed fetch of the sessions or
/// of the machines ends only that group's part.
pub open spec fn next_phase(event: Event) -> Phase {
    match event {
        Event::Scrape => Phase::LoggingIn,
        Event::Login(Ok(_)) => Phase::FetchingPools,
        Event::Login(Err(_)) => Phase::Idle,
        Event::Pools(Ok(_)) => Phase::FetchingSessions,
        Event::Pools(Err(_)) => Phase::Idle,
        Event::Sessions(_) => Phase::FetchingMachines,
        Event::Machines(_) => Phase::LoggingOut,
        Event::Logout(_) => Phase::Idle,
    }
}

/// The failure that `event` reports, if it reports one.
pub open spec fn reported_error(event: Event) -> Option<CycleError> {
    match event {
        Event::Login(Err(e)) => Some(CycleError::Login(e)),
        Event::Pools(Err(e)) => Some(CycleError::Pools(e)),
        Event::Sessions(Err(e)) => Some(CycleError::Sessions(e)),
        Event::Machines(Err(e)) => Some(CycleError::Machines(e)),
        Event::Logout(Err(e)) => Some(CycleError::Logout(e)),
        _ => None,
    }
}

impl Exporter {
    /// The configuration is valid, the counters are well formed, the tokens
    /// are there while a cycle is logged in, and from the start of a cycle
    /// until a group's entities have been fetched that group's counts are all
    /// zero.
    pub open spec fn wf(&self) -> bool {
        &&& self.cfg.valid()
        &&& self.sessions.wf()
        &&& self.machines.wf()
        &&& (self.phase == Phase::LoggingIn || self.phase == Phase::FetchingPools || self.phase
            == Phase::FetchingSessions) ==> self.sessions@.all_zero()
        &&& (self.phase == Phase::LoggingIn || self.phase == Phase::FetchingPools || self.phase
            == Phase::FetchingSessions || self.phase == Phase::FetchingMachines)
            ==> self.machines@.all_zero()
        &&& (self.phase == Phase::FetchingPools || self.phase == Phase::FetchingSessions
            || self.phase == Phase::FetchingMachines || self.phase == Phase::LoggingOut)
            ==> self.tokens.is_some()
    }

    /// The session counts are all zero after `event` where it reports that
    /// logging in or fetching the pools or the sessions failed; so are the
    /// machine counts where it reports that logging in or fetching the pools
    /// or the machines failed.
    pub open spec fn zero_after_failure(&self, event: Event) -> bool {
        match event {
            Event::Login(Err(_)) | Event::Pools(Err(_)) => self.sessions@.all_zero()
                && self.machines@.all_zero(),
            Event::Sessions(Err(_)) => self.sessions@.all_zero(),
            Event::Machines(Err(_)) => self.machines@.all_zero(),
            _ => true,
        }
    }

    /// The pools as they are cached after `event`, which was awaited: a fetch of the pools that
    /// succeeded replaces them wholesale, nothing else touches them.
    pub open spec fn next_pools(&self, event: Event) -> Seq<DesktopPool> {
        match event {
            Event::Pools(Ok(pools)) => pools@,
            _ => self.desktop_pools@,
        }
    }

    /// The session counts after `event`, which was awaited.
    pub open spec fn next_sessions(&self, event: Event) -> SessionCounts {
        match event {
            Event::Scrape => flushed_sessions(self.sessions@),
            Event::Pools(Ok(pools)) => prepared_sessions(self.sessions@, self.cfg.horizon_api, pools@),
            Event::Sessions(Ok(sessions)) => counted_sessions(
                self.sessions@,
                self.cfg.horizon_api,
                sessions@,
            ),
            _ => self.sessions@,
        }
    }

    /// The machine counts after `event`, which was awaited.
    pub open spec fn next_machines(&self, event: Event) -> MachineCounts {
        match event {
            Event::Scrape => flushed_machines(self.machines@),
            Event::Sessions(_) => prepared_machines(
                self.machines@,
                self.cfg.horizon_api,
                self.desktop_pools@,
            ),
            Event::Machines(Ok(machines)) => counted_machines(
                self.machines@,
                self.cfg.horizon_api,
                machines@,
            ),
            _ => self.machines@,
        }
    }

    /// The warnings that `event` earns, which was awaited.
    pub open spec fn next_warnings(&self, event: Event) -> Seq<AnomalyView> {
        match event {
            Event::Sessions(Ok(sessions)) => sessions_anomalies(self.cfg.horizon_api, sessions@),
            Event::Machines(Ok(machines)) => machines_anomalies(self.cfg.horizon_api, machines@),
            _ => Seq::empty(),
        }
    }

    /// `action` is what is to be done in the state `self`, which `event` led to.
    pub open spec fn calls_for(&self, event: Event, action: Action) -> bool {
        match event {
            Event::Scrape => action == Action::Login(
                LoginRequest {
                    domain: self.cfg.horizon_api.domain,
                    password: self.cfg.horizon_api.password,
                    username: self.cfg.horizon_api.user,
                },
            ),
            Event::Login(Ok(tokens)) => action == (Action::FetchPools {
                access_token: tokens.access_token,
            }),
            Event::Pools(Ok(_)) => self.tokens.is_some() && action == (Action::FetchSessions {
                access_token: self.tokens.unwrap().access_token,
            }),
            Event::Sessions(_) => self.tokens.is_some() && action == (Action::FetchMachines {
                access_token: self.tokens.unwrap().access_token,
            }),
            Event::Machines(_) => self.tokens.is_some() && action == Action::Logout(
                LogoutRequest { refresh_token: self.tokens.unwrap().refresh_token },
            ),
            Event::Login(Err(_)) | Event::Pools(Err(_)) | Event::Logout(_) => match action {
                Action::Respond(publication) => {
                    &&& publication.sessions.publishes(self.sessions@, self.cfg.horizon_api)
                    &&& publication.machines.publishes(self.machines@, self.cfg.horizon_api)
                },
                _ => false,
            },
        }
    }

    /// An engine for `cfg`, if `cfg` is valid: no cycle runs, no pool is known.
    pub fn new(cfg: Configuration) -> (made: Result<Exporter, ConfigError>)
        ensures
            made.is_ok() == cfg.valid(),
            match made {
                Ok(exporter) => {
                    &&& exporter.wf()
                    &&& exporter.cfg == cfg
                    &&& exporter.phase == Phase::Idle
                    &&& exporter.desktop_pools@.len() == 0
                    &&& exporter.tokens.is_none()
                    &&& exporter.sessions@.sessions.dom() == Set::<Seq<char>>::empty()
                    &&& exporter.sessions@.agents.dom() == Set::<Seq<char>>::empty()
                    &&& exporter.sessions@.protocols.dom() == Set::<Seq<char>>::empty()
                    &&& exporter.sessions@.types.dom() == Set::<Seq<char>>::empty()
                    &&& exporter.machines@.states.dom() == Set::<Seq<char>>::empty()
                    &&& exporter.machines@.os.dom() == Set::<Seq<char>>::empty()
                    &&& exporter.machines@.arch.dom() == Set::<Seq<char>>::empty()
                },
                Err(error) => cfg.fault(error),
            },
    {
        match validate_config(&cfg) {
            Ok(_) => Ok(
                Exporter {
                    cfg,
                    desktop_pools: Vec::new(),
                    sessions: SessionMetrics::new(),
                    machines: MachineMetrics::new(),
                    phase: Phase::Idle,
                    tokens: None,
                },
            ),
            Err(error) => Err(error),
        }
    }

    /// Every count of every dimension, for the metric sink.
    pub fn publish(&self) -> (publication: Publication)
        requires
            self.wf(),
        ensures
            publication.sessions.publishes(self.sessions@, self.cfg.horizon_api),
            publication.machines.publishes(self.machines@, self.cfg.horizon_api),
    {
        Publication {
            sessions: session_metric_publish(&self.sessions, &self.cfg),
            machines: machine_metric_publish(&self.machines, &self.cfg),
        }
    }

    fn flush_all(&mut self)
        requires
            old(self).wf(),
        ensures
            final(self).sessions.wf(),
            final(self).machines.wf(),
            final(self).sessions@ == flushed_sessions(old(self).sessions@),
            final(self).machines@ == flushed_machines(old(self).machines@),
            final(self).sessions@.all_zero(),
            final(self).machines@.all_zero(),
            final(self).cfg == old(self).cfg,
            final(self).desktop_pools == old(self).desktop_pools,
            final(self).phase == old(self).phase,
            final(self).tokens == old(self).tokens,
    {
        proof {
            lemma_flushed_all_zero(self.sessions@.sessions);
            lemma_flushed_all_zero(self.sessions@.agents);
            lemma_flushed_all_zero(self.sessions@.protocols);
            lemma_flushed_all_zero(self.sessions@.types);
            lemma_flushed_all_zero(self.machines@.states);
            lemma_flushed_all_zero(self.machines@.os);
            lemma_flushed_all_zero(self.machines@.arch);
        }
        flush_session_map(&mut self.sessions.pool_sessions);
        flush_agent_version_map(&mut self.sessions.agent_versions);
        flush_session_protocol_map(&mut self.sessions.pool_protocols);
        flush_session_type_map(&mut self.sessions.types);
        flush_machine_state_map(&mut self.machines.mstates);
        flush_machine_os_map(&mut self.machines.os_map);
        flush_machine_arch_map(&mut self.machines.arch_map);
    }

    fn ignore() -> (step: Step)
        ensures
            step.action is Ignore,
            step.error.is_none(),
            step.warnings@.len() == 0,
    {
        Step { action: Action::Ignore, error: None, warnings: Vec::new() }
    }

    /// Takes the cycle one step on: `event` is what happened outside, the
    /// result says what is to be done next. An event that the cycle does not
    /// wait for changes nothing.
    pub fn step(&mut self, event: Event) -> (step: Step)
        requires
            old(self).wf(),
            match event {
                Event::Sessions(Ok(sessions)) => sessions@.len() <= i64::MAX,
                Event::Machines(Ok(machines)) => machines@.len() <= i64::MAX,
                _ => true,
            },
        ensures
            final(self).wf(),
            final(self).cfg == old(self).cfg,
            awaited(old(self).phase, event) ==> {
                &&& final(self).phase == next_phase(event)
                &&& final(self).desktop_pools@ == old(self).next_pools(event)
                &&& final(self).sessions@ == old(self).next_sessions(event)
                &&& final(self).machines@ == old(self).next_machines(event)
                &&& final(self).tokens == match event {
                    Event::Login(Ok(tokens)) => Some(tokens),
                    _ => old(self).tokens,
                }
                &&& final(self).calls_for(event, step.action)
                &&& step.error == reported_error(event)
                &&& anomaly_views(step.warnings@) == old(self).next_warnings(event)
                &&& final(self).zero_after_failure(event)
            },
            !awaited(old(self).phase, event) ==> {
                &&& final(self).phase == old(self).phase
                &&& final(self).desktop_pools == old(self).desktop_pools
                &&& final(self).sessions@ == old(self).sessions@
                &&& final(self).machines@ == old(self).machines@
                &&& final(self).tokens == old(self).tokens
                &&& step.action is Ignore
                &&& step.error.is_none()
                &&& step.warnings@.len() == 0
            },
    {
        match event {
            Event::Scrape => {
                if self.phase != Phase::Idle {
                    return Self::ignore();
                }
                self.flush_all();
                self.phase = Phase::LoggingIn;
                let request = LoginRequest {
                    domain: self.cfg.horizon_api.domain.clone(),
                    password: self.cfg.horizon_api.password.clone(),
                    username: self.cfg.horizon_api.user.clone(),
                };
                let warnings: Vec<Anomaly> = Vec::new();
                assert(anomaly_views(warnings@) =~= Seq::<AnomalyView>::empty());
                Step { action: Action::Login(request), error: None, warnings }
            },
            Event::Login(outcome) => {
                if self.phase != Phase::LoggingIn {
                    return Self::ignore();
                }
                let warnings: Vec<Anomaly> = Vec::new();
                assert(anomaly_views(warnings@) =~= Seq::<AnomalyView>::empty());
                match outcome {
                    Ok(tokens) => {
                        let access_token = tokens.access_token.clone();
                        self.tokens = Some(tokens);
                        self.phase = Phase::FetchingPools;
                        Step { action: Action::FetchPools { access_token }, error: None, warnings }
                    },
                    Err(e) => {
                        self.phase = Phase::Idle;
                        let publication = self.publish();
                        Step {
                            action: Action::Respond(publication),
                            error: Some(CycleError::Login(e)),
                            warnings,
                        }
                    },
                }
            },
            Event::Pools(outcome) => {
                if self.phase != Phase::FetchingPools {
                    return Self::ignore();
                }
                let warnings: Vec<Anomaly> = Vec::new();
                assert(anomaly_views(warnings@) =~= Seq::<AnomalyView>::empty());
                match outcome {
                    Ok(pools) => {
                        self.desktop_pools = pools;
                        session_metric_prepare(&mut self.sessions, &self.cfg, &self.desktop_pools);
                        self.phase = Phase::FetchingSessions;
                        let access_token = match &self.tokens {
                            Some(tokens) => tokens.access_token.clone(),
                            None => String::new(),
                        };
                        Step { action: Action::FetchSessions { access_token }, error: None, warnings }
                    },
                    Err(e) => {
                        self.phase = Phase::Idle;
                        let publication = self.publish();
                        Step {
                            action: Action::Respond(publication),
                            error: Some(CycleError::Pools(e)),
                            warnings,
                        }
                    },
                }
            },
            Event::Sessions(outcome) => {
                if self.phase != Phase::FetchingSessions {
                    return Self::ignore();
                }
                let mut warnings: Vec<Anomaly> = Vec::new();
                let mut error: Option<CycleError> = None;
                assert(anomaly_views(warnings@) =~= Seq::<AnomalyView>::empty());
                match outcome {
                    Ok(sessions) => {
                        warnings = session_metric_collect(&mut self.sessions, &self.cfg, &sessions);
                    },
                    Err(e) => {
                        error = Some(CycleError::Sessions(e));
                    },
                }
                machine_metric_prepare(&mut self.machines, &self.cfg, &self.desktop_pools);
                self.phase = Phase::FetchingMachines;
                let access_token = match &self.tokens {
                    Some(tokens) => tokens.access_token.clone(),
                    None => String::new(),
                };
                Step { action: Action::FetchMachines { access_token }, error, warnings }
            },
            Event::Machines(outcome) => {
                if self.phase != Phase::FetchingMachines {
                    return Self::ignore();
                }
                let mut warnings: Vec<Anomaly> = Vec::new();
                let mut error: Option<CycleError> = None;
                assert(anomaly_views(warnings@) =~= Seq::<AnomalyView>::empty());
                match outcome {
                    Ok(machines) => {
                        warnings = machine_metric_collect(&mut self.machines, &self.cfg, &machines);
                    },
                    Err(e) => {
                        error = Some(CycleError::Machines(e));
                    },
                }
                self.phase = Phase::LoggingOut;
                let refresh_token = match &self.tokens {
                    Some(tokens) => tokens.refresh_token.clone(),
                    None => String::new(),
                };
                Step { action: Action::Logout(LogoutRequest { refresh_token }), error, warnings }
            },
            Event::Logout(outcome) => {
                if self.phase != Phase::LoggingOut {
                    return Self::ignore();
                }
                let warnings: Vec<Anomaly> = Vec::new();
                assert(anomaly_views(warnings@) =~= Seq::<AnomalyView>::empty());
                let error = match outcome {
                    Ok(_) => None,
                    Err(e) => Some(CycleError::Logout(e)),
                };
                self.phase = Phase::Idle;
                let publication = self.publish();
                Step { action: Action::Respond(publication), error, warnings }
            },
        }
    }
}

} // verus!
