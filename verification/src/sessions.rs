//! The session dimensions: sessions by state, by protocol and by type, and
//! agent versions, each counted per desktop pool.

use vstd::prelude::*;
use crate::configuration::{in_scope, Configuration, HorizonAPIConfig};
use crate::constants::{
    known_session_protocol_labels, known_session_protocol_values, known_session_state_labels,
    known_session_state_values, known_session_type_labels, known_session_type_values,
    session_protocol_labels, session_protocol_values, session_state_labels, session_state_values,
    session_type_labels, session_type_values,
};
use crate::data::{DesktopPool, Session};
use crate::matrix::{
    all_zero, bounded, count_of, flushed, incremented, label_set, lemma_flushed_all_zero,
    lemma_incremented_bounded, lemma_seeded_all_zero, published, seeded, seeded_pools,
    CounterMatrix, Sample,
};
use crate::report::{anomaly_views, note_unknown, unknown_value, Anomaly, AnomalyView, Dimension};
use crate::text::{is_listed, lowercase, to_lowercase};

verus! {

/// Pool to session state to count.
pub type SessionMap = CounterMatrix;

/// Pool to agent version to count.
pub type AgentVersionMap = CounterMatrix;

/// Pool to session protocol to count.
pub type SessionProtocolMap = CounterMatrix;

/// Pool to session type to count.
pub type SessionTypeMap = CounterMatrix;

/// Sets every count of session types to zero.
pub fn flush_session_type_map(m: &mut SessionTypeMap)
    requires
        old(m).wf(),
    ensures
        final(m).wf(),
        final(m)@ == flushed(old(m)@),
{
    m.flush();
}

/// Sets every count of agent versions to zero.
pub fn flush_agent_version_map(m: &mut AgentVersionMap)
    requires
        old(m).wf(),
    ensures
        final(m).wf(),
        final(m)@ == flushed(old(m)@),
{
    m.flush();
}

/// Sets every count of session protocols to zero.
pub fn flush_session_protocol_map(m: &mut SessionProtocolMap)
    requires
        old(m).wf(),
    ensures
        final(m).wf(),
        final(m)@ == flushed(old(m)@),
{
    m.flush();
}

/// Sets every count of session states to zero.
pub fn flush_session_map(m: &mut SessionMap)
    requires
        old(m).wf(),
    ensures
        final(m).wf(),
        final(m)@ == flushed(old(m)@),
{
    m.flush();
}

/// Brings the pool `p` into the matrix with every known session protocol at
/// zero; a pool that is there already keeps its counts.
pub fn initialise_session_protocol_map(m: &mut SessionProtocolMap, p: &str)
    requires
        old(m).wf(),
    ensures
        final(m).wf(),
        final(m)@ == seeded(old(m)@, p@, label_set(session_protocol_labels())),
{
    let labels = known_session_protocol_labels();
    m.seed(p, &labels);
}

/// Brings the pool `p` into the matrix with every known session type at zero;
/// a pool that is there already keeps its counts.
pub fn initialise_session_type_map(m: &mut SessionTypeMap, p: &str)
    requires
        old(m).wf(),
    ensures
        final(m).wf(),
        final(m)@ == seeded(old(m)@, p@, label_set(session_type_labels())),
{
    let labels = known_session_type_labels();
    m.seed(p, &labels);
}

/// Brings the pool `p` into the matrix with every known session state at zero;
/// a pool that is there already keeps its counts.
pub fn initialise_session_map(m: &mut SessionMap, p: &str)
    requires
        old(m).wf(),
    ensures
        final(m).wf(),
        final(m)@ == seeded(old(m)@, p@, label_set(session_state_labels())),
{
    let labels = known_session_state_labels();
    m.seed(p, &labels);
}

/// Every bucket of agent versions, for the metric sink.
pub fn prometheus_agent_versions(amap: &AgentVersionMap, cfg: &HorizonAPIConfig) -> (out: Vec<Sample>)
    requires
        amap.wf(),
    ensures
        published(amap@, cfg.pool_uuid_map, out@),
{
    amap.samples(&cfg.pool_uuid_map)
}

/// Every bucket of session states, for the metric sink.
pub fn prometheus_pool_sessions(pmap: &SessionMap, cfg: &HorizonAPIConfig) -> (out: Vec<Sample>)
    requires
        pmap.wf(),
    ensures
        published(pmap@, cfg.pool_uuid_map, out@),
{
    pmap.samples(&cfg.pool_uuid_map)
}

/// Every bucket of session protocols, for the metric sink.
pub fn prometheus_pool_session_protocols(pmap: &SessionProtocolMap, cfg: &HorizonAPIConfig) -> (out:
    Vec<Sample>)
    requires
        pmap.wf(),
    ensures
        published(pmap@, cfg.pool_uuid_map, out@),
{
    pmap.samples(&cfg.pool_uuid_map)
}

/// Every bucket of session types, for the metric sink.
pub fn prometheus_pool_session_types(pmap: &SessionTypeMap, cfg: &HorizonAPIConfig) -> (out: Vec<
    Sample,
>)
    requires
        pmap.wf(),
    ensures
        published(pmap@, cfg.pool_uuid_map, out@),
{
    pmap.samples(&cfg.pool_uuid_map)
}

/// Counts the session `s` of pool `id` under its type in lower case, whether
/// the type is a known one or not, and says whether it is known.
pub fn set_desktop_pool_session_type_metrics(smap: &mut SessionTypeMap, s: &Session, id: &str) -> (known:
    bool)
    requires
        old(smap).wf(),
        count_of(old(smap)@, id@, lowercase(s.session_type@)) < i64::MAX,
    ensures
        final(smap).wf(),
        final(smap)@ == incremented(old(smap)@, id@, lowercase(s.session_type@)),
        known == label_set(session_type_values()).contains(s.session_type@),
{
    let values = known_session_type_values();
    let known = is_listed(s.session_type.as_str(), &values);
    let lc_type = to_lowercase(s.session_type.as_str());
    smap.increment(id, lc_type.as_str());
    known
}

/// Counts the session `s` of pool `id` under its protocol in lower case,
/// whether the protocol is a known one or not, and says whether it is known.
/// A session without a protocol is not counted.
pub fn set_desktop_pool_session_protocol_metrics(
    smap: &mut SessionProtocolMap,
    s: &Session,
    id: &str,
) -> (known: bool)
    requires
        old(smap).wf(),
        s.session_protocol.is_some() ==> count_of(
            old(smap)@,
            id@,
            lowercase(s.session_protocol.unwrap()@),
        ) < i64::MAX,
    ensures
        final(smap).wf(),
        final(smap)@ == match s.session_protocol {
            Some(v) => incremented(old(smap)@, id@, lowercase(v@)),
            None => old(smap)@,
        },
        known == match s.session_protocol {
            Some(v) => label_set(session_protocol_values()).contains(v@),
            None => true,
        },
{
    match &s.session_protocol {
        Some(v) => {
            let values = known_session_protocol_values();
            let known = is_listed(v.as_str(), &values);
            let vl = to_lowercase(v.as_str());
            smap.increment(id, vl.as_str());
            known
        },
        None => true,
    }
}

/// Counts the session `s` of pool `id` under its agent version.
pub fn set_agent_version_metrics(amap: &mut AgentVersionMap, s: &Session, id: &str)
    requires
        old(amap).wf(),
        count_of(old(amap)@, id@, s.agent_version@) < i64::MAX,
    ensures
        final(amap).wf(),
        final(amap)@ == incremented(old(amap)@, id@, s.agent_version@),
{
    amap.increment(id, s.agent_version.as_str());
}

/// Counts the session `s` of pool `id` under its state in lower case, whether
/// the state is a known one or not, and says whether it is known.
pub fn set_desktop_pool_session_metrics(smap: &mut SessionMap, s: &Session, id: &str) -> (known: bool)
    requires
        old(smap).wf(),
        count_of(old(smap)@, id@, lowercase(s.session_state@)) < i64::MAX,
    ensures
        final(smap).wf(),
        final(smap)@ == incremented(old(smap)@, id@, lowercase(s.session_state@)),
        known == label_set(session_state_values()).contains(s.session_state@),
{
    let values = known_session_state_values();
    let known = is_listed(s.session_state.as_str(), &values);
    let lc_state = to_lowercase(s.session_state.as_str());
    smap.increment(id, lc_state.as_str());
    known
}

/// The counters of the four session dimensions.
pub struct SessionMetrics {
    pub pool_sessions: SessionMap,
    pub agent_versions: AgentVersionMap,
    pub pool_protocols: SessionProtocolMap,
    pub types: SessionTypeMap,
}

/// The counts of the four session dimensions, each as a map from pool to
/// category to count.
pub struct SessionCounts {
    pub sessions: Map<Seq<char>, Map<Seq<char>, int>>,
    pub agents: Map<Seq<char>, Map<Seq<char>, int>>,
    pub protocols: Map<Seq<char>, Map<Seq<char>, int>>,
    pub types: Map<Seq<char>, Map<Seq<char>, int>>,
}

impl View for SessionMetrics {
    type V = SessionCounts;

    open spec fn view(&self) -> SessionCounts {
        SessionCounts {
            sessions: self.pool_sessions@,
            agents: self.agent_versions@,
            protocols: self.pool_protocols@,
            types: self.types@,
        }
    }
}

impl SessionCounts {
    /// Every count of every session dimension is zero.
    pub open spec fn all_zero(self) -> bool {
        &&& all_zero(self.sessions)
        &&& all_zero(self.agents)
        &&& all_zero(self.protocols)
        &&& all_zero(self.types)
    }

    /// Every count of every session dimension lies between zero and `bound`.
    pub open spec fn bounded(self, bound: int) -> bool {
        &&& bounded(self.sessions, bound)
        &&& bounded(self.agents, bound)
        &&& bounded(self.protocols, bound)
        &&& bounded(self.types, bound)
    }
}

/// The counts at the start of a reconciliation: every count that was there is
/// zero, and each of `pools` that is in scope has its buckets for session
/// states, protocols and types.
pub open spec fn prepared_sessions(
    before: SessionCounts,
    cfg: HorizonAPIConfig,
    pools: Seq<DesktopPool>,
) -> SessionCounts {
    SessionCounts {
        sessions: seeded_pools(
            flushed(before.sessions),
            cfg.only_set(),
            cfg.skip_set(),
            pools,
            label_set(session_state_labels()),
        ),
        agents: flushed(before.agents),
        protocols: seeded_pools(
            flushed(before.protocols),
            cfg.only_set(),
            cfg.skip_set(),
            pools,
            label_set(session_protocol_labels()),
        ),
        types: seeded_pools(
            flushed(before.types),
            cfg.only_set(),
            cfg.skip_set(),
            pools,
            label_set(session_type_labels()),
        ),
    }
}

/// The counts after the session `s` was looked at. A session without a pool,
/// or of a pool that is out of scope, changes nothing. Any other is counted
/// once in each dimension, under its values in lower case (the agent version
/// as it stands), whether they are known values or not; a session without a
/// protocol is not counted by protocol.
pub open spec fn counted_session(before: SessionCounts, cfg: HorizonAPIConfig, s: Session) -> SessionCounts {
    match s.desktop_pool_id {
        None => before,
        Some(pool) => if !cfg.selects(pool@) {
            before
        } else {
            SessionCounts {
                sessions: incremented(before.sessions, pool@, lowercase(s.session_state@)),
                agents: incremented(before.agents, pool@, s.agent_version@),
                protocols: match s.session_protocol {
                    Some(v) => incremented(before.protocols, pool@, lowercase(v@)),
                    None => before.protocols,
                },
                types: incremented(before.types, pool@, lowercase(s.session_type@)),
            }
        },
    }
}

/// The counts after each of `sessions` was looked at, in turn.
pub open spec fn counted_sessions(
    before: SessionCounts,
    cfg: HorizonAPIConfig,
    sessions: Seq<Session>,
) -> SessionCounts
    decreases sessions.len(),
{
    if sessions.len() == 0 {
        before
    } else {
        counted_session(counted_sessions(before, cfg, sessions.drop_last()), cfg, sessions.last())
    }
}

/// The warnings that the session `s` earns: one where it has no pool; none
/// where its pool is out of scope; else one for each of state, protocol and
/// type whose value is not a known one, in this order.
pub open spec fn session_anomalies(cfg: HorizonAPIConfig, s: Session) -> Seq<AnomalyView> {
    match s.desktop_pool_id {
        None => seq![AnomalyView::MissingPool { session: s.id@ }],
        Some(pool) => if !cfg.selects(pool@) {
            Seq::empty()
        } else {
            unknown_value(Dimension::SessionState, s.id@, s.session_state@, session_state_values())
                + (match s.session_protocol {
                Some(v) => unknown_value(
                    Dimension::SessionProtocol,
                    s.id@,
                    v@,
                    session_protocol_values(),
                ),
                None => Seq::empty(),
            }) + unknown_value(
                Dimension::SessionType,
                s.id@,
                s.session_type@,
                session_type_values(),
            )
        },
    }
}

/// The warnings that `sessions` earn, session by session.
pub open spec fn sessions_anomalies(cfg: HorizonAPIConfig, sessions: Seq<Session>) -> Seq<AnomalyView>
    decreases sessions.len(),
{
    if sessions.len() == 0 {
        Seq::empty()
    } else {
        sessions_anomalies(cfg, sessions.drop_last()) + session_anomalies(cfg, sessions.last())
    }
}

impl SessionMetrics {
    /// Each of the four matrices is well formed.
    pub open spec fn wf(&self) -> bool {
        &&& self.pool_sessions.wf()
        &&& self.agent_versions.wf()
        &&& self.pool_protocols.wf()
        &&& self.types.wf()
    }

    /// Counters that know no pool.
    pub fn new() -> (state: SessionMetrics)
        ensures
            state.wf(),
            state@.sessions == Map::<Seq<char>, Map<Seq<char>, int>>::empty(),
            state@.agents == Map::<Seq<char>, Map<Seq<char>, int>>::empty(),
            state@.protocols == Map::<Seq<char>, Map<Seq<char>, int>>::empty(),
            state@.types == Map::<Seq<char>, Map<Seq<char>, int>>::empty(),
    {
        SessionMetrics {
            pool_sessions: CounterMatrix::new(),
            agent_versions: CounterMatrix::new(),
            pool_protocols: CounterMatrix::new(),
            types: CounterMatrix::new(),
        }
    }
}

/// Looking at one session raises no count by more than one.
pub proof fn lemma_counted_session_bounded(
    before: SessionCounts,
    cfg: HorizonAPIConfig,
    s: Session,
    bound: int,
)
    requires
        0 <= bound,
        before.bounded(bound),
    ensures
        counted_session(before, cfg, s).bounded(bound + 1),
{
    lemma_incremented_bounded(before.sessions, seq![], seq![], bound);
    lemma_incremented_bounded(before.agents, seq![], seq![], bound);
    lemma_incremented_bounded(before.protocols, seq![], seq![], bound);
    lemma_incremented_bounded(before.types, seq![], seq![], bound);
    if s.desktop_pool_id.is_some() {
        let pool = s.desktop_pool_id.unwrap()@;
        lemma_incremented_bounded(before.sessions, pool, lowercase(s.session_state@), bound);
        lemma_incremented_bounded(before.agents, pool, s.agent_version@, bound);
        lemma_incremented_bounded(before.types, pool, lowercase(s.session_type@), bound);
        if s.session_protocol.is_some() {
            lemma_incremented_bounded(
                before.protocols,
                pool,
                lowercase(s.session_protocol.unwrap()@),
                bound,
            );
        }
    }
}

/// Looks at one session: counts it in each dimension if it has a pool that is
/// in scope, and notes what is worth a warning.
pub fn classify_session(
    state: &mut SessionMetrics,
    cfg: &Configuration,
    s: &Session,
    warnings: &mut Vec<Anomaly>,
)
    requires
        old(state).wf(),
        old(state)@.bounded(i64::MAX - 1),
    ensures
        final(state).wf(),
        final(state)@ == counted_session(old(state)@, cfg.horizon_api, *s),
        anomaly_views(final(warnings)@) == anomaly_views(old(warnings)@) + session_anomalies(
            cfg.horizon_api,
            *s,
        ),
{
    let ghost before = state@;
    let ghost noted = anomaly_views(warnings@);
    let ghost bound = i64::MAX - 1;
    match &s.desktop_pool_id {
        Some(dp_id) => {
            if in_scope(
                dp_id.as_str(),
                &cfg.horizon_api.only_pools_set,
                &cfg.horizon_api.skip_pools_set,
            ) {
                proof {
                    lemma_incremented_bounded(
                        before.sessions,
                        dp_id@,
                        lowercase(s.session_state@),
                        bound,
                    );
                    lemma_incremented_bounded(before.agents, dp_id@, s.agent_version@, bound);
                    lemma_incremented_bounded(
                        before.types,
                        dp_id@,
                        lowercase(s.session_type@),
                        bound,
                    );
                    if s.session_protocol.is_some() {
                        lemma_incremented_bounded(
                            before.protocols,
                            dp_id@,
                            lowercase(s.session_protocol.unwrap()@),
                            bound,
                        );
                    }
                }
                let known_state = set_desktop_pool_session_metrics(
                    &mut state.pool_sessions,
                    s,
                    dp_id.as_str(),
                );
                note_unknown(warnings, known_state, Dimension::SessionState, &s.id, &s.session_state);
                set_agent_version_metrics(&mut state.agent_versions, s, dp_id.as_str());
                let known_protocol = set_desktop_pool_session_protocol_metrics(
                    &mut state.pool_protocols,
                    s,
                    dp_id.as_str(),
                );
                match &s.session_protocol {
                    Some(v) => {
                        note_unknown(warnings, known_protocol, Dimension::SessionProtocol, &s.id, v);
                    },
                    None => {},
                }
                let known_type = set_desktop_pool_session_type_metrics(
                    &mut state.types,
                    s,
                    dp_id.as_str(),
                );
                note_unknown(warnings, known_type, Dimension::SessionType, &s.id, &s.session_type);
                assert(anomaly_views(warnings@) =~= noted + session_anomalies(cfg.horizon_api, *s));
            } else {
                assert(anomaly_views(warnings@) =~= noted + session_anomalies(cfg.horizon_api, *s));
            }
        },
        None => {
            warnings.push(Anomaly::MissingPool { session: s.id.clone() });
            assert(anomaly_views(warnings@) =~= noted + session_anomalies(cfg.horizon_api, *s));
        },
    }
}

/// The samples of the four session dimensions, for the metric sink.
pub struct SessionSamples {
    pub sessions: Vec<Sample>,
    pub agent_versions: Vec<Sample>,
    pub protocols: Vec<Sample>,
    pub types: Vec<Sample>,
}

impl SessionSamples {
    /// The samples hold every bucket of `counts` once, under the display names
    /// that `cfg` gives.
    pub open spec fn publishes(&self, counts: SessionCounts, cfg: HorizonAPIConfig) -> bool {
        &&& published(counts.sessions, cfg.pool_uuid_map, self.sessions@)
        &&& published(counts.agents, cfg.pool_uuid_map, self.agent_versions@)
        &&& published(counts.protocols, cfg.pool_uuid_map, self.protocols@)
        &&& published(counts.types, cfg.pool_uuid_map, self.types@)
    }
}

/// What one reconciliation of the session dimensions hands on: the samples for
/// the metric sink, and the warnings.
pub struct SessionReport {
    pub samples: SessionSamples,
    pub warnings: Vec<Anomaly>,
}

/// The first half of a reconciliation, which comes before the sessions are
/// fetched: every count is set to zero, and each of `pools` that is in scope
/// gets its buckets for session states, protocols and types unless it has
/// them already.
pub fn session_metric_prepare(
    state: &mut SessionMetrics,
    cfg: &Configuration,
    pools: &Vec<DesktopPool>,
)
    requires
        old(state).wf(),
    ensures
        final(state).wf(),
        final(state)@ == prepared_sessions(old(state)@, cfg.horizon_api, pools@),
        final(state)@.all_zero(),
{
    let ghost before = state@;
    flush_session_map(&mut state.pool_sessions);
    flush_agent_version_map(&mut state.agent_versions);
    flush_session_protocol_map(&mut state.pool_protocols);
    flush_session_type_map(&mut state.types);
    proof {
        lemma_flushed_all_zero(before.sessions);
        lemma_flushed_all_zero(before.agents);
        lemma_flushed_all_zero(before.protocols);
        lemma_flushed_all_zero(before.types);
    }
    let mut i: usize = 0;
    while i < pools.len()
        invariant
            i <= pools@.len(),
            state.wf(),
            state@.all_zero(),
            state@ == prepared_sessions(before, cfg.horizon_api, pools@.take(i as int)),
        decreases pools@.len() - i,
    {
        let ghost current = state@;
        assert(pools@.take(i + 1).drop_last() =~= pools@.take(i as int));
        assert(pools@.take(i + 1).last() == pools@[i as int]);
        if in_scope(
            pools[i].id.as_str(),
            &cfg.horizon_api.only_pools_set,
            &cfg.horizon_api.skip_pools_set,
        ) {
            initialise_session_map(&mut state.pool_sessions, pools[i].id.as_str());
            initialise_session_protocol_map(&mut state.pool_protocols, pools[i].id.as_str());
            initialise_session_type_map(&mut state.types, pools[i].id.as_str());
            proof {
                lemma_seeded_all_zero(
                    current.sessions,
                    pools@[i as int].id@,
                    label_set(session_state_labels()),
                );
                lemma_seeded_all_zero(
                    current.protocols,
                    pools@[i as int].id@,
                    label_set(session_protocol_labels()),
                );
                lemma_seeded_all_zero(
                    current.types,
                    pools@[i as int].id@,
                    label_set(session_type_labels()),
                );
            }
        }
        i = i + 1;
    }
    assert(pools@.take(i as int) =~= pools@);
}

/// The second half of a reconciliation, which comes after the sessions were
/// fetched: each session is counted. The warnings come back.
pub fn session_metric_collect(
    state: &mut SessionMetrics,
    cfg: &Configuration,
    sessions: &Vec<Session>,
) -> (warnings: Vec<Anomaly>)
    requires
        old(state).wf(),
        sessions@.len() <= i64::MAX,
        old(state)@.bounded(i64::MAX - sessions@.len()),
    ensures
        final(state).wf(),
        final(state)@ == counted_sessions(old(state)@, cfg.horizon_api, sessions@),
        anomaly_views(warnings@) == sessions_anomalies(cfg.horizon_api, sessions@),
{
    let ghost before = state@;
    let mut warnings: Vec<Anomaly> = Vec::new();
    let mut i: usize = 0;
    assert(anomaly_views(warnings@) =~= sessions_anomalies(cfg.horizon_api, sessions@.take(0)));
    while i < sessions.len()
        invariant
            i <= sessions@.len(),
            sessions@.len() <= i64::MAX,
            state.wf(),
            state@.bounded(i64::MAX - sessions@.len() + i),
            state@ == counted_sessions(before, cfg.horizon_api, sessions@.take(i as int)),
            anomaly_views(warnings@) == sessions_anomalies(
                cfg.horizon_api,
                sessions@.take(i as int),
            ),
        decreases sessions@.len() - i,
    {
        assert(sessions@.take(i + 1).drop_last() =~= sessions@.take(i as int));
        assert(sessions@.take(i + 1).last() == sessions@[i as int]);
        proof {
            lemma_counted_session_bounded(
                state@,
                cfg.horizon_api,
                sessions@[i as int],
                i64::MAX - sessions@.len() + i,
            );
            lemma_bounded_wider(state@, i64::MAX - sessions@.len() + i, i64::MAX - 1);
        }
        classify_session(state, cfg, &sessions[i], &mut warnings);
        i = i + 1;
    }
    assert(sessions@.take(i as int) =~= sessions@);
    warnings
}

/// Hands out every bucket of the four session dimensions.
pub fn session_metric_publish(state: &SessionMetrics, cfg: &Configuration) -> (samples: SessionSamples)
    requires
        state.wf(),
    ensures
        samples.publishes(state@, cfg.horizon_api),
{
    SessionSamples {
        sessions: prometheus_pool_sessions(&state.pool_sessions, &cfg.horizon_api),
        agent_versions: prometheus_agent_versions(&state.agent_versions, &cfg.horizon_api),
        protocols: prometheus_pool_session_protocols(&state.pool_protocols, &cfg.horizon_api),
        types: prometheus_pool_session_types(&state.types, &cfg.horizon_api),
    }
}

/// Counts that lie within a bound lie within every wider one.
pub proof fn lemma_bounded_wider(counts: SessionCounts, bound: int, wider: int)
    requires
        counts.bounded(bound),
        bound <= wider,
    ensures
        counts.bounded(wider),
{
}

/// One reconciliation of the session dimensions, given how fetching the
/// sessions ended. The counts are set to zero and the pools seeded first. A
/// failed fetch leaves them so and is handed back; after a fetch that
/// succeeded each session is counted and every bucket handed out.
pub fn session_metric_update(
    state: &mut SessionMetrics,
    cfg: &Configuration,
    pools: &Vec<DesktopPool>,
    fetched: Result<Vec<Session>, String>,
) -> (done: Result<SessionReport, String>)
    requires
        old(state).wf(),
        fetched.is_ok() ==> fetched.unwrap()@.len() <= i64::MAX,
    ensures
        final(state).wf(),
        match fetched {
            Ok(sessions) => {
                &&& done.is_ok()
                &&& final(state)@ == counted_sessions(
                    prepared_sessions(old(state)@, cfg.horizon_api, pools@),
                    cfg.horizon_api,
                    sessions@,
                )
                &&& done.unwrap().samples.publishes(final(state)@, cfg.horizon_api)
                &&& anomaly_views(done.unwrap().warnings@) == sessions_anomalies(
                    cfg.horizon_api,
                    sessions@,
                )
            },
            Err(error) => {
                &&& done == Err::<SessionReport, String>(error)
                &&& final(state)@ == prepared_sessions(old(state)@, cfg.horizon_api, pools@)
                &&& final(state)@.all_zero()
            },
        },
{
    session_metric_prepare(state, cfg, pools);
    match fetched {
        Ok(sessions) => {
            let warnings = session_metric_collect(state, cfg, &sessions);
            let samples = session_metric_publish(state, cfg);
            Ok(SessionReport { samples, warnings })
        },
        Err(error) => Err(error),
    }
}

} // verus!
