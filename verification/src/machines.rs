//! The machine dimensions: machines by state, by operating system and by
//! architecture, each counted per desktop pool.

use vstd::prelude::*;
use crate::configuration::{in_scope, Configuration, HorizonAPIConfig};
use crate::constants::{
    known_machine_arch_labels, known_machine_arch_values, known_machine_os_labels,
    known_machine_os_values, known_machine_state_labels, known_machine_state_values,
    machine_arch_labels, machine_arch_values, machine_os_labels, machine_os_values,
    machine_state_labels, machine_state_values,
};
use crate::data::{DesktopPool, Machine};
use crate::matrix::{
    all_zero, bounded, count_of, flushed, incremented, label_set, lemma_flushed_all_zero,
    lemma_incremented_bounded, lemma_seeded_all_zero, published, seeded, seeded_pools,
    CounterMatrix, Sample,
};
use crate::report::{anomaly_views, note_unknown, unknown_value, Anomaly, AnomalyView, Dimension};
use crate::text::{is_listed, lowercase, to_lowercase};

verus! {

/// Pool to machine state to count.
pub type MachineStateMap = CounterMatrix;

/// Pool to operating system to count.
pub type MachineOSMap = CounterMatrix;

/// Pool to architecture to count.
pub type MachineArchMap = CounterMatrix;

/// Sets every count of architectures to zero.
pub fn flush_machine_arch_map(m: &mut MachineArchMap)
    requires
        old(m).wf(),
    ensures
        final(m).wf(),
        final(m)@ == flushed(old(m)@),
{
    m.flush();
}

/// Sets every count of operating systems to zero.
pub fn flush_machine_os_map(m: &mut MachineOSMap)
    requires
        old(m).wf(),
    ensures
        final(m).wf(),
        final(m)@ == flushed(old(m)@),
{
    m.flush();
}

/// Sets every count of machine states to zero.
pub fn flush_machine_state_map(m: &mut MachineStateMap)
    requires
        old(m).wf(),
    ensures
        final(m).wf(),
        final(m)@ == flushed(old(m)@),
{
    m.flush();
}

/// Brings the pool `p` into the matrix with every known architecture at zero;
/// a pool that is there already keeps its counts.
pub fn initialise_machine_arch_map(m: &mut MachineArchMap, p: &str)
    requires
        old(m).wf(),
    ensures
        final(m).wf(),
        final(m)@ == seeded(old(m)@, p@, label_set(machine_arch_labels())),
{
    let labels = known_machine_arch_labels();
    m.seed(p, &labels);
}

/// Brings the pool `p` into the matrix with every known operating system at
/// zero; a pool that is there already keeps its counts.
pub fn initialise_machine_os_map(m: &mut MachineOSMap, p: &str)
    requires
        old(m).wf(),
    ensures
        final(m).wf(),
        final(m)@ == seeded(old(m)@, p@, label_set(machine_os_labels())),
{
    let labels = known_machine_os_labels();
    m.seed(p, &labels);
}

/// Brings the pool `p` into the matrix with every known machine state at zero;
/// a pool that is there already keeps its counts.
pub fn initialise_machine_state_map(m: &mut MachineStateMap, p: &str)
    requires
        old(m).wf(),
    ensures
        final(m).wf(),
        final(m)@ == seeded(old(m)@, p@, label_set(machine_state_labels())),
{
    let labels = known_machine_state_labels();
    m.seed(p, &labels);
}

/// Every bucket of architectures, for the metric sink.
pub fn prometheus_machine_arch(amap: &MachineArchMap, cfg: &HorizonAPIConfig) -> (out: Vec<Sample>)
    requires
        amap.wf(),
    ensures
        published(amap@, cfg.pool_uuid_map, out@),
{
    amap.samples(&cfg.pool_uuid_map)
}

/// Every bucket of operating systems, for the metric sink.
pub fn prometheus_machine_os(omap: &MachineOSMap, cfg: &HorizonAPIConfig) -> (out: Vec<Sample>)
    requires
        omap.wf(),
    ensures
        published(omap@, cfg.pool_uuid_map, out@),
{
    omap.samples(&cfg.pool_uuid_map)
}

/// Every bucket of machine states, for the metric sink.
pub fn prometheus_machine_states(mmap: &MachineStateMap, cfg: &HorizonAPIConfig) -> (out: Vec<Sample>)
    requires
        mmap.wf(),
    ensures
        published(mmap@, cfg.pool_uuid_map, out@),
{
    mmap.samples(&cfg.pool_uuid_map)
}

/// Counts the machine `m` under its architecture in lower case, whether the
/// architecture is a known one or not, and says whether it is known. A machine
/// without an architecture is not counted.
pub fn set_machine_arch_metrics(amap: &mut MachineArchMap, m: &Machine) -> (known: bool)
    requires
        old(amap).wf(),
        m.operating_system_architecture.is_some() ==> count_of(
            old(amap)@,
            m.desktop_pool_id@,
            lowercase(m.operating_system_architecture.unwrap()@),
        ) < i64::MAX,
    ensures
        final(amap).wf(),
        final(amap)@ == match m.operating_system_architecture {
            Some(arch) => incremented(old(amap)@, m.desktop_pool_id@, lowercase(arch@)),
            None => old(amap)@,
        },
        known == match m.operating_system_architecture {
            Some(arch) => label_set(machine_arch_values()).contains(arch@),
            None => true,
        },
{
    match &m.operating_system_architecture {
        Some(arch) => {
            let values = known_machine_arch_values();
            let known = is_listed(arch.as_str(), &values);
            let lc_arch = to_lowercase(arch.as_str());
            amap.increment(m.desktop_pool_id.as_str(), lc_arch.as_str());
            known
        },
        None => true,
    }
}

/// Counts the machine `m` under its operating system in lower case, whether
/// the operating system is a known one or not, and says whether it is known.
/// A machine without an operating system is not counted.
pub fn set_machine_os_metrics(omap: &mut MachineOSMap, m: &Machine) -> (known: bool)
    requires
        old(omap).wf(),
        m.operating_system.is_some() ==> count_of(
            old(omap)@,
            m.desktop_pool_id@,
            lowercase(m.operating_system.unwrap()@),
        ) < i64::MAX,
    ensures
        final(omap).wf(),
        final(omap)@ == match m.operating_system {
            Some(os) => incremented(old(omap)@, m.desktop_pool_id@, lowercase(os@)),
            None => old(omap)@,
        },
        known == match m.operating_system {
            Some(os) => label_set(machine_os_values()).contains(os@),
            None => true,
        },
{
    match &m.operating_system {
        Some(os) => {
            let values = known_machine_os_values();
            let known = is_listed(os.as_str(), &values);
            let lc_os = to_lowercase(os.as_str());
            omap.increment(m.desktop_pool_id.as_str(), lc_os.as_str());
            known
        },
        None => true,
    }
}

/// Counts the machine `m` under its state in lower case, whether the state is
/// a known one or not, and says whether it is known.
pub fn set_machine_state_metrics(mmap: &mut MachineStateMap, m: &Machine) -> (known: bool)
    requires
        old(mmap).wf(),
        count_of(old(mmap)@, m.desktop_pool_id@, lowercase(m.state@)) < i64::MAX,
    ensures
        final(mmap).wf(),
        final(mmap)@ == incremented(old(mmap)@, m.desktop_pool_id@, lowercase(m.state@)),
        known == label_set(machine_state_values()).contains(m.state@),
{
    let values = known_machine_state_values();
    let known = is_listed(m.state.as_str(), &values);
    let lc_state = to_lowercase(m.state.as_str());
    mmap.increment(m.desktop_pool_id.as_str(), lc_state.as_str());
    known
}

/// The counters of the three machine dimensions.
pub struct MachineMetrics {
    pub mstates: MachineStateMap,
    pub os_map: MachineOSMap,
    pub arch_map: MachineArchMap,
}

/// The counts of the three machine dimensions, each as a map from pool to
/// category to count.
pub struct MachineCounts {
    pub states: Map<Seq<char>, Map<Seq<char>, int>>,
    pub os: Map<Seq<char>, Map<Seq<char>, int>>,
    pub arch: Map<Seq<char>, Map<Seq<char>, int>>,
}

impl View for MachineMetrics {
    type V = MachineCounts;

    open spec fn view(&self) -> MachineCounts {
        MachineCounts { states: self.mstates@, os: self.os_map@, arch: self.arch_map@ }
    }
}

impl MachineCounts {
    /// Every count of every machine dimension is zero.
    pub open spec fn all_zero(self) -> bool {
        &&& all_zero(self.states)
        &&& all_zero(self.os)
        &&& all_zero(self.arch)
    }

    /// Every count of every machine dimension lies between zero and `bound`.
    pub open spec fn bounded(self, bound: int) -> bool {
        &&& bounded(self.states, bound)
        &&& bounded(self.os, bound)
        &&& bounded(self.arch, bound)
    }
}

/// The counts at the start of a reconciliation: every count that was there is
/// zero, and each of `pools` that is in scope has its buckets for machine
/// states, operating systems and architectures.
pub open spec fn prepared_machines(
    before: MachineCounts,
    cfg: HorizonAPIConfig,
    pools: Seq<DesktopPool>,
) -> MachineCounts {
    MachineCounts {
        states: seeded_pools(
            flushed(before.states),
            cfg.only_set(),
            cfg.skip_set(),
            pools,
            label_set(machine_state_labels()),
        ),
        os: seeded_pools(
            flushed(before.os),
            cfg.only_set(),
            cfg.skip_set(),
            pools,
            label_set(machine_os_labels()),
        ),
        arch: seeded_pools(
            flushed(before.arch),
            cfg.only_set(),
            cfg.skip_set(),
            pools,
            label_set(machine_arch_labels()),
        ),
    }
}

/// The counts after the machine `m` was looked at. A machine of a pool that is
/// out of scope changes nothing. Any other is counted once in each dimension
/// for which it has a value, under that value in lower case, whether it is a
/// known value or not.
pub open spec fn counted_machine(before: MachineCounts, cfg: HorizonAPIConfig, m: Machine) -> MachineCounts {
    if !cfg.selects(m.desktop_pool_id@) {
        before
    } else {
        MachineCounts {
            states: incremented(before.states, m.desktop_pool_id@, lowercase(m.state@)),
            os: match m.operating_system {
                Some(os) => incremented(before.os, m.desktop_pool_id@, lowercase(os@)),
                None => before.os,
            },
            arch: match m.operating_system_architecture {
                Some(arch) => incremented(before.arch, m.desktop_pool_id@, lowercase(arch@)),
                None => before.arch,
            },
        }
    }
}

/// The counts after each of `machines` was looked at, in turn.
pub open spec fn counted_machines(
    before: MachineCounts,
    cfg: HorizonAPIConfig,
    machines: Seq<Machine>,
) -> MachineCounts
    decreases machines.len(),
{
    if machines.len() == 0 {
        before
    } else {
        counted_machine(counted_machines(before, cfg, machines.drop_last()), cfg, machines.last())
    }
}

/// The warnings that the machine `m` earns: none where its pool is out of
/// scope; else one for each of state, operating system and architecture whose
/// value is not a known one, in this order.
pub open spec fn machine_anomalies(cfg: HorizonAPIConfig, m: Machine) -> Seq<AnomalyView> {
    if !cfg.selects(m.desktop_pool_id@) {
        Seq::empty()
    } else {
        unknown_value(Dimension::MachineState, m.id@, m.state@, machine_state_values()) + (
        match m.operating_system {
            Some(os) => unknown_value(Dimension::MachineOs, m.id@, os@, machine_os_values()),
            None => Seq::empty(),
        }) + (match m.operating_system_architecture {
            Some(arch) => unknown_value(Dimension::MachineArch, m.id@, arch@, machine_arch_values()),
            None => Seq::empty(),
        })
    }
}

/// The warnings that `machines` earn, machine by machine.
pub open spec fn machines_anomalies(cfg: HorizonAPIConfig, machines: Seq<Machine>) -> Seq<AnomalyView>
    decreases machines.len(),
{
    if machines.len() == 0 {
        Seq::empty()
    } else {
        machines_anomalies(cfg, machines.drop_last()) + machine_anomalies(cfg, machines.last())
    }
}

impl MachineMetrics {
    /// Each of the three matrices is well formed.
    pub open spec fn wf(&self) -> bool {
        &&& self.mstates.wf()
        &&& self.os_map.wf()
        &&& self.arch_map.wf()
    }

    /// Counters that know no pool.
    pub fn new() -> (state: MachineMetrics)
        ensures
            state.wf(),
            state@.states == Map::<Seq<char>, Map<Seq<char>, int>>::empty(),
            state@.os == Map::<Seq<char>, Map<Seq<char>, int>>::empty(),
            state@.arch == Map::<Seq<char>, Map<Seq<char>, int>>::empty(),
    {
        MachineMetrics {
            mstates: CounterMatrix::new(),
            os_map: CounterMatrix::new(),
            arch_map: CounterMatrix::new(),
        }
    }
}

/// Looking at one machine raises no count by more than one.
pub proof fn lemma_counted_machine_bounded(
    before: MachineCounts,
    cfg: HorizonAPIConfig,
    m: Machine,
    bound: int,
)
    requires
        0 <= bound,
        before.bounded(bound),
    ensures
        counted_machine(before, cfg, m).bounded(bound + 1),
{
    let pool = m.desktop_pool_id@;
    lemma_incremented_bounded(before.states, pool, lowercase(m.state@), bound);
    lemma_incremented_bounded(before.os, seq![], seq![], bound);
    lemma_incremented_bounded(before.arch, seq![], seq![], bound);
    if m.operating_system.is_some() {
        lemma_incremented_bounded(before.os, pool, lowercase(m.operating_system.unwrap()@), bound);
    }
    if m.operating_system_architecture.is_some() {
        lemma_incremented_bounded(
            before.arch,
            pool,
            lowercase(m.operating_system_architecture.unwrap()@),
            bound,
        );
    }
}

/// Counts that lie within a bound lie within every wider one.
pub proof fn lemma_bounded_wider(counts: MachineCounts, bound: int, wider: int)
    requires
        counts.bounded(bound),
        bound <= wider,
    ensures
        counts.bounded(wider),
{
}

/// Looks at one machine: counts it in each dimension if its pool is in scope,
/// and notes what is worth a warning.
pub fn classify_machine(
    state: &mut MachineMetrics,
    cfg: &Configuration,
    m: &Machine,
    warnings: &mut Vec<Anomaly>,
)
    requires
        old(state).wf(),
        old(state)@.bounded(i64::MAX - 1),
    ensures
        final(state).wf(),
        final(state)@ == counted_machine(old(state)@, cfg.horizon_api, *m),
        anomaly_views(final(warnings)@) == anomaly_views(old(warnings)@) + machine_anomalies(
            cfg.horizon_api,
            *m,
        ),
{
    let ghost before = state@;
    let ghost noted = anomaly_views(warnings@);
    let ghost bound = i64::MAX - 1;
    if in_scope(
        m.desktop_pool_id.as_str(),
        &cfg.horizon_api.only_pools_set,
        &cfg.horizon_api.skip_pools_set,
    ) {
        proof {
            let pool = m.desktop_pool_id@;
            lemma_incremented_bounded(before.states, pool, lowercase(m.state@), bound);
            if m.operating_system.is_some() {
                lemma_incremented_bounded(
                    before.os,
                    pool,
                    lowercase(m.operating_system.unwrap()@),
                    bound,
                );
            }
            if m.operating_system_architecture.is_some() {
                lemma_incremented_bounded(
                    before.arch,
                    pool,
                    lowercase(m.operating_system_architecture.unwrap()@),
                    bound,
                );
            }
        }
        let known_state = set_machine_state_metrics(&mut state.mstates, m);
        note_unknown(warnings, known_state, Dimension::MachineState, &m.id, &m.state);
        let known_os = set_machine_os_metrics(&mut state.os_map, m);
        match &m.operating_system {
            Some(os) => {
                note_unknown(warnings, known_os, Dimension::MachineOs, &m.id, os);
            },
            None => {},
        }
        let known_arch = set_machine_arch_metrics(&mut state.arch_map, m);
        match &m.operating_system_architecture {
            Some(arch) => {
                note_unknown(warnings, known_arch, Dimension::MachineArch, &m.id, arch);
            },
            None => {},
        }
        assert(anomaly_views(warnings@) =~= noted + machine_anomalies(cfg.horizon_api, *m));
    } else {
        assert(anomaly_views(warnings@) =~= noted + machine_anomalies(cfg.horizon_api, *m));
    }
}

/// The samples of the three machine dimensions, for the metric sink.
pub struct MachineSamples {
    pub states: Vec<Sample>,
    pub os: Vec<Sample>,
    pub arch: Vec<Sample>,
}

impl MachineSamples {
    /// The samples hold every bucket of `counts` once, under the display names
    /// that `cfg` gives.
    pub open spec fn publishes(&self, counts: MachineCounts, cfg: HorizonAPIConfig) -> bool {
        &&& published(counts.states, cfg.pool_uuid_map, self.states@)
        &&& published(counts.os, cfg.pool_uuid_map, self.os@)
        &&& published(counts.arch, cfg.pool_uuid_map, self.arch@)
    }
}

/// What one reconciliation of the machine dimensions hands on: the samples for
/// the metric sink, and the warnings.
pub struct MachineReport {
    pub samples: MachineSamples,
    pub warnings: Vec<Anomaly>,
}

/// The first half of a reconciliation, which comes before the machines are
/// fetched: every count is set to zero, and each of `pools` that is in scope
/// gets its buckets for machine states, operating systems and architectures
/// unless it has them already.
pub fn machine_metric_prepare(
    state: &mut MachineMetrics,
    cfg: &Configuration,
    pools: &Vec<DesktopPool>,
)
    requires
        old(state).wf(),
    ensures
        final(state).wf(),
        final(state)@ == prepared_machines(old(state)@, cfg.horizon_api, pools@),
        final(state)@.all_zero(),
{
    let ghost before = state@;
    flush_machine_state_map(&mut state.mstates);
    flush_machine_os_map(&mut state.os_map);
    flush_machine_arch_map(&mut state.arch_map);
    proof {
        lemma_flushed_all_zero(before.states);
        lemma_flushed_all_zero(before.os);
        lemma_flushed_all_zero(before.arch);
    }
    let mut i: usize = 0;
    while i < pools.len()
        invariant
            i <= pools@.len(),
            state.wf(),
            state@.all_zero(),
            state@ == prepared_machines(before, cfg.horizon_api, pools@.take(i as int)),
        decreases pools@.len() - i,
    {
        let ghost current = state@;
        assert(pools@.take(i + 1).drop_last() =~= pools@.take(i as int));
        assert(pools@.take(i + 1).last() == pools@[i as int]);
        if in_scope(
            pools[i].id.as_str(),
            &cfg.horizon_api.only_pools_set,
            &cfg.horizon_api.skip_pools_set,
        ) {
            initialise_machine_state_map(&mut state.mstates, pools[i].id.as_str());
            initialise_machine_os_map(&mut state.os_map, pools[i].id.as_str());
            initialise_machine_arch_map(&mut state.arch_map, pools[i].id.as_str());
            proof {
                lemma_seeded_all_zero(
                    current.states,
                    pools@[i as int].id@,
                    label_set(machine_state_labels()),
                );
                lemma_seeded_all_zero(
                    current.os,
                    pools@[i as int].id@,
                    label_set(machine_os_labels()),
                );
                lemma_seeded_all_zero(
                    current.arch,
                    pools@[i as int].id@,
                    label_set(machine_arch_labels()),
                );
            }
        }
        i = i + 1;
    }
    assert(pools@.take(i as int) =~= pools@);
}

/// The second half of a reconciliation, which comes after the machines were
/// fetched: each machine is counted. The warnings come back.
pub fn machine_metric_collect(
    state: &mut MachineMetrics,
    cfg: &Configuration,
    machines: &Vec<Machine>,
) -> (warnings: Vec<Anomaly>)
    requires
        old(state).wf(),
        machines@.len() <= i64::MAX,
        old(state)@.bounded(i64::MAX - machines@.len()),
    ensures
        final(state).wf(),
        final(state)@ == counted_machines(old(state)@, cfg.horizon_api, machines@),
        anomaly_views(warnings@) == machines_anomalies(cfg.horizon_api, machines@),
{
    let ghost before = state@;
    let mut warnings: Vec<Anomaly> = Vec::new();
    let mut i: usize = 0;
    assert(anomaly_views(warnings@) =~= machines_anomalies(cfg.horizon_api, machines@.take(0)));
    while i < machines.len()
        invariant
            i <= machines@.len(),
            machines@.len() <= i64::MAX,
            state.wf(),
            state@.bounded(i64::MAX - machines@.len() + i),
            state@ == counted_machines(before, cfg.horizon_api, machines@.take(i as int)),
            anomaly_views(warnings@) == machines_anomalies(
                cfg.horizon_api,
                machines@.take(i as int),
            ),
        decreases machines@.len() - i,
    {
        assert(machines@.take(i + 1).drop_last() =~= machines@.take(i as int));
        assert(machines@.take(i + 1).last() == machines@[i as int]);
        proof {
            lemma_counted_machine_bounded(
                state@,
                cfg.horizon_api,
                machines@[i as int],
                i64::MAX - machines@.len() + i,
            );
            lemma_bounded_wider(state@, i64::MAX - machines@.len() + i, i64::MAX - 1);
        }
        classify_machine(state, cfg, &machines[i], &mut warnings);
        i = i + 1;
    }
    assert(machines@.take(i as int) =~= machines@);
    warnings
}

/// Hands out every bucket of the three machine dimensions.
pub fn machine_metric_publish(state: &MachineMetrics, cfg: &Configuration) -> (samples: MachineSamples)
    requires
        state.wf(),
    ensures
        samples.publishes(state@, cfg.horizon_api),
{
    MachineSamples {
        states: prometheus_machine_states(&state.mstates, &cfg.horizon_api),
        os: prometheus_machine_os(&state.os_map, &cfg.horizon_api),
        arch: prometheus_machine_arch(&state.arch_map, &cfg.horizon_api),
    }
}

/// One reconciliation of the machine dimensions, given how fetching the
/// machines ended. The counts are set to zero and the pools seeded first. A
/// failed fetch leaves them so and is handed back; after a fetch that
/// succeeded each machine is counted and every bucket handed out.
pub fn machine_metric_update(
    state: &mut MachineMetrics,
    cfg: &Configuration,
    pools: &Vec<DesktopPool>,
    fetched: Result<Vec<Machine>, String>,
) -> (done: Result<MachineReport, String>)
    requires
        old(state).wf(),
        fetched.is_ok() ==> fetched.unwrap()@.len() <= i64::MAX,
    ensures
        final(state).wf(),
        match fetched {
            Ok(machines) => {
                &&& done.is_ok()
                &&& final(state)@ == counted_machines(
                    prepared_machines(old(state)@, cfg.horizon_api, pools@),
                    cfg.horizon_api,
                    machines@,
                )
                &&& done.unwrap().samples.publishes(final(state)@, cfg.horizon_api)
                &&& anomaly_views(done.unwrap().warnings@) == machines_anomalies(
                    cfg.horizon_api,
                    machines@,
                )
            },
            Err(error) => {
                &&& done == Err::<MachineReport, String>(error)
                &&& final(state)@ == prepared_machines(old(state)@, cfg.horizon_api, pools@)
                &&& final(state)@.all_zero()
            },
        },
{
    machine_metric_prepare(state, cfg, pools);
    match fetched {
        Ok(machines) => {
            let warnings = machine_metric_collect(state, cfg, &machines);
            let samples = machine_metric_publish(state, cfg);
            Ok(MachineReport { samples, warnings })
        },
        Err(error) => Err(error),
    }
}

} // verus!
