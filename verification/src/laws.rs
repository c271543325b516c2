//! What holds of the reconciliation as a whole.

use vstd::prelude::*;
use crate::configuration::{pool_in_scope, Configuration, HorizonAPIConfig};
use crate::data::{DesktopPool, Machine, Session};
use crate::constants::{
    machine_arch_labels, machine_os_labels, machine_state_labels, machine_state_values,
    session_protocol_labels, session_state_labels, session_state_values, session_type_labels,
};
use crate::machines::{
    counted_machine, counted_machines, machine_anomalies, machines_anomalies, prepared_machines,
    MachineCounts, MachineSamples,
};
use crate::report::{AnomalyView, Dimension};
use crate::exporter::{flushed_machines, flushed_sessions};
use crate::matrix::{
    all_zero, count_of, flushed, incremented, label_set, lemma_flushed_all_zero,
    lemma_seeded_pools_all_zero, published, row_of, seeded, seeded_pools, Sample,
};
use crate::sink::{gauge_key, with_samples};
use crate::sessions::{
    counted_session, counted_sessions, prepared_sessions, session_anomalies, sessions_anomalies,
    SessionCounts, SessionSamples,
};
use crate::text::lowercase;

verus! {

/// A configuration that names a pool both among the pools that alone are
/// wanted and among the pools to skip is not valid.
pub proof fn law_pool_in_both_lists_is_refused(cfg: Configuration, pool: Seq<char>)
    requires
        cfg.horizon_api.only_set().contains(pool),
        cfg.horizon_api.skip_set().contains(pool),
    ensures
        !cfg.valid(),
{
}

/// A pool that is to be skipped is out of scope, whatever the list of wanted
/// pools holds.
pub proof fn law_skipped_pool_is_out_of_scope(
    pool: Seq<char>,
    only: Set<Seq<char>>,
    skip: Set<Seq<char>>,
)
    requires
        skip.contains(pool),
    ensures
        !pool_in_scope(pool, only, skip),
{
}

/// Where pools are wanted alone, a pool that is not among them is out of scope.
pub proof fn law_unlisted_pool_is_out_of_scope(
    pool: Seq<char>,
    only: Set<Seq<char>>,
    skip: Set<Seq<char>>,
)
    requires
        only != Set::<Seq<char>>::empty(),
        !only.contains(pool),
    ensures
        !pool_in_scope(pool, only, skip),
{
}

/// Counting an entity touches the buckets of its pool alone, and takes no
/// pool away.
pub proof fn law_increment_touches_one_pool(
    m: Map<Seq<char>, Map<Seq<char>, int>>,
    pool: Seq<char>,
    category: Seq<char>,
    other: Seq<char>,
)
    requires
        other != pool,
    ensures
        incremented(m, pool, category).dom().contains(other) == m.dom().contains(other),
        row_of(incremented(m, pool, category), other) == row_of(m, other),
{
}

/// Whatever the sessions are, none of them changes a bucket of a pool that is
/// out of scope, in any of the session dimensions.
pub proof fn law_sessions_leave_out_of_scope_pool(
    before: SessionCounts,
    cfg: HorizonAPIConfig,
    sessions: Seq<Session>,
    pool: Seq<char>,
)
    requires
        !cfg.selects(pool),
    ensures
        ({
            let after = counted_sessions(before, cfg, sessions);
            &&& after.sessions.dom().contains(pool) == before.sessions.dom().contains(pool)
            &&& after.agents.dom().contains(pool) == before.agents.dom().contains(pool)
            &&& after.protocols.dom().contains(pool) == before.protocols.dom().contains(pool)
            &&& after.types.dom().contains(pool) == before.types.dom().contains(pool)
            &&& row_of(after.sessions, pool) == row_of(before.sessions, pool)
            &&& row_of(after.agents, pool) == row_of(before.agents, pool)
            &&& row_of(after.protocols, pool) == row_of(before.protocols, pool)
            &&& row_of(after.types, pool) == row_of(before.types, pool)
        }),
    decreases sessions.len(),
{
    if sessions.len() > 0 {
        law_sessions_leave_out_of_scope_pool(before, cfg, sessions.drop_last(), pool);
        let mid = counted_sessions(before, cfg, sessions.drop_last());
        let s = sessions.last();
        if s.desktop_pool_id.is_some() && cfg.selects(s.desktop_pool_id.unwrap()@) {
            let p = s.desktop_pool_id.unwrap()@;
            law_increment_touches_one_pool(mid.sessions, p, lowercase(s.session_state@), pool);
            law_increment_touches_one_pool(mid.agents, p, s.agent_version@, pool);
            law_increment_touches_one_pool(mid.types, p, lowercase(s.session_type@), pool);
            if s.session_protocol.is_some() {
                law_increment_touches_one_pool(
                    mid.protocols,
                    p,
                    lowercase(s.session_protocol.unwrap()@),
                    pool,
                );
            }
        }
    }
}

/// Whatever the machines are, none of them changes a bucket of a pool that is
/// out of scope, in any of the machine dimensions.
pub proof fn law_machines_leave_out_of_scope_pool(
    before: MachineCounts,
    cfg: HorizonAPIConfig,
    machines: Seq<Machine>,
    pool: Seq<char>,
)
    requires
        !cfg.selects(pool),
    ensures
        ({
            let after = counted_machines(before, cfg, machines);
            &&& after.states.dom().contains(pool) == before.states.dom().contains(pool)
            &&& after.os.dom().contains(pool) == before.os.dom().contains(pool)
            &&& after.arch.dom().contains(pool) == before.arch.dom().contains(pool)
            &&& row_of(after.states, pool) == row_of(before.states, pool)
            &&& row_of(after.os, pool) == row_of(before.os, pool)
            &&& row_of(after.arch, pool) == row_of(before.arch, pool)
        }),
    decreases machines.len(),
{
    if machines.len() > 0 {
        law_machines_leave_out_of_scope_pool(before, cfg, machines.drop_last(), pool);
        let mid = counted_machines(before, cfg, machines.drop_last());
        let m = machines.last();
        if cfg.selects(m.desktop_pool_id@) {
            let p = m.desktop_pool_id@;
            law_increment_touches_one_pool(mid.states, p, lowercase(m.state@), pool);
            if m.operating_system.is_some() {
                law_increment_touches_one_pool(
                    mid.os,
                    p,
                    lowercase(m.operating_system.unwrap()@),
                    pool,
                );
            }
            if m.operating_system_architecture.is_some() {
                law_increment_touches_one_pool(
                    mid.arch,
                    p,
                    lowercase(m.operating_system_architecture.unwrap()@),
                    pool,
                );
            }
        }
    }
}

/// Seeding the pools that were fetched brings no pool into a matrix that is
/// out of scope, and changes no bucket of one.
pub proof fn law_out_of_scope_pool_is_not_seeded(
    m: Map<Seq<char>, Map<Seq<char>, int>>,
    only: Set<Seq<char>>,
    skip: Set<Seq<char>>,
    pools: Seq<DesktopPool>,
    categories: Set<Seq<char>>,
    pool: Seq<char>,
)
    requires
        !pool_in_scope(pool, only, skip),
    ensures
        seeded_pools(m, only, skip, pools, categories).dom().contains(pool) == m.dom().contains(
            pool,
        ),
        row_of(seeded_pools(m, only, skip, pools, categories), pool) == row_of(m, pool),
    decreases pools.len(),
{
    if pools.len() > 0 {
        law_out_of_scope_pool_is_not_seeded(m, only, skip, pools.drop_last(), categories, pool);
    }
}

/// A session of a pool that is in scope is counted by its state in lower
/// case, be the state a known one or not: the count under it goes up by one.
pub proof fn law_any_session_state_is_counted(
    before: SessionCounts,
    cfg: HorizonAPIConfig,
    s: Session,
)
    requires
        s.desktop_pool_id.is_some(),
        cfg.selects(s.desktop_pool_id.unwrap()@),
    ensures
        ({
            let pool = s.desktop_pool_id.unwrap()@;
            let label = lowercase(s.session_state@);
            count_of(counted_session(before, cfg, s).sessions, pool, label) == count_of(
                before.sessions,
                pool,
                label,
            ) + 1
        }),
{
}

/// A machine of a pool that is in scope is counted by its state in lower
/// case, be the state a known one or not: the count under it goes up by one.
pub proof fn law_any_machine_state_is_counted(
    before: MachineCounts,
    cfg: HorizonAPIConfig,
    m: Machine,
)
    requires
        cfg.selects(m.desktop_pool_id@),
    ensures
        ({
            let label = lowercase(m.state@);
            count_of(counted_machine(before, cfg, m).states, m.desktop_pool_id@, label)
                == count_of(before.states, m.desktop_pool_id@, label) + 1
        }),
{
}

/// Counting under a category raises the count under it by one and leaves
/// every other count of the matrix as it is.
pub proof fn law_increment_adds_one(
    m: Map<Seq<char>, Map<Seq<char>, int>>,
    pool: Seq<char>,
    category: Seq<char>,
    other_pool: Seq<char>,
    other_category: Seq<char>,
)
    ensures
        count_of(incremented(m, pool, category), pool, category) == count_of(m, pool, category)
            + 1,
        (other_pool != pool || other_category != category) ==> count_of(
            incremented(m, pool, category),
            other_pool,
            other_category,
        ) == count_of(m, other_pool, other_category),
{
}

/// Seeding a pool that the matrix holds changes nothing: no count of it is
/// set back.
pub proof fn law_seeding_keeps_counts(
    m: Map<Seq<char>, Map<Seq<char>, int>>,
    pool: Seq<char>,
    categories: Set<Seq<char>>,
)
    requires
        m.dom().contains(pool),
    ensures
        seeded(m, pool, categories) == m,
{
}

/// Seeding a pool twice is seeding it once, also where entities were counted
/// in between.
pub proof fn law_seeding_twice(
    m: Map<Seq<char>, Map<Seq<char>, int>>,
    pool: Seq<char>,
    categories: Set<Seq<char>>,
    counted_pool: Seq<char>,
    counted_category: Seq<char>,
)
    ensures
        seeded(seeded(m, pool, categories), pool, categories) == seeded(m, pool, categories),
        seeded(
            incremented(seeded(m, pool, categories), counted_pool, counted_category),
            pool,
            categories,
        ) == incremented(seeded(m, pool, categories), counted_pool, counted_category),
{
}

/// A pool that a matrix holds stays in it, with each of its categories,
/// through a flush, through seeding and through counting.
pub proof fn law_pools_persist(
    m: Map<Seq<char>, Map<Seq<char>, int>>,
    pool: Seq<char>,
    category: Seq<char>,
    other_pool: Seq<char>,
    other_category: Seq<char>,
    categories: Set<Seq<char>>,
)
    requires
        m.dom().contains(pool),
        m[pool].dom().contains(category),
    ensures
        flushed(m).dom().contains(pool),
        flushed(m)[pool].dom().contains(category),
        seeded(m, other_pool, categories).dom().contains(pool),
        seeded(m, other_pool, categories)[pool].dom().contains(category),
        incremented(m, other_pool, other_category).dom().contains(pool),
        incremented(m, other_pool, other_category)[pool].dom().contains(category),
{
}

/// Where every count of a matrix is zero, every sample that is handed out for
/// it has the count zero.
pub proof fn law_zero_counts_publish_zero(
    m: Map<Seq<char>, Map<Seq<char>, int>>,
    names: Option<Vec<(String, String)>>,
    out: Seq<Sample>,
)
    requires
        all_zero(m),
        published(m, names, out),
    ensures
        forall|n: int| 0 <= n < out.len() ==> (#[trigger] out[n]).count == 0,
{
    assert forall|n: int| 0 <= n < out.len() implies (#[trigger] out[n]).count == 0 by {
        assert(m.dom().contains(out[n].pool@));
        assert(m[out[n].pool@].dom().contains(out[n].category@));
    }
}

/// Where the sessions could not be fetched, the counts stand as the first half
/// of the reconciliation left them: whatever they were before, every sample
/// that is handed out for them has the count zero.
pub proof fn law_failed_session_fetch_publishes_zero(
    before: SessionCounts,
    cfg: HorizonAPIConfig,
    pools: Seq<DesktopPool>,
    samples: SessionSamples,
)
    requires
        samples.publishes(prepared_sessions(before, cfg, pools), cfg),
    ensures
        prepared_sessions(before, cfg, pools).all_zero(),
        forall|n: int|
            0 <= n < samples.sessions@.len() ==> (#[trigger] samples.sessions@[n]).count == 0,
        forall|n: int|
            0 <= n < samples.agent_versions@.len() ==> (#[trigger] samples.agent_versions@[n]).count
                == 0,
        forall|n: int|
            0 <= n < samples.protocols@.len() ==> (#[trigger] samples.protocols@[n]).count == 0,
        forall|n: int| 0 <= n < samples.types@.len() ==> (#[trigger] samples.types@[n]).count == 0,
{
    let prepared = prepared_sessions(before, cfg, pools);
    lemma_flushed_all_zero(before.sessions);
    lemma_flushed_all_zero(before.agents);
    lemma_flushed_all_zero(before.protocols);
    lemma_flushed_all_zero(before.types);
    lemma_seeded_pools_all_zero(
        flushed(before.sessions),
        cfg.only_set(),
        cfg.skip_set(),
        pools,
        label_set(session_state_labels()),
    );
    lemma_seeded_pools_all_zero(
        flushed(before.protocols),
        cfg.only_set(),
        cfg.skip_set(),
        pools,
        label_set(session_protocol_labels()),
    );
    lemma_seeded_pools_all_zero(
        flushed(before.types),
        cfg.only_set(),
        cfg.skip_set(),
        pools,
        label_set(session_type_labels()),
    );
    law_zero_counts_publish_zero(prepared.sessions, cfg.pool_uuid_map, samples.sessions@);
    law_zero_counts_publish_zero(prepared.agents, cfg.pool_uuid_map, samples.agent_versions@);
    law_zero_counts_publish_zero(prepared.protocols, cfg.pool_uuid_map, samples.protocols@);
    law_zero_counts_publish_zero(prepared.types, cfg.pool_uuid_map, samples.types@);
}

/// Where the machines could not be fetched, the counts stand as the first half
/// of the reconciliation left them: whatever they were before, every sample
/// that is handed out for them has the count zero.
pub proof fn law_failed_machine_fetch_publishes_zero(
    before: MachineCounts,
    cfg: HorizonAPIConfig,
    pools: Seq<DesktopPool>,
    samples: MachineSamples,
)
    requires
        samples.publishes(prepared_machines(before, cfg, pools), cfg),
    ensures
        prepared_machines(before, cfg, pools).all_zero(),
        forall|n: int| 0 <= n < samples.states@.len() ==> (#[trigger] samples.states@[n]).count == 0,
        forall|n: int| 0 <= n < samples.os@.len() ==> (#[trigger] samples.os@[n]).count == 0,
        forall|n: int| 0 <= n < samples.arch@.len() ==> (#[trigger] samples.arch@[n]).count == 0,
{
    let prepared = prepared_machines(before, cfg, pools);
    lemma_flushed_all_zero(before.states);
    lemma_flushed_all_zero(before.os);
    lemma_flushed_all_zero(before.arch);
    lemma_seeded_pools_all_zero(
        flushed(before.states),
        cfg.only_set(),
        cfg.skip_set(),
        pools,
        label_set(machine_state_labels()),
    );
    lemma_seeded_pools_all_zero(
        flushed(before.os),
        cfg.only_set(),
        cfg.skip_set(),
        pools,
        label_set(machine_os_labels()),
    );
    lemma_seeded_pools_all_zero(
        flushed(before.arch),
        cfg.only_set(),
        cfg.skip_set(),
        pools,
        label_set(machine_arch_labels()),
    );
    law_zero_counts_publish_zero(prepared.states, cfg.pool_uuid_map, samples.states@);
    law_zero_counts_publish_zero(prepared.os, cfg.pool_uuid_map, samples.os@);
    law_zero_counts_publish_zero(prepared.arch, cfg.pool_uuid_map, samples.arch@);
}

/// A flush of a matrix that was flushed changes nothing.
pub proof fn law_flush_twice(m: Map<Seq<char>, Map<Seq<char>, int>>)
    ensures
        flushed(flushed(m)) == flushed(m),
{
    assert forall|pool: Seq<char>| flushed(m).dom().contains(pool) implies #[trigger] flushed(
        flushed(m),
    )[pool] =~= flushed(m)[pool] by {}
    assert(flushed(flushed(m)) =~= flushed(m));
}

/// The flush at the start of a cycle and the flush at the start of a group's
/// reconciliation are one flush: the counts that a group starts from do not
/// depend on whether the cycle flushed them before.
pub proof fn law_cycle_flush_is_the_groups_flush(
    sessions: SessionCounts,
    machines: MachineCounts,
    cfg: HorizonAPIConfig,
    pools: Seq<DesktopPool>,
)
    ensures
        prepared_sessions(flushed_sessions(sessions), cfg, pools) == prepared_sessions(
            sessions,
            cfg,
            pools,
        ),
        prepared_machines(flushed_machines(machines), cfg, pools) == prepared_machines(
            machines,
            cfg,
            pools,
        ),
{
    law_flush_twice(sessions.sessions);
    law_flush_twice(sessions.agents);
    law_flush_twice(sessions.protocols);
    law_flush_twice(sessions.types);
    law_flush_twice(machines.states);
    law_flush_twice(machines.os);
    law_flush_twice(machines.arch);
}

/// After a whole reconciliation of the session dimensions, a pool that is out
/// of scope has in each of them the buckets it had before, every count zero:
/// neither the pools that were fetched nor the sessions have touched it.
pub proof fn law_out_of_scope_pool_after_sessions(
    before: SessionCounts,
    cfg: HorizonAPIConfig,
    pools: Seq<DesktopPool>,
    sessions: Seq<Session>,
    pool: Seq<char>,
)
    requires
        !cfg.selects(pool),
    ensures
        ({
            let after = counted_sessions(prepared_sessions(before, cfg, pools), cfg, sessions);
            &&& after.sessions.dom().contains(pool) == before.sessions.dom().contains(pool)
            &&& after.agents.dom().contains(pool) == before.agents.dom().contains(pool)
            &&& after.protocols.dom().contains(pool) == before.protocols.dom().contains(pool)
            &&& after.types.dom().contains(pool) == before.types.dom().contains(pool)
            &&& row_of(after.sessions, pool) == row_of(flushed(before.sessions), pool)
            &&& row_of(after.agents, pool) == row_of(flushed(before.agents), pool)
            &&& row_of(after.protocols, pool) == row_of(flushed(before.protocols), pool)
            &&& row_of(after.types, pool) == row_of(flushed(before.types), pool)
        }),
{
    let only = cfg.only_set();
    let skip = cfg.skip_set();
    law_sessions_leave_out_of_scope_pool(prepared_sessions(before, cfg, pools), cfg, sessions, pool);
    law_out_of_scope_pool_is_not_seeded(
        flushed(before.sessions),
        only,
        skip,
        pools,
        label_set(session_state_labels()),
        pool,
    );
    law_out_of_scope_pool_is_not_seeded(
        flushed(before.protocols),
        only,
        skip,
        pools,
        label_set(session_protocol_labels()),
        pool,
    );
    law_out_of_scope_pool_is_not_seeded(
        flushed(before.types),
        only,
        skip,
        pools,
        label_set(session_type_labels()),
        pool,
    );
    lemma_flushed_all_zero(before.sessions);
    lemma_flushed_all_zero(before.agents);
    lemma_flushed_all_zero(before.protocols);
    lemma_flushed_all_zero(before.types);
}

/// After a whole reconciliation of the machine dimensions, a pool that is out
/// of scope has in each of them the buckets it had before, every count zero:
/// neither the pools that were fetched nor the machines have touched it.
pub proof fn law_out_of_scope_pool_after_machines(
    before: MachineCounts,
    cfg: HorizonAPIConfig,
    pools: Seq<DesktopPool>,
    machines: Seq<Machine>,
    pool: Seq<char>,
)
    requires
        !cfg.selects(pool),
    ensures
        ({
            let after = counted_machines(prepared_machines(before, cfg, pools), cfg, machines);
            &&& after.states.dom().contains(pool) == before.states.dom().contains(pool)
            &&& after.os.dom().contains(pool) == before.os.dom().contains(pool)
            &&& after.arch.dom().contains(pool) == before.arch.dom().contains(pool)
            &&& row_of(after.states, pool) == row_of(flushed(before.states), pool)
            &&& row_of(after.os, pool) == row_of(flushed(before.os), pool)
            &&& row_of(after.arch, pool) == row_of(flushed(before.arch), pool)
        }),
{
    let only = cfg.only_set();
    let skip = cfg.skip_set();
    law_machines_leave_out_of_scope_pool(prepared_machines(before, cfg, pools), cfg, machines, pool);
    law_out_of_scope_pool_is_not_seeded(
        flushed(before.states),
        only,
        skip,
        pools,
        label_set(machine_state_labels()),
        pool,
    );
    law_out_of_scope_pool_is_not_seeded(
        flushed(before.os),
        only,
        skip,
        pools,
        label_set(machine_os_labels()),
        pool,
    );
    law_out_of_scope_pool_is_not_seeded(
        flushed(before.arch),
        only,
        skip,
        pools,
        label_set(machine_arch_labels()),
        pool,
    );
    lemma_flushed_all_zero(before.states);
    lemma_flushed_all_zero(before.os);
    lemma_flushed_all_zero(before.arch);
}

/// After samples were handed to a family of gauges, a sample whose key no
/// later sample has stands in the family with its count.
pub proof fn law_sample_shows_unless_replaced(values: Map<u64, int>, samples: Seq<Sample>, n: int)
    requires
        0 <= n < samples.len(),
        forall|m: int|
            n < m < samples.len() ==> gauge_key(
                (#[trigger] samples[m]).label@,
                samples[m].category@,
            ) != gauge_key(samples[n].label@, samples[n].category@),
    ensures
        with_samples(values, samples).dom().contains(
            gauge_key(samples[n].label@, samples[n].category@),
        ),
        with_samples(values, samples)[gauge_key(samples[n].label@, samples[n].category@)]
            == samples[n].count,
    decreases samples.len(),
{
    if n < samples.len() - 1 {
        let shorter = samples.drop_last();
        assert(shorter[n] == samples[n]);
        assert forall|m: int| n < m < shorter.len() implies gauge_key(
            (#[trigger] shorter[m]).label@,
            shorter[m].category@,
        ) != gauge_key(shorter[n].label@, shorter[n].category@) by {
            assert(shorter[m] == samples[m]);
        }
        law_sample_shows_unless_replaced(values, shorter, n);
        assert(samples.last() == samples[samples.len() - 1]);
    }
}

/// After samples whose counts are all zero were handed to a family of gauges,
/// the gauge of every one of them stands at zero, whichever samples share a gauge.
pub proof fn law_zero_samples_show_zero(values: Map<u64, int>, samples: Seq<Sample>, n: int)
    requires
        0 <= n < samples.len(),
        forall|m: int| 0 <= m < samples.len() ==> (#[trigger] samples[m]).count == 0,
    ensures
        with_samples(values, samples).dom().contains(
            gauge_key(samples[n].label@, samples[n].category@),
        ),
        with_samples(values, samples)[gauge_key(samples[n].label@, samples[n].category@)] == 0,
    decreases samples.len(),
{
    if n < samples.len() - 1 {
        let shorter = samples.drop_last();
        assert(shorter[n] == samples[n]);
        assert forall|m: int| 0 <= m < shorter.len() implies (#[trigger] shorter[m]).count == 0 by {
            assert(shorter[m] == samples[m]);
        }
        law_zero_samples_show_zero(values, shorter, n);
        assert(samples.last() == samples[samples.len() - 1]);
    }
}

/// The session has no pool, or its pool is out of scope.
pub open spec fn session_is_passed_over(cfg: HorizonAPIConfig, s: Session) -> bool {
    match s.desktop_pool_id {
        None => true,
        Some(pool) => !cfg.selects(pool@),
    }
}

/// A session of a pool that is out of scope changes no count and earns no
/// warning, whatever its values are.
pub proof fn law_out_of_scope_session_is_passed_over(
    before: SessionCounts,
    cfg: HorizonAPIConfig,
    s: Session,
)
    requires
        s.desktop_pool_id.is_some(),
        !cfg.selects(s.desktop_pool_id.unwrap()@),
    ensures
        counted_session(before, cfg, s) == before,
        session_anomalies(cfg, s) == Seq::<AnomalyView>::empty(),
{
}

/// The counts do not depend on the sessions that are passed over: with one of
/// them taken out of the list, every count of every session dimension comes
/// out the same, whatever the counts were before. Where its pool was out of
/// scope, the warnings come out the same too.
pub proof fn law_counts_without_a_session_passed_over(
    before: SessionCounts,
    cfg: HorizonAPIConfig,
    sessions: Seq<Session>,
    i: int,
)
    requires
        0 <= i < sessions.len(),
        session_is_passed_over(cfg, sessions[i]),
    ensures
        counted_sessions(before, cfg, sessions.remove(i)) == counted_sessions(before, cfg, sessions),
        sessions[i].desktop_pool_id.is_some() ==> sessions_anomalies(cfg, sessions.remove(i))
            == sessions_anomalies(cfg, sessions),
    decreases sessions.len(),
{
    if i == sessions.len() - 1 {
        assert(sessions.remove(i) =~= sessions.drop_last());
        assert(sessions.last() == sessions[i]);
        if sessions[i].desktop_pool_id.is_some() {
            assert(sessions_anomalies(cfg, sessions.drop_last()) + session_anomalies(
                cfg,
                sessions.last(),
            ) =~= sessions_anomalies(cfg, sessions.drop_last()));
        }
    } else {
        let shorter = sessions.drop_last();
        assert(shorter[i] == sessions[i]);
        law_counts_without_a_session_passed_over(before, cfg, shorter, i);
        assert(sessions.remove(i).drop_last() =~= shorter.remove(i));
        assert(sessions.remove(i).last() == sessions.last());
    }
}

/// The counts do not depend on the machines of pools that are out of scope:
/// with one of them taken out of the list, every count of every machine
/// dimension and every warning comes out the same, whatever the counts were
/// before.
pub proof fn law_counts_without_an_out_of_scope_machine(
    before: MachineCounts,
    cfg: HorizonAPIConfig,
    machines: Seq<Machine>,
    i: int,
)
    requires
        0 <= i < machines.len(),
        !cfg.selects(machines[i].desktop_pool_id@),
    ensures
        counted_machines(before, cfg, machines.remove(i)) == counted_machines(before, cfg, machines),
        machines_anomalies(cfg, machines.remove(i)) == machines_anomalies(cfg, machines),
    decreases machines.len(),
{
    if i == machines.len() - 1 {
        assert(machines.remove(i) =~= machines.drop_last());
        assert(machines.last() == machines[i]);
        assert(machines_anomalies(cfg, machines.drop_last()) + machine_anomalies(
            cfg,
            machines.last(),
        ) =~= machines_anomalies(cfg, machines.drop_last()));
    } else {
        let shorter = machines.drop_last();
        assert(shorter[i] == machines[i]);
        law_counts_without_an_out_of_scope_machine(before, cfg, shorter, i);
        assert(machines.remove(i).drop_last() =~= shorter.remove(i));
        assert(machines.remove(i).last() == machines.last());
    }
}

/// The warning is one of a value of `dimension` that is not known.
pub open spec fn warns_of(warning: AnomalyView, dimension: Dimension) -> bool {
    match warning {
        AnomalyView::UnknownValue { dimension: of, entity: _, value: _ } => of == dimension,
        AnomalyView::MissingPool { session: _ } => false,
    }
}

/// A machine of a pool that is in scope earns a warning for its state if and
/// only if the state is not a known one. The warning is the first that the
/// machine earns, names the machine and the state, and is the only one for
/// the state.
pub proof fn law_machine_state_warning(cfg: HorizonAPIConfig, m: Machine)
    requires
        cfg.selects(m.desktop_pool_id@),
    ensures
        ({
            let warnings = machine_anomalies(cfg, m);
            let known = label_set(machine_state_values()).contains(m.state@);
            &&& known ==> forall|i: int|
                0 <= i < warnings.len() ==> !warns_of(
                    #[trigger] warnings[i],
                    Dimension::MachineState,
                )
            &&& !known ==> warnings.len() >= 1 && warnings[0] == (AnomalyView::UnknownValue {
                dimension: Dimension::MachineState,
                entity: m.id@,
                value: m.state@,
            }) && forall|i: int|
                1 <= i < warnings.len() ==> !warns_of(
                    #[trigger] warnings[i],
                    Dimension::MachineState,
                )
        }),
{
}

/// A session of a pool that is in scope earns a warning for its state if and
/// only if the state is not a known one. The warning is the first that the
/// session earns, names the session and the state, and is the only one for
/// the state.
pub proof fn law_session_state_warning(cfg: HorizonAPIConfig, s: Session)
    requires
        s.desktop_pool_id.is_some(),
        cfg.selects(s.desktop_pool_id.unwrap()@),
    ensures
        ({
            let warnings = session_anomalies(cfg, s);
            let known = label_set(session_state_values()).contains(s.session_state@);
            &&& known ==> forall|i: int|
                0 <= i < warnings.len() ==> !warns_of(
                    #[trigger] warnings[i],
                    Dimension::SessionState,
                )
            &&& !known ==> warnings.len() >= 1 && warnings[0] == (AnomalyView::UnknownValue {
                dimension: Dimension::SessionState,
                entity: s.id@,
                value: s.session_state@,
            }) && forall|i: int|
                1 <= i < warnings.len() ==> !warns_of(
                    #[trigger] warnings[i],
                    Dimension::SessionState,
                )
        }),
{
}

/// A session of a pool that is in scope is counted by its protocol and by
/// its type in lower case, be they known ones or not: the counts under them
/// go up by one.
pub proof fn law_any_session_protocol_and_type_are_counted(
    before: SessionCounts,
    cfg: HorizonAPIConfig,
    s: Session,
)
    requires
        s.desktop_pool_id.is_some(),
        cfg.selects(s.desktop_pool_id.unwrap()@),
    ensures
        ({
            let pool = s.desktop_pool_id.unwrap()@;
            let after = counted_session(before, cfg, s);
            &&& count_of(after.types, pool, lowercase(s.session_type@)) == count_of(
                before.types,
                pool,
                lowercase(s.session_type@),
            ) + 1
            &&& s.session_protocol.is_some() ==> count_of(
                after.protocols,
                pool,
                lowercase(s.session_protocol.unwrap()@),
            ) == count_of(before.protocols, pool, lowercase(s.session_protocol.unwrap()@)) + 1
        }),
{
}

/// A machine of a pool that is in scope is counted by its operating system
/// and by its architecture in lower case, where it has them, be they known
/// ones or not: the counts under them go up by one.
pub proof fn law_any_machine_os_and_arch_are_counted(
    before: MachineCounts,
    cfg: HorizonAPIConfig,
    m: Machine,
)
    requires
        cfg.selects(m.desktop_pool_id@),
    ensures
        ({
            let pool = m.desktop_pool_id@;
            let after = counted_machine(before, cfg, m);
            &&& m.operating_system.is_some() ==> count_of(
                after.os,
                pool,
                lowercase(m.operating_system.unwrap()@),
            ) == count_of(before.os, pool, lowercase(m.operating_system.unwrap()@)) + 1
            &&& m.operating_system_architecture.is_some() ==> count_of(
                after.arch,
                pool,
                lowercase(m.operating_system_architecture.unwrap()@),
            ) == count_of(before.arch, pool, lowercase(m.operating_system_architecture.unwrap()@))
                + 1
        }),
{
}

} // verus!
