//! The metric sink: one family of gauges per dimension, each gauge labelled by
//! pool and category, all in one registry that is written out as text.

use vstd::prelude::*;
use crate::constants::{
    AGENT_VERSIONS_HELP, AGENT_VERSIONS_NAME, MACHINE_ARCH_HELP, MACHINE_ARCH_NAME,
    MACHINE_OS_HELP, MACHINE_OS_NAME, MACHINE_STATES_HELP, MACHINE_STATES_NAME, SESSIONS_HELP,
    SESSIONS_NAME, SESSION_PROTOCOLS_HELP, SESSION_PROTOCOLS_NAME, SESSION_TYPES_HELP,
    SESSION_TYPES_NAME,
};
use crate::descriptor::{
    descriptor_id, lemma_id_of_horizon_agent_version_info, lemma_id_of_horizon_machine_os_arch_info,
    lemma_id_of_horizon_machine_os_info, lemma_id_of_horizon_machine_states,
    lemma_id_of_horizon_session_protocols, lemma_id_of_horizon_session_types,
    lemma_id_of_horizon_sessions,
};
use crate::exporter::Publication;
use crate::matrix::Sample;
use crate::report::Dimension;

verus! {

/// `Registry` of the crate prometheus: what is registered with it is written
/// out when the metrics are rendered. It is carried through as it is.
#[verifier::external_type_specification]
#[verifier::external_body]
pub struct ExRegistry(prometheus::Registry);

/// A family of integer gauges that differ in the values of their labels: an
/// `IntGaugeVec` of the crate prometheus. The family is kept behind this
/// struct because its type has a parameter that the crate keeps to itself, so
/// that the type cannot be named in full.
#[verifier::external_body]
pub struct GaugeFamily {
    inner: prometheus::IntGaugeVec,
}

/// The number of labels that a family was made with. It is fixed when the
/// family is made.
pub uninterp spec fn label_count(family: GaugeFamily) -> nat;

/// The number by which a registry knows a family: the `id` of the family's
/// descriptor. It is fixed when the family is made.
pub uninterp spec fn family_id(family: GaugeFamily) -> u64;

/// The name of the metric that a family was made for. It is fixed when the
/// family is made.
pub uninterp spec fn family_name(family: GaugeFamily) -> Seq<char>;

/// The key under which a family files the gauge of two label values: the hash
/// that the crate computes of the values, one after the other. Two pairs of
/// values may have one key, and then they have one gauge.
pub uninterp spec fn gauge_key(pool: Seq<char>, category: Seq<char>) -> u64;

/// What a family holds: for each key that it has a gauge for, the gauge's
/// value. The registry reads the gauges of a family that is registered with
/// it; only `set_gauge` writes them.
pub uninterp spec fn gauge_values(family: GaugeFamily) -> Map<u64, int>;

/// A family that holds no gauge.
pub open spec fn no_gauges() -> Map<u64, int> {
    Map::empty()
}

/// What a registry holds: the numbers of the descriptors that are registered
/// with it.
pub uninterp spec fn registered(registry: prometheus::Registry) -> Set<u64>;

/// The names of the metrics whose labels and help text a registry has taken
/// note of, to hold every later metric of the same name to them.
pub uninterp spec fn named(registry: prometheus::Registry) -> Set<Seq<char>>;

/// Every collector that a registry holds is a family of gauges. Each of them
/// has one descriptor, so that the registry holds its collectors under the
/// numbers of their descriptors, and writing the registry out meets gauges alone.
pub uninterp spec fn gauges_only(registry: prometheus::Registry) -> bool;

/// A letter of the English alphabet.
pub open spec fn is_letter(c: char) -> bool {
    ('a' <= c && c <= 'z') || ('A' <= c && c <= 'Z')
}

/// A decimal digit.
pub open spec fn is_digit(c: char) -> bool {
    '0' <= c && c <= '9'
}

/// A name as the crate prometheus takes it: not empty, made of letters,
/// underscores, digits and, where `colon` says so, colons, and not starting
/// with a digit.
pub open spec fn valid_name(text: Seq<char>, colon: bool) -> bool {
    &&& text.len() > 0
    &&& forall|i: int|
        0 <= i < text.len() ==> is_letter(#[trigger] text[i]) || text[i] == '_' || (colon && text[i]
            == ':') || (i > 0 && is_digit(text[i]))
}

/// A family can be made of this name, help text and label names: the help
/// text is not empty, the name is a valid name, which may hold colons, and the
/// label names are valid names without colons, no two of them the same.
pub open spec fn family_can_be_made(
    name: Seq<char>,
    help: Seq<char>,
    labels: Seq<&'static str>,
) -> bool {
    &&& help.len() > 0
    &&& valid_name(name, true)
    &&& forall|k: int| 0 <= k < labels.len() ==> valid_name(#[trigger] labels[k]@, false)
    &&& forall|j: int, k: int|
        0 <= j < k < labels.len() ==> #[trigger] labels[j]@ != #[trigger] labels[k]@
}

/// Calls `IntGaugeVec::new` with options of the given name and help text.
/// Trusted: the crate makes the family if and only if the help text is not
/// empty and the names are valid and the label names differ, which is what its
/// descriptor checks; a family that comes back has as many labels as `labels`
/// names, holds no gauge yet, bears the name, and has as its number the hash
/// that the descriptor computes of the name. At least one label is asked for,
/// as the crate's documentation does.
#[verifier::external_body]
pub(crate) fn new_family(name: &str, help: &str, labels: &Vec<&'static str>) -> (made: Option<
    GaugeFamily,
>)
    requires
        labels@.len() > 0,
    ensures
        made.is_some() == family_can_be_made(name@, help@, labels@),
        made.is_some() ==> label_count(made.unwrap()) == labels@.len(),
        made.is_some() ==> gauge_values(made.unwrap()) == no_gauges(),
        made.is_some() ==> family_name(made.unwrap()) == name@,
        made.is_some() ==> family_id(made.unwrap()) == descriptor_id(name@),
{
    match prometheus::IntGaugeVec::new(prometheus::Opts::new(name, help), labels.as_slice()) {
        Ok(inner) => Some(GaugeFamily { inner }),
        Err(_) => None,
    }
}

/// Calls `get_metric_with_label_values` on the family with the two label
/// values, and `set` on the gauge that comes back. Trusted: the crate takes the
/// values if and only if the family was made with two labels; it then has a
/// gauge under the key of the two values, whose value is `value`, and every
/// other gauge is as it was. Values that are not taken change nothing.
#[verifier::external_body]
pub(crate) fn set_gauge(family: &mut GaugeFamily, pool: &str, category: &str, value: i64) -> (taken:
    bool)
    ensures
        taken == (label_count(*old(family)) == 2),
        label_count(*final(family)) == label_count(*old(family)),
        family_id(*final(family)) == family_id(*old(family)),
        family_name(*final(family)) == family_name(*old(family)),
        gauge_values(*final(family)) == if taken {
            gauge_values(*old(family)).insert(gauge_key(pool@, category@), value as int)
        } else {
            gauge_values(*old(family))
        },
{
    match family.inner.get_metric_with_label_values(&[pool, category]) {
        Ok(gauge) => {
            gauge.set(value);
            true
        },
        Err(_) => false,
    }
}

/// Calls `Registry::new`. Trusted: a new registry holds no collector, so
/// nothing is registered with it and it has taken note of no name.
#[verifier::external_body]
pub(crate) fn new_registry() -> (registry: prometheus::Registry)
    ensures
        registered(registry) == Set::<u64>::empty(),
        named(registry) == Set::<Seq<char>>::empty(),
        gauges_only(registry),
{
    prometheus::Registry::new()
}

/// Calls `Registry::register` with the family, and says whether the registry
/// took it. Trusted: a family that is taken was not registered before and is
/// registered now, beside what was registered, and the registry has taken
/// note of its name; one that is not taken leaves what was registered as it
/// was, and the registry may or may not have taken note of its name. A
/// registry that held families of gauges alone still does. Such a registry
/// takes a family whose number is not registered and of whose name it has
/// taken no note: these are the checks that the registry makes.
#[verifier::external_body]
pub(crate) fn register_family(registry: &mut prometheus::Registry, family: &GaugeFamily) -> (taken:
    bool)
    ensures
        taken ==> !registered(*old(registry)).contains(family_id(*family)),
        registered(*final(registry)) == if taken {
            registered(*old(registry)).insert(family_id(*family))
        } else {
            registered(*old(registry))
        },
        taken ==> named(*final(registry)) == named(*old(registry)).insert(family_name(*family)),
        named(*old(registry)).subset_of(named(*final(registry))),
        named(*final(registry)).subset_of(named(*old(registry)).insert(family_name(*family))),
        gauges_only(*old(registry)) ==> gauges_only(*final(registry)),
        (gauges_only(*old(registry)) && !registered(*old(registry)).contains(family_id(*family))
            && !named(*old(registry)).contains(family_name(*family))) ==> taken,
{
    registry.register(Box::new(family.inner.clone())).is_ok()
}

/// Calls `Registry::gather` and `TextEncoder::encode_utf8` on what it gave.
/// The second component says whether the encoder ended without an error.
/// Trusted: nothing is claimed of the text. The registry must hold families
/// of gauges alone: the encoder stops the program at a metric without a type,
/// and collectors of another make run code of their own.
#[verifier::external_body]
pub(crate) fn encode_registry(registry: &prometheus::Registry) -> (String, bool)
    requires
        gauges_only(*registry),
{
    let mut buffer = String::new();
    let done = prometheus::TextEncoder::new().encode_utf8(&registry.gather(), &mut buffer).is_ok();
    (buffer, done)
}

/// The name of the metric of a dimension.
pub open spec fn metric_name(dimension: Dimension) -> &'static str {
    match dimension {
        Dimension::SessionState => SESSIONS_NAME,
        Dimension::SessionProtocol => SESSION_PROTOCOLS_NAME,
        Dimension::SessionType => SESSION_TYPES_NAME,
        Dimension::AgentVersion => AGENT_VERSIONS_NAME,
        Dimension::MachineState => MACHINE_STATES_NAME,
        Dimension::MachineOs => MACHINE_OS_NAME,
        Dimension::MachineArch => MACHINE_ARCH_NAME,
    }
}

/// The help text of the metric of a dimension.
pub open spec fn metric_help(dimension: Dimension) -> &'static str {
    match dimension {
        Dimension::SessionState => SESSIONS_HELP,
        Dimension::SessionProtocol => SESSION_PROTOCOLS_HELP,
        Dimension::SessionType => SESSION_TYPES_HELP,
        Dimension::AgentVersion => AGENT_VERSIONS_HELP,
        Dimension::MachineState => MACHINE_STATES_HELP,
        Dimension::MachineOs => MACHINE_OS_HELP,
        Dimension::MachineArch => MACHINE_ARCH_HELP,
    }
}

/// The name of the label that holds the category of a dimension; the label
/// before it is `pool`.
pub open spec fn category_label(dimension: Dimension) -> &'static str {
    match dimension {
        Dimension::SessionState => "state",
        Dimension::SessionProtocol => "protocol",
        Dimension::SessionType => "type",
        Dimension::AgentVersion => "version",
        Dimension::MachineState => "state",
        Dimension::MachineOs => "os",
        Dimension::MachineArch => "arch",
    }
}

/// What a metric is made from: its name, its help text and the names of its labels.
pub struct MetricSchema {
    pub name: &'static str,
    pub help: &'static str,
    pub labels: Vec<&'static str>,
}

/// The schema of the metric of a dimension: its labels are `pool` and the
/// dimension's own.
pub fn metric_schema(dimension: Dimension) -> (schema: MetricSchema)
    ensures
        schema.name == metric_name(dimension),
        schema.help == metric_help(dimension),
        schema.labels@ == seq!["pool", category_label(dimension)],
{
    let (name, help, category) = match dimension {
        Dimension::SessionState => (SESSIONS_NAME, SESSIONS_HELP, "state"),
        Dimension::SessionProtocol => (SESSION_PROTOCOLS_NAME, SESSION_PROTOCOLS_HELP, "protocol"),
        Dimension::SessionType => (SESSION_TYPES_NAME, SESSION_TYPES_HELP, "type"),
        Dimension::AgentVersion => (AGENT_VERSIONS_NAME, AGENT_VERSIONS_HELP, "version"),
        Dimension::MachineState => (MACHINE_STATES_NAME, MACHINE_STATES_HELP, "state"),
        Dimension::MachineOs => (MACHINE_OS_NAME, MACHINE_OS_HELP, "os"),
        Dimension::MachineArch => (MACHINE_ARCH_NAME, MACHINE_ARCH_HELP, "arch"),
    };
    let labels = vec!["pool", category];
    assert(labels@ =~= seq!["pool", category_label(dimension)]);
    MetricSchema { name, help, labels }
}

/// The metric of every dimension can be made: its name and its two label
/// names are valid, the label names differ, and it has a help text.
pub proof fn lemma_schema_can_be_made(dimension: Dimension)
    ensures
        family_can_be_made(
            metric_name(dimension)@,
            metric_help(dimension)@,
            seq!["pool", category_label(dimension)],
        ),
{
    reveal_strlit("pool");
    reveal_strlit("state");
    reveal_strlit("protocol");
    reveal_strlit("type");
    reveal_strlit("version");
    reveal_strlit("os");
    reveal_strlit("arch");
    reveal_strlit("horizon_sessions");
    reveal_strlit("Horizon sessions");
    reveal_strlit("horizon_agent_version_info");
    reveal_strlit("Version of horizon agent");
    reveal_strlit("horizon_session_protocols");
    reveal_strlit("Horizon session protocols");
    reveal_strlit("horizon_session_types");
    reveal_strlit("Horizon session type");
    reveal_strlit("horizon_machine_states");
    reveal_strlit("State of horizon virtual machine");
    reveal_strlit("horizon_machine_os_info");
    reveal_strlit("Operating system on virtual machines");
    reveal_strlit("horizon_machine_os_arch_info");
    reveal_strlit("Architecture of operating system on virtual machine");
    let labels = seq!["pool", category_label(dimension)];
    assert(labels[0]@ == "pool"@);
    assert(labels[1]@ == category_label(dimension)@);
    assert("pool"@[0] == 'p');
    assert("type"@[0] == 't');
    assert("arch"@[0] == 'a');
    assert(valid_name("pool"@, false));
    assert(valid_name(category_label(dimension)@, false));
    assert(labels[0]@ != labels[1]@);
}

/// The numbers of the descriptors of the seven metrics differ, and so do
/// their names.
pub proof fn lemma_metrics_differ(one: Dimension, other: Dimension)
    requires
        one != other,
    ensures
        descriptor_id(metric_name(one)@) != descriptor_id(metric_name(other)@),
        metric_name(one)@ != metric_name(other)@,
        0 <= descriptor_id(metric_name(one)@) <= u64::MAX,
{
    lemma_id_of_horizon_sessions();
    lemma_id_of_horizon_agent_version_info();
    lemma_id_of_horizon_session_protocols();
    lemma_id_of_horizon_session_types();
    lemma_id_of_horizon_machine_states();
    lemma_id_of_horizon_machine_os_info();
    lemma_id_of_horizon_machine_os_arch_info();
}

/// Makes the family of gauges of a dimension: it is made of the dimension's
/// name and help text and of the labels `pool` and the dimension's own, takes
/// two label values, and holds no gauge yet. The family is always made.
pub fn dimension_family(dimension: Dimension) -> (made: Option<GaugeFamily>)
    ensures
        made.is_some(),
        label_count(made.unwrap()) == 2,
        gauge_values(made.unwrap()) == no_gauges(),
        family_name(made.unwrap()) == metric_name(dimension)@,
        family_id(made.unwrap()) == descriptor_id(metric_name(dimension)@),
{
    let schema = metric_schema(dimension);
    proof {
        lemma_schema_can_be_made(dimension);
    }
    new_family(schema.name, schema.help, &schema.labels)
}

/// What a family holds after `samples` were handed to it, one after the
/// other: under the key of each sample's display name and category stands the
/// count of the last sample with that key.
pub open spec fn with_samples(values: Map<u64, int>, samples: Seq<Sample>) -> Map<u64, int>
    decreases samples.len(),
{
    if samples.len() == 0 {
        values
    } else {
        with_samples(values, samples.drop_last()).insert(
            gauge_key(samples.last().label@, samples.last().category@),
            samples.last().count as int,
        )
    }
}

/// Sets, for each of `samples` in turn, the gauge of its pool's display name
/// and its category to its count. Says whether every sample was taken, which
/// is so if and only if the family takes two label values or there is no
/// sample; a family that does not take two label values is left as it was.
pub fn publish_samples(family: &mut GaugeFamily, samples: &Vec<Sample>) -> (taken: bool)
    ensures
        taken == (label_count(*old(family)) == 2 || samples@.len() == 0),
        label_count(*final(family)) == label_count(*old(family)),
        family_id(*final(family)) == family_id(*old(family)),
        family_name(*final(family)) == family_name(*old(family)),
        gauge_values(*final(family)) == if label_count(*old(family)) == 2 {
            with_samples(gauge_values(*old(family)), samples@)
        } else {
            gauge_values(*old(family))
        },
{
    let ghost before = gauge_values(*family);
    let ghost labels = label_count(*family);
    let ghost id = family_id(*family);
    let ghost name = family_name(*family);
    let mut taken = true;
    let mut i: usize = 0;
    while i < samples.len()
        invariant
            i <= samples@.len(),
            label_count(*family) == labels,
            family_id(*family) == id,
            family_name(*family) == name,
            taken == (labels == 2 || i == 0),
            gauge_values(*family) == if labels == 2 {
                with_samples(before, samples@.take(i as int))
            } else {
                before
            },
        decreases samples@.len() - i,
    {
        assert(samples@.take(i + 1).drop_last() =~= samples@.take(i as int));
        assert(samples@.take(i + 1).last() == samples@[i as int]);
        let one = set_gauge(
            family,
            samples[i].label.as_str(),
            samples[i].category.as_str(),
            samples[i].count,
        );
        taken = taken && one;
        i = i + 1;
    }
    assert(samples@.take(i as int) =~= samples@);
    taken
}

/// The sink of the exporter: the registry and the families of the seven dimensions.
pub struct MetricSink {
    pub registry: prometheus::Registry,
    pub sessions: GaugeFamily,
    pub agent_versions: GaugeFamily,
    pub session_protocols: GaugeFamily,
    pub session_types: GaugeFamily,
    pub machine_states: GaugeFamily,
    pub machine_os: GaugeFamily,
    pub machine_arch: GaugeFamily,
}

impl MetricSink {
    /// Every family takes two label values, the pool and the category, and
    /// the registry holds families of gauges alone.
    pub open spec fn wf(&self) -> bool {
        &&& label_count(self.sessions) == 2
        &&& label_count(self.agent_versions) == 2
        &&& label_count(self.session_protocols) == 2
        &&& label_count(self.session_types) == 2
        &&& label_count(self.machine_states) == 2
        &&& label_count(self.machine_os) == 2
        &&& label_count(self.machine_arch) == 2
        &&& gauges_only(self.registry)
    }

    /// No family holds a gauge, nothing is registered with the registry, and
    /// the registry has taken note of no name.
    pub open spec fn is_fresh(&self) -> bool {
        &&& registered(self.registry) == Set::<u64>::empty()
        &&& named(self.registry) == Set::<Seq<char>>::empty()
        &&& gauge_values(self.sessions) == no_gauges()
        &&& gauge_values(self.agent_versions) == no_gauges()
        &&& gauge_values(self.session_protocols) == no_gauges()
        &&& gauge_values(self.session_types) == no_gauges()
        &&& gauge_values(self.machine_states) == no_gauges()
        &&& gauge_values(self.machine_os) == no_gauges()
        &&& gauge_values(self.machine_arch) == no_gauges()
    }

    /// The family at `position`, counted from zero in the order in which the
    /// families are registered.
    pub open spec fn family_at(&self, position: int) -> GaugeFamily {
        if position == 0 {
            self.sessions
        } else if position == 1 {
            self.agent_versions
        } else if position == 2 {
            self.session_protocols
        } else if position == 3 {
            self.session_types
        } else if position == 4 {
            self.machine_states
        } else if position == 5 {
            self.machine_os
        } else {
            self.machine_arch
        }
    }

    /// Each family bears the name of the metric of its dimension and has the
    /// number of that metric's descriptor.
    pub open spec fn bears_the_metrics(&self) -> bool {
        &&& family_name(self.sessions) == metric_name(Dimension::SessionState)@
        &&& family_name(self.agent_versions) == metric_name(Dimension::AgentVersion)@
        &&& family_name(self.session_protocols) == metric_name(Dimension::SessionProtocol)@
        &&& family_name(self.session_types) == metric_name(Dimension::SessionType)@
        &&& family_name(self.machine_states) == metric_name(Dimension::MachineState)@
        &&& family_name(self.machine_os) == metric_name(Dimension::MachineOs)@
        &&& family_name(self.machine_arch) == metric_name(Dimension::MachineArch)@
        &&& family_id(self.sessions) == descriptor_id(metric_name(Dimension::SessionState)@)
        &&& family_id(self.agent_versions) == descriptor_id(metric_name(Dimension::AgentVersion)@)
        &&& family_id(self.session_protocols) == descriptor_id(
            metric_name(Dimension::SessionProtocol)@,
        )
        &&& family_id(self.session_types) == descriptor_id(metric_name(Dimension::SessionType)@)
        &&& family_id(self.machine_states) == descriptor_id(metric_name(Dimension::MachineState)@)
        &&& family_id(self.machine_os) == descriptor_id(metric_name(Dimension::MachineOs)@)
        &&& family_id(self.machine_arch) == descriptor_id(metric_name(Dimension::MachineArch)@)
    }

    /// No two of the seven families have one number or one name.
    pub open spec fn families_differ(&self) -> bool {
        forall|i: int, j: int|
            0 <= i < j < 7 ==> family_id(#[trigger] self.family_at(i)) != family_id(
                #[trigger] self.family_at(j),
            ) && family_name(self.family_at(i)) != family_name(self.family_at(j))
    }

    /// The numbers and the names of the seven families are the same in `self`
    /// and in `other`.
    pub open spec fn same_families(&self, other: MetricSink) -> bool {
        &&& family_id(self.sessions) == family_id(other.sessions)
        &&& family_id(self.agent_versions) == family_id(other.agent_versions)
        &&& family_id(self.session_protocols) == family_id(other.session_protocols)
        &&& family_id(self.session_types) == family_id(other.session_types)
        &&& family_id(self.machine_states) == family_id(other.machine_states)
        &&& family_id(self.machine_os) == family_id(other.machine_os)
        &&& family_id(self.machine_arch) == family_id(other.machine_arch)
        &&& family_name(self.sessions) == family_name(other.sessions)
        &&& family_name(self.agent_versions) == family_name(other.agent_versions)
        &&& family_name(self.session_protocols) == family_name(other.session_protocols)
        &&& family_name(self.session_types) == family_name(other.session_types)
        &&& family_name(self.machine_states) == family_name(other.machine_states)
        &&& family_name(self.machine_os) == family_name(other.machine_os)
        &&& family_name(self.machine_arch) == family_name(other.machine_arch)
    }

    /// `name` is the name of one of the seven families.
    pub open spec fn has_name(&self, name: Seq<char>) -> bool {
        ||| name == family_name(self.sessions)
        ||| name == family_name(self.agent_versions)
        ||| name == family_name(self.session_protocols)
        ||| name == family_name(self.session_types)
        ||| name == family_name(self.machine_states)
        ||| name == family_name(self.machine_os)
        ||| name == family_name(self.machine_arch)
    }

    /// Each family of `self` holds what the same family of `before` held and,
    /// over it, the samples of its dimension in `publication`.
    pub open spec fn shows(&self, before: MetricSink, publication: Publication) -> bool {
        &&& gauge_values(self.sessions) == with_samples(
            gauge_values(before.sessions),
            publication.sessions.sessions@,
        )
        &&& gauge_values(self.agent_versions) == with_samples(
            gauge_values(before.agent_versions),
            publication.sessions.agent_versions@,
        )
        &&& gauge_values(self.session_protocols) == with_samples(
            gauge_values(before.session_protocols),
            publication.sessions.protocols@,
        )
        &&& gauge_values(self.session_types) == with_samples(
            gauge_values(before.session_types),
            publication.sessions.types@,
        )
        &&& gauge_values(self.machine_states) == with_samples(
            gauge_values(before.machine_states),
            publication.machines.states@,
        )
        &&& gauge_values(self.machine_os) == with_samples(
            gauge_values(before.machine_os),
            publication.machines.os@,
        )
        &&& gauge_values(self.machine_arch) == with_samples(
            gauge_values(before.machine_arch),
            publication.machines.arch@,
        )
    }

    /// `id` is the number of one of the seven families.
    pub open spec fn has_family(&self, id: u64) -> bool {
        ||| id == family_id(self.sessions)
        ||| id == family_id(self.agent_versions)
        ||| id == family_id(self.session_protocols)
        ||| id == family_id(self.session_types)
        ||| id == family_id(self.machine_states)
        ||| id == family_id(self.machine_os)
        ||| id == family_id(self.machine_arch)
    }

    /// The sink of the given registry and families, if each family is there.
    pub fn assemble(
        registry: prometheus::Registry,
        sessions: Option<GaugeFamily>,
        agent_versions: Option<GaugeFamily>,
        session_protocols: Option<GaugeFamily>,
        session_types: Option<GaugeFamily>,
        machine_states: Option<GaugeFamily>,
        machine_os: Option<GaugeFamily>,
        machine_arch: Option<GaugeFamily>,
    ) -> (made: Option<MetricSink>)
        ensures
            made.is_some() == (sessions.is_some() && agent_versions.is_some()
                && session_protocols.is_some() && session_types.is_some()
                && machine_states.is_some() && machine_os.is_some() && machine_arch.is_some()),
            made.is_some() ==> made.unwrap() == (MetricSink {
                registry,
                sessions: sessions.unwrap(),
                agent_versions: agent_versions.unwrap(),
                session_protocols: session_protocols.unwrap(),
                session_types: session_types.unwrap(),
                machine_states: machine_states.unwrap(),
                machine_os: machine_os.unwrap(),
                machine_arch: machine_arch.unwrap(),
            }),
    {
        match (
            sessions,
            agent_versions,
            session_protocols,
            session_types,
            machine_states,
            machine_os,
            machine_arch,
        ) {
            (Some(s), Some(a), Some(p), Some(t), Some(ms), Some(mo), Some(ma)) => Some(
                MetricSink {
                    registry,
                    sessions: s,
                    agent_versions: a,
                    session_protocols: p,
                    session_types: t,
                    machine_states: ms,
                    machine_os: mo,
                    machine_arch: ma,
                },
            ),
            _ => None,
        }
    }

    /// A sink that bears the seven metrics has families that differ.
    pub proof fn lemma_metrics_make_families_differ(&self)
        requires
            self.bears_the_metrics(),
        ensures
            self.families_differ(),
    {
        lemma_metrics_differ(Dimension::SessionState, Dimension::AgentVersion);
        lemma_metrics_differ(Dimension::SessionState, Dimension::SessionProtocol);
        lemma_metrics_differ(Dimension::SessionState, Dimension::SessionType);
        lemma_metrics_differ(Dimension::SessionState, Dimension::MachineState);
        lemma_metrics_differ(Dimension::SessionState, Dimension::MachineOs);
        lemma_metrics_differ(Dimension::SessionState, Dimension::MachineArch);
        lemma_metrics_differ(Dimension::AgentVersion, Dimension::SessionProtocol);
        lemma_metrics_differ(Dimension::AgentVersion, Dimension::SessionType);
        lemma_metrics_differ(Dimension::AgentVersion, Dimension::MachineState);
        lemma_metrics_differ(Dimension::AgentVersion, Dimension::MachineOs);
        lemma_metrics_differ(Dimension::AgentVersion, Dimension::MachineArch);
        lemma_metrics_differ(Dimension::SessionProtocol, Dimension::SessionType);
        lemma_metrics_differ(Dimension::SessionProtocol, Dimension::MachineState);
        lemma_metrics_differ(Dimension::SessionProtocol, Dimension::MachineOs);
        lemma_metrics_differ(Dimension::SessionProtocol, Dimension::MachineArch);
        lemma_metrics_differ(Dimension::SessionType, Dimension::MachineState);
        lemma_metrics_differ(Dimension::SessionType, Dimension::MachineOs);
        lemma_metrics_differ(Dimension::SessionType, Dimension::MachineArch);
        lemma_metrics_differ(Dimension::MachineState, Dimension::MachineOs);
        lemma_metrics_differ(Dimension::MachineState, Dimension::MachineArch);
        lemma_metrics_differ(Dimension::MachineOs, Dimension::MachineArch);
    }

    /// A sink with a registry of its own and a family for each dimension. The
    /// sink is always made: each family takes two label values, holds no gauge
    /// yet and bears the metric of its dimension, so that no two families
    /// have one number or one name; and nothing is registered with the
    /// registry.
    pub fn new() -> (made: Option<MetricSink>)
        ensures
            made.is_some(),
            made.unwrap().wf(),
            made.unwrap().is_fresh(),
            made.unwrap().bears_the_metrics(),
            made.unwrap().families_differ(),
    {
        let sessions = dimension_family(Dimension::SessionState);
        let agent_versions = dimension_family(Dimension::AgentVersion);
        let session_protocols = dimension_family(Dimension::SessionProtocol);
        let session_types = dimension_family(Dimension::SessionType);
        let machine_states = dimension_family(Dimension::MachineState);
        let machine_os = dimension_family(Dimension::MachineOs);
        let machine_arch = dimension_family(Dimension::MachineArch);
        let made = MetricSink::assemble(
            new_registry(),
            sessions,
            agent_versions,
            session_protocols,
            session_types,
            machine_states,
            machine_os,
            machine_arch,
        );
        proof {
            made.unwrap().lemma_metrics_make_families_differ();
        }
        made
    }

    /// Hands every sample of `publication` to the family of its dimension, in
    /// the order in which the samples stand. Every sample is taken: each
    /// family then holds, over what it held, the samples of its dimension.
    /// The registry is left as it is.
    pub fn publish(&mut self, publication: &Publication) -> (taken: bool)
        requires
            old(self).wf(),
        ensures
            taken,
            final(self).wf(),
            final(self).same_families(*old(self)),
            final(self).registry == old(self).registry,
            final(self).shows(*old(self), *publication),
    {
        let a = publish_samples(&mut self.sessions, &publication.sessions.sessions);
        let b = publish_samples(&mut self.agent_versions, &publication.sessions.agent_versions);
        let c = publish_samples(&mut self.session_protocols, &publication.sessions.protocols);
        let d = publish_samples(&mut self.session_types, &publication.sessions.types);
        let e = publish_samples(&mut self.machine_states, &publication.machines.states);
        let f = publish_samples(&mut self.machine_os, &publication.machines.os);
        let g = publish_samples(&mut self.machine_arch, &publication.machines.arch);
        a && b && c && d && e && f && g
    }

    /// The metrics of the registry as text. The second component says whether
    /// they were written out in full. The registry must hold families of
    /// gauges alone, as the registry of a sink does that was made by `new`.
    pub fn render(&self) -> (String, bool)
        requires
            gauges_only(self.registry),
    {
        encode_registry(&self.registry)
    }
}

/// Registers the family of each dimension with the sink's registry, one after
/// the other, and says whether the registry took them all. What was
/// registered stays registered, and nothing but families of the sink is
/// added. Where the registry took them all, none of them was registered
/// before and each is registered now, by number and by name. The registry
/// takes them all where it is that of a sink as `new` makes it: one that holds
/// families of gauges alone and nothing of them yet, for families that differ.
/// The families are left as they are.
pub fn register_metrics(sink: &mut MetricSink) -> (taken: bool)
    ensures
        final(sink).sessions == old(sink).sessions,
        final(sink).agent_versions == old(sink).agent_versions,
        final(sink).session_protocols == old(sink).session_protocols,
        final(sink).session_types == old(sink).session_types,
        final(sink).machine_states == old(sink).machine_states,
        final(sink).machine_os == old(sink).machine_os,
        final(sink).machine_arch == old(sink).machine_arch,
        gauges_only(old(sink).registry) ==> gauges_only(final(sink).registry),
        registered(old(sink).registry).subset_of(registered(final(sink).registry)),
        named(old(sink).registry).subset_of(named(final(sink).registry)),
        forall|id: u64|
            #[trigger] registered(final(sink).registry).contains(id) ==> registered(
                old(sink).registry,
            ).contains(id) || old(sink).has_family(id),
        forall|name: Seq<char>|
            #[trigger] named(final(sink).registry).contains(name) ==> named(
                old(sink).registry,
            ).contains(name) || old(sink).has_name(name),
        taken ==> forall|id: u64|
            #[trigger] old(sink).has_family(id) ==> registered(final(sink).registry).contains(id)
                && !registered(old(sink).registry).contains(id),
        taken ==> forall|name: Seq<char>|
            #[trigger] old(sink).has_name(name) ==> named(final(sink).registry).contains(name),
        (gauges_only(old(sink).registry) && old(sink).families_differ() && forall|id: u64|
            #[trigger] old(sink).has_family(id) ==> !registered(old(sink).registry).contains(id))
            && (forall|name: Seq<char>|
            #[trigger] old(sink).has_name(name) ==> !named(old(sink).registry).contains(name))
            ==> taken,
{
    let ghost before = *sink;
    proof {
        assert(before.family_at(0) == before.sessions);
        assert(before.family_at(1) == before.agent_versions);
        assert(before.family_at(2) == before.session_protocols);
        assert(before.family_at(3) == before.session_types);
        assert(before.family_at(4) == before.machine_states);
        assert(before.family_at(5) == before.machine_os);
        assert(before.family_at(6) == before.machine_arch);
        assert(before.has_family(family_id(before.sessions)));
        assert(before.has_family(family_id(before.agent_versions)));
        assert(before.has_family(family_id(before.session_protocols)));
        assert(before.has_family(family_id(before.session_types)));
        assert(before.has_family(family_id(before.machine_states)));
        assert(before.has_family(family_id(before.machine_os)));
        assert(before.has_family(family_id(before.machine_arch)));
        assert(before.has_name(family_name(before.sessions)));
        assert(before.has_name(family_name(before.agent_versions)));
        assert(before.has_name(family_name(before.session_protocols)));
        assert(before.has_name(family_name(before.session_types)));
        assert(before.has_name(family_name(before.machine_states)));
        assert(before.has_name(family_name(before.machine_os)));
        assert(before.has_name(family_name(before.machine_arch)));
    }
    let a = register_family(&mut sink.registry, &sink.sessions);
    let b = register_family(&mut sink.registry, &sink.agent_versions);
    let c = register_family(&mut sink.registry, &sink.session_protocols);
    let d = register_family(&mut sink.registry, &sink.session_types);
    let e = register_family(&mut sink.registry, &sink.machine_states);
    let f = register_family(&mut sink.registry, &sink.machine_os);
    let g = register_family(&mut sink.registry, &sink.machine_arch);
    a && b && c && d && e && f && g
}

} // verus!
