//! What a reconciliation reports besides the counts: the entities that could
//! not be counted as they stand.

use vstd::prelude::*;
use vstd::string::StringExecFns;
use crate::matrix::label_set;

verus! {

/// The dimensions along which entities are counted.
#[derive(Clone, Copy, Debug, PartialEq, Eq, Structural)]
pub enum Dimension {
    SessionState,
    SessionProtocol,
    SessionType,
    AgentVersion,
    MachineState,
    MachineOs,
    MachineArch,
}

/// Something about an entity that is worth a warning. Neither stops the reconciliation.
#[derive(Clone, Debug)]
pub enum Anomaly {
    /// The session belongs to no desktop pool. It is not counted.
    MissingPool { session: String },
    /// The entity's value for the dimension is not one of the known values.
    /// It is counted under that value in lower case.
    UnknownValue { dimension: Dimension, entity: String, value: String },
}

/// An `Anomaly` with its texts as sequences of characters.
pub enum AnomalyView {
    MissingPool { session: Seq<char> },
    UnknownValue { dimension: Dimension, entity: Seq<char>, value: Seq<char> },
}

impl View for Anomaly {
    type V = AnomalyView;

    open spec fn view(&self) -> AnomalyView {
        match self {
            Anomaly::MissingPool { session } => AnomalyView::MissingPool { session: session@ },
            Anomaly::UnknownValue { dimension, entity, value } => AnomalyView::UnknownValue {
                dimension: *dimension,
                entity: entity@,
                value: value@,
            },
        }
    }
}

/// The anomalies of a list, each by its view.
pub open spec fn anomaly_views(list: Seq<Anomaly>) -> Seq<AnomalyView> {
    list.map_values(|a: Anomaly| a@)
}

/// The warning, if any, that the value of one dimension of one entity earns:
/// one warning where the value is not among `known`, none where it is.
pub open spec fn unknown_value(
    dimension: Dimension,
    entity: Seq<char>,
    value: Seq<char>,
    known: Seq<&'static str>,
) -> Seq<AnomalyView> {
    if label_set(known).contains(value) {
        Seq::empty()
    } else {
        seq![AnomalyView::UnknownValue { dimension, entity, value }]
    }
}

/// Notes a warning for a value that is not `known`.
pub fn note_unknown(
    warnings: &mut Vec<Anomaly>,
    known: bool,
    dimension: Dimension,
    entity: &String,
    value: &String,
)
    ensures
        anomaly_views(final(warnings)@) == anomaly_views(old(warnings)@) + (if known {
            Seq::<AnomalyView>::empty()
        } else {
            seq![AnomalyView::UnknownValue { dimension, entity: entity@, value: value@ }]
        }),
{
    if !known {
        warnings.push(Anomaly::UnknownValue { dimension, entity: entity.clone(), value: value.clone() });
    }
    assert(anomaly_views(warnings@) =~= anomaly_views(old(warnings)@) + (if known {
        Seq::<AnomalyView>::empty()
    } else {
        seq![AnomalyView::UnknownValue { dimension, entity: entity@, value: value@ }]
    }));
}

/// What a warning says of a value that is not known, before the value: the
/// dimension in words.
pub open spec fn unknown_words(dimension: Dimension) -> Seq<char> {
    match dimension {
        Dimension::SessionState => "skipping unknown state "@,
        Dimension::SessionProtocol => "skipping unknown session protocol "@,
        Dimension::SessionType => "skipping unknown session type "@,
        Dimension::AgentVersion => "skipping unknown agent version "@,
        Dimension::MachineState => "skipping unknown state "@,
        Dimension::MachineOs => "skipping unknown operating system "@,
        Dimension::MachineArch => "skipping unknown architecture "@,
    }
}

/// What a warning says of a value that is not known, between the value and the
/// entity: the kind of entity in words.
pub open spec fn entity_words(dimension: Dimension) -> Seq<char> {
    match dimension {
        Dimension::MachineState | Dimension::MachineOs | Dimension::MachineArch =>
            " for machine id "@,
        _ => " for session id "@,
    }
}

impl AnomalyView {
    /// The warning in words.
    pub open spec fn text(self) -> Seq<char> {
        match self {
            AnomalyView::MissingPool { session } => "BUG: session id "@ + session
                + " is not a desktop session"@,
            AnomalyView::UnknownValue { dimension, entity, value } => unknown_words(dimension)
                + value + entity_words(dimension) + entity,
        }
    }
}

impl Anomaly {
    /// The warning in words.
    pub fn message(&self) -> (text: String)
        ensures
            text@ == self@.text(),
    {
        match self {
            Anomaly::MissingPool { session } => {
                let mut text = String::from_str("BUG: session id ");
                text.append(session.as_str());
                text.append(" is not a desktop session");
                text
            },
            Anomaly::UnknownValue { dimension, entity, value } => {
                let mut text = match dimension {
                    Dimension::SessionState => String::from_str("skipping unknown state "),
                    Dimension::SessionProtocol => String::from_str(
                        "skipping unknown session protocol ",
                    ),
                    Dimension::SessionType => String::from_str("skipping unknown session type "),
                    Dimension::AgentVersion => String::from_str("skipping unknown agent version "),
                    Dimension::MachineState => String::from_str("skipping unknown state "),
                    Dimension::MachineOs => String::from_str("skipping unknown operating system "),
                    Dimension::MachineArch => String::from_str("skipping unknown architecture "),
                };
                text.append(value.as_str());
                match dimension {
                    Dimension::MachineState | Dimension::MachineOs | Dimension::MachineArch => {
                        text.append(" for machine id ");
                    },
                    _ => {
                        text.append(" for session id ");
                    },
                }
                text.append(entity.as_str());
                text
            },
        }
    }
}

} // verus!
