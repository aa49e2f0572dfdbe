use vstd::prelude::*;

verus! {

/// Compares two string slices by their characters.
pub fn same_text(a: &str, b: &str) -> (r: bool)
    ensures
        r == (a@ == b@),
{
    let x = a.to_owned();
    let y = b.to_owned();
    x == y
}

/// Type of a harvest-domain event, as carried in the record's `type` field.
#[derive(Debug, Clone, Copy, PartialEq, Eq, Structural)]
pub enum HarvestEventType {
    DatasetHarvested,
    DatasetReasoned,
    DatasetRemoved,
    ConceptHarvested,
    ConceptReasoned,
    ConceptRemoved,
    Unknown,
}

/// The event type that a wire value stands for; any value outside the
/// known symbols is `Unknown`.
pub open spec fn event_type_of_wire(s: Seq<char>) -> HarvestEventType {
    if s == "DATASET_HARVESTED"@ {
        HarvestEventType::DatasetHarvested
    } else if s == "DATASET_REASONED"@ {
        HarvestEventType::DatasetReasoned
    } else if s == "DATASET_REMOVED"@ {
        HarvestEventType::DatasetRemoved
    } else if s == "CONCEPT_HARVESTED"@ {
        HarvestEventType::ConceptHarvested
    } else if s == "CONCEPT_REASONED"@ {
        HarvestEventType::ConceptReasoned
    } else if s == "CONCEPT_REMOVED"@ {
        HarvestEventType::ConceptRemoved
    } else {
        HarvestEventType::Unknown
    }
}

impl HarvestEventType {
    /// Reads a wire value; unrecognised values give `Unknown` rather than an error.
    pub fn from_wire(s: &str) -> (r: HarvestEventType)
        ensures
            r == event_type_of_wire(s@),
    {
        if same_text(s, "DATASET_HARVESTED") {
            HarvestEventType::DatasetHarvested
        } else if same_text(s, "DATASET_REASONED") {
            HarvestEventType::DatasetReasoned
        } else if same_text(s, "DATASET_REMOVED") {
            HarvestEventType::DatasetRemoved
        } else if same_text(s, "CONCEPT_HARVESTED") {
            HarvestEventType::ConceptHarvested
        } else if same_text(s, "CONCEPT_REASONED") {
            HarvestEventType::ConceptReasoned
        } else if same_text(s, "CONCEPT_REMOVED") {
            HarvestEventType::ConceptRemoved
        } else {
            HarvestEventType::Unknown
        }
    }
}

/// The canonical harvest-domain record.
#[derive(Debug)]
pub struct HarvestEvent {
    pub event_type: HarvestEventType,
    pub fdk_id: String,
    pub graph: String,
    pub timestamp: i64,
}

/// A decoded message: a harvest-domain event, or a record of a kind this
/// service does not handle, named by its schema's namespace and name.
#[derive(Debug)]
pub enum InputEvent {
    HarvestEvent(HarvestEvent),
    Unknown { namespace: String, name: String },
}

/// The fields of a harvest-domain record as they were read off the wire,
/// before the event type is interpreted.
#[derive(Debug)]
pub struct EventRecord {
    pub event_type: String,
    pub fdk_id: String,
    pub graph: String,
    pub timestamp: i64,
}

/// The event that a record stands for.
pub open spec fn event_of_record(rec: EventRecord) -> HarvestEvent {
    HarvestEvent {
        event_type: event_type_of_wire(rec.event_type@),
        fdk_id: rec.fdk_id,
        graph: rec.graph,
        timestamp: rec.timestamp,
    }
}

impl EventRecord {
    /// Interprets the record's event type and keeps every other field as it is.
    pub fn into_event(self) -> (r: HarvestEvent)
        ensures
            r == event_of_record(self),
    {
        let event_type = HarvestEventType::from_wire(self.event_type.as_str());
        HarvestEvent {
            event_type,
            fdk_id: self.fdk_id,
            graph: self.graph,
            timestamp: self.timestamp,
        }
    }
}

} // verus!
