use vstd::prelude::*;
use crate::diff_store::{
    PostmanType, DiffStoreAction, DiffStoreRequest, input_action, is_reasoned,
    is_removed, matches_mode, request_for_input,
};
use crate::error::Error;
use crate::schemas::{EventRecord, InputEvent, event_of_record, same_text};

verus! {

/// Whether a schema's namespace and name identify a harvest-domain record.
pub open spec fn is_harvest_source(namespace: Seq<char>, name: Seq<char>) -> bool {
    (namespace == "no.fdk.concept"@ && name == "ConceptEvent"@) || (namespace
        == "no.fdk.dataset"@ && name == "DatasetEvent"@)
}

/// Tells whether a schema's namespace and name identify a harvest-domain record.
pub fn harvest_source(namespace: &str, name: &str) -> (r: bool)
    ensures
        r == is_harvest_source(namespace@, name@),
{
    (same_text(namespace, "no.fdk.concept") && same_text(name, "ConceptEvent")) || (same_text(
        namespace,
        "no.fdk.dataset",
    ) && same_text(name, "DatasetEvent"))
}

/// The decoded message for a record read under a schema with the given
/// namespace and name: a harvest event for a known source (or the error met
/// while reading its record), and an unknown event for any other source.
pub open spec fn classified(namespace: String, name: String, record: Result<EventRecord, Error>) -> Result<
    InputEvent,
    Error,
> {
    if is_harvest_source(namespace@, name@) {
        match record {
            Ok(rec) => Ok(InputEvent::HarvestEvent(event_of_record(rec))),
            Err(e) => Err(e),
        }
    } else {
        Ok(InputEvent::Unknown { namespace, name })
    }
}

/// Whether an error is the one given for a schema without namespace or name.
pub open spec fn is_missing_name_error(e: Error) -> bool {
    e matches Error::String(m) && m@ == "unable to identify event without namespace and name"@
}

/// Classifies a decoded message by its schema's namespace and name.
///
/// Without a namespace or a name the message cannot be classified, and an
/// error is returned. `record` is what reading the payload as a harvest record
/// gave; it is used only when the source is a known one.
pub fn classify_event(
    namespace: Option<String>,
    name: Option<String>,
    record: Result<EventRecord, Error>,
) -> (r: Result<InputEvent, Error>)
    ensures
        match (namespace, name) {
            (Some(ns), Some(n)) => r == classified(ns, n, record),
            _ => r matches Err(e) && is_missing_name_error(e),
        },
{
    match (namespace, name) {
        (Some(ns), Some(n)) => {
            if harvest_source(ns.as_str(), n.as_str()) {
                match record {
                    Ok(rec) => Ok(InputEvent::HarvestEvent(rec.into_event())),
                    Err(e) => Err(e),
                }
            } else {
                Ok(InputEvent::Unknown { namespace: ns, name: n })
            }
        },
        _ => Err(Error::String("unable to identify event without namespace and name".to_owned())),
    }
}

/// Seconds that a schema registry request may take.
pub const SCHEMA_REGISTRY_TIMEOUT_SECS: u64 = 5;

/// The pieces of a comma-separated list, in order. A list without commas is a
/// single piece; empty pieces are kept.
pub open spec fn comma_pieces(s: Seq<char>) -> Seq<Seq<char>>
    decreases s.len(),
{
    if s.len() == 0 {
        seq![Seq::<char>::empty()]
    } else {
        let init = comma_pieces(s.drop_last());
        if s.last() == ',' {
            init.push(Seq::<char>::empty())
        } else {
            init.update(init.len() - 1, init.last().push(s.last()))
        }
    }
}

/// Splits the configured schema registry list into its URLs; the first one is
/// the registry's primary URL.
pub fn registry_urls(schema_registry: &str) -> (r: Vec<String>)
    ensures
        r@.map_values(|u: String| u@) == comma_pieces(schema_registry@),
        r@.len() >= 1,
{
    let n = schema_registry.unicode_len();
    let mut urls: Vec<String> = Vec::new();
    let mut start: usize = 0;
    let mut i: usize = 0;
    proof {
        assert(schema_registry@.subrange(0, 0) =~= Seq::<char>::empty());
        assert(urls@.map_values(|u: String| u@).push(schema_registry@.subrange(0, 0)) =~= seq![
            Seq::<char>::empty(),
        ]);
    }
    while i < n
        invariant
            n == schema_registry@.len(),
            start <= i <= n,
            urls@.map_values(|u: String| u@).push(schema_registry@.subrange(start as int, i as int))
                == comma_pieces(schema_registry@.subrange(0, i as int)),
        decreases n - i,
    {
        let c = schema_registry.get_char(i);
        let ghost s = schema_registry@;
        proof {
            assert(s.subrange(0, i + 1).drop_last() =~= s.subrange(0, i as int));
        }
        if c == ',' {
            let piece = schema_registry.substring_char(start, i).to_owned();
            urls.push(piece);
            proof {
                assert(s.subrange(i + 1, i + 1) =~= Seq::<char>::empty());
                assert(urls@.map_values(|u: String| u@) =~= urls@.drop_last().map_values(
                    |u: String| u@,
                ).push(s.subrange(start as int, i as int)));
            }
            start = i + 1;
        } else {
            proof {
                assert(s.subrange(start as int, i + 1) =~= s.subrange(start as int, i as int).push(
                    c,
                ));
                let pre = urls@.map_values(|u: String| u@).push(s.subrange(start as int, i as int));
                assert(pre.update(pre.len() - 1, pre.last().push(c)) =~= urls@.map_values(
                    |u: String| u@,
                ).push(s.subrange(start as int, i + 1)));
            }
        }
        i = i + 1;
    }
    let last = schema_registry.substring_char(start, n).to_owned();
    let ghost before = urls@;
    urls.push(last);
    proof {
        assert(schema_registry@.subrange(0, n as int) =~= schema_registry@);
        assert(urls@.map_values(|u: String| u@) =~= before.map_values(|u: String| u@).push(
            schema_registry@.subrange(start as int, n as int),
        ));
    }
    urls
}

/// A record of a known source is decoded into a harvest event whose fields
/// are exactly those of the record.
pub proof fn lemma_known_source_keeps_fields(namespace: String, name: String, rec: EventRecord)
    requires
        is_harvest_source(namespace@, name@),
    ensures
        classified(namespace, name, Ok(rec)) == Ok::<InputEvent, Error>(
            InputEvent::HarvestEvent(event_of_record(rec)),
        ),
        event_of_record(rec).fdk_id == rec.fdk_id,
        event_of_record(rec).graph == rec.graph,
        event_of_record(rec).timestamp == rec.timestamp,
{
}

/// A message of any source outside the known ones is classified as unknown,
/// whatever its record holds, and calls for no action and no request under
/// any subject mode.
pub proof fn lemma_unknown_source_is_skipped(
    namespace: String,
    name: String,
    record: Result<EventRecord, Error>,
    mode: PostmanType,
)
    requires
        !is_harvest_source(namespace@, name@),
    ensures
        classified(namespace, name, record) == Ok::<InputEvent, Error>(
            InputEvent::Unknown { namespace, name },
        ),
        input_action(InputEvent::Unknown { namespace, name }, mode) == DiffStoreAction::Nothing,
        request_for_input(InputEvent::Unknown { namespace, name }, mode) is None,
{
}

/// A removed event of a known source, read by a worker of its own subject
/// kind, leads to exactly one call: a delete of its id.
pub proof fn lemma_removed_event_deletes(
    namespace: String,
    name: String,
    rec: EventRecord,
    mode: PostmanType,
)
    requires
        is_harvest_source(namespace@, name@),
        is_removed(event_of_record(rec).event_type),
        matches_mode(event_of_record(rec).event_type, mode),
    ensures
        classified(namespace, name, Ok(rec)) is Ok,
        request_for_input(classified(namespace, name, Ok(rec))->Ok_0, mode) == Some(
            DiffStoreRequest::DeleteGraph { id: rec.fdk_id },
        ),
{
}

/// A reasoned event of a known source, read by a worker of its own subject
/// kind, leads to exactly one call: a post of its id and graph.
pub proof fn lemma_reasoned_event_posts(
    namespace: String,
    name: String,
    rec: EventRecord,
    mode: PostmanType,
)
    requires
        is_harvest_source(namespace@, name@),
        is_reasoned(event_of_record(rec).event_type),
        matches_mode(event_of_record(rec).event_type, mode),
    ensures
        classified(namespace, name, Ok(rec)) is Ok,
        request_for_input(classified(namespace, name, Ok(rec))->Ok_0, mode) == Some(
            DiffStoreRequest::PostGraph { id: rec.fdk_id, graph: rec.graph },
        ),
{
}

} // verus!
