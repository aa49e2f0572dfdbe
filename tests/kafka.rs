use fdk_rdf_postman::diff_store::{
    forward_outcome, input_event_request, DiffStoreAction, DiffStoreRequest, PostmanType,
};
use fdk_rdf_postman::error::Error;
use fdk_rdf_postman::kafka::{
    classify_event, harvest_source, registry_urls, SCHEMA_REGISTRY_TIMEOUT_SECS,
};
use fdk_rdf_postman::metrics::{ProcessedMessages, ProcessingStatus};
use fdk_rdf_postman::schemas::{EventRecord, HarvestEventType, InputEvent};

fn record(event_type: &str, id: &str, graph: &str) -> EventRecord {
    EventRecord {
        event_type: event_type.to_string(),
        fdk_id: id.to_string(),
        graph: graph.to_string(),
        timestamp: 1647698566000,
    }
}

fn some(s: &str) -> Option<String> {
    Some(s.to_string())
}

const GRAPH: &str = "\
        @prefix si: <https://www.w3schools.com/rdf/> .
        <https://digdir.no/dataset/007> si:author \"James Bond\" ;
            si:title \"The man!\" .
        ";

#[test]
fn known_sources() {
    assert!(harvest_source("no.fdk.dataset", "DatasetEvent"));
    assert!(harvest_source("no.fdk.concept", "ConceptEvent"));
    assert!(!harvest_source("no.fdk.dataset", "ConceptEvent"));
    assert!(!harvest_source("no.fdk.concept", "DatasetEvent"));
    assert!(!harvest_source("no.fdk.dataservice", "DataServiceEvent"));
}

#[test]
fn known_source_keeps_record_fields() {
    let ev = classify_event(
        some("no.fdk.dataset"),
        some("DatasetEvent"),
        Ok(record("DATASET_REASONED", "fdk-id", GRAPH)),
    );
    match ev {
        Ok(InputEvent::HarvestEvent(e)) => {
            assert_eq!(e.event_type, HarvestEventType::DatasetReasoned);
            assert_eq!(e.fdk_id, "fdk-id");
            assert_eq!(e.graph, GRAPH);
            assert_eq!(e.timestamp, 1647698566000);
        }
        other => panic!("unexpected {:?}", other),
    }
}

#[test]
fn known_source_with_unknown_type_value() {
    let ev = classify_event(
        some("no.fdk.concept"),
        some("ConceptEvent"),
        Ok(record("CONCEPT_MERGED", "c1", "g")),
    );
    match ev {
        Ok(InputEvent::HarvestEvent(e)) => assert_eq!(e.event_type, HarvestEventType::Unknown),
        other => panic!("unexpected {:?}", other),
    }
}

#[test]
fn unknown_source_is_unknown_event() {
    let ev = classify_event(
        some("no.fdk.dataservice"),
        some("DataServiceEvent"),
        Err(Error::AvroError("shape mismatch".to_string())),
    );
    match ev {
        Ok(InputEvent::Unknown { namespace, name }) => {
            assert_eq!(namespace, "no.fdk.dataservice");
            assert_eq!(name, "DataServiceEvent");
            for mode in [PostmanType::Dataset, PostmanType::Concept, PostmanType::Unknown] {
                let again = InputEvent::Unknown { namespace: namespace.clone(), name: name.clone() };
                assert!(input_event_request(again, mode).is_none());
            }
        }
        other => panic!("unexpected {:?}", other),
    }
}

#[test]
fn shape_mismatch_on_known_source_is_error() {
    let ev = classify_event(
        some("no.fdk.dataset"),
        some("DatasetEvent"),
        Err(Error::AvroError("shape mismatch".to_string())),
    );
    match ev {
        Err(Error::AvroError(m)) => assert_eq!(m, "shape mismatch"),
        other => panic!("unexpected {:?}", other),
    }
}

#[test]
fn missing_namespace_or_name_is_error() {
    for (ns, n) in [(None, some("DatasetEvent")), (some("no.fdk.dataset"), None), (None, None)] {
        match classify_event(ns, n, Ok(record("DATASET_REASONED", "fdk-id", "g"))) {
            Err(Error::String(m)) => {
                assert_eq!(m, "unable to identify event without namespace and name")
            }
            other => panic!("unexpected {:?}", other),
        }
    }
}

#[test]
fn removed_event_round_trip() {
    let ev = classify_event(
        some("no.fdk.concept"),
        some("ConceptEvent"),
        Ok(record("CONCEPT_REMOVED", "fdk-id", "")),
    )
    .unwrap();
    match input_event_request(ev, PostmanType::Concept) {
        Some(DiffStoreRequest::DeleteGraph { id }) => assert_eq!(id, "fdk-id"),
        other => panic!("unexpected {:?}", other),
    }
}

#[test]
fn reasoned_event_round_trip() {
    let ev = classify_event(
        some("no.fdk.dataset"),
        some("DatasetEvent"),
        Ok(record("DATASET_REASONED", "fdk-id", "<graph-text>")),
    )
    .unwrap();
    match input_event_request(ev, PostmanType::Dataset) {
        Some(DiffStoreRequest::PostGraph { id, graph }) => {
            assert_eq!(id, "fdk-id");
            assert_eq!(graph, "<graph-text>");
        }
        other => panic!("unexpected {:?}", other),
    }
}

#[test]
fn harvested_event_makes_no_call_and_counts_success() {
    let mut metrics = ProcessedMessages::new();
    let ev = classify_event(
        some("no.fdk.dataset"),
        some("DatasetEvent"),
        Ok(record("DATASET_HARVESTED", "fdk-id", GRAPH)),
    )
    .unwrap();
    let request = input_event_request(ev, PostmanType::Dataset);
    assert!(request.is_none());
    let status = metrics.observe(&Ok(()));
    assert_eq!(status, ProcessingStatus::Success);
    assert_eq!(metrics.success(), 1);
    assert_eq!(metrics.error(), 0);
}

#[test]
fn reasoned_event_outcome_follows_response_status() {
    let mut metrics = ProcessedMessages::new();
    for (status, expected) in [(200, ProcessingStatus::Success), (500, ProcessingStatus::Error)] {
        let ev = classify_event(
            some("no.fdk.dataset"),
            some("DatasetEvent"),
            Ok(record("DATASET_REASONED", "fdk-id", "<graph-text>")),
        )
        .unwrap();
        let request = input_event_request(ev, PostmanType::Dataset).expect("one call");
        assert_eq!(request.method(), "POST");
        assert_eq!(request.action(), DiffStoreAction::PostGraph);
        let result = forward_outcome(&request, status, "body".to_string());
        assert_eq!(metrics.observe(&result), expected);
    }
    assert_eq!(metrics.success(), 1);
    assert_eq!(metrics.error(), 1);
}

#[test]
fn single_registry_url() {
    assert_eq!(registry_urls("http://localhost:8081"), vec!["http://localhost:8081".to_string()]);
    assert_eq!(SCHEMA_REGISTRY_TIMEOUT_SECS, 5);
}

#[test]
fn several_registry_urls() {
    assert_eq!(
        registry_urls("http://a:8081,http://b:8081,http://c:8081"),
        vec!["http://a:8081".to_string(), "http://b:8081".to_string(), "http://c:8081".to_string()]
    );
}

#[test]
fn empty_registry_pieces_are_kept() {
    assert_eq!(registry_urls(""), vec![String::new()]);
    assert_eq!(registry_urls(","), vec![String::new(), String::new()]);
    assert_eq!(registry_urls("a,,b,"), vec!["a".to_string(), String::new(), "b".to_string(), String::new()]);
    assert_eq!(registry_urls("ø,é"), vec!["ø".to_string(), "é".to_string()]);
}
