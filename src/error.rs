use vstd::prelude::*;
use crate::diff_store::DiffStoreAction;

verus! {

/// Errors of the processing pipeline. Errors raised by the broker, the schema
/// registry, the Avro codec or the HTTP transport are carried as their messages.
#[derive(Debug)]
pub enum Error {
    IoError(String),
    KafkaError(String),
    AvroError(String),
    SRCError(String),
    HttpError(String),
    /// The diff store answered a forward call with a status other than 200.
    DiffStoreResponse { action: DiffStoreAction, fdk_id: String, status: u16, body: String },
    String(String),
}

} // verus!
