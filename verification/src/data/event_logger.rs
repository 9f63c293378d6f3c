//! The logs of events: one JSON file a day for each named stream of records.

use vstd::prelude::*;
use vstd::string::*;

verus! {

/// One stream of records: the file it goes to and the filter directive that
/// selects it.
#[derive(Debug, Clone, PartialEq, Eq)]
pub struct EventLayer {
    pub file: String,
    pub filter: String,
}

/// The file of the stream with the given name.
pub open spec fn file_of(name: Seq<char>) -> Seq<char> {
    name + ".jsonl"@
}

/// The directive that lets every record of the stream with the given name
/// through, and no other.
pub open spec fn filter_of(name: Seq<char>) -> Seq<char> {
    name + "=trace"@
}

/// The layer of the stream with the given name.
pub fn build_layer(name: &str) -> (r: EventLayer)
    ensures
        r.file@ == file_of(name@),
        r.filter@ == filter_of(name@),
{
    let mut file = String::from_str(name);
    file.append(".jsonl");
    let mut filter = String::from_str(name);
    filter.append("=trace");
    EventLayer { file, filter }
}

/// The layers of the two streams that the program records: raw documents
/// and chat messages.
pub fn init() -> (r: Vec<EventLayer>)
    ensures
        r@.len() == 2,
        r@[0].file@ == file_of("raw"@),
        r@[0].filter@ == filter_of("raw"@),
        r@[1].file@ == file_of("danmaku"@),
        r@[1].filter@ == filter_of("danmaku"@),
{
    let mut layers: Vec<EventLayer> = Vec::new();
    layers.push(build_layer("raw"));
    layers.push(build_layer("danmaku"));
    layers
}

} // verus!
