//! The persisted records, and the values from which new rows are made.
//! Times are stored as eight-byte blobs; durations are kept in nanoseconds.

use vstd::prelude::*;
use vstd::string::StringExecFns;
use crate::detector::PeakEvent;
use crate::text::{decimal, decimal_string};
use crate::timestamp::{be_bytes, decode_nanos, decoded, encode_nanos};

verus! {

/// A stored placeholder post.
#[derive(Clone, Debug)]
pub struct Post {
    pub id: i32,
    pub title: String,
    pub content: String,
}

/// A placeholder post to store.
#[derive(Clone, Debug)]
pub struct CreatePost {
    pub title: String,
    pub content: String,
}

/// A stored race.
#[derive(Clone, Debug)]
pub struct Race {
    pub id: i32,
    pub start_time: Vec<u8>,
    pub end_time: Option<Vec<u8>>,
}

/// A race to store.
#[derive(Clone, Debug)]
pub struct CreateRace {
    pub start_time: Vec<u8>,
}

/// A stored crossing.
#[derive(Clone, Debug)]
pub struct Node {
    pub id: i32,
    pub peak: u32,
    pub time: Vec<u8>,
    pub duration_ns: u64,
    pub race_id: i32,
}

/// A crossing to store.
#[derive(Clone, Debug)]
pub struct CreateNode {
    pub peak: u32,
    pub time: Vec<u8>,
    pub duration_ns: u64,
    pub race_id: i32,
}

/// A stored crossing with its time decoded.
#[derive(Clone, Copy, Debug, PartialEq, Eq, Structural)]
pub struct NodeJson {
    pub id: i32,
    pub peak: u32,
    pub time: u64,
    pub duration_ns: u64,
    pub race_id: i32,
}

/// Title of the placeholder post that goes with a counter value.
pub open spec fn post_title(counter: u32) -> Seq<char> {
    "Post "@ + decimal(counter as nat)
}

/// Content of the placeholder post that goes with a counter value.
pub open spec fn post_content(counter: u32) -> Seq<char> {
    "This is the content of post "@ + decimal(counter as nat)
}

impl CreatePost {
    /// The placeholder post that goes with a counter value.
    pub fn placeholder(counter: u32) -> (post: CreatePost)
        ensures
            post.title@ == post_title(counter),
            post.content@ == post_content(counter),
    {
        let number = decimal_string(counter);
        let mut title = "Post ".to_owned();
        title.append(number.as_str());
        let mut content = "This is the content of post ".to_owned();
        content.append(number.as_str());
        CreatePost { title, content }
    }
}

impl CreateRace {
    /// A race that starts at `start_ns`.
    pub fn starting_at(start_ns: u64) -> (race: CreateRace)
        ensures
            race.start_time@ == be_bytes(start_ns),
            decoded(race.start_time@) == Some(start_ns),
    {
        CreateRace { start_time: encode_nanos(start_ns) }
    }
}

impl CreateNode {
    /// The crossing to store for an event that was reported `elapsed_ns`
    /// after the start of race `race_id`.
    pub fn from_event(event: PeakEvent, elapsed_ns: u64, race_id: i32) -> (node: CreateNode)
        ensures
            node.peak == event.peak,
            node.time@ == be_bytes(elapsed_ns),
            node.duration_ns == event.duration_ns,
            node.race_id == race_id,
    {
        CreateNode {
            peak: event.peak,
            time: encode_nanos(elapsed_ns),
            duration_ns: event.duration_ns,
            race_id,
        }
    }
}

impl Node {
    /// The decoded form of a stored crossing; none when its time is not an
    /// eight-byte blob.
    pub open spec fn json(self) -> Option<NodeJson> {
        match decoded(self.time@) {
            Some(time) => Some(
                NodeJson {
                    id: self.id,
                    peak: self.peak,
                    time,
                    duration_ns: self.duration_ns,
                    race_id: self.race_id,
                },
            ),
            None => None,
        }
    }

    /// Decodes the stored time. A crossing whose time is not an eight-byte
    /// blob has no decoded form.
    pub fn to_json(&self) -> (json: Option<NodeJson>)
        ensures
            json == self.json(),
            json is Some <==> self.time@.len() == 8,
    {
        match decode_nanos(self.time.as_slice()) {
            Some(time) => Some(
                NodeJson {
                    id: self.id,
                    peak: self.peak,
                    time,
                    duration_ns: self.duration_ns,
                    race_id: self.race_id,
                },
            ),
            None => None,
        }
    }
}

/// Decodes every stored crossing, in order. The list has a decoded form
/// only when each of its crossings has one.
pub fn list_nodes(nodes: &Vec<Node>) -> (list: Option<Vec<NodeJson>>)
    ensures
        list is Some <==> forall|i: int| 0 <= i < nodes@.len() ==> (#[trigger] nodes@[i]).time@.len()
            == 8,
        list matches Some(v) ==> v@.len() == nodes@.len() && forall|i: int|
            0 <= i < nodes@.len() ==> Some(#[trigger] v@[i]) == nodes@[i].json(),
{
    let mut out: Vec<NodeJson> = Vec::new();
    let mut i: usize = 0;
    while i < nodes.len()
        invariant
            i <= nodes@.len(),
            out@.len() == i,
            forall|j: int| 0 <= j < i ==> (#[trigger] nodes@[j]).time@.len() == 8,
            forall|j: int| 0 <= j < i ==> Some(#[trigger] out@[j]) == nodes@[j].json(),
        decreases nodes@.len() - i,
    {
        match nodes[i].to_json() {
            Some(json) => {
                out.push(json);
            },
            None => {
                return None;
            },
        }
        i = i + 1;
    }
    Some(out)
}

} // verus!
