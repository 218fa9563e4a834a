use race_timer::control::{
    count_response, status_of, COMMAND_QUEUE_CAPACITY, STATUS_OK, STATUS_SERVER_ERROR,
};
use race_timer::detector::{EventKind, PeakEvent};
use race_timer::records::{
    list_nodes, CreateNode, CreatePost, CreateRace, Node, NodeJson, Post, Race,
};
use race_timer::text::decimal_string;

#[test]
fn decimal_numerals() {
    assert_eq!(decimal_string(0), "0");
    assert_eq!(decimal_string(7), "7");
    assert_eq!(decimal_string(9), "9");
    assert_eq!(decimal_string(10), "10");
    assert_eq!(decimal_string(1_234_567_890), "1234567890");
    assert_eq!(decimal_string(u32::MAX), "4294967295");
}

#[test]
fn decimal_agrees_with_std() {
    for n in [0u32, 1, 9, 10, 11, 99, 100, 101, 999, 1000, 65_535, 1_000_000, u32::MAX - 1] {
        assert_eq!(decimal_string(n), format!("{}", n));
    }
}

#[test]
fn placeholder_post_texts() {
    let p = CreatePost::placeholder(42);
    assert_eq!(p.title, "Post 42");
    assert_eq!(p.content, "This is the content of post 42");
    let z = CreatePost::placeholder(0);
    assert_eq!(z.title, "Post 0");
    assert_eq!(z.content, "This is the content of post 0");
}

#[test]
fn race_row_holds_encoded_start() {
    let r = CreateRace::starting_at(874_854);
    assert_eq!(r.start_time, vec![0, 0, 0, 0, 0, 0x0D, 0x59, 0x66]);
}

#[test]
fn node_row_from_event() {
    let e = PeakEvent { peak: 50, duration_ns: 300, kind: EventKind::Crossing };
    let n = CreateNode::from_event(e, 258, 4);
    assert_eq!(n.peak, 50);
    assert_eq!(n.time, vec![0, 0, 0, 0, 0, 0, 1, 2]);
    assert_eq!(n.duration_ns, 300);
    assert_eq!(n.race_id, 4);
}

fn node(id: i32, time: Vec<u8>) -> Node {
    Node { id, peak: 60 + id as u32, time, duration_ns: 1_500_000_000, race_id: 3 }
}

#[test]
fn stored_node_decodes() {
    let n = node(1, vec![0, 0, 0, 0, 0, 0, 1, 2]);
    assert_eq!(
        n.to_json(),
        Some(NodeJson { id: 1, peak: 61, time: 258, duration_ns: 1_500_000_000, race_id: 3 })
    );
}

#[test]
fn stored_node_with_bad_blob_does_not_decode() {
    assert_eq!(node(1, vec![]).to_json(), None);
    assert_eq!(node(1, vec![0; 7]).to_json(), None);
    assert_eq!(node(1, vec![0; 16]).to_json(), None);
}

#[test]
fn list_of_nodes_decodes_in_order() {
    let rows = vec![node(1, vec![0; 8]), node(2, vec![255; 8]), node(3, 77u64.to_be_bytes().to_vec())];
    let list = list_nodes(&rows).unwrap();
    assert_eq!(list.len(), 3);
    assert_eq!(list[0], NodeJson { id: 1, peak: 61, time: 0, duration_ns: 1_500_000_000, race_id: 3 });
    assert_eq!(list[1].time, u64::MAX);
    assert_eq!(list[1].id, 2);
    assert_eq!(list[2].time, 77);
    assert_eq!(list[2].peak, 63);
}

#[test]
fn empty_list_of_nodes() {
    assert_eq!(list_nodes(&Vec::new()), Some(Vec::new()));
}

#[test]
fn list_with_one_bad_blob_does_not_decode() {
    let rows = vec![node(1, vec![0; 8]), node(2, vec![0; 3]), node(3, vec![0; 8])];
    assert_eq!(list_nodes(&rows), None);
}

#[test]
fn stored_shapes() {
    let p = Post { id: 1, title: "t".to_string(), content: "c".to_string() };
    assert_eq!(p.clone().title, "t");
    let r = Race { id: 2, start_time: vec![0; 8], end_time: None };
    assert_eq!(r.clone().end_time, None);
    assert_eq!(r.id, 2);
}

#[test]
fn count_response_when_worker_replies() {
    assert_eq!(count_response(Some(0)), (200, 0));
    assert_eq!(count_response(Some(17)), (200, 17));
    assert_eq!(STATUS_OK, 200);
}

#[test]
fn count_response_when_reply_is_dropped() {
    assert_eq!(count_response(None), (500, 0));
    assert_eq!(STATUS_SERVER_ERROR, 500);
    assert_eq!(COMMAND_QUEUE_CAPACITY, 32);
}

#[test]
fn status_of_a_request() {
    assert_eq!(status_of(true), 200);
    assert_eq!(status_of(false), 500);
}
