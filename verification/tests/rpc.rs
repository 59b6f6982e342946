use parity_orchestrator::rpc::{
    announcement_filter, announcement_post, payloads, Binary, Message, MessageFilter, Peer, Peers,
    Post, ANNOUNCEMENT_PRIORITY, ANNOUNCEMENT_TTL,
};

fn message(payload: Vec<u8>) -> Message {
    Message {
        from: None,
        recipient: None,
        ttl: 60,
        topics: vec![Binary(vec![1, 2, 3, 4])],
        timestamp: 1,
        payload,
        padding: None,
    }
}

fn peers(ids: &[Option<&str>]) -> Peers {
    Peers {
        active: ids.len() as u64,
        connected: ids.len() as u64,
        max: 25,
        peers: ids.iter().map(|id| Peer { id: id.map(|s| s.to_string()) }).collect(),
    }
}

#[test]
fn announcement_post_fields() {
    let post = announcement_post(&[1, 2, 3, 4], &[9, 8, 7]);
    assert_eq!(
        post,
        Post {
            to: None,
            from: None,
            topics: vec![Binary(vec![1, 2, 3, 4])],
            payload: vec![9, 8, 7],
            padding: None,
            priority: 100,
            ttl: 60,
        }
    );
    assert_eq!(ANNOUNCEMENT_PRIORITY, 100);
    assert_eq!(ANNOUNCEMENT_TTL, 60);
}

#[test]
fn announcement_filter_fields() {
    assert_eq!(
        announcement_filter(&[0xde, 0xad]),
        MessageFilter { decrypt_with: None, from: None, topics: vec![Binary(vec![0xde, 0xad])] }
    );
}

#[test]
fn payloads_keep_their_order() {
    let messages = vec![message(vec![1]), message(vec![]), message(vec![2, 3])];
    assert_eq!(payloads(messages), vec![vec![1], vec![], vec![2, 3]]);
    assert_eq!(payloads(vec![]), Vec::<Vec<u8>>::new());
}

#[test]
fn knows_compares_whole_texts() {
    let live = peers(&[Some("aa"), None, Some("bbcc")]);
    assert!(live.knows(&"aa".to_string()));
    assert!(live.knows(&"bbcc".to_string()));
    assert!(!live.knows(&"bb".to_string()));
    assert!(!live.knows(&"AA".to_string()));
    assert!(!live.knows(&"0xaa".to_string()));
    assert!(!live.knows(&"".to_string()));
}

#[test]
fn knows_nothing_in_an_empty_list() {
    assert!(!peers(&[]).knows(&"aa".to_string()));
    assert!(!peers(&[None]).knows(&"".to_string()));
}
