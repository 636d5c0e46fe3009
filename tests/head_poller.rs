use rustic_builder::header_path::header_path;
use rustic_builder::payload_creator::{
    process_head, HeadBlock, HeadResponse, HeaderRequest, PollAction, PollError, PollEvent,
    PollPhase, PollState, POLLER_PUBKEY,
};

fn post_merge(slot: u64, byte: u8) -> HeadBlock {
    HeadBlock { slot, execution_block_hash: Some([byte; 32]) }
}

#[test]
fn head_gives_request_for_next_slot_and_its_hash() {
    let r = process_head(HeadResponse::Block(post_merge(41, 0x11)));
    assert_eq!(r, Ok(HeaderRequest { slot: 42, parent_hash: [0x11; 32] }));
}

#[test]
fn pre_merge_head_is_refused() {
    let b = HeadBlock { slot: 7, execution_block_hash: None };
    assert_eq!(process_head(HeadResponse::Block(b)), Err(PollError::PreMerge));
}

#[test]
fn failed_or_empty_head_query_is_a_chain_query_error() {
    assert_eq!(process_head(HeadResponse::Failed), Err(PollError::ChainQuery));
    assert_eq!(process_head(HeadResponse::Empty), Err(PollError::ChainQuery));
}

#[test]
fn head_at_top_slot_saturates() {
    let r = process_head(HeadResponse::Block(post_merge(u64::MAX, 0)));
    assert_eq!(r.map(|q| q.slot), Ok(u64::MAX));
}

#[test]
fn request_path_is_slot_hash_and_fixed_key() {
    let mut hash = [0u8; 32];
    hash[0] = 0xab;
    hash[31] = 0x09;
    let req = HeaderRequest { slot: 1_230, parent_hash: hash };
    let path = String::from_utf8(req.path()).unwrap();
    let expected = format!(
        "/eth/v1/builder/header/1230/0xab{}09/{}",
        "00".repeat(30),
        POLLER_PUBKEY
    );
    assert_eq!(path, expected);
}

#[test]
fn path_of_slot_zero() {
    let path = header_path(0, &[0xff; 32], "key");
    let expected = format!("/eth/v1/builder/header/0/0x{}/key", "ff".repeat(32));
    assert_eq!(String::from_utf8(path).unwrap(), expected);
}

#[test]
fn each_tick_sends_exactly_one_request() {
    let mut s = PollState::new();
    for (slot, byte) in [(10u64, 1u8), (11, 2), (13, 3)] {
        assert_eq!(s.step(PollEvent::Tick), PollAction::FetchHead);
        let a = s.step(PollEvent::Head(HeadResponse::Block(post_merge(slot, byte))));
        let req = HeaderRequest { slot: slot + 1, parent_hash: [byte; 32] };
        assert_eq!(a, PollAction::SendHeaderRequest(req));
        assert_eq!(s.last_request, Some(req));
        assert_eq!(s.step(PollEvent::ResponseReceived), PollAction::AwaitTick);
        assert_eq!(s.phase, PollPhase::Waiting);
        assert_eq!(s.ticks, s.requests_sent);
    }
    assert_eq!(s.ticks, 3);
    assert_eq!(s.requests_sent, 3);
}

#[test]
fn tick_while_polling_is_ignored() {
    let mut s = PollState::new();
    s.step(PollEvent::Tick);
    assert_eq!(s.step(PollEvent::Tick), PollAction::Ignore);
    assert_eq!(s.ticks, 1);
    assert_eq!(s.phase, PollPhase::AwaitingHead);
}

#[test]
fn pre_merge_head_stops_without_a_request() {
    let mut s = PollState::new();
    s.step(PollEvent::Tick);
    let b = HeadBlock { slot: 5, execution_block_hash: None };
    assert_eq!(s.step(PollEvent::Head(HeadResponse::Block(b))), PollAction::Fail(PollError::PreMerge));
    assert_eq!(s.phase, PollPhase::Stopped);
    assert_eq!(s.requests_sent, 0);
    assert_eq!(s.last_request, None);
    assert_eq!(s.failure, Some(PollError::PreMerge));
    assert_eq!(s.step(PollEvent::Tick), PollAction::Ignore);
}

#[test]
fn failed_head_query_stops_the_poller() {
    let mut s = PollState::new();
    s.step(PollEvent::Tick);
    assert_eq!(s.step(PollEvent::Head(HeadResponse::Failed)), PollAction::Fail(PollError::ChainQuery));
    assert_eq!(s.failure, Some(PollError::ChainQuery));
}

#[test]
fn transport_failure_stops_the_poller() {
    let mut s = PollState::new();
    s.step(PollEvent::Tick);
    s.step(PollEvent::Head(HeadResponse::Block(post_merge(1, 1))));
    assert_eq!(s.step(PollEvent::TransportFailed), PollAction::Fail(PollError::Transport));
    assert_eq!(s.phase, PollPhase::Stopped);
}

#[test]
fn shutdown_stops_cleanly() {
    let mut s = PollState::new();
    assert_eq!(s.step(PollEvent::Shutdown), PollAction::Stop);
    assert_eq!(s.phase, PollPhase::Stopped);
    assert_eq!(s.failure, None);
}
