//! Decisions of the header poller: when its timer starts, which header
//! request follows from the chain head, and how it moves between ticks.
//! The caller runs the loop, performs each action and reports each event.
use vstd::prelude::*;
use vstd::string::StringSliceAdditionalSpecFns;
use crate::clock::{align, Alignment, SECONDS_PER_SLOT, next_boundary_spec, intervals_passed_spec, wait_spec};
use crate::header_path::{header_path, header_path_spec};

verus! {

/// The public key that the poller names in every header request.
pub const POLLER_PUBKEY: &'static str = "0xa376d9d740b19cb4fbdabdfff995dec77b05ddaaec19fa6900f8a35c7e46c80b45fd049233ce05235d2a92b3ed00961b";

/// Why the poller stops.
#[derive(Clone, Copy, Debug, PartialEq, Eq, Structural)]
pub enum PollError {
    /// The system clock reads a time before the UNIX epoch.
    Clock,
    /// The chain client failed, or had no head block.
    ChainQuery,
    /// The head block predates execution payloads.
    PreMerge,
    /// The header request could not be sent or its response read.
    Transport,
}

/// What the poller reads of a head block: its slot and, after the merge,
/// the hash of its execution block.
#[derive(Clone, Copy, Debug, PartialEq, Eq)]
pub struct HeadBlock {
    pub slot: u64,
    pub execution_block_hash: Option<[u8; 32]>,
}

/// The chain client's answer to a query for the head block.
#[derive(Clone, Copy, Debug, PartialEq, Eq)]
pub enum HeadResponse {
    Failed,
    Empty,
    Block(HeadBlock),
}

/// A header request: the slot to build for and its parent execution block.
#[derive(Clone, Copy, Debug, PartialEq, Eq)]
pub struct HeaderRequest {
    pub slot: u64,
    pub parent_hash: [u8; 32],
}

/// The slot after `slot`; slots saturate at the top of their range.
pub open spec fn next_slot(slot: u64) -> u64 {
    if slot < u64::MAX {
        (slot + 1) as u64
    } else {
        slot
    }
}

/// The request that follows from a head query, or why there is none.
pub open spec fn process_head_spec(head: HeadResponse) -> Result<HeaderRequest, PollError> {
    match head {
        HeadResponse::Failed => Err(PollError::ChainQuery),
        HeadResponse::Empty => Err(PollError::ChainQuery),
        HeadResponse::Block(b) => match b.execution_block_hash {
            None => Err(PollError::PreMerge),
            Some(h) => Ok(HeaderRequest { slot: next_slot(b.slot), parent_hash: h }),
        },
    }
}

impl HeaderRequest {
    /// The path of the header endpoint that this request targets.
    pub fn path(&self) -> (r: Vec<u8>)
        ensures
            r@ == header_path_spec(self.slot, self.parent_hash@, POLLER_PUBKEY.spec_bytes()),
    {
        header_path(self.slot, &self.parent_hash, POLLER_PUBKEY)
    }
}

/// Turns the head query's answer into the header request for the slot after
/// the head, against the head's execution block hash.
pub fn process_head(head: HeadResponse) -> (r: Result<HeaderRequest, PollError>)
    ensures
        r == process_head_spec(head),
{
    match head {
        HeadResponse::Failed => Err(PollError::ChainQuery),
        HeadResponse::Empty => Err(PollError::ChainQuery),
        HeadResponse::Block(b) => match b.execution_block_hash {
            None => Err(PollError::PreMerge),
            Some(h) => Ok(HeaderRequest { slot: b.slot.saturating_add(1), parent_hash: h }),
        },
    }
}

/// Aligns the poller's timer from the chain's genesis time and the clock's
/// reading, each absent where its source failed.
pub fn align_start(genesis_time: Option<u64>, now: Option<u64>) -> (r: Result<Alignment, PollError>)
    requires
        genesis_time is Some ==> genesis_time->Some_0 + SECONDS_PER_SLOT <= u64::MAX,
        now is Some ==> now->Some_0 + SECONDS_PER_SLOT <= u64::MAX,
    ensures
        genesis_time is None ==> r == Err::<Alignment, PollError>(PollError::ChainQuery),
        genesis_time is Some && now is None ==> r == Err::<Alignment, PollError>(PollError::Clock),
        (genesis_time, now) matches (Some(g), Some(n)) ==> (r matches Ok(a) && a.intervals_passed
            == intervals_passed_spec(g, n, SECONDS_PER_SLOT) && a.next_boundary
            == next_boundary_spec(g, n, SECONDS_PER_SLOT) && a.wait == wait_spec(
            g,
            n,
            SECONDS_PER_SLOT,
        )),
{
    match genesis_time {
        None => Err(PollError::ChainQuery),
        Some(g) => match now {
            None => Err(PollError::Clock),
            Some(n) => Ok(align(g, n, SECONDS_PER_SLOT)),
        },
    }
}

/// Where the poller stands: between ticks, waiting for the head block,
/// waiting for the answer to its header request, or stopped for good.
#[derive(Clone, Copy, Debug, PartialEq, Eq, Structural)]
pub enum PollPhase {
    Waiting,
    AwaitingHead,
    AwaitingResponse,
    Stopped,
}

/// What the caller reports to the poller.
#[derive(Clone, Copy, Debug, PartialEq, Eq)]
pub enum PollEvent {
    /// The slot timer fired.
    Tick,
    /// The head query came back.
    Head(HeadResponse),
    /// The header request was answered; its body is not read.
    ResponseReceived,
    /// The header request could not be sent or its response read.
    TransportFailed,
    /// The process is shutting down.
    Shutdown,
}

/// What the poller asks the caller to do next.
#[derive(Clone, Copy, Debug, PartialEq, Eq)]
pub enum PollAction {
    /// Query the chain client for the head block.
    FetchHead,
    /// Send this header request to the local server.
    SendHeaderRequest(HeaderRequest),
    /// Wait for the next tick of the timer.
    AwaitTick,
    /// Nothing: the event does not fit the current phase.
    Ignore,
    /// Stop cleanly.
    Stop,
    /// Stop with this error.
    Fail(PollError),
}

/// The poller's whole state: its phase, how many ticks it has taken, how many
/// header requests it has sent, the last of them, and the error it stopped on.
#[derive(Clone, Copy, Debug, PartialEq, Eq)]
pub struct PollState {
    pub phase: PollPhase,
    pub ticks: u64,
    pub requests_sent: u64,
    pub last_request: Option<HeaderRequest>,
    pub failure: Option<PollError>,
}

/// The state after `e` in `s`.
pub open spec fn next_state(s: PollState, e: PollEvent) -> PollState {
    match (s.phase, e) {
        (PollPhase::Stopped, _) => s,
        (_, PollEvent::Shutdown) => PollState { phase: PollPhase::Stopped, ..s },
        (PollPhase::Waiting, PollEvent::Tick) => PollState {
            phase: PollPhase::AwaitingHead,
            ticks: (s.ticks + 1) as u64,
            ..s
        },
        (PollPhase::AwaitingHead, PollEvent::Head(h)) => match process_head_spec(h) {
            Ok(req) => PollState {
                phase: PollPhase::AwaitingResponse,
                requests_sent: (s.requests_sent + 1) as u64,
                last_request: Some(req),
                ..s
            },
            Err(err) => PollState { phase: PollPhase::Stopped, failure: Some(err), ..s },
        },
        (PollPhase::AwaitingResponse, PollEvent::ResponseReceived) => PollState {
            phase: PollPhase::Waiting,
            ..s
        },
        (PollPhase::AwaitingResponse, PollEvent::TransportFailed) => PollState {
            phase: PollPhase::Stopped,
            failure: Some(PollError::Transport),
            ..s
        },
        _ => s,
    }
}

/// The action after `e` in `s`.
pub open spec fn next_action(s: PollState, e: PollEvent) -> PollAction {
    match (s.phase, e) {
        (PollPhase::Stopped, _) => PollAction::Ignore,
        (_, PollEvent::Shutdown) => PollAction::Stop,
        (PollPhase::Waiting, PollEvent::Tick) => PollAction::FetchHead,
        (PollPhase::AwaitingHead, PollEvent::Head(h)) => match process_head_spec(h) {
            Ok(req) => PollAction::SendHeaderRequest(req),
            Err(err) => PollAction::Fail(err),
        },
        (PollPhase::AwaitingResponse, PollEvent::ResponseReceived) => PollAction::AwaitTick,
        (PollPhase::AwaitingResponse, PollEvent::TransportFailed) => PollAction::Fail(
            PollError::Transport,
        ),
        _ => PollAction::Ignore,
    }
}

impl PollState {
    /// Every tick has led to exactly one request, except the tick whose head
    /// query is in flight; a request is on record while its answer is awaited.
    pub open spec fn wf(&self) -> bool {
        &&& self.requests_sent <= self.ticks
        &&& self.phase == PollPhase::AwaitingHead ==> self.requests_sent + 1 == self.ticks
        &&& (self.phase == PollPhase::Waiting || self.phase == PollPhase::AwaitingResponse)
            ==> self.requests_sent == self.ticks
        &&& self.phase == PollPhase::AwaitingResponse ==> self.last_request is Some
        &&& self.phase != PollPhase::Stopped ==> self.failure is None
    }

    /// A poller that has not yet ticked.
    pub fn new() -> (r: PollState)
        ensures
            r.wf(),
            r.phase == PollPhase::Waiting,
            r.ticks == 0,
            r.requests_sent == 0,
            r.last_request is None,
            r.failure is None,
    {
        PollState {
            phase: PollPhase::Waiting,
            ticks: 0,
            requests_sent: 0,
            last_request: None,
            failure: None,
        }
    }

    /// Takes one event, moves to the next state and says what to do.
    pub fn step(&mut self, e: PollEvent) -> (r: PollAction)
        requires
            old(self).wf(),
            old(self).ticks < u64::MAX,
        ensures
            *final(self) == next_state(*old(self), e),
            r == next_action(*old(self), e),
            final(self).wf(),
    {
        match (self.phase, e) {
            (PollPhase::Stopped, _) => PollAction::Ignore,
            (_, PollEvent::Shutdown) => {
                self.phase = PollPhase::Stopped;
                PollAction::Stop
            },
            (PollPhase::Waiting, PollEvent::Tick) => {
                self.phase = PollPhase::AwaitingHead;
                self.ticks = self.ticks + 1;
                PollAction::FetchHead
            },
            (PollPhase::AwaitingHead, PollEvent::Head(h)) => match process_head(h) {
                Ok(req) => {
                    self.phase = PollPhase::AwaitingResponse;
                    self.requests_sent = self.requests_sent + 1;
                    self.last_request = Some(req);
                    PollAction::SendHeaderRequest(req)
                },
                Err(err) => {
                    self.phase = PollPhase::Stopped;
                    self.failure = Some(err);
                    PollAction::Fail(err)
                },
            },
            (PollPhase::AwaitingResponse, PollEvent::ResponseReceived) => {
                self.phase = PollPhase::Waiting;
                PollAction::AwaitTick
            },
            (PollPhase::AwaitingResponse, PollEvent::TransportFailed) => {
                self.phase = PollPhase::Stopped;
                self.failure = Some(PollError::Transport);
                PollAction::Fail(PollError::Transport)
            },
            _ => PollAction::Ignore,
        }
    }
}

/// One tick with a post-merge head at slot `S` and execution hash `H` leads
/// to exactly one header request, for slot `S + 1` and parent `H`, and back
/// to waiting with one more tick and one more request on the count.
pub proof fn lemma_one_request_per_tick(s: PollState, b: HeadBlock, h: [u8; 32])
    requires
        s.wf(),
        s.phase == PollPhase::Waiting,
        s.ticks < u64::MAX,
        b.execution_block_hash == Some(h),
    ensures
        ({
            let s1 = next_state(s, PollEvent::Tick);
            let s2 = next_state(s1, PollEvent::Head(HeadResponse::Block(b)));
            let s3 = next_state(s2, PollEvent::ResponseReceived);
            &&& next_action(s, PollEvent::Tick) == PollAction::FetchHead
            &&& next_action(s1, PollEvent::Head(HeadResponse::Block(b)))
                == PollAction::SendHeaderRequest(
                HeaderRequest { slot: next_slot(b.slot), parent_hash: h },
            )
            &&& next_action(s2, PollEvent::ResponseReceived) == PollAction::AwaitTick
            &&& s3.phase == PollPhase::Waiting
            &&& s3.ticks == s.ticks + 1
            &&& s3.requests_sent == s.requests_sent + 1
            &&& s3.requests_sent == s3.ticks
            &&& s3.wf()
        }),
{
}

/// The state after one full round with head `b`: a tick, the head's
/// answer, and the answer to the header request.
pub open spec fn round(s: PollState, b: HeadBlock) -> PollState {
    next_state(
        next_state(next_state(s, PollEvent::Tick), PollEvent::Head(HeadResponse::Block(b))),
        PollEvent::ResponseReceived,
    )
}

/// The state after one round per head, in order.
pub open spec fn rounds(s: PollState, heads: Seq<HeadBlock>) -> PollState
    decreases heads.len(),
{
    if heads.len() == 0 {
        s
    } else {
        round(rounds(s, heads.drop_last()), heads.last())
    }
}

/// Under a steady cadence of post-merge heads, every tick sends one request,
/// none is skipped and none repeated: after `n` rounds the poller is waiting
/// again with `n` more ticks and `n` more requests, the last of them for the
/// slot after the last head.
pub proof fn lemma_rounds_one_request_each(s: PollState, heads: Seq<HeadBlock>)
    requires
        s.wf(),
        s.phase == PollPhase::Waiting,
        s.ticks + heads.len() <= u64::MAX,
        forall|i: int| 0 <= i < heads.len() ==> (#[trigger] heads[i]).execution_block_hash is Some,
    ensures
        rounds(s, heads).wf(),
        rounds(s, heads).phase == PollPhase::Waiting,
        rounds(s, heads).ticks == s.ticks + heads.len(),
        rounds(s, heads).requests_sent == s.requests_sent + heads.len(),
        heads.len() > 0 ==> rounds(s, heads).last_request == Some(
            HeaderRequest {
                slot: next_slot(heads.last().slot),
                parent_hash: heads.last().execution_block_hash->Some_0,
            },
        ),
    decreases heads.len(),
{
    if heads.len() > 0 {
        let pre = heads.drop_last();
        assert forall|i: int| 0 <= i < pre.len() implies (#[trigger] pre[i]).execution_block_hash is Some by {
            assert(pre[i] == heads[i]);
        }
        lemma_rounds_one_request_each(s, pre);
        let b = heads.last();
        assert(b == heads[heads.len() - 1]);
        lemma_one_request_per_tick(rounds(s, pre), b, b.execution_block_hash->Some_0);
    }
}

/// A head block without an execution payload stops the poller with the
/// pre-merge error, and no header request is sent.
pub proof fn lemma_pre_merge_head_sends_nothing(s: PollState, b: HeadBlock)
    requires
        s.phase == PollPhase::AwaitingHead,
        b.execution_block_hash is None,
    ensures
        next_action(s, PollEvent::Head(HeadResponse::Block(b))) == PollAction::Fail(
            PollError::PreMerge,
        ),
        next_state(s, PollEvent::Head(HeadResponse::Block(b))).phase == PollPhase::Stopped,
        next_state(s, PollEvent::Head(HeadResponse::Block(b))).requests_sent == s.requests_sent,
{
}

} // verus!
