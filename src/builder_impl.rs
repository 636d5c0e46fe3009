//! The builder adapter: a backend behind the builder protocol's operations,
//! with every backend failure turned into one internal-error response.
use std::sync::Arc;
use vstd::prelude::*;
use crate::chain::{ChainSpec, ForkName};

verus! {

/// The status code of an internal-error response.
pub const INTERNAL_ERROR_CODE: u16 = 500;

/// The error the protocol's callers see: a status code and a description.
#[derive(Clone, Debug, PartialEq, Eq)]
pub struct ErrorResponse {
    pub code: u16,
    pub message: String,
}

/// An internal-error response that carries `message`.
pub fn internal_error(message: String) -> (r: ErrorResponse)
    ensures
        r.code == INTERNAL_ERROR_CODE,
        r.message@ == message@,
{
    ErrorResponse { code: INTERNAL_ERROR_CODE, message }
}

/// Passes a backend success through unchanged and turns a backend failure,
/// whatever it says, into an internal-error response that carries its text.
pub fn map_backend_err<T>(r: Result<T, String>) -> (out: Result<T, ErrorResponse>)
    ensures
        r is Ok <==> out is Ok,
        r is Ok ==> out->Ok_0 == r->Ok_0,
        r is Err ==> out->Err_0.code == INTERNAL_ERROR_CODE && out->Err_0.message@
            == r->Err_0@,
{
    match r {
        Ok(v) => Ok(v),
        Err(e) => Err(internal_error(e)),
    }
}

/// What a block-builder backend offers: validator registration, header
/// (bid) production and the reveal of a blinded block's payload. Each
/// operation reports a failure as text. The backend keeps whatever state
/// and synchronisation it needs.
pub trait BuilderBackend {
    type Registration;
    type Bid;
    type BlindedBlock;
    type Payload;

    /// Accepts a whole batch of validator registrations, or fails.
    fn register_validators(&self, registrations: Vec<Self::Registration>) -> Result<(), String>;

    /// A signed bid for `slot` on top of `parent_hash`, for the proposer `pubkey`.
    fn get_header(&self, slot: u64, parent_hash: [u8; 32], pubkey: [u8; 48]) -> Result<
        Self::Bid,
        String,
    >;

    /// The full payload of a blinded block that the backend bid for.
    fn submit_blinded_block(&self, signed_block: Self::BlindedBlock) -> Result<
        Self::Payload,
        String,
    >;

    /// The backend's own public key.
    fn public_key(&self) -> [u8; 48];
}

/// A backend wrapped for the builder protocol, with the chain's fork
/// schedule shared read-only.
#[derive(Clone)]
pub struct RusticBuilder<B> {
    builder: B,
    spec: Arc<ChainSpec>,
}

impl<B: BuilderBackend> RusticBuilder<B> {
    /// The fork schedule this adapter answers from.
    pub closed spec fn chain_spec(&self) -> ChainSpec {
        *self.spec
    }

    /// The wrapped backend.
    pub closed spec fn backend_spec(&self) -> B {
        self.builder
    }

    /// Wraps `builder`, to answer fork lookups from `spec`.
    pub fn new(builder: B, spec: Arc<ChainSpec>) -> (r: Self)
        requires
            spec.wf(),
        ensures
            r.chain_spec() == *spec,
            r.backend_spec() == builder,
            r.chain_spec().wf(),
    {
        RusticBuilder { builder, spec }
    }

    /// The fork that rules at `slot`, from the shared fork schedule.
    pub fn fork_name_at_slot(&self, slot: u64) -> (r: ForkName)
        requires
            self.chain_spec().wf(),
        ensures
            r == self.chain_spec().fork_name_at_slot_spec(slot),
    {
        self.spec.fork_name_at_slot(slot)
    }

    /// Hands the whole batch to the backend at once; an empty batch takes the
    /// same path. A backend failure comes back as an internal error.
    pub fn register_validators(&self, registrations: Vec<B::Registration>) -> (r: Result<
        (),
        ErrorResponse,
    >)
        ensures
            r is Err ==> r->Err_0.code == INTERNAL_ERROR_CODE,
    {
        map_backend_err(self.builder.register_validators(registrations))
    }

    /// The backend's bid for `slot`, `parent_hash` and `pubkey`. A backend
    /// failure, "no bid" included, comes back as an internal error.
    pub fn get_header(&self, slot: u64, parent_hash: [u8; 32], pubkey: [u8; 48]) -> (r: Result<
        B::Bid,
        ErrorResponse,
    >)
        ensures
            r is Err ==> r->Err_0.code == INTERNAL_ERROR_CODE,
    {
        map_backend_err(self.builder.get_header(slot, parent_hash, pubkey))
    }

    /// The payload the backend reveals for a signed blinded block. A backend
    /// failure comes back as an internal error.
    pub fn submit_blinded_block(&self, signed_block: B::BlindedBlock) -> (r: Result<
        B::Payload,
        ErrorResponse,
    >)
        ensures
            r is Err ==> r->Err_0.code == INTERNAL_ERROR_CODE,
    {
        map_backend_err(self.builder.submit_blinded_block(signed_block))
    }
}

/// The adapter reads as the backend it wraps.
impl<B: BuilderBackend> std::ops::Deref for RusticBuilder<B> {
    type Target = B;

    fn deref(&self) -> (r: &B)
        ensures
            *r == self.backend_spec(),
    {
        &self.builder
    }
}

impl<B: BuilderBackend> AsRef<RusticBuilder<B>> for RusticBuilder<B> {
    fn as_ref(&self) -> (r: &RusticBuilder<B>)
        ensures
            r == self,
    {
        self
    }
}

} // verus!
