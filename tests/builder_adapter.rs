use std::cell::RefCell;
use std::sync::Arc;

use rustic_builder::builder_impl::{
    internal_error, map_backend_err, BuilderBackend, RusticBuilder, INTERNAL_ERROR_CODE,
};
use rustic_builder::chain::{ChainSpec, ForkName};

fn mainnet_like() -> ChainSpec {
    ChainSpec {
        slots_per_epoch: 32,
        altair_fork_epoch: Some(74_240),
        bellatrix_fork_epoch: Some(144_896),
        capella_fork_epoch: Some(194_048),
        deneb_fork_epoch: Some(269_568),
        electra_fork_epoch: Some(364_032),
        fulu_fork_epoch: None,
    }
}

struct FakeBackend {
    fail_with: Option<String>,
    batches: RefCell<Vec<usize>>,
}

impl BuilderBackend for FakeBackend {
    type Registration = u32;
    type Bid = (u64, [u8; 32]);
    type BlindedBlock = u64;
    type Payload = String;

    fn register_validators(&self, registrations: Vec<u32>) -> Result<(), String> {
        self.batches.borrow_mut().push(registrations.len());
        match &self.fail_with {
            Some(e) => Err(e.clone()),
            None => Ok(()),
        }
    }

    fn get_header(&self, slot: u64, parent_hash: [u8; 32], _pubkey: [u8; 48]) -> Result<(u64, [u8; 32]), String> {
        match &self.fail_with {
            Some(e) => Err(e.clone()),
            None => Ok((slot, parent_hash)),
        }
    }

    fn submit_blinded_block(&self, signed_block: u64) -> Result<String, String> {
        match &self.fail_with {
            Some(e) => Err(e.clone()),
            None => Ok(format!("payload {signed_block}")),
        }
    }

    fn public_key(&self) -> [u8; 48] {
        [7; 48]
    }
}

fn adapter(fail_with: Option<&str>) -> RusticBuilder<FakeBackend> {
    let backend = FakeBackend { fail_with: fail_with.map(String::from), batches: RefCell::new(vec![]) };
    RusticBuilder::new(backend, Arc::new(mainnet_like()))
}

#[test]
fn fork_lookup_inside_each_range() {
    let b = adapter(None);
    assert_eq!(b.fork_name_at_slot(0), ForkName::Base);
    assert_eq!(b.fork_name_at_slot(74_240 * 32 - 1), ForkName::Base);
    assert_eq!(b.fork_name_at_slot(74_240 * 32), ForkName::Altair);
    assert_eq!(b.fork_name_at_slot(144_896 * 32 + 5), ForkName::Bellatrix);
    assert_eq!(b.fork_name_at_slot(194_048 * 32), ForkName::Capella);
    assert_eq!(b.fork_name_at_slot(300_000 * 32), ForkName::Deneb);
    assert_eq!(b.fork_name_at_slot(364_032 * 32), ForkName::Electra);
    assert_eq!(b.fork_name_at_slot(u64::MAX), ForkName::Electra);
    assert_eq!(b.fork_name_at_slot(300_000 * 32), ForkName::Deneb);
}

#[test]
fn fork_lookup_with_all_forks_at_genesis() {
    let spec = ChainSpec {
        slots_per_epoch: 8,
        altair_fork_epoch: Some(0),
        bellatrix_fork_epoch: Some(0),
        capella_fork_epoch: Some(0),
        deneb_fork_epoch: Some(0),
        electra_fork_epoch: Some(0),
        fulu_fork_epoch: Some(0),
    };
    assert_eq!(spec.fork_name_at_slot(0), ForkName::Fulu);
    assert_eq!(spec.fork_name_at_epoch(9), ForkName::Fulu);
}

#[test]
fn empty_registration_batch_takes_the_same_path() {
    let b = adapter(None);
    assert_eq!(b.register_validators(vec![]), Ok(()));
    assert_eq!(b.register_validators(vec![1, 2, 3]), Ok(()));
    assert_eq!(*b.batches.borrow(), vec![0, 3]);
}

#[test]
fn backend_failures_become_internal_errors() {
    let b = adapter(Some("no bid for slot"));
    let e = b.get_header(5, [1; 32], [2; 48]).unwrap_err();
    assert_eq!(e.code, INTERNAL_ERROR_CODE);
    assert_eq!(e.message, "no bid for slot");
    let e = b.register_validators(vec![]).unwrap_err();
    assert_eq!(e.code, 500);
    let e = b.submit_blinded_block(9).unwrap_err();
    assert_eq!(e.code, 500);
    assert_eq!(e.message, "no bid for slot");
}

#[test]
fn backend_successes_pass_through() {
    let b = adapter(None);
    assert_eq!(b.get_header(5, [1; 32], [2; 48]), Ok((5, [1; 32])));
    assert_eq!(b.submit_blinded_block(9), Ok("payload 9".to_string()));
    assert_eq!(b.public_key(), [7; 48]);
}

#[test]
fn error_mapping_keeps_text_and_sets_code() {
    let r: Result<u8, String> = Err("boom".to_string());
    let e = map_backend_err(r).unwrap_err();
    assert_eq!(e, internal_error("boom".to_string()));
    assert_eq!(e.code, 500);
    assert_eq!(map_backend_err::<u8>(Ok(4)), Ok(4));
}

#[test]
fn adapter_is_its_own_reference_and_reads_as_its_backend() {
    let b = adapter(None);
    assert!(std::ptr::eq(b.as_ref(), &b));
    assert_eq!(b.fail_with, None);
}
