//! The fork schedule of a chain and the fork that rules at a given slot.
use vstd::prelude::*;

verus! {

/// The protocol rule sets, oldest first.
#[derive(Clone, Copy, Debug, PartialEq, Eq, Structural)]
pub enum ForkName {
    Base,
    Altair,
    Bellatrix,
    Capella,
    Deneb,
    Electra,
    Fulu,
}

/// Position of a fork in the schedule, oldest first.
pub open spec fn fork_rank(f: ForkName) -> nat {
    match f {
        ForkName::Base => 0,
        ForkName::Altair => 1,
        ForkName::Bellatrix => 2,
        ForkName::Capella => 3,
        ForkName::Deneb => 4,
        ForkName::Electra => 5,
        ForkName::Fulu => 6,
    }
}

/// The configuration of a chain that the fork lookup reads: the length of an
/// epoch and the epoch at which each fork after the first activates, if it
/// is scheduled at all. Set once and only read afterwards.
#[derive(Clone, Copy, Debug, PartialEq, Eq, Structural)]
pub struct ChainSpec {
    pub slots_per_epoch: u64,
    pub altair_fork_epoch: Option<u64>,
    pub bellatrix_fork_epoch: Option<u64>,
    pub capella_fork_epoch: Option<u64>,
    pub deneb_fork_epoch: Option<u64>,
    pub electra_fork_epoch: Option<u64>,
    pub fulu_fork_epoch: Option<u64>,
}

impl ChainSpec {
    /// An epoch holds at least one slot.
    pub open spec fn wf(&self) -> bool {
        self.slots_per_epoch > 0
    }

    /// The epoch at which `f` activates; the first fork rules from genesis.
    pub open spec fn activation_epoch(&self, f: ForkName) -> Option<u64> {
        match f {
            ForkName::Base => Some(0u64),
            ForkName::Altair => self.altair_fork_epoch,
            ForkName::Bellatrix => self.bellatrix_fork_epoch,
            ForkName::Capella => self.capella_fork_epoch,
            ForkName::Deneb => self.deneb_fork_epoch,
            ForkName::Electra => self.electra_fork_epoch,
            ForkName::Fulu => self.fulu_fork_epoch,
        }
    }

    /// `f` is scheduled and has activated by `epoch`.
    pub open spec fn is_active(&self, f: ForkName, epoch: u64) -> bool {
        match self.activation_epoch(f) {
            Some(e) => epoch >= e,
            None => false,
        }
    }

    /// The newest fork that has activated by `epoch`.
    pub open spec fn fork_name_at_epoch_spec(&self, epoch: u64) -> ForkName {
        if self.is_active(ForkName::Fulu, epoch) {
            ForkName::Fulu
        } else if self.is_active(ForkName::Electra, epoch) {
            ForkName::Electra
        } else if self.is_active(ForkName::Deneb, epoch) {
            ForkName::Deneb
        } else if self.is_active(ForkName::Capella, epoch) {
            ForkName::Capella
        } else if self.is_active(ForkName::Bellatrix, epoch) {
            ForkName::Bellatrix
        } else if self.is_active(ForkName::Altair, epoch) {
            ForkName::Altair
        } else {
            ForkName::Base
        }
    }

    /// The epoch that holds `slot`.
    pub open spec fn epoch_of(&self, slot: u64) -> u64
        recommends
            self.wf(),
    {
        (slot / self.slots_per_epoch) as u64
    }

    /// The fork that rules at `slot`.
    pub open spec fn fork_name_at_slot_spec(&self, slot: u64) -> ForkName
        recommends
            self.wf(),
    {
        self.fork_name_at_epoch_spec(self.epoch_of(slot))
    }

    /// The newest fork that has activated by `epoch`.
    pub fn fork_name_at_epoch(&self, epoch: u64) -> (r: ForkName)
        ensures
            r == self.fork_name_at_epoch_spec(epoch),
    {
        if activated(self.fulu_fork_epoch, epoch) {
            ForkName::Fulu
        } else if activated(self.electra_fork_epoch, epoch) {
            ForkName::Electra
        } else if activated(self.deneb_fork_epoch, epoch) {
            ForkName::Deneb
        } else if activated(self.capella_fork_epoch, epoch) {
            ForkName::Capella
        } else if activated(self.bellatrix_fork_epoch, epoch) {
            ForkName::Bellatrix
        } else if activated(self.altair_fork_epoch, epoch) {
            ForkName::Altair
        } else {
            ForkName::Base
        }
    }

    /// The fork that rules at `slot`.
    pub fn fork_name_at_slot(&self, slot: u64) -> (r: ForkName)
        requires
            self.wf(),
        ensures
            r == self.fork_name_at_slot_spec(slot),
    {
        self.fork_name_at_epoch(slot / self.slots_per_epoch)
    }
}

/// A fork scheduled at `fork_epoch` has activated by `epoch`.
fn activated(fork_epoch: Option<u64>, epoch: u64) -> (r: bool)
    ensures
        r == (match fork_epoch {
            Some(e) => epoch >= e,
            None => false,
        }),
{
    match fork_epoch {
        Some(e) => epoch >= e,
        None => false,
    }
}

/// A slot inside a configured fork's range, that is, at or after its
/// activation and before the activation of any later scheduled fork, is
/// ruled by that fork, for every valid schedule.
pub proof fn lemma_fork_in_range(spec: ChainSpec, slot: u64, f: ForkName)
    requires
        spec.wf(),
        spec.is_active(f, spec.epoch_of(slot)),
        forall|g: ForkName| fork_rank(g) > fork_rank(f) ==> !#[trigger] spec.is_active(g, spec.epoch_of(slot)),
    ensures
        spec.fork_name_at_slot_spec(slot) == f,
{
    let e = spec.epoch_of(slot);
    assert(fork_rank(ForkName::Fulu) == 6);
    if fork_rank(f) < 6 { assert(!spec.is_active(ForkName::Fulu, e)); }
    if fork_rank(f) < 5 { assert(!spec.is_active(ForkName::Electra, e)); }
    if fork_rank(f) < 4 { assert(!spec.is_active(ForkName::Deneb, e)); }
    if fork_rank(f) < 3 { assert(!spec.is_active(ForkName::Capella, e)); }
    if fork_rank(f) < 2 { assert(!spec.is_active(ForkName::Bellatrix, e)); }
    if fork_rank(f) < 1 { assert(!spec.is_active(ForkName::Altair, e)); }
}

} // verus!
