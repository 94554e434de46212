//! The registries of what was seen created, and what a successful action notes in them.
//!
//! A registry records only that a request or an offer was created. Whether it is still open is
//! read from its account: no liveness is mirrored, so none can drift.

use vstd::prelude::*;

use crate::check::{Monitor, MonitorView};
use crate::fixture::{OnreappFixture, SCOUT_REQ_CAP};
use crate::instruction::Record;
use crate::keys::Pubkey;

verus! {

/// A registry: its slots, and how often it was written to. It wraps once its slots are used up.
#[verifier::ext_equal]
pub struct Registry {
    pub slots: Seq<Pubkey>,
    pub next: usize,
}

impl Registry {
    /// The registry after one more address, which goes to the next slot round the ring.
    pub open spec fn with(self, key: Pubkey) -> Registry {
        Registry {
            slots: self.slots.update(self.next as int % self.slots.len() as int, key),
            next: if self.next < usize::MAX {
                (self.next + 1) as usize
            } else {
                self.next
            },
        }
    }

    /// The registry after one more address, where it does not wrap: a full one is marked as such.
    pub open spec fn with_bounded(self, key: Pubkey) -> Registry {
        if self.next < self.slots.len() {
            Registry {
                slots: self.slots.update(self.next as int, key),
                next: (self.next + 1) as usize,
            }
        } else {
            Registry { next: (self.slots.len() + 1) as usize, ..self }
        }
    }

    /// Whether the registry may have lost an address.
    pub open spec fn overflowed(self) -> bool {
        self.next > self.slots.len()
    }
}

/// The registries of a world.
#[verifier::ext_equal]
pub struct Registries {
    pub p2: Registry,
    pub p3: Registry,
    pub p5: Registry,
    pub p7: Registry,
    pub p8: Registry,
}

impl Registries {
    /// The registries after a success was noted. A registry is fed while a property that reads it
    /// is selected: P-0005 and P-0006 read the same one, so muting either does not blind the other.
    /// The pooled requests ride on the selection of P-0003.
    pub open spec fn noted(self, record: Record, monitor: MonitorView) -> Registries {
        match record {
            Record::Nothing => self,
            Record::Offer(key) => if monitor.selects("P-0005"@) || monitor.selects("P-0006"@) {
                Registries { p5: self.p5.with(key), ..self }
            } else {
                self
            },
            Record::Request(key) => {
                let first = if monitor.selects("P-0002"@) {
                    Registries { p2: self.p2.with(key), ..self }
                } else {
                    self
                };
                if monitor.selects("P-0003"@) {
                    Registries { p3: first.p3.with(key), p7: first.p7.with(key), ..first }
                } else {
                    first
                }
            },
            Record::PlayRequest(key) => Registries { p7: self.p7.with(key), ..self },
            Record::FeeRequest(key) => Registries { p8: self.p8.with_bounded(key), ..self },
        }
    }
}

/// What noting a success leaves on the log: the muting of the properties it asked for.
pub open spec fn noted_on_log(record: Record, monitor: MonitorView) -> MonitorView {
    match record {
        Record::Offer(_) => monitor.asked("P-0005"@).asked("P-0006"@),
        Record::Request(_) => monitor.asked("P-0002"@).asked("P-0003"@),
        _ => monitor,
    }
}

/// Puts an address into the next slot round the ring.
fn ring_push<const N: usize>(slots: &mut [Pubkey; N], next: &mut usize, key: Pubkey)
    requires
        N > 0,
    ensures
        (Registry { slots: final(slots)@, next: *final(next) }) == (Registry {
            slots: old(slots)@,
            next: *old(next),
        }).with(key),
{
    let at = *next % N;
    slots[at] = key;
    *next = next.saturating_add(1);
}

impl OnreappFixture {
    /// The registries of this world.
    pub open spec fn registries(self) -> Registries {
        Registries {
            p2: Registry { slots: self.scout_p2_reqs@, next: self.scout_p2_next },
            p3: Registry { slots: self.scout_p3_reqs@, next: self.scout_p3_next },
            p5: Registry { slots: self.scout_p5_offers@, next: self.scout_p5_next },
            p7: Registry { slots: self.scout_p7_reqs@, next: self.scout_p7_next },
            p8: Registry { slots: self.scout_p8_reqs@, next: self.scout_p8_next },
        }
    }

    /// Whether two worlds differ in their registries at most.
    pub open spec fn same_but_registries(self, other: OnreappFixture) -> bool {
        self == OnreappFixture {
            scout_p2_reqs: self.scout_p2_reqs,
            scout_p2_next: self.scout_p2_next,
            scout_p3_reqs: self.scout_p3_reqs,
            scout_p3_next: self.scout_p3_next,
            scout_p5_offers: self.scout_p5_offers,
            scout_p5_next: self.scout_p5_next,
            scout_p7_reqs: self.scout_p7_reqs,
            scout_p7_next: self.scout_p7_next,
            scout_p8_reqs: self.scout_p8_reqs,
            scout_p8_next: self.scout_p8_next,
            ..other
        }
    }

    /// Closes an action with what became of its transaction: nothing where it could not be sent,
    /// else whether it succeeded. A success is noted; a failure leaves everything as it was.
    pub fn settle(&mut self, record: Record, outcome: Option<bool>, monitor: &mut Monitor) -> (r:
        bool)
        ensures
            r == (outcome == Some(true)),
            final(self).same_but_registries(*old(self)),
            old(self).wf() ==> final(self).wf(),
            final(self).registries() == (if r {
                old(self).registries().noted(record, old(monitor)@)
            } else {
                old(self).registries()
            }),
            final(monitor)@ == (if r {
                noted_on_log(record, old(monitor)@)
            } else {
                old(monitor)@
            }),
            final(monitor).settings == old(monitor).settings,
    {
        let success = outcome.unwrap_or(false);
        if success {
            match record {
                Record::Nothing => {},
                Record::Offer(key) => {
                    let legs = monitor.__scout_check_selected("P-0005");
                    let fees = monitor.__scout_check_selected("P-0006");
                    if legs || fees {
                        ring_push(&mut self.scout_p5_offers, &mut self.scout_p5_next, key);
                    }
                },
                Record::Request(key) => {
                    if monitor.__scout_check_selected("P-0002") {
                        ring_push(&mut self.scout_p2_reqs, &mut self.scout_p2_next, key);
                    }
                    if monitor.__scout_check_selected("P-0003") {
                        ring_push(&mut self.scout_p3_reqs, &mut self.scout_p3_next, key);
                        ring_push(&mut self.scout_p7_reqs, &mut self.scout_p7_next, key);
                    }
                },
                Record::PlayRequest(key) => {
                    ring_push(&mut self.scout_p7_reqs, &mut self.scout_p7_next, key);
                },
                Record::FeeRequest(key) => {
                    if self.scout_p8_next < SCOUT_REQ_CAP {
                        self.scout_p8_reqs[self.scout_p8_next] = key;
                        self.scout_p8_next = self.scout_p8_next + 1;
                    } else {
                        self.scout_p8_next = SCOUT_REQ_CAP + 1;
                    }
                },
            }
        }
        success
    }
}

} // verus!
