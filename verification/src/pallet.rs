//! The asset ledger and its dispatch layer.
//!
//! Three persistent cells make up the ledger: the identifier counter, the
//! asset store (identifier to genome) and the ownership registry (identifier
//! to owner). Every entry point validates its preconditions before touching
//! any cell, applies all of its writes or none, and records exactly one event
//! per successful transition.

use std::collections::HashMap;
use vstd::prelude::*;

use crate::genome::combine;
use crate::genome::combine_genomes;
use crate::genome::Kitty;
use crate::randomness::blake2_128_of;
use crate::randomness::random_payload;
use crate::randomness::random_value;

verus! {

broadcast use vstd::std_specs::hash::group_hash_axioms;

/// Identifier of one asset: unique, never reused, allocated in strictly
/// increasing order starting at zero.
pub type KittyIndex = u32;

/// Caller identity as the host's authentication hands it over, modeled as a
/// plain value.
pub type AccountId = u64;

/// Default value of the identifier counter: allocation starts at zero.
#[allow(non_snake_case)]
pub fn GetDefaultValue() -> (r: KittyIndex)
    ensures
        r == 0,
{
    0u32
}

/// Errors of the dispatch layer. Each is raised strictly before any mutation,
/// so a failed transition leaves the ledger untouched.
#[derive(Clone, Copy, PartialEq, Eq, Debug)]
pub enum Error {
    /// A referenced identifier has no corresponding asset.
    InvalidKittyId,
    /// Breeding was invoked with two identical parent identifiers.
    SameKittyId,
    /// A transfer was attempted by a caller who is not the current owner.
    NotOwner,
    /// The allocator has no remaining identifiers.
    IdSpaceExhausted,
}

/// Lifecycle notifications, recorded exactly once per successful transition,
/// after all of the transition's writes.
#[derive(Clone, Copy, PartialEq, Eq, Debug)]
pub enum Event {
    KittyCreated(AccountId, KittyIndex, Kitty),
    KittyBred(AccountId, KittyIndex, Kitty),
    KittyTransferred(AccountId, AccountId, KittyIndex),
}

/// The ledger: the identifier counter, the asset store, the ownership
/// registry, and the log of published events.
pub struct Pallet {
    /// The next identifier to allocate; strictly greater than every
    /// identifier allocated so far, and only ever increasing.
    pub next_kitty_id: KittyIndex,
    /// The asset store: one immutable genome per existing asset. Entries are
    /// never removed.
    pub kittys: HashMap<KittyIndex, Kitty>,
    /// The ownership registry: exactly one current owner per existing asset;
    /// absence of an entry means the asset does not exist.
    pub kitty_owner: HashMap<KittyIndex, AccountId>,
    /// Events published so far, oldest first.
    pub events: Vec<Event>,
}

impl Pallet {
    /// Ledger consistency: every allocated identifier is below the counter,
    /// and an asset exists exactly when it has an owner.
    pub open spec fn wf(self) -> bool {
        &&& forall|k: KittyIndex| #[trigger]
            self.kittys@.contains_key(k) ==> k < self.next_kitty_id
        &&& self.kitty_owner@.dom() == self.kittys@.dom()
    }

    /// An empty ledger: no assets, no owners, no events, counter at its
    /// default.
    pub fn new() -> (r: Pallet)
        ensures
            r.wf(),
            r.next_kitty_id == 0,
            r.kittys@ == Map::<KittyIndex, Kitty>::empty(),
            r.kitty_owner@ == Map::<KittyIndex, AccountId>::empty(),
            r.events@ == Seq::<Event>::empty(),
    {
        let r = Pallet {
            next_kitty_id: GetDefaultValue(),
            kittys: HashMap::new(),
            kitty_owner: HashMap::new(),
            events: Vec::new(),
        };
        proof {
            assert(r.kitty_owner@.dom() =~= r.kittys@.dom());
        }
        r
    }

    /// Current value of the identifier counter.
    pub fn next_kitty_id(&self) -> (r: KittyIndex)
        ensures
            r == self.next_kitty_id,
    {
        self.next_kitty_id
    }

    /// The genome stored for an identifier, if the asset exists.
    pub fn kittys(&self, kitty_id: KittyIndex) -> (r: Option<Kitty>)
        ensures
            match r {
                Some(k) => self.kittys@.contains_key(kitty_id) && k == self.kittys@[kitty_id],
                None => !self.kittys@.contains_key(kitty_id),
            },
    {
        match self.kittys.get(&kitty_id) {
            Some(k) => Some(*k),
            None => None,
        }
    }

    /// The current owner of an identifier, if the asset exists.
    pub fn kitty_owner(&self, kitty_id: KittyIndex) -> (r: Option<AccountId>)
        ensures
            match r {
                Some(o) => self.kitty_owner@.contains_key(kitty_id) && o
                    == self.kitty_owner@[kitty_id],
                None => !self.kitty_owner@.contains_key(kitty_id),
            },
    {
        match self.kitty_owner.get(&kitty_id) {
            Some(o) => Some(*o),
            None => None,
        }
    }

    /// The identifier the allocator would issue next, or failure when the
    /// identifier space is exhausted. Never mutates the counter by itself.
    pub fn get_next_id(&self) -> (r: Result<KittyIndex, ()>)
        ensures
            self.next_kitty_id == KittyIndex::MAX ==> r == Err::<KittyIndex, ()>(()),
            self.next_kitty_id < KittyIndex::MAX ==> r == Ok::<KittyIndex, ()>(
                self.next_kitty_id,
            ),
    {
        if self.next_kitty_id == KittyIndex::MAX {
            Err(())
        } else {
            Ok(self.next_kitty_id)
        }
    }

    /// The genome stored for an identifier, or failure when the asset does
    /// not exist.
    pub fn get_kitty(&self, kitty_id: KittyIndex) -> (r: Result<Kitty, ()>)
        ensures
            match r {
                Ok(k) => self.kittys@.contains_key(kitty_id) && k == self.kittys@[kitty_id],
                Err(_) => !self.kittys@.contains_key(kitty_id),
            },
    {
        match self.kittys(kitty_id) {
            Some(kitty) => Ok(kitty),
            None => Err(()),
        }
    }

    /// Issue a new asset to `sender`: allocate the next identifier, derive a
    /// fresh genome from the host's entropy context, store the asset, record
    /// the caller as owner, and publish one creation event.
    ///
    /// Succeeds exactly when the identifier space is not exhausted; on
    /// failure the ledger is untouched and nothing is published.
    pub fn create(
        &mut self,
        sender: AccountId,
        seed: &Vec<u8>,
        extrinsic_index: Option<u32>,
    ) -> (r: Result<KittyIndex, Error>)
        requires
            old(self).wf(),
        ensures
            final(self).wf(),
            old(self).next_kitty_id == KittyIndex::MAX ==> r == Err::<KittyIndex, Error>(
                Error::IdSpaceExhausted,
            ) && *final(self) == *old(self),
            old(self).next_kitty_id < KittyIndex::MAX ==> {
                let id = old(self).next_kitty_id;
                let new_kitty = final(self).kittys@[id];
                &&& r == Ok::<KittyIndex, Error>(id)
                &&& !old(self).kittys@.contains_key(id)
                &&& final(self).next_kitty_id == id + 1
                &&& old(self).kittys@.submap_of(final(self).kittys@)
                &&& new_kitty.0@ == blake2_128_of(
                    random_payload(seed@, sender, extrinsic_index),
                )
                &&& final(self).kittys@ == old(self).kittys@.insert(id, new_kitty)
                &&& final(self).kitty_owner@ == old(self).kitty_owner@.insert(id, sender)
                &&& final(self).events@ == old(self).events@.push(
                    Event::KittyCreated(sender, id, new_kitty),
                )
            },
    {
        let kitty_id = match self.get_next_id() {
            Ok(id) => id,
            Err(_) => {
                return Err(Error::IdSpaceExhausted);
            },
        };

        let dna = random_value(sender, seed, extrinsic_index);
        let kitty = Kitty(dna);

        self.kittys.insert(kitty_id, kitty);
        self.kitty_owner.insert(kitty_id, sender);
        self.next_kitty_id = kitty_id + 1;

        self.events.push(Event::KittyCreated(sender, kitty_id, kitty));
        proof {
            assert(self.kitty_owner@.dom() =~= self.kittys@.dom());
        }
        Ok(kitty_id)
    }

    /// Breed a new asset for `sender` from two distinct existing parents:
    /// allocate the next identifier, derive a selector mask from the host's
    /// entropy context, combine the parent genomes bit by bit under that
    /// mask, store the child, record the caller as owner — deliberately
    /// without requiring that the caller own either parent — and publish one
    /// breeding event.
    ///
    /// Fails, in this order of checks, when the parent identifiers coincide,
    /// when either parent does not exist, or when the identifier space is
    /// exhausted; on failure the ledger is untouched and nothing is
    /// published.
    pub fn breed(
        &mut self,
        sender: AccountId,
        kitty_id_1: KittyIndex,
        kitty_id_2: KittyIndex,
        seed: &Vec<u8>,
        extrinsic_index: Option<u32>,
    ) -> (r: Result<KittyIndex, Error>)
        requires
            old(self).wf(),
        ensures
            final(self).wf(),
            kitty_id_1 == kitty_id_2 ==> r == Err::<KittyIndex, Error>(Error::SameKittyId)
                && *final(self) == *old(self),
            kitty_id_1 != kitty_id_2 && !(old(self).kittys@.contains_key(kitty_id_1) && old(
                self,
            ).kittys@.contains_key(kitty_id_2)) ==> r == Err::<KittyIndex, Error>(
                Error::InvalidKittyId,
            ) && *final(self) == *old(self),
            kitty_id_1 != kitty_id_2 && old(self).kittys@.contains_key(kitty_id_1) && old(
                self,
            ).kittys@.contains_key(kitty_id_2) && old(self).next_kitty_id == KittyIndex::MAX
                ==> r == Err::<KittyIndex, Error>(Error::IdSpaceExhausted) && *final(self)
                == *old(self),
            kitty_id_1 != kitty_id_2 && old(self).kittys@.contains_key(kitty_id_1) && old(
                self,
            ).kittys@.contains_key(kitty_id_2) && old(self).next_kitty_id < KittyIndex::MAX
                ==> {
                let id = old(self).next_kitty_id;
                let selector = blake2_128_of(random_payload(seed@, sender, extrinsic_index));
                let new_kitty = final(self).kittys@[id];
                &&& r == Ok::<KittyIndex, Error>(id)
                &&& !old(self).kittys@.contains_key(id)
                &&& final(self).next_kitty_id == id + 1
                &&& old(self).kittys@.submap_of(final(self).kittys@)
                &&& new_kitty.0@ == combine_genomes(
                    old(self).kittys@[kitty_id_1].0@,
                    old(self).kittys@[kitty_id_2].0@,
                    selector,
                )
                &&& final(self).kittys@ == old(self).kittys@.insert(id, new_kitty)
                &&& final(self).kitty_owner@ == old(self).kitty_owner@.insert(id, sender)
                &&& final(self).events@ == old(self).events@.push(
                    Event::KittyBred(sender, id, new_kitty),
                )
            },
    {
        if kitty_id_1 == kitty_id_2 {
            return Err(Error::SameKittyId);
        }
        let kitty1 = match self.get_kitty(kitty_id_1) {
            Ok(k) => k,
            Err(_) => {
                return Err(Error::InvalidKittyId);
            },
        };
        let kitty2 = match self.get_kitty(kitty_id_2) {
            Ok(k) => k,
            Err(_) => {
                return Err(Error::InvalidKittyId);
            },
        };

        let kitty_id = match self.get_next_id() {
            Ok(id) => id,
            Err(_) => {
                return Err(Error::IdSpaceExhausted);
            },
        };

        let selector = random_value(sender, seed, extrinsic_index);

        let new_kitty = combine(&kitty1, &kitty2, &selector);

        self.kittys.insert(kitty_id, new_kitty);
        self.kitty_owner.insert(kitty_id, sender);
        self.next_kitty_id = kitty_id + 1;

        self.events.push(Event::KittyBred(sender, kitty_id, new_kitty));
        proof {
            assert(self.kitty_owner@.dom() =~= self.kittys@.dom());
        }
        Ok(kitty_id)
    }

    /// Transfer an existing asset from its current owner to `new_owner` and
    /// publish one transfer event. Only the ownership registry changes: the
    /// asset store and the identifier counter are untouched.
    ///
    /// Fails when the asset does not exist, or when the caller is not its
    /// current owner; on failure the ledger is untouched and nothing is
    /// published.
    pub fn transfer(
        &mut self,
        sender: AccountId,
        kitty_id: KittyIndex,
        new_owner: AccountId,
    ) -> (r: Result<(), Error>)
        requires
            old(self).wf(),
        ensures
            final(self).wf(),
            !old(self).kittys@.contains_key(kitty_id) ==> r == Err::<(), Error>(
                Error::InvalidKittyId,
            ) && *final(self) == *old(self),
            old(self).kittys@.contains_key(kitty_id) && old(self).kitty_owner@[kitty_id]
                != sender ==> r == Err::<(), Error>(Error::NotOwner) && *final(self) == *old(
                self,
            ),
            old(self).kittys@.contains_key(kitty_id) && old(self).kitty_owner@[kitty_id]
                == sender ==> {
                &&& r == Ok::<(), Error>(())
                &&& final(self).kitty_owner@ == old(self).kitty_owner@.insert(
                    kitty_id,
                    new_owner,
                )
                &&& final(self).kittys@ == old(self).kittys@
                &&& final(self).next_kitty_id == old(self).next_kitty_id
                &&& final(self).events@ == old(self).events@.push(
                    Event::KittyTransferred(sender, new_owner, kitty_id),
                )
            },
    {
        let _id = match self.get_kitty(kitty_id) {
            Ok(k) => k,
            Err(_) => {
                return Err(Error::InvalidKittyId);
            },
        };

        let owner = match self.kitty_owner(kitty_id) {
            Some(o) => o,
            None => {
                return Err(Error::NotOwner);
            },
        };
        if owner != sender {
            return Err(Error::NotOwner);
        }

        self.kitty_owner.insert(kitty_id, new_owner);

        self.events.push(Event::KittyTransferred(sender, new_owner, kitty_id));
        proof {
            assert(self.kitty_owner@.dom() =~= self.kittys@.dom());
        }
        Ok(())
    }

    /// Marketplace extension point: exposed by the dispatch layer but given
    /// no behavior by this design; it accepts the call and leaves the ledger
    /// untouched.
    pub fn buy_from(
        &mut self,
        sender: AccountId,
        kitty_id: KittyIndex,
        price: u128,
        buyer: AccountId,
    ) -> (r: Result<(), Error>)
        ensures
            *final(self) == *old(self),
            r == Ok::<(), Error>(()),
    {
        let _ = (sender, kitty_id, price, buyer);
        Ok(())
    }

    /// Marketplace extension point: exposed by the dispatch layer but given
    /// no behavior by this design; it accepts the call and leaves the ledger
    /// untouched.
    pub fn sell_for(
        &mut self,
        sender: AccountId,
        kitty_id: KittyIndex,
        price: u128,
        seller: AccountId,
    ) -> (r: Result<(), Error>)
        ensures
            *final(self) == *old(self),
            r == Ok::<(), Error>(()),
    {
        let _ = (sender, kitty_id, price, seller);
        Ok(())
    }
}

} // verus!
