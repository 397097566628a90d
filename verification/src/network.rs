//! The warden network's membership registry: a bounded roster of warden
//! ids and their keys.

use vstd::prelude::*;

use crate::errors::ComputationError;

verus! {

/// A warden's identifier.
pub type ElusivWardenID = u32;

/// Wardens the basic network can hold.
pub const BASIC_WARDEN_NETWORK_SIZE: usize = 256;

/// A network's size: fixed, or growing up to a bound.
#[derive(Clone, Copy, PartialEq, Eq, Structural, Debug)]
pub enum WardenNetworkSize {
    Fixed(usize),
    Dynamic(usize, usize),
}

impl WardenNetworkSize {
    pub open spec fn spec_max(&self) -> usize {
        match *self {
            WardenNetworkSize::Fixed(m) => m,
            WardenNetworkSize::Dynamic(_, m) => m,
        }
    }

    pub fn max(&self) -> (m: usize)
        ensures
            m == self.spec_max(),
    {
        match *self {
            WardenNetworkSize::Fixed(m) => m,
            WardenNetworkSize::Dynamic(_, m) => m,
        }
    }
}

/// A warden network's configuration.
pub trait WardenNetwork {
    spec fn spec_size() -> WardenNetworkSize;

    fn size() -> (s: WardenNetworkSize)
        ensures
            s == Self::spec_size(),
    ;
}

/// The basic warden network: open membership up to its bound.
pub struct ElusivBasicWardenNetwork;

impl WardenNetwork for ElusivBasicWardenNetwork {
    open spec fn spec_size() -> WardenNetworkSize {
        WardenNetworkSize::Dynamic(0, BASIC_WARDEN_NETWORK_SIZE)
    }

    fn size() -> (s: WardenNetworkSize) {
        WardenNetworkSize::Dynamic(0, BASIC_WARDEN_NETWORK_SIZE)
    }
}

/// The basic network's membership roster.
pub struct BasicWardenNetworkAccount {
    pub member_ids: Vec<ElusivWardenID>,
    pub member_keys: Vec<[u8; 32]>,
    pub members_count: u32,
}

impl BasicWardenNetworkAccount {
    /// The roster arrays hold one slot per possible member.
    pub open spec fn well_formed(&self) -> bool {
        &&& self.member_ids@.len() == BASIC_WARDEN_NETWORK_SIZE
        &&& self.member_keys@.len() == BASIC_WARDEN_NETWORK_SIZE
        &&& self.members_count <= BASIC_WARDEN_NETWORK_SIZE
    }

    pub fn new() -> (r: Self)
        ensures
            r.well_formed(),
            r.members_count == 0,
    {
        let mut ids: Vec<ElusivWardenID> = Vec::new();
        let mut keys: Vec<[u8; 32]> = Vec::new();
        let mut i: usize = 0;
        while i < BASIC_WARDEN_NETWORK_SIZE
            invariant
                i <= BASIC_WARDEN_NETWORK_SIZE,
                ids@.len() == i,
                keys@.len() == i,
            decreases BASIC_WARDEN_NETWORK_SIZE - i,
        {
            ids.push(0);
            keys.push([0u8; 32]);
            i = i + 1;
        }
        BasicWardenNetworkAccount { member_ids: ids, member_keys: keys, members_count: 0 }
    }

    /// Registers one more member, or fails when the network is full.
    pub fn try_add_member(&mut self, warden_id: ElusivWardenID, key: &[u8; 32]) -> (r: Result<
        (),
        ComputationError,
    >)
        requires
            old(self).well_formed(),
        ensures
            final(self).well_formed(),
            (old(self).members_count as int)
                >= ElusivBasicWardenNetwork::spec_size().spec_max() ==> r == Err::<
                (),
                ComputationError,
            >(ComputationError::WardenRegistrationError) && *final(self) == *old(self),
            (old(self).members_count as int) < ElusivBasicWardenNetwork::spec_size().spec_max()
                ==> {
                &&& r is Ok
                &&& final(self).members_count == old(self).members_count + 1
                &&& final(self).member_ids@ == old(self).member_ids@.update(
                    old(self).members_count as int,
                    warden_id,
                )
                &&& final(self).member_keys@ == old(self).member_keys@.update(
                    old(self).members_count as int,
                    *key,
                )
            },
    {
        let members_count = self.members_count;
        let max = ElusivBasicWardenNetwork::size().max();
        if !((members_count as usize) < max) {
            return Err(ComputationError::WardenRegistrationError);
        }
        self.member_ids.set(members_count as usize, warden_id);
        self.member_keys.set(members_count as usize, *key);
        self.members_count = members_count + 1;
        Ok(())
    }
}

} // verus!
