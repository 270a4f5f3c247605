//! The registry state machine.
//!
//! [`NFTMintingMachine`] owns the administrator identity, the one-time
//! oracle activation flag, the mint counter, and the record store. Its
//! abstract model is [`MachineView`]; every operation is specified as a
//! pure transition on the model ([`MachineView::setup_oracle_spec`],
//! [`MachineView::mint_token_spec`], [`MachineView::transfer_nft_spec`])
//! and each executable method is proved to implement its transition
//! exactly, including that a failed call leaves the state unchanged.
//!
//! Record keys are exactly the contiguous range `1 ..= oracle_index`:
//! record `k` is held at position `k - 1` of the underlying vector, so
//! the "no gaps, no reuse" invariant holds by construction.

use vstd::prelude::*;

use crate::account::AccountId;
use crate::naming::{make_nft_name, nft_name};

verus! {

/// Why an operation was refused.
#[derive(Clone, Copy, Debug, Eq, PartialEq, Structural)]
pub enum Error {
    /// The caller is not the administrator.
    NotAdmin,
    /// The oracle has already been set up.
    OracleAlreadySet,
    /// The oracle has not been set up yet.
    OracleNotSetup,
    /// Incrementing the mint counter would overflow.
    CounterOverflow,
    /// No record exists at the given index.
    NFTNotFound,
    /// The caller does not own the record.
    NotOwner,
}

/// A read-only snapshot of the oracle counter.
#[derive(Clone, Copy, Debug, Eq, PartialEq, Structural)]
pub struct OracleData {
    /// The index of the most recently minted record; 0 if none.
    pub current_index: u64,
}

/// The mathematical model of one minted record.
#[verifier::ext_equal]
pub struct NftView {
    pub token_name: Seq<char>,
    pub owner: AccountId,
}

/// A minted record: an immutable name and a reassignable owner.
pub struct Nft {
    token_name: String,
    owner: AccountId,
}

impl View for Nft {
    type V = NftView;

    closed spec fn view(&self) -> NftView {
        NftView { token_name: self.token_name@, owner: self.owner }
    }
}

impl Clone for Nft {
    fn clone(&self) -> (other: Self)
        ensures
            other@ == self@,
    {
        Nft { token_name: self.token_name.clone(), owner: self.owner }
    }
}

impl Nft {
    /// The record's name.
    pub fn token_name(&self) -> (name: &String)
        ensures
            name@ == self@.token_name,
    {
        &self.token_name
    }

    /// The record's current owner.
    pub fn owner(&self) -> (owner: &AccountId)
        ensures
            *owner == self@.owner,
    {
        &self.owner
    }
}

/// The mathematical model of the registry: the administrator, the oracle
/// state, and the records minted so far. Record `k` (for `1 <= k <=
/// oracle_index`) is `nfts[k - 1]`.
#[verifier::ext_equal]
pub struct MachineView {
    pub admin: AccountId,
    pub oracle_setup: bool,
    pub oracle_index: u64,
    pub nfts: Seq<NftView>,
}

impl MachineView {
    /// Well-formedness: the counter equals the number of records, nothing
    /// is minted before activation, and record `k` carries the name it
    /// was minted with, `"NFT #" + k`.
    pub open spec fn wf(self) -> bool {
        &&& self.nfts.len() == self.oracle_index
        &&& (!self.oracle_setup ==> self.oracle_index == 0)
        &&& (forall|k: int|
            0 <= k < self.nfts.len() ==> (#[trigger] self.nfts[k]).token_name == nft_name(
                (k + 1) as u64,
            ))
    }

    /// Whether a record was ever minted at `index`.
    pub open spec fn has_record(self, index: u64) -> bool {
        1 <= index <= self.nfts.len()
    }

    /// The record at `index`.
    pub open spec fn record(self, index: u64) -> NftView
        recommends
            self.has_record(index),
    {
        self.nfts[index - 1]
    }

    /// The record at `index`, if one was ever minted there.
    pub open spec fn get_nft_spec(self, index: u64) -> Option<NftView> {
        if self.has_record(index) {
            Some(self.record(index))
        } else {
            None
        }
    }

    /// The one-time oracle activation transition: only the administrator
    /// may activate, and only once; activation resets the counter to 0.
    /// A refused call leaves the state unchanged.
    pub open spec fn setup_oracle_spec(self, caller: AccountId) -> (MachineView, Result<
        (),
        Error,
    >) {
        if caller != self.admin {
            (self, Err(Error::NotAdmin))
        } else if self.oracle_setup {
            (self, Err(Error::OracleAlreadySet))
        } else {
            (MachineView { oracle_setup: true, oracle_index: 0, ..self }, Ok(()))
        }
    }

    /// The mint transition: after activation, any caller mints the next
    /// record `oracle_index + 1`, named `"NFT #" + index` and owned by
    /// the caller; the counter never wraps. A refused call leaves the
    /// state unchanged.
    pub open spec fn mint_token_spec(self, caller: AccountId) -> (MachineView, Result<
        u64,
        Error,
    >) {
        if !self.oracle_setup {
            (self, Err(Error::OracleNotSetup))
        } else if self.oracle_index == u64::MAX {
            (self, Err(Error::CounterOverflow))
        } else {
            let next = (self.oracle_index + 1) as u64;
            (
                MachineView {
                    oracle_index: next,
                    nfts: self.nfts.push(NftView { token_name: nft_name(next), owner: caller }),
                    ..self
                },
                Ok(next),
            )
        }
    }

    /// The transfer transition: only the current owner of an existing
    /// record may reassign its owner; the name never changes. A refused
    /// call leaves the state unchanged.
    pub open spec fn transfer_nft_spec(
        self,
        caller: AccountId,
        nft_index: u64,
        new_owner: AccountId,
    ) -> (MachineView, Result<(), Error>) {
        if !self.has_record(nft_index) {
            (self, Err(Error::NFTNotFound))
        } else if caller != self.record(nft_index).owner {
            (self, Err(Error::NotOwner))
        } else {
            (
                MachineView {
                    nfts: self.nfts.update(
                        nft_index - 1,
                        NftView { token_name: self.record(nft_index).token_name, owner: new_owner },
                    ),
                    ..self
                },
                Ok(()),
            )
        }
    }
}

/// The registry: mints uniquely numbered records under a one-time,
/// administrator-gated oracle activation, and transfers their ownership.
pub struct NFTMintingMachine {
    admin: AccountId,
    oracle_setup: bool,
    oracle_index: u64,
    nfts: Vec<Nft>,
}

impl View for NFTMintingMachine {
    type V = MachineView;

    closed spec fn view(&self) -> MachineView {
        MachineView {
            admin: self.admin,
            oracle_setup: self.oracle_setup,
            oracle_index: self.oracle_index,
            nfts: self.nfts@.map(|k: int, nft: Nft| nft@),
        }
    }
}

impl Default for NFTMintingMachine {
    /// A registry administered by the all-zero identity, not yet
    /// activated, with no records.
    fn default() -> (machine: Self)
        ensures
            machine@ == (MachineView {
                admin: AccountId::zero_spec(),
                oracle_setup: false,
                oracle_index: 0,
                nfts: Seq::<NftView>::empty(),
            }),
            machine@.wf(),
    {
        let machine = NFTMintingMachine {
            admin: AccountId::zero(),
            oracle_setup: false,
            oracle_index: 0,
            nfts: Vec::new(),
        };
        proof {
            assert(machine@.nfts =~= Seq::<NftView>::empty());
        }
        machine
    }
}

impl NFTMintingMachine {
    /// Creates a registry administered by `caller`, not yet activated,
    /// with no records. The administrator is fixed for the registry's
    /// lifetime.
    pub fn new(caller: AccountId) -> (machine: Self)
        ensures
            machine@ == (MachineView {
                admin: caller,
                oracle_setup: false,
                oracle_index: 0,
                nfts: Seq::<NftView>::empty(),
            }),
            machine@.wf(),
    {
        let machine = NFTMintingMachine {
            admin: caller,
            oracle_setup: false,
            oracle_index: 0,
            nfts: Vec::new(),
        };
        proof {
            assert(machine@.nfts =~= Seq::<NftView>::empty());
        }
        machine
    }

    /// Activates the oracle. One-time and administrator-only: fails with
    /// `NotAdmin` for any other caller and with `OracleAlreadySet` on a
    /// second activation, leaving the state unchanged in both cases.
    pub fn setup_oracle(&mut self, caller: AccountId) -> (result: Result<(), Error>)
        requires
            old(self)@.wf(),
        ensures
            final(self)@.wf(),
            (final(self)@, result) == old(self)@.setup_oracle_spec(caller),
    {
        if caller != self.admin {
            return Err(Error::NotAdmin);
        }
        if self.oracle_setup {
            return Err(Error::OracleAlreadySet);
        }
        self.oracle_setup = true;
        self.oracle_index = 0;
        Ok(())
    }

    /// Mints the next record for `caller`: fails with `OracleNotSetup`
    /// before activation and with `CounterOverflow` when the counter
    /// would wrap, leaving the state unchanged; otherwise commits index
    /// `oracle_index + 1`, stores the record named `"NFT #" + index`
    /// owned by `caller` at that key, and returns the index.
    pub fn mint_token(&mut self, caller: AccountId) -> (result: Result<u64, Error>)
        requires
            old(self)@.wf(),
        ensures
            final(self)@.wf(),
            (final(self)@, result) == old(self)@.mint_token_spec(caller),
    {
        if !self.oracle_setup {
            return Err(Error::OracleNotSetup);
        }
        if self.oracle_index == u64::MAX {
            return Err(Error::CounterOverflow);
        }
        let next_index = self.oracle_index + 1;
        self.oracle_index = next_index;
        let nft = Nft { token_name: make_nft_name(next_index), owner: caller };
        self.nfts.push(nft);
        proof {
            assert(self@.nfts =~= old(self)@.mint_token_spec(caller).0.nfts);
            assert(self@ =~= old(self)@.mint_token_spec(caller).0);
        }
        Ok(next_index)
    }

    /// Reassigns the owner of record `nft_index` to `new_owner`: fails
    /// with `NFTNotFound` if no such record was ever minted and with
    /// `NotOwner` unless `caller` is the current owner, leaving the state
    /// unchanged; on success only that record's owner field changes.
    pub fn transfer_nft(&mut self, caller: AccountId, nft_index: u64, new_owner: AccountId) -> (result:
        Result<(), Error>)
        requires
            old(self)@.wf(),
        ensures
            final(self)@.wf(),
            (final(self)@, result) == old(self)@.transfer_nft_spec(caller, nft_index, new_owner),
    {
        if nft_index == 0 || nft_index > self.nfts.len() as u64 {
            return Err(Error::NFTNotFound);
        }
        let idx = (nft_index - 1) as usize;
        if caller != self.nfts[idx].owner {
            return Err(Error::NotOwner);
        }
        self.nfts[idx].owner = new_owner;
        proof {
            assert(self@.nfts =~= old(self)@.transfer_nft_spec(caller, nft_index, new_owner).0.nfts);
            assert(self@ =~= old(self)@.transfer_nft_spec(caller, nft_index, new_owner).0);
        }
        Ok(())
    }

    /// Returns a snapshot of the oracle counter. No access control.
    pub fn get_oracle_data(&self) -> (data: OracleData)
        ensures
            data == (OracleData { current_index: self@.oracle_index }),
    {
        OracleData { current_index: self.oracle_index }
    }

    /// Returns a copy of the record minted at `index`, or `None` if no
    /// record was ever minted there. Absence is not an error.
    pub fn get_nft(&self, index: u64) -> (nft: Option<Nft>)
        ensures
            self@.has_record(index) ==> (nft matches Some(found) && found@ == self@.record(index)),
            !self@.has_record(index) ==> nft is None,
    {
        if index == 0 || index > self.nfts.len() as u64 {
            return None;
        }
        let idx = (index - 1) as usize;
        Some(self.nfts[idx].clone())
    }
}

} // verus!
