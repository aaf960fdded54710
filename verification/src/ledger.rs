//! The host's side of an operation, as far as the two accounts show it: a
//! transfer that the host admits moves its amount from one balance to the
//! other, and one that it does not admit changes nothing.

use vstd::prelude::*;
use crate::resolver::same_key;
use crate::vault::{Account, Authority, Transfer, VaultAction};

verus! {

impl VaultAction {
    /// Whether the host carries out `t` on these accounts. A transfer that its
    /// holder signed must leave the signer for the vault; one on derived
    /// authority must leave the vault for the signer and name the signer's key
    /// and the vault's bump. The source must hold the amount and the
    /// destination must have room for it.
    pub open spec fn admits(&self, t: Transfer) -> bool {
        match t.authority {
            Authority::Holder => {
                &&& t.from == self.signer.key
                &&& t.to == self.vault.key
                &&& t.lamports <= self.signer.lamports
                &&& self.vault.lamports + t.lamports <= u64::MAX
            },
            Authority::Derived { owner, bump } => {
                &&& t.from == self.vault.key
                &&& t.to == self.signer.key
                &&& owner == self.signer.key
                &&& bump == self.bump
                &&& t.lamports <= self.vault.lamports
                &&& self.signer.lamports + t.lamports <= u64::MAX
            },
        }
    }

    /// The accounts after the host has carried out an admitted transfer.
    pub open spec fn settled(self, t: Transfer) -> VaultAction
        recommends
            self.admits(t),
    {
        match t.authority {
            Authority::Holder => VaultAction {
                signer: Account {
                    key: self.signer.key,
                    lamports: (self.signer.lamports - t.lamports) as u64,
                },
                vault: Account {
                    key: self.vault.key,
                    lamports: (self.vault.lamports + t.lamports) as u64,
                },
                bump: self.bump,
            },
            Authority::Derived { .. } => VaultAction {
                signer: Account {
                    key: self.signer.key,
                    lamports: (self.signer.lamports + t.lamports) as u64,
                },
                vault: Account {
                    key: self.vault.key,
                    lamports: (self.vault.lamports - t.lamports) as u64,
                },
                bump: self.bump,
            },
        }
    }

    /// Carries out `t` on these accounts as the host would: wholly, when the
    /// host admits it, and not at all otherwise. The result says which.
    pub fn settle(&mut self, t: &Transfer) -> (done: bool)
        ensures
            done == old(self).admits(*t),
            done ==> *final(self) == old(self).settled(*t),
            !done ==> *final(self) == *old(self),
    {
        match t.authority {
            Authority::Holder => {
                if !same_key(&t.from, &self.signer.key) || !same_key(&t.to, &self.vault.key) {
                    return false;
                }
                if t.lamports > self.signer.lamports || t.lamports > u64::MAX
                    - self.vault.lamports {
                    return false;
                }
                self.signer.lamports = self.signer.lamports - t.lamports;
                self.vault.lamports = self.vault.lamports + t.lamports;
                true
            },
            Authority::Derived { owner, bump } => {
                if !same_key(&t.from, &self.vault.key) || !same_key(&t.to, &self.signer.key) {
                    return false;
                }
                if !same_key(&owner, &self.signer.key) || bump != self.bump {
                    return false;
                }
                if t.lamports > self.vault.lamports || t.lamports > u64::MAX
                    - self.signer.lamports {
                    return false;
                }
                self.vault.lamports = self.vault.lamports - t.lamports;
                self.signer.lamports = self.signer.lamports + t.lamports;
                true
            },
        }
    }
}

} // verus!
