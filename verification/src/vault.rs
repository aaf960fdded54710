//! The two vault operations: the first deposit and the full withdrawal.
//!
//! An operation reads the balances of the accounts it names and decides. It
//! either refuses with a [`VaultError`] or answers with the one [`Transfer`]
//! that the host is to carry out; it moves no balance itself.

use vstd::prelude::*;
use crate::resolver::{
    derived_view, resolve_vault, same_key, signer_seeds, signer_seeds_for, vault_address,
};

verus! {

/// Why an operation was refused.
#[derive(Clone, Copy, Debug, PartialEq, Eq, Structural)]
pub enum VaultError {
    /// A deposit was made into a vault that already holds a balance.
    VaultAlreadyExists,
    /// A deposit does not exceed the rent-exempt minimum, or a withdrawal was
    /// made from an empty vault.
    InvalidAmount,
}

/// An account as an operation sees it: its key and its native balance.
#[derive(Clone, Copy, Debug, PartialEq, Eq)]
pub struct Account {
    pub key: [u8; 32],
    pub lamports: u64,
}

/// The accounts that one operation names: the signer, the signer's vault and
/// the bump under which the vault's address was derived.
#[derive(Clone, Copy, Debug, PartialEq, Eq)]
pub struct VaultAction {
    pub signer: Account,
    pub vault: Account,
    pub bump: u8,
}

/// Who vouches for a transfer.
#[derive(Clone, Copy, Debug, PartialEq, Eq)]
pub enum Authority {
    /// The source account signed the request itself.
    Holder,
    /// The source is a vault, which has no key of its own: the program vouches
    /// for it with the owner's key and the bump that its address was derived
    /// with.
    Derived { owner: [u8; 32], bump: u8 },
}

/// One native transfer, to be carried out by the host as a whole or not at all.
#[derive(Clone, Copy, Debug, PartialEq, Eq)]
pub struct Transfer {
    pub from: [u8; 32],
    pub to: [u8; 32],
    pub lamports: u64,
    pub authority: Authority,
}

/// What a deposit of `amount` decides, given the rent-exempt minimum for an
/// account without data. The vault must be empty, which is asked first; then
/// the amount must exceed the minimum.
pub open spec fn deposit_outcome(ctx: VaultAction, amount: u64, rent_minimum: u64) -> Result<
    Transfer,
    VaultError,
> {
    if ctx.vault.lamports != 0 {
        Err(VaultError::VaultAlreadyExists)
    } else if amount <= rent_minimum {
        Err(VaultError::InvalidAmount)
    } else {
        Ok(
            Transfer {
                from: ctx.signer.key,
                to: ctx.vault.key,
                lamports: amount,
                authority: Authority::Holder,
            },
        )
    }
}

/// What a withdrawal decides: the whole balance goes back to the signer, on
/// the authority derived from the signer's key and the bump.
pub open spec fn withdraw_outcome(ctx: VaultAction) -> Result<Transfer, VaultError> {
    if ctx.vault.lamports == 0 {
        Err(VaultError::InvalidAmount)
    } else {
        Ok(
            Transfer {
                from: ctx.vault.key,
                to: ctx.signer.key,
                lamports: ctx.vault.lamports,
                authority: Authority::Derived { owner: ctx.signer.key, bump: ctx.bump },
            },
        )
    }
}

impl VaultError {
    /// The message shown to the caller.
    pub fn message(&self) -> (text: &'static str)
        ensures
            text@ == match *self {
                VaultError::VaultAlreadyExists => "Vault already exists"@,
                VaultError::InvalidAmount => "Invalid amount"@,
            },
    {
        match self {
            VaultError::VaultAlreadyExists => "Vault already exists",
            VaultError::InvalidAmount => "Invalid amount",
        }
    }
}

impl Authority {
    /// The seeds handed to the host in place of a signature: none where the
    /// holder signed, else the tag, the owner's key and the bump.
    pub open spec fn seeds(self) -> Seq<Seq<u8>> {
        match self {
            Authority::Holder => Seq::empty(),
            Authority::Derived { owner, bump } => signer_seeds(owner@, bump),
        }
    }

    /// Builds the seeds to hand to the host with the transfer.
    pub fn signer_seeds(&self) -> (seeds: Vec<Vec<u8>>)
        ensures
            seeds.deep_view() == self.seeds(),
    {
        match self {
            Authority::Holder => {
                let seeds: Vec<Vec<u8>> = Vec::new();
                assert(seeds.deep_view() =~= Seq::<Seq<u8>>::empty());
                seeds
            },
            Authority::Derived { owner, bump } => signer_seeds_for(owner, *bump),
        }
    }
}

impl VaultAction {
    /// Whether the vault is the one derived for the signer under `program_id`,
    /// with this bump.
    pub open spec fn resolved_under(&self, program_id: Seq<u8>) -> bool {
        vault_address(self.signer.key@, program_id) == Some((self.vault.key@, self.bump))
    }

    /// The accounts of an operation, given what the derivation found for the
    /// signer: they are named only where an address was found and it is the
    /// key of `vault`, and then carry the bump that was found with it.
    pub open spec fn matched(signer: Account, vault: Account, derived: Option<(Seq<u8>, u8)>) -> Option<
        VaultAction,
    > {
        match derived {
            Some((address, bump)) => if address == vault.key@ {
                Some(VaultAction { signer, vault, bump })
            } else {
                None
            },
            None => None,
        }
    }

    /// The accounts of an operation under `program_id`, if `vault` is the
    /// signer's vault there.
    pub open spec fn resolution(signer: Account, vault: Account, program_id: Seq<u8>) -> Option<
        VaultAction,
    > {
        Self::matched(signer, vault, vault_address(signer.key@, program_id))
    }

    /// Names the accounts of an operation from a derivation result: `Some`
    /// exactly when `derived` holds the key of `vault`, with the bump that
    /// came with it.
    pub fn matching(signer: Account, vault: Account, derived: Option<([u8; 32], u8)>) -> (r: Option<
        VaultAction,
    >)
        ensures
            r == Self::matched(signer, vault, derived_view(derived)),
    {
        match derived {
            Some((address, bump)) => {
                if same_key(&address, &vault.key) {
                    Some(VaultAction { signer, vault, bump })
                } else {
                    None
                }
            },
            None => None,
        }
    }

    /// Names the accounts of an operation. The vault's address is derived from
    /// the signer's key under `program_id` and compared with the account
    /// given: the result is `Some`, with the bump found, exactly when they
    /// agree.
    pub fn resolve(signer: Account, vault: Account, program_id: &[u8; 32]) -> (r: Option<
        VaultAction,
    >)
        ensures
            r == Self::resolution(signer, vault, program_id@),
            r matches Some(ctx) ==> ctx.resolved_under(program_id@),
    {
        let derived = resolve_vault(&signer.key, program_id);
        Self::matching(signer, vault, derived)
    }
}

/// Decides a deposit of `amount` into the signer's vault. `rent_minimum` is
/// the host's minimum balance for an account without data.
///
/// A vault that holds anything is refused with `VaultAlreadyExists`, whatever
/// the amount. An empty vault takes an amount above the minimum, and only
/// that: the answer is then a transfer of exactly `amount` from the signer to
/// the vault, signed by the signer.
pub fn deposit(ctx: &VaultAction, amount: u64, rent_minimum: u64) -> (r: Result<
    Transfer,
    VaultError,
>)
    ensures
        r == deposit_outcome(*ctx, amount, rent_minimum),
        ctx.vault.lamports != 0 ==> r == Err::<Transfer, VaultError>(VaultError::VaultAlreadyExists),
        ctx.vault.lamports == 0 && amount <= rent_minimum ==> r == Err::<Transfer, VaultError>(
            VaultError::InvalidAmount,
        ),
        r matches Ok(t) ==> t.lamports == amount && amount > rent_minimum,
{
    if ctx.vault.lamports != 0 {
        return Err(VaultError::VaultAlreadyExists);
    }
    if amount <= rent_minimum {
        return Err(VaultError::InvalidAmount);
    }
    Ok(
        Transfer {
            from: ctx.signer.key,
            to: ctx.vault.key,
            lamports: amount,
            authority: Authority::Holder,
        },
    )
}

/// Decides a withdrawal from the signer's vault.
///
/// An empty vault is refused with `InvalidAmount`. Otherwise the answer is a
/// transfer of the vault's whole balance to the signer, on the derived
/// authority of the signer's key and the bump.
pub fn withdraw(ctx: &VaultAction) -> (r: Result<Transfer, VaultError>)
    ensures
        r == withdraw_outcome(*ctx),
        ctx.vault.lamports == 0 <==> r == Err::<Transfer, VaultError>(VaultError::InvalidAmount),
        r matches Ok(t) ==> t.lamports == ctx.vault.lamports,
{
    if ctx.vault.lamports == 0 {
        return Err(VaultError::InvalidAmount);
    }
    Ok(
        Transfer {
            from: ctx.vault.key,
            to: ctx.signer.key,
            lamports: ctx.vault.lamports,
            authority: Authority::Derived { owner: ctx.signer.key, bump: ctx.bump },
        },
    )
}

} // verus!
