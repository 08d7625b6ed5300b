use vstd::prelude::*;
use crate::address::Addr;

verus! {

/// The global admin and the admin proposed to succeed it.
#[derive(Clone, Copy, Debug, PartialEq, Eq, Structural)]
pub struct AdminRoles {
    pub admin: Addr,
    pub pending: Option<Addr>,
}

/// Why a pending admin transfer cannot be accepted.
#[derive(Clone, Copy, Debug, PartialEq, Eq, Structural)]
pub enum RotationError {
    NoPendingAdmin,
    Unauthorized,
}

/// Published when an admin transfer is proposed.
#[derive(Clone, Copy, Debug, PartialEq, Eq, Structural)]
pub struct AdminProposed {
    pub current: Addr,
    pub pending: Addr,
}

/// Published when a proposed admin takes the role.
#[derive(Clone, Copy, Debug, PartialEq, Eq, Structural)]
pub struct AdminUpdated {
    pub old: Addr,
    pub new_addr: Addr,
}

/// Roles after `new_admin` is proposed: the pending slot is overwritten.
pub open spec fn propose_spec(r: AdminRoles, new_admin: Addr) -> AdminRoles {
    AdminRoles { admin: r.admin, pending: Some(new_admin) }
}

/// Roles after `new_admin` tries to accept the pending transfer.
pub open spec fn accept_spec(r: AdminRoles, new_admin: Addr) -> Result<AdminRoles, RotationError> {
    match r.pending {
        None => Err(RotationError::NoPendingAdmin),
        Some(p) => if p != new_admin {
            Err(RotationError::Unauthorized)
        } else {
            Ok(AdminRoles { admin: new_admin, pending: None })
        },
    }
}

impl AdminRoles {
    /// A fresh admin with nothing pending.
    pub fn new(admin: Addr) -> (r: Self)
        ensures
            r == (AdminRoles { admin, pending: None }),
    {
        AdminRoles { admin, pending: None }
    }

    /// Proposes `new_admin`; the current admin must authorize this.
    pub fn propose(&mut self, new_admin: Addr) -> (ev: AdminProposed)
        ensures
            *final(self) == propose_spec(*old(self), new_admin),
            ev == (AdminProposed { current: old(self).admin, pending: new_admin }),
    {
        self.pending = Some(new_admin);
        AdminProposed { current: self.admin, pending: new_admin }
    }

    /// `new_admin` (who must authorize this) takes the role if it is the
    /// pending one; the pending slot is cleared on success.
    pub fn accept(&mut self, new_admin: Addr) -> (r: Result<AdminUpdated, RotationError>)
        ensures
            match accept_spec(*old(self), new_admin) {
                Ok(n) => *final(self) == n && r == Ok::<AdminUpdated, RotationError>(
                    AdminUpdated { old: old(self).admin, new_addr: new_admin },
                ),
                Err(e) => *final(self) == *old(self) && r == Err::<AdminUpdated, RotationError>(e),
            },
    {
        match self.pending {
            None => Err(RotationError::NoPendingAdmin),
            Some(p) => {
                if p != new_admin {
                    Err(RotationError::Unauthorized)
                } else {
                    let old = self.admin;
                    self.admin = new_admin;
                    self.pending = None;
                    Ok(AdminUpdated { old, new_addr: new_admin })
                }
            },
        }
    }
}

/// Two-step rotation: once `x` is proposed, `x` accepting makes `x` the admin
/// and clears the pending slot. Proposing the current admin and accepting it
/// leaves the admin unchanged, which is how a proposal is cancelled.
pub proof fn law_propose_then_accept(r: AdminRoles, x: Addr)
    ensures
        accept_spec(propose_spec(r, x), x) == Ok::<AdminRoles, RotationError>(
            AdminRoles { admin: x, pending: None },
        ),
        accept_spec(propose_spec(r, r.admin), r.admin) == Ok::<AdminRoles, RotationError>(
            AdminRoles { admin: r.admin, pending: None },
        ),
{
}

/// Only the proposed address can accept: anyone else is refused as
/// unauthorized, and with nothing proposed every acceptance is refused.
pub proof fn law_only_proposed_accepts(r: AdminRoles, x: Addr, y: Addr)
    ensures
        y != x ==> accept_spec(propose_spec(r, x), y) == Err::<AdminRoles, RotationError>(
            RotationError::Unauthorized,
        ),
        r.pending is None ==> accept_spec(r, y) == Err::<AdminRoles, RotationError>(
            RotationError::NoPendingAdmin,
        ),
{
}

/// A new proposal replaces the previous one.
pub proof fn law_proposal_overwrites(r: AdminRoles, x: Addr, y: Addr)
    ensures
        propose_spec(propose_spec(r, x), y) == propose_spec(r, y),
{
}

} // verus!
