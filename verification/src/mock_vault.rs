//! Models of the vault's side of the calls the contracts make on it: who
//! holds its Manager role, and which assets it reports.
use vstd::prelude::*;
use crate::address::Addr;

verus! {

/// A vault as the proxy and the treasury see it.
pub struct MockVault {
    manager: Addr,
    assets: Vec<Addr>,
}

impl MockVault {
    pub closed spec fn manager_spec(&self) -> Addr {
        self.manager
    }

    pub closed spec fn assets_spec(&self) -> Seq<Addr> {
        self.assets@
    }

    /// A vault managed by `manager` that reports `assets`.
    pub fn new(manager: Addr, assets: Vec<Addr>) -> (r: Self)
        ensures
            r.manager_spec() == manager,
            r.assets_spec() == assets@,
    {
        MockVault { manager, assets }
    }

    pub fn get_manager(&self) -> (r: Addr)
        ensures
            r == self.manager_spec(),
    {
        self.manager
    }

    /// Hands the Manager role to `new_manager`; the returned address, the
    /// current Manager, must authorize this.
    pub fn set_manager(&mut self, new_manager: Addr) -> (signer: Addr)
        ensures
            signer == old(self).manager_spec(),
            final(self).manager_spec() == new_manager,
            final(self).assets_spec() == old(self).assets_spec(),
    {
        let current = self.manager;
        self.manager = new_manager;
        current
    }

    pub fn get_assets(&self) -> (r: &Vec<Addr>)
        ensures
            r@ == self.assets_spec(),
    {
        &self.assets
    }
}

/// A vault that reports two assets.
pub struct MultiAssetMockVault {
    pub asset_a: Addr,
    pub asset_b: Addr,
}

impl MultiAssetMockVault {
    pub fn get_assets(&self) -> (r: Vec<Addr>)
        ensures
            r@ == seq![self.asset_a, self.asset_b],
    {
        let mut v = Vec::new();
        v.push(self.asset_a);
        v.push(self.asset_b);
        v
    }
}

} // verus!
