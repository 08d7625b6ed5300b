//! The fee proxy: it holds the Manager role of registered vaults and lets the
//! off-chain fee manager move each vault's fee only inside the bounds its
//! partner admin set, while the partner admin keeps every other Manager power.
use vstd::prelude::*;
use crate::address::Addr;
use crate::admin::{
    accept_spec, propose_spec, AdminProposed, AdminRoles, AdminUpdated, RotationError,
};
use crate::registry::Registry;
use crate::step::Step;

verus! {

/// The largest fee a vault may be configured with, in basis points.
pub const MAX_FEE_BPS: u32 = 10_000;

/// What a partner configures for its vault.
#[derive(Clone, Copy, Debug, PartialEq, Eq, Structural)]
pub struct VaultConfig {
    /// Controls the vault through the proxy.
    pub admin: Addr,
    pub target_apy_bps: u32,
    pub max_fee_bps: u32,
    pub min_fee_bps: u32,
}

#[derive(Clone, Copy, Debug, PartialEq, Eq, Structural)]
pub enum ContractError {
    Unauthorized,
    VaultAlreadyRegistered,
    VaultNotRegistered,
    FeeOutOfBounds,
    InvalidFeeBounds,
    NoPendingAdmin,
    AdminMismatch,
    InvalidAmount,
}

/// The number under which each error is reported on the ledger.
pub open spec fn error_code(e: ContractError) -> u32 {
    match e {
        ContractError::Unauthorized => 100,
        ContractError::VaultAlreadyRegistered => 110,
        ContractError::VaultNotRegistered => 111,
        ContractError::FeeOutOfBounds => 120,
        ContractError::InvalidFeeBounds => 121,
        ContractError::NoPendingAdmin => 123,
        ContractError::AdminMismatch => 124,
        ContractError::InvalidAmount => 130,
    }
}

impl ContractError {
    pub fn code(&self) -> (r: u32)
        ensures
            r == error_code(*self),
    {
        match self {
            ContractError::Unauthorized => 100,
            ContractError::VaultAlreadyRegistered => 110,
            ContractError::VaultNotRegistered => 111,
            ContractError::FeeOutOfBounds => 120,
            ContractError::InvalidFeeBounds => 121,
            ContractError::NoPendingAdmin => 123,
            ContractError::AdminMismatch => 124,
            ContractError::InvalidAmount => 130,
        }
    }
}

/// Published when a vault is put under the proxy.
#[derive(Clone, Copy, Debug, PartialEq, Eq, Structural)]
pub struct VaultRegistered {
    pub vault: Addr,
    pub admin: Addr,
    pub target_apy_bps: u32,
}

/// Published when the proxy stops controlling a vault.
#[derive(Clone, Copy, Debug, PartialEq, Eq, Structural)]
pub struct VaultUnregistered {
    pub vault: Addr,
    pub admin: Addr,
}

/// Published when a new fee is locked in a vault.
#[derive(Clone, Copy, Debug, PartialEq, Eq, Structural)]
pub struct FeesLocked {
    pub vault: Addr,
    pub fee_bps: u32,
}

/// Published when a vault's fees are distributed.
#[derive(Clone, Copy, Debug, PartialEq, Eq, Structural)]
pub struct FeesDistributed {
    pub vault: Addr,
}

/// Published when fees held for a strategy are released.
#[derive(Clone, Copy, Debug, PartialEq, Eq, Structural)]
pub struct FeesReleased {
    pub vault: Addr,
    pub strategy: Addr,
    pub amount: i128,
}

/// Published when a vault's configuration changes.
#[derive(Clone, Copy, Debug, PartialEq, Eq, Structural)]
pub struct ConfigUpdated {
    pub vault: Addr,
    pub target_apy_bps: u32,
    pub max_fee_bps: u32,
    pub min_fee_bps: u32,
}

/// Published when the fee manager key is rotated.
#[derive(Clone, Copy, Debug, PartialEq, Eq, Structural)]
pub struct FeeManagerUpdated {
    pub old: Addr,
    pub new_addr: Addr,
}

#[derive(Clone, Copy, Debug, PartialEq, Eq, Structural)]
pub enum FeeProxyEvent {
    VaultRegistered(VaultRegistered),
    VaultUnregistered(VaultUnregistered),
    FeesLocked(FeesLocked),
    FeesDistributed(FeesDistributed),
    FeesReleased(FeesReleased),
    ConfigUpdated(ConfigUpdated),
    FeeManagerUpdated(FeeManagerUpdated),
    AdminProposed(AdminProposed),
    AdminUpdated(AdminUpdated),
}

/// A call the proxy makes on the vault, with its arguments, as the vault's
/// Manager.
#[derive(Clone, Copy, Debug, PartialEq, Eq)]
pub enum VaultCall {
    SetManager { new_manager: Addr },
    LockFees { new_fee_bps: Option<u32> },
    DistributeFees { caller: Addr },
    ReleaseFees { strategy: Addr, amount: i128 },
    Upgrade { new_wasm_hash: [u8; 32] },
    SetFeeReceiver { caller: Addr, new_fee_receiver: Addr },
    SetEmergencyManager { emergency_manager: Addr },
    SetRebalanceManager { rebalance_manager: Addr },
    Rescue { strategy: Addr, caller: Addr },
    PauseStrategy { strategy: Addr, caller: Addr },
    UnpauseStrategy { strategy: Addr, caller: Addr },
}

/// The outside work of a successful entrypoint: at most one call on the
/// vault, then at most one event.
#[derive(Clone, Copy, Debug, PartialEq, Eq)]
pub struct Effect {
    pub call: Option<VaultCall>,
    pub event: Option<FeeProxyEvent>,
}

/// The proxy's state as mathematics.
#[verifier::ext_equal]
pub struct ProxyModel {
    pub roles: AdminRoles,
    pub fee_manager: Addr,
    pub vaults: Map<Addr, VaultConfig>,
}

pub open spec fn fee_bounds_valid(min_fee_bps: u32, max_fee_bps: u32) -> bool {
    min_fee_bps <= max_fee_bps && max_fee_bps <= MAX_FEE_BPS
}

/// Every registered vault has fee bounds `min <= max <= 10_000`.
pub open spec fn configs_valid(m: ProxyModel) -> bool {
    forall|v: Addr| #[trigger] m.vaults.contains_key(v) ==> fee_bounds_valid(
        m.vaults[v].min_fee_bps,
        m.vaults[v].max_fee_bps,
    )
}

/// The lane of an action open to the fee manager or the vault's admin: the
/// vault's configuration is resolved first, then the caller is compared with
/// both, and only a matching caller is asked to authorize.
pub open spec fn fee_lane_spec(m: ProxyModel, caller: Addr, vault: Addr) -> Step<VaultConfig, ContractError> {
    if !m.vaults.contains_key(vault) {
        Step { signer: None, result: Err(ContractError::VaultNotRegistered) }
    } else if caller == m.fee_manager || caller == m.vaults[vault].admin {
        Step { signer: Some(caller), result: Ok(m.vaults[vault]) }
    } else {
        Step { signer: None, result: Err(ContractError::Unauthorized) }
    }
}

/// The lane of an action open to the vault's admin only.
pub open spec fn admin_lane_spec(m: ProxyModel, vault: Addr) -> Step<VaultConfig, ContractError> {
    if m.vaults.contains_key(vault) {
        Step { signer: Some(m.vaults[vault].admin), result: Ok(m.vaults[vault]) }
    } else {
        Step { signer: None, result: Err(ContractError::VaultNotRegistered) }
    }
}

/// A call made on the vault's admin behalf, with no event.
pub open spec fn passthrough_spec(m: ProxyModel, vault: Addr, call: VaultCall) -> Step<Effect, ContractError> {
    let lane = admin_lane_spec(m, vault);
    match lane.result {
        Err(e) => Step { signer: lane.signer, result: Err(e) },
        Ok(_) => Step { signer: lane.signer, result: Ok(Effect { call: Some(call), event: None }) },
    }
}

pub open spec fn upgrade_vault_step(m: ProxyModel, vault: Addr, new_wasm_hash: [u8; 32]) -> Step<Effect, ContractError> {
    passthrough_spec(m, vault, VaultCall::Upgrade { new_wasm_hash })
}

pub open spec fn set_vault_fee_receiver_step(m: ProxyModel, vault: Addr, new_fee_receiver: Addr, proxy: Addr) -> Step<Effect, ContractError> {
    passthrough_spec(m, vault, VaultCall::SetFeeReceiver { caller: proxy, new_fee_receiver })
}

pub open spec fn set_vault_emergency_manager_step(m: ProxyModel, vault: Addr, emergency_manager: Addr) -> Step<Effect, ContractError> {
    passthrough_spec(m, vault, VaultCall::SetEmergencyManager { emergency_manager })
}

pub open spec fn set_vault_rebalance_manager_step(m: ProxyModel, vault: Addr, rebalance_manager: Addr) -> Step<Effect, ContractError> {
    passthrough_spec(m, vault, VaultCall::SetRebalanceManager { rebalance_manager })
}

pub open spec fn rescue_vault_step(m: ProxyModel, vault: Addr, strategy: Addr, proxy: Addr) -> Step<Effect, ContractError> {
    passthrough_spec(m, vault, VaultCall::Rescue { strategy, caller: proxy })
}

pub open spec fn pause_vault_strategy_step(m: ProxyModel, vault: Addr, strategy: Addr, proxy: Addr) -> Step<Effect, ContractError> {
    passthrough_spec(m, vault, VaultCall::PauseStrategy { strategy, caller: proxy })
}

pub open spec fn unpause_vault_strategy_step(m: ProxyModel, vault: Addr, strategy: Addr, proxy: Addr) -> Step<Effect, ContractError> {
    passthrough_spec(m, vault, VaultCall::UnpauseStrategy { strategy, caller: proxy })
}

pub open spec fn set_fee_manager_next(m: ProxyModel, new_fee_manager: Addr) -> ProxyModel {
    ProxyModel { fee_manager: new_fee_manager, ..m }
}

pub open spec fn propose_admin_next(m: ProxyModel, new_admin: Addr) -> ProxyModel {
    ProxyModel { roles: propose_spec(m.roles, new_admin), ..m }
}

pub open spec fn accept_admin_next(m: ProxyModel, new_admin: Addr) -> ProxyModel {
    match accept_spec(m.roles, new_admin) {
        Ok(r) => ProxyModel { roles: r, ..m },
        Err(_) => m,
    }
}

pub open spec fn accept_admin_step(m: ProxyModel, new_admin: Addr) -> Step<Effect, ContractError> {
    match accept_spec(m.roles, new_admin) {
        Ok(_) => Step {
            signer: Some(new_admin),
            result: Ok(Effect {
                call: None,
                event: Some(FeeProxyEvent::AdminUpdated(AdminUpdated { old: m.roles.admin, new_addr: new_admin })),
            }),
        },
        Err(RotationError::NoPendingAdmin) => Step { signer: Some(new_admin), result: Err(ContractError::NoPendingAdmin) },
        Err(RotationError::Unauthorized) => Step { signer: Some(new_admin), result: Err(ContractError::Unauthorized) },
    }
}

/// Registration: the signing `admin` must be the configured admin, the
/// vault must be new and the fee bounds valid.
pub open spec fn register_vault_step(m: ProxyModel, admin: Addr, vault: Addr, config: VaultConfig, proxy: Addr) -> Step<Effect, ContractError> {
    if admin != config.admin {
        Step { signer: Some(admin), result: Err(ContractError::AdminMismatch) }
    } else if m.vaults.contains_key(vault) {
        Step { signer: Some(admin), result: Err(ContractError::VaultAlreadyRegistered) }
    } else if !fee_bounds_valid(config.min_fee_bps, config.max_fee_bps) {
        Step { signer: Some(admin), result: Err(ContractError::InvalidFeeBounds) }
    } else {
        Step {
            signer: Some(admin),
            result: Ok(Effect {
                call: Some(VaultCall::SetManager { new_manager: proxy }),
                event: Some(FeeProxyEvent::VaultRegistered(VaultRegistered {
                    vault,
                    admin: config.admin,
                    target_apy_bps: config.target_apy_bps,
                })),
            }),
        }
    }
}

pub open spec fn register_vault_next(m: ProxyModel, admin: Addr, vault: Addr, config: VaultConfig) -> ProxyModel {
    if admin == config.admin && !m.vaults.contains_key(vault) && fee_bounds_valid(config.min_fee_bps, config.max_fee_bps) {
        ProxyModel { vaults: m.vaults.insert(vault, config), ..m }
    } else {
        m
    }
}

pub open spec fn unregister_vault_step(m: ProxyModel, vault: Addr) -> Step<Effect, ContractError> {
    if m.vaults.contains_key(vault) {
        let admin = m.vaults[vault].admin;
        Step {
            signer: Some(admin),
            result: Ok(Effect {
                call: Some(VaultCall::SetManager { new_manager: admin }),
                event: Some(FeeProxyEvent::VaultUnregistered(VaultUnregistered { vault, admin })),
            }),
        }
    } else {
        Step { signer: None, result: Err(ContractError::VaultNotRegistered) }
    }
}

pub open spec fn remove_vault_next(m: ProxyModel, vault: Addr) -> ProxyModel {
    ProxyModel { vaults: m.vaults.remove(vault), ..m }
}

pub open spec fn lock_fees_step(m: ProxyModel, caller: Addr, vault: Addr, new_fee_bps: Option<u32>) -> Step<Effect, ContractError> {
    let lane = fee_lane_spec(m, caller, vault);
    match lane.result {
        Err(e) => Step { signer: lane.signer, result: Err(e) },
        Ok(c) => {
            match new_fee_bps {
                Some(fee) => if fee < c.min_fee_bps || fee > c.max_fee_bps {
                    Step { signer: lane.signer, result: Err(ContractError::FeeOutOfBounds) }
                } else {
                    Step {
                        signer: lane.signer,
                        result: Ok(Effect {
                            call: Some(VaultCall::LockFees { new_fee_bps }),
                            event: Some(FeeProxyEvent::FeesLocked(FeesLocked { vault, fee_bps: fee })),
                        }),
                    }
                },
                None => Step {
                    signer: lane.signer,
                    result: Ok(Effect { call: Some(VaultCall::LockFees { new_fee_bps }), event: None }),
                },
            }
        },
    }
}

pub open spec fn distribute_fees_step(m: ProxyModel, caller: Addr, vault: Addr, proxy: Addr) -> Step<Effect, ContractError> {
    let lane = fee_lane_spec(m, caller, vault);
    match lane.result {
        Err(e) => Step { signer: lane.signer, result: Err(e) },
        Ok(_) => Step {
            signer: lane.signer,
            result: Ok(Effect {
                call: Some(VaultCall::DistributeFees { caller: proxy }),
                event: Some(FeeProxyEvent::FeesDistributed(FeesDistributed { vault })),
            }),
        },
    }
}

/// Releasing fees: vault admin only, for a positive amount.
pub open spec fn release_fees_step(m: ProxyModel, vault: Addr, strategy: Addr, amount: i128) -> Step<Effect, ContractError> {
    let lane = admin_lane_spec(m, vault);
    match lane.result {
        Err(e) => Step { signer: lane.signer, result: Err(e) },
        Ok(_) => if amount <= 0 {
            Step { signer: lane.signer, result: Err(ContractError::InvalidAmount) }
        } else {
            Step {
                signer: lane.signer,
                result: Ok(Effect {
                    call: Some(VaultCall::ReleaseFees { strategy, amount }),
                    event: Some(FeeProxyEvent::FeesReleased(FeesReleased { vault, strategy, amount })),
                }),
            }
        },
    }
}

pub open spec fn config_updated(vault: Addr, c: VaultConfig) -> FeeProxyEvent {
    FeeProxyEvent::ConfigUpdated(ConfigUpdated {
        vault,
        target_apy_bps: c.target_apy_bps,
        max_fee_bps: c.max_fee_bps,
        min_fee_bps: c.min_fee_bps,
    })
}

pub open spec fn set_target_apy_step(m: ProxyModel, vault: Addr, target_apy_bps: u32) -> Step<Effect, ContractError> {
    let lane = admin_lane_spec(m, vault);
    match lane.result {
        Err(e) => Step { signer: lane.signer, result: Err(e) },
        Ok(c) => Step {
            signer: lane.signer,
            result: Ok(Effect {
                call: None,
                event: Some(config_updated(vault, VaultConfig { target_apy_bps, ..c })),
            }),
        },
    }
}

pub open spec fn set_target_apy_next(m: ProxyModel, vault: Addr, target_apy_bps: u32) -> ProxyModel {
    if m.vaults.contains_key(vault) {
        ProxyModel { vaults: m.vaults.insert(vault, VaultConfig { target_apy_bps, ..m.vaults[vault] }), ..m }
    } else {
        m
    }
}

pub open spec fn set_fee_bounds_step(m: ProxyModel, vault: Addr, min_fee_bps: u32, max_fee_bps: u32) -> Step<Effect, ContractError> {
    let lane = admin_lane_spec(m, vault);
    match lane.result {
        Err(e) => Step { signer: lane.signer, result: Err(e) },
        Ok(c) => if !fee_bounds_valid(min_fee_bps, max_fee_bps) {
            Step { signer: lane.signer, result: Err(ContractError::InvalidFeeBounds) }
        } else {
            Step {
                signer: lane.signer,
                result: Ok(Effect {
                    call: None,
                    event: Some(config_updated(vault, VaultConfig { min_fee_bps, max_fee_bps, ..c })),
                }),
            }
        },
    }
}

pub open spec fn set_fee_bounds_next(m: ProxyModel, vault: Addr, min_fee_bps: u32, max_fee_bps: u32) -> ProxyModel {
    if m.vaults.contains_key(vault) && fee_bounds_valid(min_fee_bps, max_fee_bps) {
        ProxyModel {
            vaults: m.vaults.insert(vault, VaultConfig { min_fee_bps, max_fee_bps, ..m.vaults[vault] }),
            ..m
        }
    } else {
        m
    }
}

pub open spec fn set_vault_manager_step(m: ProxyModel, vault: Addr, new_manager: Addr, proxy: Addr) -> Step<Effect, ContractError> {
    let lane = admin_lane_spec(m, vault);
    match lane.result {
        Err(e) => Step { signer: lane.signer, result: Err(e) },
        Ok(c) => Step {
            signer: lane.signer,
            result: Ok(Effect {
                call: Some(VaultCall::SetManager { new_manager }),
                event: if new_manager != proxy {
                    Some(FeeProxyEvent::VaultUnregistered(VaultUnregistered { vault, admin: c.admin }))
                } else {
                    None
                },
            }),
        },
    }
}

pub open spec fn set_vault_manager_next(m: ProxyModel, vault: Addr, new_manager: Addr, proxy: Addr) -> ProxyModel {
    if m.vaults.contains_key(vault) && new_manager != proxy {
        remove_vault_next(m, vault)
    } else {
        m
    }
}

/// The fee proxy's state: the global admin (and any admin proposed to
/// succeed it), the fee manager key, and the configuration of every
/// registered vault.
pub struct VaultRolesManager {
    roles: AdminRoles,
    fee_manager: Addr,
    vaults: Registry<VaultConfig>,
}

impl View for VaultRolesManager {
    type V = ProxyModel;

    closed spec fn view(&self) -> ProxyModel {
        ProxyModel { roles: self.roles, fee_manager: self.fee_manager, vaults: self.vaults.map() }
    }
}

impl VaultRolesManager {
    pub closed spec fn wf(self) -> bool {
        self.vaults.wf()
    }

    /// The proxy as deployed: `admin` (who must authorize the deployment)
    /// and the fee manager key, with no vault registered.
    pub fn new(admin: Addr, fee_manager: Addr) -> (r: Self)
        ensures
            r.wf(),
            r@ == (ProxyModel {
                roles: AdminRoles { admin, pending: None },
                fee_manager,
                vaults: Map::empty(),
            }),
            configs_valid(r@),
    {
        VaultRolesManager { roles: AdminRoles::new(admin), fee_manager, vaults: Registry::new() }
    }

    /// The proxy as stored: `None` when a vault is listed twice.
    pub fn restore(
        admin: Addr,
        pending_admin: Option<Addr>,
        fee_manager: Addr,
        vaults: Vec<(Addr, VaultConfig)>,
    ) -> (r: Option<Self>)
        ensures
            r is Some <==> crate::registry::keys_distinct(vaults@),
            r matches Some(p) ==> p.wf() && p@ == (ProxyModel {
                roles: AdminRoles { admin, pending: pending_admin },
                fee_manager,
                vaults: crate::registry::seq_to_map(vaults@),
            }),
    {
        match Registry::from_entries(vaults) {
            Some(reg) => Some(VaultRolesManager {
                roles: AdminRoles { admin, pending: pending_admin },
                fee_manager,
                vaults: reg,
            }),
            None => None,
        }
    }

    pub fn get_admin(&self) -> (r: Addr)
        ensures
            r == self@.roles.admin,
    {
        self.roles.admin
    }

    pub fn get_pending_admin(&self) -> (r: Option<Addr>)
        ensures
            r == self@.roles.pending,
    {
        self.roles.pending
    }

    pub fn get_fee_manager(&self) -> (r: Addr)
        ensures
            r == self@.fee_manager,
    {
        self.fee_manager
    }

    pub fn get_vault_config(&self, vault: Addr) -> (r: Result<VaultConfig, ContractError>)
        requires
            self.wf(),
        ensures
            r == (if self@.vaults.contains_key(vault) {
                Ok::<VaultConfig, ContractError>(self@.vaults[vault])
            } else {
                Err::<VaultConfig, ContractError>(ContractError::VaultNotRegistered)
            }),
    {
        match self.vaults.get(&vault) {
            Some(c) => Ok(c),
            None => Err(ContractError::VaultNotRegistered),
        }
    }

    fn fee_lane(&self, caller: Addr, vault: Addr) -> (r: Step<VaultConfig, ContractError>)
        requires
            self.wf(),
        ensures
            r == fee_lane_spec(self@, caller, vault),
    {
        match self.vaults.get(&vault) {
            None => Step { signer: None, result: Err(ContractError::VaultNotRegistered) },
            Some(c) => if caller == self.fee_manager || caller == c.admin {
                Step { signer: Some(caller), result: Ok(c) }
            } else {
                Step { signer: None, result: Err(ContractError::Unauthorized) }
            },
        }
    }

    fn admin_lane(&self, vault: Addr) -> (r: Step<VaultConfig, ContractError>)
        requires
            self.wf(),
        ensures
            r == admin_lane_spec(self@, vault),
    {
        match self.vaults.get(&vault) {
            Some(c) => Step { signer: Some(c.admin), result: Ok(c) },
            None => Step { signer: None, result: Err(ContractError::VaultNotRegistered) },
        }
    }

    fn passthrough(&self, vault: Addr, call: VaultCall) -> (r: Step<Effect, ContractError>)
        requires
            self.wf(),
        ensures
            r == passthrough_spec(self@, vault, call),
    {
        let lane = self.admin_lane(vault);
        match lane.result {
            Err(e) => Step { signer: lane.signer, result: Err(e) },
            Ok(_) => Step { signer: lane.signer, result: Ok(Effect { call: Some(call), event: None }) },
        }
    }

    /// Rotates the fee manager key; the admin must authorize this.
    pub fn set_fee_manager(&mut self, new_fee_manager: Addr) -> (r: Step<Effect, ContractError>)
        requires
            old(self).wf(),
        ensures
            final(self).wf(),
            final(self)@ == set_fee_manager_next(old(self)@, new_fee_manager),
            r == (Step::<Effect, ContractError> {
                signer: Some(old(self)@.roles.admin),
                result: Ok(Effect {
                    call: None,
                    event: Some(FeeProxyEvent::FeeManagerUpdated(FeeManagerUpdated {
                        old: old(self)@.fee_manager,
                        new_addr: new_fee_manager,
                    })),
                }),
            }),
    {
        let old = self.fee_manager;
        self.fee_manager = new_fee_manager;
        Step {
            signer: Some(self.roles.admin),
            result: Ok(Effect {
                call: None,
                event: Some(FeeProxyEvent::FeeManagerUpdated(FeeManagerUpdated { old, new_addr: new_fee_manager })),
            }),
        }
    }

    /// Proposes a new global admin, overwriting any earlier proposal; the
    /// current admin must authorize this.
    pub fn propose_admin(&mut self, new_admin: Addr) -> (r: Step<Effect, ContractError>)
        requires
            old(self).wf(),
        ensures
            final(self).wf(),
            final(self)@ == propose_admin_next(old(self)@, new_admin),
            r == (Step::<Effect, ContractError> {
                signer: Some(old(self)@.roles.admin),
                result: Ok(Effect {
                    call: None,
                    event: Some(FeeProxyEvent::AdminProposed(AdminProposed {
                        current: old(self)@.roles.admin,
                        pending: new_admin,
                    })),
                }),
            }),
    {
        let signer = self.roles.admin;
        let ev = self.roles.propose(new_admin);
        Step { signer: Some(signer), result: Ok(Effect { call: None, event: Some(FeeProxyEvent::AdminProposed(ev)) }) }
    }

    /// `new_admin`, who must authorize this, takes the admin role if it is
    /// the proposed one.
    pub fn accept_admin(&mut self, new_admin: Addr) -> (r: Step<Effect, ContractError>)
        requires
            old(self).wf(),
        ensures
            final(self).wf(),
            final(self)@ == accept_admin_next(old(self)@, new_admin),
            r == accept_admin_step(old(self)@, new_admin),
    {
        match self.roles.accept(new_admin) {
            Ok(ev) => Step {
                signer: Some(new_admin),
                result: Ok(Effect { call: None, event: Some(FeeProxyEvent::AdminUpdated(ev)) }),
            },
            Err(RotationError::NoPendingAdmin) => Step { signer: Some(new_admin), result: Err(ContractError::NoPendingAdmin) },
            Err(RotationError::Unauthorized) => Step { signer: Some(new_admin), result: Err(ContractError::Unauthorized) },
        }
    }

    /// Puts `vault` under the proxy with `config`. `admin`, the vault's
    /// current Manager, must authorize this and must be `config.admin`, so
    /// that the future controller signs its own registration; the returned
    /// call hands the Manager role to `proxy`, the proxy's own address.
    pub fn register_vault(&mut self, admin: Addr, vault: Addr, config: VaultConfig, proxy: Addr) -> (r: Step<Effect, ContractError>)
        requires
            old(self).wf(),
        ensures
            final(self).wf(),
            final(self)@ == register_vault_next(old(self)@, admin, vault, config),
            r == register_vault_step(old(self)@, admin, vault, config, proxy),
            configs_valid(old(self)@) ==> configs_valid(final(self)@),
    {
        if admin != config.admin {
            return Step { signer: Some(admin), result: Err(ContractError::AdminMismatch) };
        }
        if self.vaults.contains(&vault) {
            return Step { signer: Some(admin), result: Err(ContractError::VaultAlreadyRegistered) };
        }
        if config.min_fee_bps > config.max_fee_bps || config.max_fee_bps > MAX_FEE_BPS {
            return Step { signer: Some(admin), result: Err(ContractError::InvalidFeeBounds) };
        }
        self.vaults.insert_new(vault, config);
        Step {
            signer: Some(admin),
            result: Ok(Effect {
                call: Some(VaultCall::SetManager { new_manager: proxy }),
                event: Some(FeeProxyEvent::VaultRegistered(VaultRegistered {
                    vault,
                    admin: config.admin,
                    target_apy_bps: config.target_apy_bps,
                })),
            }),
        }
    }

    /// Hands the Manager role back to the vault's admin (who must authorize
    /// this) and forgets the vault.
    pub fn unregister_vault(&mut self, vault: Addr) -> (r: Step<Effect, ContractError>)
        requires
            old(self).wf(),
        ensures
            final(self).wf(),
            final(self)@ == (if old(self)@.vaults.contains_key(vault) {
                remove_vault_next(old(self)@, vault)
            } else {
                old(self)@
            }),
            r == unregister_vault_step(old(self)@, vault),
            configs_valid(old(self)@) ==> configs_valid(final(self)@),
    {
        match self.vaults.get(&vault) {
            None => Step { signer: None, result: Err(ContractError::VaultNotRegistered) },
            Some(c) => {
                self.vaults.remove(&vault);
                Step {
                    signer: Some(c.admin),
                    result: Ok(Effect {
                        call: Some(VaultCall::SetManager { new_manager: c.admin }),
                        event: Some(FeeProxyEvent::VaultUnregistered(VaultUnregistered { vault, admin: c.admin })),
                    }),
                }
            },
        }
    }

    /// Locks `new_fee_bps` in the vault (or re-locks the current fee when
    /// `None`); open to the fee manager and the vault's admin. A new fee must
    /// lie within the vault's bounds.
    pub fn lock_fees(&self, caller: Addr, vault: Addr, new_fee_bps: Option<u32>) -> (r: Step<Effect, ContractError>)
        requires
            self.wf(),
        ensures
            r == lock_fees_step(self@, caller, vault, new_fee_bps),
    {
        let lane = self.fee_lane(caller, vault);
        let config = match lane.result {
            Err(e) => return Step { signer: lane.signer, result: Err(e) },
            Ok(c) => c,
        };
        match new_fee_bps {
            Some(fee) => {
                if fee < config.min_fee_bps || fee > config.max_fee_bps {
                    Step { signer: lane.signer, result: Err(ContractError::FeeOutOfBounds) }
                } else {
                    Step {
                        signer: lane.signer,
                        result: Ok(Effect {
                            call: Some(VaultCall::LockFees { new_fee_bps }),
                            event: Some(FeeProxyEvent::FeesLocked(FeesLocked { vault, fee_bps: fee })),
                        }),
                    }
                }
            },
            None => Step {
                signer: lane.signer,
                result: Ok(Effect { call: Some(VaultCall::LockFees { new_fee_bps }), event: None }),
            },
        }
    }

    /// Distributes the vault's fees, the proxy acting as the vault-side
    /// caller; open to the fee manager and the vault's admin.
    pub fn distribute_fees(&self, caller: Addr, vault: Addr, proxy: Addr) -> (r: Step<Effect, ContractError>)
        requires
            self.wf(),
        ensures
            r == distribute_fees_step(self@, caller, vault, proxy),
    {
        let lane = self.fee_lane(caller, vault);
        match lane.result {
            Err(e) => Step { signer: lane.signer, result: Err(e) },
            Ok(_) => Step {
                signer: lane.signer,
                result: Ok(Effect {
                    call: Some(VaultCall::DistributeFees { caller: proxy }),
                    event: Some(FeeProxyEvent::FeesDistributed(FeesDistributed { vault })),
                }),
            },
        }
    }

    /// Releases `amount` (which must be positive) of the fees held for
    /// `strategy`; vault admin only.
    pub fn release_fees(&self, vault: Addr, strategy: Addr, amount: i128) -> (r: Step<Effect, ContractError>)
        requires
            self.wf(),
        ensures
            r == release_fees_step(self@, vault, strategy, amount),
    {
        let lane = self.admin_lane(vault);
        match lane.result {
            Err(e) => Step { signer: lane.signer, result: Err(e) },
            Ok(_) => if amount <= 0 {
                Step { signer: lane.signer, result: Err(ContractError::InvalidAmount) }
            } else {
                Step {
                    signer: lane.signer,
                    result: Ok(Effect {
                        call: Some(VaultCall::ReleaseFees { strategy, amount }),
                        event: Some(FeeProxyEvent::FeesReleased(FeesReleased { vault, strategy, amount })),
                    }),
                }
            },
        }
    }

    /// Sets the vault's target APY (any `u32`); vault admin only.
    pub fn set_target_apy(&mut self, vault: Addr, target_apy_bps: u32) -> (r: Step<Effect, ContractError>)
        requires
            old(self).wf(),
        ensures
            final(self).wf(),
            final(self)@ == set_target_apy_next(old(self)@, vault, target_apy_bps),
            r == set_target_apy_step(old(self)@, vault, target_apy_bps),
            configs_valid(old(self)@) ==> configs_valid(final(self)@),
    {
        let lane = self.admin_lane(vault);
        match lane.result {
            Err(e) => Step { signer: lane.signer, result: Err(e) },
            Ok(c) => {
                let updated = VaultConfig { target_apy_bps, ..c };
                self.vaults.update(&vault, updated);
                Step {
                    signer: lane.signer,
                    result: Ok(Effect {
                        call: None,
                        event: Some(FeeProxyEvent::ConfigUpdated(ConfigUpdated {
                            vault,
                            target_apy_bps: updated.target_apy_bps,
                            max_fee_bps: updated.max_fee_bps,
                            min_fee_bps: updated.min_fee_bps,
                        })),
                    }),
                }
            },
        }
    }

    /// Sets the vault's fee bounds, which must satisfy
    /// `min <= max <= 10_000`; vault admin only.
    pub fn set_fee_bounds(&mut self, vault: Addr, min_fee_bps: u32, max_fee_bps: u32) -> (r: Step<Effect, ContractError>)
        requires
            old(self).wf(),
        ensures
            final(self).wf(),
            final(self)@ == set_fee_bounds_next(old(self)@, vault, min_fee_bps, max_fee_bps),
            r == set_fee_bounds_step(old(self)@, vault, min_fee_bps, max_fee_bps),
            configs_valid(old(self)@) ==> configs_valid(final(self)@),
    {
        let lane = self.admin_lane(vault);
        match lane.result {
            Err(e) => Step { signer: lane.signer, result: Err(e) },
            Ok(c) => {
                if min_fee_bps > max_fee_bps || max_fee_bps > MAX_FEE_BPS {
                    return Step { signer: lane.signer, result: Err(ContractError::InvalidFeeBounds) };
                }
                let updated = VaultConfig { min_fee_bps, max_fee_bps, ..c };
                self.vaults.update(&vault, updated);
                Step {
                    signer: lane.signer,
                    result: Ok(Effect {
                        call: None,
                        event: Some(FeeProxyEvent::ConfigUpdated(ConfigUpdated {
                            vault,
                            target_apy_bps: updated.target_apy_bps,
                            max_fee_bps: updated.max_fee_bps,
                            min_fee_bps: updated.min_fee_bps,
                        })),
                    }),
                }
            },
        }
    }

    /// Upgrades the vault's code; vault admin only.
    pub fn upgrade_vault(&self, vault: Addr, new_wasm_hash: [u8; 32]) -> (r: Step<Effect, ContractError>)
        requires
            self.wf(),
        ensures
            r == upgrade_vault_step(self@, vault, new_wasm_hash),
    {
        self.passthrough(vault, VaultCall::Upgrade { new_wasm_hash })
    }

    /// Sets the vault's Manager; vault admin only. When the new Manager is
    /// not the proxy itself, the proxy no longer controls the vault and
    /// forgets it.
    pub fn set_vault_manager(&mut self, vault: Addr, new_manager: Addr, proxy: Addr) -> (r: Step<Effect, ContractError>)
        requires
            old(self).wf(),
        ensures
            final(self).wf(),
            final(self)@ == set_vault_manager_next(old(self)@, vault, new_manager, proxy),
            r == set_vault_manager_step(old(self)@, vault, new_manager, proxy),
            configs_valid(old(self)@) ==> configs_valid(final(self)@),
    {
        let lane = self.admin_lane(vault);
        match lane.result {
            Err(e) => Step { signer: lane.signer, result: Err(e) },
            Ok(c) => {
                let event = if new_manager != proxy {
                    self.vaults.remove(&vault);
                    Some(FeeProxyEvent::VaultUnregistered(VaultUnregistered { vault, admin: c.admin }))
                } else {
                    None
                };
                Step { signer: lane.signer, result: Ok(Effect { call: Some(VaultCall::SetManager { new_manager }), event }) }
            },
        }
    }

    /// Sets the vault's fee receiver, the proxy acting as the vault-side
    /// caller; vault admin only.
    pub fn set_vault_fee_receiver(&self, vault: Addr, new_fee_receiver: Addr, proxy: Addr) -> (r: Step<Effect, ContractError>)
        requires
            self.wf(),
        ensures
            r == set_vault_fee_receiver_step(self@, vault, new_fee_receiver, proxy),
    {
        self.passthrough(vault, VaultCall::SetFeeReceiver { caller: proxy, new_fee_receiver })
    }

    /// Sets the vault's emergency manager; vault admin only.
    pub fn set_vault_emergency_manager(&self, vault: Addr, emergency_manager: Addr) -> (r: Step<Effect, ContractError>)
        requires
            self.wf(),
        ensures
            r == set_vault_emergency_manager_step(self@, vault, emergency_manager),
    {
        self.passthrough(vault, VaultCall::SetEmergencyManager { emergency_manager })
    }

    /// Sets the vault's rebalance manager; vault admin only.
    pub fn set_vault_rebalance_manager(&self, vault: Addr, rebalance_manager: Addr) -> (r: Step<Effect, ContractError>)
        requires
            self.wf(),
        ensures
            r == set_vault_rebalance_manager_step(self@, vault, rebalance_manager),
    {
        self.passthrough(vault, VaultCall::SetRebalanceManager { rebalance_manager })
    }

    /// Rescues the funds of `strategy`, the proxy acting as the vault-side
    /// caller; vault admin only.
    pub fn rescue_vault(&self, vault: Addr, strategy: Addr, proxy: Addr) -> (r: Step<Effect, ContractError>)
        requires
            self.wf(),
        ensures
            r == rescue_vault_step(self@, vault, strategy, proxy),
    {
        self.passthrough(vault, VaultCall::Rescue { strategy, caller: proxy })
    }

    /// Pauses `strategy`, the proxy acting as the vault-side caller; vault
    /// admin only.
    pub fn pause_vault_strategy(&self, vault: Addr, strategy: Addr, proxy: Addr) -> (r: Step<Effect, ContractError>)
        requires
            self.wf(),
        ensures
            r == pause_vault_strategy_step(self@, vault, strategy, proxy),
    {
        self.passthrough(vault, VaultCall::PauseStrategy { strategy, caller: proxy })
    }

    /// Unpauses `strategy`, the proxy acting as the vault-side caller; vault
    /// admin only.
    pub fn unpause_vault_strategy(&self, vault: Addr, strategy: Addr, proxy: Addr) -> (r: Step<Effect, ContractError>)
        requires
            self.wf(),
        ensures
            r == unpause_vault_strategy_step(self@, vault, strategy, proxy),
    {
        self.passthrough(vault, VaultCall::UnpauseStrategy { strategy, caller: proxy })
    }
}

} // verus!
