//! The boost treasury: per-vault escrow of partner-funded budgets that the
//! manager key streams into the vault as realized yield.
use vstd::prelude::*;
use crate::address::Addr;
use crate::admin::{
    accept_spec, propose_spec, AdminProposed, AdminRoles, AdminUpdated, RotationError,
};
use crate::registry::{key_index, keys_distinct, seq_to_map, Registry};
use crate::step::Step;

verus! {

/// One vault's boost budget and its history.
#[derive(Clone, Copy, Debug, PartialEq, Eq, Structural)]
pub struct Campaign {
    /// Deposits and boosts are accepted only while active.
    pub active: bool,
    /// The token the budget is held in, fixed at registration.
    pub asset: Addr,
    pub total_deposited: i128,
    pub total_boosted: i128,
    pub total_withdrawn: i128,
    /// Ledger timestamp (seconds) of the latest boost; 0 if never boosted.
    pub last_boosted_at: u64,
}

pub open spec fn fits_i128(x: int) -> bool {
    i128::MIN <= x <= i128::MAX
}

/// The remaining budget `deposited - boosted - withdrawn`; it fails closed
/// at 0 when that difference is negative or leaves the `i128` range on the
/// way, so it is never negative.
pub open spec fn available_spec(c: Campaign) -> i128 {
    let a = c.total_deposited - c.total_boosted;
    if fits_i128(a) && fits_i128(a - c.total_withdrawn) && a - c.total_withdrawn >= 0 {
        (a - c.total_withdrawn) as i128
    } else {
        0
    }
}

/// The accounting every campaign keeps: nothing negative, and no more
/// boosted or withdrawn than was deposited.
pub open spec fn campaign_sound(c: Campaign) -> bool {
    0 <= c.total_boosted && 0 <= c.total_withdrawn && c.total_boosted + c.total_withdrawn
        <= c.total_deposited
}

impl Campaign {
    /// The remaining budget; see `available_spec`.
    pub fn available(&self) -> (r: i128)
        ensures
            r == available_spec(*self),
    {
        match self.total_deposited.checked_sub(self.total_boosted) {
            Some(a) => match a.checked_sub(self.total_withdrawn) {
                Some(v) => if v < 0 {
                    0
                } else {
                    v
                },
                None => 0,
            },
            None => 0,
        }
    }

    /// Whether the campaign keeps sound accounting.
    pub fn is_sound(&self) -> (r: bool)
        ensures
            r == campaign_sound(*self),
    {
        self.total_boosted >= 0 && self.total_withdrawn >= 0 && match self.total_boosted.checked_add(
            self.total_withdrawn,
        ) {
            Some(spent) => spent <= self.total_deposited,
            None => false,
        }
    }
}

#[derive(Clone, Copy, Debug, PartialEq, Eq, Structural)]
pub enum ContractError {
    Unauthorized,
    NoPendingAdmin,
    CampaignAlreadyRegistered,
    CampaignNotRegistered,
    CampaignInactive,
    CampaignHasBalance,
    MultiAssetVaultNotSupported,
    AssetMismatch,
    SameVault,
    InvalidAmount,
    InsufficientBudget,
    InsufficientOrphanBalance,
    Overflow,
    AccountingCorrupted,
}

/// The number under which each error is reported on the ledger.
pub open spec fn error_code(e: ContractError) -> u32 {
    match e {
        ContractError::Unauthorized => 100,
        ContractError::NoPendingAdmin => 101,
        ContractError::CampaignAlreadyRegistered => 110,
        ContractError::CampaignNotRegistered => 111,
        ContractError::CampaignInactive => 112,
        ContractError::CampaignHasBalance => 113,
        ContractError::MultiAssetVaultNotSupported => 120,
        ContractError::AssetMismatch => 121,
        ContractError::SameVault => 122,
        ContractError::InvalidAmount => 130,
        ContractError::InsufficientBudget => 131,
        ContractError::InsufficientOrphanBalance => 132,
        ContractError::Overflow => 140,
        ContractError::AccountingCorrupted => 141,
    }
}

impl ContractError {
    pub fn code(&self) -> (r: u32)
        ensures
            r == error_code(*self),
    {
        match self {
            ContractError::Unauthorized => 100,
            ContractError::NoPendingAdmin => 101,
            ContractError::CampaignAlreadyRegistered => 110,
            ContractError::CampaignNotRegistered => 111,
            ContractError::CampaignInactive => 112,
            ContractError::CampaignHasBalance => 113,
            ContractError::MultiAssetVaultNotSupported => 120,
            ContractError::AssetMismatch => 121,
            ContractError::SameVault => 122,
            ContractError::InvalidAmount => 130,
            ContractError::InsufficientBudget => 131,
            ContractError::InsufficientOrphanBalance => 132,
            ContractError::Overflow => 140,
            ContractError::AccountingCorrupted => 141,
        }
    }
}

#[derive(Clone, Copy, Debug, PartialEq, Eq, Structural)]
pub struct CampaignRegistered {
    pub vault: Addr,
    pub asset: Addr,
}

#[derive(Clone, Copy, Debug, PartialEq, Eq, Structural)]
pub struct CampaignUpdated {
    pub vault: Addr,
    pub active: bool,
}

#[derive(Clone, Copy, Debug, PartialEq, Eq, Structural)]
pub struct CampaignUnregistered {
    pub vault: Addr,
}

#[derive(Clone, Copy, Debug, PartialEq, Eq, Structural)]
pub struct Deposited {
    pub vault: Addr,
    pub depositor: Addr,
    pub amount: i128,
}

#[derive(Clone, Copy, Debug, PartialEq, Eq, Structural)]
pub struct Boosted {
    pub vault: Addr,
    pub amount: i128,
}

#[derive(Clone, Copy, Debug, PartialEq, Eq, Structural)]
pub struct Transferred {
    pub vault: Addr,
    pub to: Addr,
    pub amount: i128,
}

#[derive(Clone, Copy, Debug, PartialEq, Eq, Structural)]
pub struct ManagerUpdated {
    pub old: Addr,
    pub new_addr: Addr,
}

/// Published when budget moves from one campaign to another.
#[derive(Clone, Copy, Debug, PartialEq, Eq, Structural)]
pub struct Reallocated {
    pub from_vault: Addr,
    pub to_vault: Addr,
    pub amount: i128,
}

#[derive(Clone, Copy, Debug, PartialEq, Eq, Structural)]
pub struct OrphanRescued {
    pub token: Addr,
    pub to: Addr,
    pub amount: i128,
}

#[derive(Clone, Copy, Debug, PartialEq, Eq, Structural)]
pub enum TreasuryEvent {
    CampaignRegistered(CampaignRegistered),
    CampaignUpdated(CampaignUpdated),
    CampaignUnregistered(CampaignUnregistered),
    Deposited(Deposited),
    Boosted(Boosted),
    Transferred(Transferred),
    Reallocated(Reallocated),
    ManagerUpdated(ManagerUpdated),
    AdminProposed(AdminProposed),
    AdminUpdated(AdminUpdated),
    OrphanRescued(OrphanRescued),
}

/// A transfer of `amount` of the token `token` from `from` to `to`.
#[derive(Clone, Copy, Debug, PartialEq, Eq, Structural)]
pub struct TokenTransfer {
    pub token: Addr,
    pub from: Addr,
    pub to: Addr,
    pub amount: i128,
}

/// A token transfer to make, then what the entrypoint concludes once it has
/// been made: the event to publish, or the error that aborts the invocation.
#[derive(Clone, Copy, Debug, PartialEq, Eq)]
pub struct Payment {
    pub transfer: TokenTransfer,
    pub settled: Result<TreasuryEvent, ContractError>,
}

/// The treasury's state as mathematics; campaigns in registration order.
#[verifier::ext_equal]
pub struct TreasuryModel {
    pub roles: AdminRoles,
    pub manager: Addr,
    pub campaigns: Seq<(Addr, Campaign)>,
}

pub open spec fn campaign_map(m: TreasuryModel) -> Map<Addr, Campaign> {
    seq_to_map(m.campaigns)
}

/// Every listed campaign keeps sound accounting, position by position.
pub open spec fn entries_sound(s: Seq<(Addr, Campaign)>) -> bool {
    forall|i: int| 0 <= i < s.len() ==> campaign_sound(#[trigger] s[i].1)
}

/// Every campaign keeps sound accounting.
pub open spec fn treasury_sound(m: TreasuryModel) -> bool {
    forall|v: Addr| #[trigger] campaign_map(m).contains_key(v) ==> campaign_sound(campaign_map(m)[v])
}

/// The treasury with `vault`'s campaign replaced by `c`.
pub open spec fn with_campaign(m: TreasuryModel, vault: Addr, c: Campaign) -> TreasuryModel {
    TreasuryModel { campaigns: m.campaigns.update(key_index(m.campaigns, vault), (vault, c)), ..m }
}

/// The campaign a fresh registration starts with.
pub open spec fn fresh_campaign(asset: Addr) -> Campaign {
    Campaign {
        active: true,
        asset,
        total_deposited: 0,
        total_boosted: 0,
        total_withdrawn: 0,
        last_boosted_at: 0,
    }
}

/// The running total of the available budgets held in `token`, added up in
/// campaign order; `None` once a partial total leaves the `i128` range.
pub open spec fn tracked_from(s: Seq<(Addr, Campaign)>, token: Addr) -> Option<i128>
    decreases s.len(),
{
    if s.len() == 0 {
        Some(0i128)
    } else {
        match tracked_from(s.drop_last(), token) {
            None => None,
            Some(t) => if s.last().1.asset == token {
                if fits_i128(t + available_spec(s.last().1)) {
                    Some((t + available_spec(s.last().1)) as i128)
                } else {
                    None
                }
            } else {
                Some(t)
            },
        }
    }
}

/// The same total in mathematical integers.
pub open spec fn tracked_sum(s: Seq<(Addr, Campaign)>, token: Addr) -> int
    decreases s.len(),
{
    if s.len() == 0 {
        0
    } else {
        tracked_sum(s.drop_last(), token) + if s.last().1.asset == token {
            available_spec(s.last().1) as int
        } else {
            0
        }
    }
}

pub open spec fn event_step(signer: Addr, ev: TreasuryEvent) -> Step<TreasuryEvent, ContractError> {
    Step { signer: Some(signer), result: Ok(ev) }
}

pub open spec fn err_step<T>(signer: Option<Addr>, e: ContractError) -> Step<T, ContractError> {
    Step { signer, result: Err(e) }
}

pub open spec fn accept_admin_step(m: TreasuryModel, new_admin: Addr) -> Step<TreasuryEvent, ContractError> {
    match accept_spec(m.roles, new_admin) {
        Ok(_) => event_step(
            new_admin,
            TreasuryEvent::AdminUpdated(AdminUpdated { old: m.roles.admin, new_addr: new_admin }),
        ),
        Err(RotationError::NoPendingAdmin) => err_step(Some(new_admin), ContractError::NoPendingAdmin),
        Err(RotationError::Unauthorized) => err_step(Some(new_admin), ContractError::Unauthorized),
    }
}

pub open spec fn accept_admin_next(m: TreasuryModel, new_admin: Addr) -> TreasuryModel {
    match accept_spec(m.roles, new_admin) {
        Ok(r) => TreasuryModel { roles: r, ..m },
        Err(_) => m,
    }
}

pub open spec fn register_campaign_step(m: TreasuryModel, vault: Addr) -> Step<(), ContractError> {
    if campaign_map(m).contains_key(vault) {
        err_step(Some(m.roles.admin), ContractError::CampaignAlreadyRegistered)
    } else {
        Step { signer: Some(m.roles.admin), result: Ok(()) }
    }
}

/// The vault must report exactly one asset, and it must be `asset`, the
/// one the admin expects.
pub open spec fn complete_registration_result(vault: Addr, asset: Addr, assets: Seq<Addr>) -> Result<TreasuryEvent, ContractError> {
    if assets.len() != 1 {
        Err(ContractError::MultiAssetVaultNotSupported)
    } else if assets[0] != asset {
        Err(ContractError::AssetMismatch)
    } else {
        Ok(TreasuryEvent::CampaignRegistered(CampaignRegistered { vault, asset }))
    }
}

pub open spec fn complete_registration_next(m: TreasuryModel, vault: Addr, asset: Addr, assets: Seq<Addr>) -> TreasuryModel {
    if assets.len() == 1 && assets[0] == asset {
        TreasuryModel { campaigns: m.campaigns.push((vault, fresh_campaign(asset))), ..m }
    } else {
        m
    }
}

pub open spec fn update_campaign_step(m: TreasuryModel, vault: Addr, active: bool) -> Step<TreasuryEvent, ContractError> {
    if campaign_map(m).contains_key(vault) {
        event_step(m.roles.admin, TreasuryEvent::CampaignUpdated(CampaignUpdated { vault, active }))
    } else {
        err_step(Some(m.roles.admin), ContractError::CampaignNotRegistered)
    }
}

pub open spec fn update_campaign_next(m: TreasuryModel, vault: Addr, active: bool) -> TreasuryModel {
    if campaign_map(m).contains_key(vault) {
        with_campaign(m, vault, Campaign { active, ..campaign_map(m)[vault] })
    } else {
        m
    }
}

pub open spec fn unregister_campaign_step(m: TreasuryModel, vault: Addr) -> Step<TreasuryEvent, ContractError> {
    if !campaign_map(m).contains_key(vault) {
        err_step(Some(m.roles.admin), ContractError::CampaignNotRegistered)
    } else if available_spec(campaign_map(m)[vault]) != 0 {
        err_step(Some(m.roles.admin), ContractError::CampaignHasBalance)
    } else {
        event_step(m.roles.admin, TreasuryEvent::CampaignUnregistered(CampaignUnregistered { vault }))
    }
}

pub open spec fn unregister_campaign_next(m: TreasuryModel, vault: Addr) -> TreasuryModel {
    if campaign_map(m).contains_key(vault) && available_spec(campaign_map(m)[vault]) == 0 {
        TreasuryModel { campaigns: m.campaigns.remove(key_index(m.campaigns, vault)), ..m }
    } else {
        m
    }
}

pub open spec fn deposit_step(m: TreasuryModel, caller: Addr, vault: Addr, amount: i128, treasury: Addr) -> Step<Payment, ContractError> {
    if amount <= 0 {
        err_step(Some(caller), ContractError::InvalidAmount)
    } else if !campaign_map(m).contains_key(vault) {
        err_step(Some(caller), ContractError::CampaignNotRegistered)
    } else if !campaign_map(m)[vault].active {
        err_step(Some(caller), ContractError::CampaignInactive)
    } else {
        let c = campaign_map(m)[vault];
        Step {
            signer: Some(caller),
            result: Ok(Payment {
                transfer: TokenTransfer { token: c.asset, from: caller, to: treasury, amount },
                settled: if fits_i128(c.total_deposited + amount) {
                    Ok(TreasuryEvent::Deposited(Deposited { vault, depositor: caller, amount }))
                } else {
                    Err(ContractError::Overflow)
                },
            }),
        }
    }
}

pub open spec fn deposit_next(m: TreasuryModel, caller: Addr, vault: Addr, amount: i128, treasury: Addr) -> TreasuryModel {
    match deposit_step(m, caller, vault, amount, treasury).result {
        Ok(Payment { settled: Ok(_), .. }) => {
            let c = campaign_map(m)[vault];
            with_campaign(m, vault, Campaign { total_deposited: (c.total_deposited + amount) as i128, ..c })
        },
        _ => m,
    }
}

pub open spec fn boost_step(m: TreasuryModel, vault: Addr, amount: i128, treasury: Addr) -> Step<Payment, ContractError> {
    if amount <= 0 {
        err_step(Some(m.manager), ContractError::InvalidAmount)
    } else if !campaign_map(m).contains_key(vault) {
        err_step(Some(m.manager), ContractError::CampaignNotRegistered)
    } else if !campaign_map(m)[vault].active {
        err_step(Some(m.manager), ContractError::CampaignInactive)
    } else if amount > available_spec(campaign_map(m)[vault]) {
        err_step(Some(m.manager), ContractError::InsufficientBudget)
    } else {
        let c = campaign_map(m)[vault];
        Step {
            signer: Some(m.manager),
            result: Ok(Payment {
                transfer: TokenTransfer { token: c.asset, from: treasury, to: vault, amount },
                settled: if fits_i128(c.total_boosted + amount) {
                    Ok(TreasuryEvent::Boosted(Boosted { vault, amount }))
                } else {
                    Err(ContractError::Overflow)
                },
            }),
        }
    }
}

pub open spec fn boost_next(m: TreasuryModel, vault: Addr, amount: i128, now: u64, treasury: Addr) -> TreasuryModel {
    match boost_step(m, vault, amount, treasury).result {
        Ok(Payment { settled: Ok(_), .. }) => {
            let c = campaign_map(m)[vault];
            with_campaign(
                m,
                vault,
                Campaign { total_boosted: (c.total_boosted + amount) as i128, last_boosted_at: now, ..c },
            )
        },
        _ => m,
    }
}

pub open spec fn transfer_step(m: TreasuryModel, vault: Addr, amount: i128, to: Addr, treasury: Addr) -> Step<Payment, ContractError> {
    if amount <= 0 {
        err_step(Some(m.roles.admin), ContractError::InvalidAmount)
    } else if !campaign_map(m).contains_key(vault) {
        err_step(Some(m.roles.admin), ContractError::CampaignNotRegistered)
    } else if amount > available_spec(campaign_map(m)[vault]) {
        err_step(Some(m.roles.admin), ContractError::InsufficientBudget)
    } else {
        let c = campaign_map(m)[vault];
        Step {
            signer: Some(m.roles.admin),
            result: Ok(Payment {
                transfer: TokenTransfer { token: c.asset, from: treasury, to, amount },
                settled: if fits_i128(c.total_withdrawn + amount) {
                    Ok(TreasuryEvent::Transferred(Transferred { vault, to, amount }))
                } else {
                    Err(ContractError::Overflow)
                },
            }),
        }
    }
}

pub open spec fn transfer_next(m: TreasuryModel, vault: Addr, amount: i128, to: Addr, treasury: Addr) -> TreasuryModel {
    match transfer_step(m, vault, amount, to, treasury).result {
        Ok(Payment { settled: Ok(_), .. }) => {
            let c = campaign_map(m)[vault];
            with_campaign(m, vault, Campaign { total_withdrawn: (c.total_withdrawn + amount) as i128, ..c })
        },
        _ => m,
    }
}

/// Moving budget between two campaigns in the same asset: the admin only,
/// for a positive amount the source still has; no token moves.
pub open spec fn reallocate_step(m: TreasuryModel, from_vault: Addr, to_vault: Addr, amount: i128) -> Step<TreasuryEvent, ContractError> {
    let admin = m.roles.admin;
    if amount <= 0 {
        err_step(Some(admin), ContractError::InvalidAmount)
    } else if from_vault == to_vault {
        err_step(Some(admin), ContractError::SameVault)
    } else if !campaign_map(m).contains_key(from_vault) || !campaign_map(m).contains_key(to_vault) {
        err_step(Some(admin), ContractError::CampaignNotRegistered)
    } else if campaign_map(m)[from_vault].asset != campaign_map(m)[to_vault].asset {
        err_step(Some(admin), ContractError::AssetMismatch)
    } else if amount > available_spec(campaign_map(m)[from_vault]) {
        err_step(Some(admin), ContractError::InsufficientBudget)
    } else if !fits_i128(campaign_map(m)[from_vault].total_withdrawn + amount) || !fits_i128(
        campaign_map(m)[to_vault].total_deposited + amount,
    ) {
        err_step(Some(admin), ContractError::Overflow)
    } else {
        event_step(admin, TreasuryEvent::Reallocated(Reallocated { from_vault, to_vault, amount }))
    }
}

/// The source's budget leaves as a withdrawal, and arrives at the
/// destination as a deposit.
pub open spec fn reallocate_next(m: TreasuryModel, from_vault: Addr, to_vault: Addr, amount: i128) -> TreasuryModel {
    if reallocate_step(m, from_vault, to_vault, amount).result is Ok {
        let src = campaign_map(m)[from_vault];
        let dst = campaign_map(m)[to_vault];
        with_campaign(
            with_campaign(m, from_vault, Campaign { total_withdrawn: (src.total_withdrawn + amount) as i128, ..src }),
            to_vault,
            Campaign { total_deposited: (dst.total_deposited + amount) as i128, ..dst },
        )
    } else {
        m
    }
}

pub open spec fn rescue_orphan_step(m: TreasuryModel, amount: i128) -> Step<(), ContractError> {
    if amount <= 0 {
        err_step(Some(m.roles.admin), ContractError::InvalidAmount)
    } else {
        Step { signer: Some(m.roles.admin), result: Ok(()) }
    }
}

/// Given the treasury's `balance` of `token`, how much may be swept: only
/// what no campaign in that token accounts for.
pub open spec fn complete_orphan_rescue_result(
    m: TreasuryModel,
    token: Addr,
    to: Addr,
    amount: i128,
    balance: i128,
    treasury: Addr,
) -> Result<(TokenTransfer, TreasuryEvent), ContractError> {
    match tracked_from(m.campaigns, token) {
        None => Err(ContractError::Overflow),
        Some(attributed) => if balance < attributed {
            Err(ContractError::AccountingCorrupted)
        } else if amount > balance - attributed {
            Err(ContractError::InsufficientOrphanBalance)
        } else {
            Ok(
                (
                    TokenTransfer { token, from: treasury, to, amount },
                    TreasuryEvent::OrphanRescued(OrphanRescued { token, to, amount }),
                ),
            )
        },
    }
}

/// The treasury's state: the global admin (and any admin proposed to
/// succeed it), the manager key allowed to boost, and one campaign per
/// registered vault in registration order.
pub struct BoostTreasury {
    roles: AdminRoles,
    manager: Addr,
    campaigns: Registry<Campaign>,
}

impl View for BoostTreasury {
    type V = TreasuryModel;

    closed spec fn view(&self) -> TreasuryModel {
        TreasuryModel { roles: self.roles, manager: self.manager, campaigns: self.campaigns.entries() }
    }
}

impl BoostTreasury {
    /// Each vault is listed once and every campaign keeps sound accounting.
    pub closed spec fn wf(self) -> bool {
        self.campaigns.wf() && treasury_sound(self@)
    }

    /// The treasury as deployed: `admin` (who must authorize the deployment)
    /// and the manager key, with no campaign.
    pub fn new(admin: Addr, manager: Addr) -> (r: Self)
        ensures
            r.wf(),
            r@ == (TreasuryModel {
                roles: AdminRoles { admin, pending: None },
                manager,
                campaigns: Seq::empty(),
            }),
            keys_distinct(r@.campaigns),
            treasury_sound(r@),
    {
        let r = BoostTreasury { roles: AdminRoles::new(admin), manager, campaigns: Registry::new() };
        assert(campaign_map(r@) =~= Map::empty());
        r
    }

    /// The treasury as stored: `None` when a vault is listed twice or a
    /// campaign's accounting is not sound.
    pub fn restore(
        admin: Addr,
        pending_admin: Option<Addr>,
        manager: Addr,
        campaigns: Vec<(Addr, Campaign)>,
    ) -> (r: Option<Self>)
        ensures
            r is Some <==> keys_distinct(campaigns@) && entries_sound(campaigns@),
            r matches Some(t) ==> t.wf() && t@ == (TreasuryModel {
                roles: AdminRoles { admin, pending: pending_admin },
                manager,
                campaigns: campaigns@,
            }),
    {
        let n = campaigns.len();
        let mut i: usize = 0;
        while i < n
            invariant
                n == campaigns@.len(),
                i <= n,
                forall|j: int| 0 <= j < i ==> campaign_sound(#[trigger] campaigns@[j].1),
            decreases n - i,
        {
            if !campaigns[i].1.is_sound() {
                return None;
            }
            i += 1;
        }
        match Registry::from_entries(campaigns) {
            Some(reg) => {
                let t = BoostTreasury { roles: AdminRoles { admin, pending: pending_admin }, manager, campaigns: reg };
                proof { lemma_entries_sound(t@); }
                Some(t)
            },
            None => None,
        }
    }

    /// Every state the treasury reaches, from `new` or a sound `restore`
    /// through any sequence of entrypoints, lists each vault once and keeps
    /// sound accounting: all totals are non-negative and each campaign's
    /// available budget is exactly `deposited - boosted - withdrawn`.
    pub proof fn lemma_reachable_sound(&self)
        requires
            self.wf(),
        ensures
            keys_distinct(self@.campaigns),
            treasury_sound(self@),
            forall|v: Addr| #[trigger] campaign_map(self@).contains_key(v) ==> {
                let c = campaign_map(self@)[v];
                &&& 0 <= c.total_deposited && 0 <= c.total_boosted && 0 <= c.total_withdrawn
                &&& available_spec(c) == c.total_deposited - c.total_boosted - c.total_withdrawn
            },
    {
    }

    pub fn get_admin(&self) -> (r: Addr)
        ensures
            r == self@.roles.admin,
    {
        self.roles.admin
    }

    pub fn get_pending_admin(&self) -> (r: Option<Addr>)
        ensures
            r == self@.roles.pending,
    {
        self.roles.pending
    }

    pub fn get_manager(&self) -> (r: Addr)
        ensures
            r == self@.manager,
    {
        self.manager
    }

    /// How many campaigns are registered.
    pub fn campaign_count(&self) -> (r: usize)
        ensures
            r == self@.campaigns.len(),
    {
        self.campaigns.len()
    }

    /// The `i`-th campaign in registration order, with its vault.
    pub fn campaign_at(&self, i: usize) -> (r: (Addr, Campaign))
        requires
            i < self@.campaigns.len(),
        ensures
            r == self@.campaigns[i as int],
    {
        self.campaigns.entry(i)
    }

    pub fn get_campaign(&self, vault: Addr) -> (r: Result<Campaign, ContractError>)
        requires
            self.wf(),
        ensures
            r == (if campaign_map(self@).contains_key(vault) {
                Ok::<Campaign, ContractError>(campaign_map(self@)[vault])
            } else {
                Err::<Campaign, ContractError>(ContractError::CampaignNotRegistered)
            }),
    {
        match self.campaigns.get(&vault) {
            Some(c) => Ok(c),
            None => Err(ContractError::CampaignNotRegistered),
        }
    }

    /// Rotates the manager key; the admin must authorize this.
    pub fn set_manager(&mut self, new_manager: Addr) -> (r: Step<TreasuryEvent, ContractError>)
        requires
            old(self).wf(),
        ensures
            final(self).wf(),
            final(self)@ == (TreasuryModel { manager: new_manager, ..old(self)@ }),
            r == event_step(
                old(self)@.roles.admin,
                TreasuryEvent::ManagerUpdated(ManagerUpdated { old: old(self)@.manager, new_addr: new_manager }),
            ),
    {
        let previous = self.manager;
        self.manager = new_manager;
        assert(campaign_map(self@) == campaign_map(old(self)@));
        Step {
            signer: Some(self.roles.admin),
            result: Ok(TreasuryEvent::ManagerUpdated(ManagerUpdated { old: previous, new_addr: new_manager })),
        }
    }

    /// Proposes a new admin, overwriting any earlier proposal; the current
    /// admin must authorize this.
    pub fn propose_admin(&mut self, new_admin: Addr) -> (r: Step<TreasuryEvent, ContractError>)
        requires
            old(self).wf(),
        ensures
            final(self).wf(),
            final(self)@ == (TreasuryModel { roles: propose_spec(old(self)@.roles, new_admin), ..old(self)@ }),
            r == event_step(
                old(self)@.roles.admin,
                TreasuryEvent::AdminProposed(AdminProposed { current: old(self)@.roles.admin, pending: new_admin }),
            ),
    {
        let signer = self.roles.admin;
        let ev = self.roles.propose(new_admin);
        assert(campaign_map(self@) == campaign_map(old(self)@));
        Step { signer: Some(signer), result: Ok(TreasuryEvent::AdminProposed(ev)) }
    }

    /// `new_admin`, who must authorize this, takes the admin role if it is
    /// the proposed one.
    pub fn accept_admin(&mut self, new_admin: Addr) -> (r: Step<TreasuryEvent, ContractError>)
        requires
            old(self).wf(),
        ensures
            final(self).wf(),
            final(self)@ == accept_admin_next(old(self)@, new_admin),
            r == accept_admin_step(old(self)@, new_admin),
    {
        let r = self.roles.accept(new_admin);
        assert(campaign_map(self@) == campaign_map(old(self)@));
        match r {
            Ok(ev) => Step { signer: Some(new_admin), result: Ok(TreasuryEvent::AdminUpdated(ev)) },
            Err(RotationError::NoPendingAdmin) => Step { signer: Some(new_admin), result: Err(ContractError::NoPendingAdmin) },
            Err(RotationError::Unauthorized) => Step { signer: Some(new_admin), result: Err(ContractError::Unauthorized) },
        }
    }

    /// First half of registering a campaign for `vault` (admin only): when
    /// it succeeds, the vault's assets are to be read and handed, with the
    /// asset the admin expects, to `complete_registration`.
    pub fn register_campaign(&self, vault: Addr) -> (r: Step<(), ContractError>)
        requires
            self.wf(),
        ensures
            r == register_campaign_step(self@, vault),
    {
        if self.campaigns.contains(&vault) {
            Step { signer: Some(self.roles.admin), result: Err(ContractError::CampaignAlreadyRegistered) }
        } else {
            Step { signer: Some(self.roles.admin), result: Ok(()) }
        }
    }

    /// Second half of registering, given the assets the vault reports: it
    /// must report exactly one, equal to `asset`, and the campaign starts
    /// active and empty in that asset.
    pub fn complete_registration(&mut self, vault: Addr, asset: Addr, assets: &Vec<Addr>) -> (r: Result<TreasuryEvent, ContractError>)
        requires
            old(self).wf(),
            !campaign_map(old(self)@).contains_key(vault),
        ensures
            final(self).wf(),
            final(self)@ == complete_registration_next(old(self)@, vault, asset, assets@),
            r == complete_registration_result(vault, asset, assets@),
            treasury_sound(old(self)@) ==> treasury_sound(final(self)@),
    {
        if assets.len() != 1 {
            return Err(ContractError::MultiAssetVaultNotSupported);
        }
        if assets[0] != asset {
            return Err(ContractError::AssetMismatch);
        }
        let c = Campaign {
            active: true,
            asset,
            total_deposited: 0,
            total_boosted: 0,
            total_withdrawn: 0,
            last_boosted_at: 0,
        };
        self.campaigns.insert_new(vault, c);
        Ok(TreasuryEvent::CampaignRegistered(CampaignRegistered { vault, asset }))
    }

    /// Turns the campaign on or off (admin only).
    pub fn update_campaign(&mut self, vault: Addr, active: bool) -> (r: Step<TreasuryEvent, ContractError>)
        requires
            old(self).wf(),
        ensures
            final(self).wf(),
            final(self)@ == update_campaign_next(old(self)@, vault, active),
            r == update_campaign_step(old(self)@, vault, active),
            treasury_sound(old(self)@) ==> treasury_sound(final(self)@),
    {
        match self.campaigns.get(&vault) {
            None => Step { signer: Some(self.roles.admin), result: Err(ContractError::CampaignNotRegistered) },
            Some(c) => {
                self.campaigns.update(&vault, Campaign { active, ..c });
                Step {
                    signer: Some(self.roles.admin),
                    result: Ok(TreasuryEvent::CampaignUpdated(CampaignUpdated { vault, active })),
                }
            },
        }
    }

    /// Removes a campaign whose budget is used up (admin only).
    pub fn unregister_campaign(&mut self, vault: Addr) -> (r: Step<TreasuryEvent, ContractError>)
        requires
            old(self).wf(),
        ensures
            final(self).wf(),
            final(self)@ == unregister_campaign_next(old(self)@, vault),
            r == unregister_campaign_step(old(self)@, vault),
            treasury_sound(old(self)@) ==> treasury_sound(final(self)@),
    {
        match self.campaigns.get(&vault) {
            None => Step { signer: Some(self.roles.admin), result: Err(ContractError::CampaignNotRegistered) },
            Some(c) => {
                if c.available() != 0 {
                    return Step { signer: Some(self.roles.admin), result: Err(ContractError::CampaignHasBalance) };
                }
                self.campaigns.remove(&vault);
                Step {
                    signer: Some(self.roles.admin),
                    result: Ok(TreasuryEvent::CampaignUnregistered(CampaignUnregistered { vault })),
                }
            },
        }
    }

    /// Anyone (`caller`, who must authorize this) adds `amount` to an active
    /// campaign; the tokens move from `caller` to `treasury`, the treasury's
    /// own address.
    pub fn deposit(&mut self, caller: Addr, vault: Addr, amount: i128, treasury: Addr) -> (r: Step<Payment, ContractError>)
        requires
            old(self).wf(),
        ensures
            final(self).wf(),
            final(self)@ == deposit_next(old(self)@, caller, vault, amount, treasury),
            r == deposit_step(old(self)@, caller, vault, amount, treasury),
            treasury_sound(old(self)@) ==> treasury_sound(final(self)@),
    {
        if amount <= 0 {
            return Step { signer: Some(caller), result: Err(ContractError::InvalidAmount) };
        }
        let c = match self.campaigns.get(&vault) {
            None => return Step { signer: Some(caller), result: Err(ContractError::CampaignNotRegistered) },
            Some(c) => c,
        };
        if !c.active {
            return Step { signer: Some(caller), result: Err(ContractError::CampaignInactive) };
        }
        let transfer = TokenTransfer { token: c.asset, from: caller, to: treasury, amount };
        let settled = match c.total_deposited.checked_add(amount) {
            None => Err(ContractError::Overflow),
            Some(d) => {
                self.campaigns.update(&vault, Campaign { total_deposited: d, ..c });
                Ok(TreasuryEvent::Deposited(Deposited { vault, depositor: caller, amount }))
            },
        };
        Step { signer: Some(caller), result: Ok(Payment { transfer, settled }) }
    }

    /// The manager (who must authorize this) streams `amount` of an active
    /// campaign's budget into the vault, stamping the boost with `now`, the
    /// ledger time.
    pub fn boost(&mut self, vault: Addr, amount: i128, now: u64, treasury: Addr) -> (r: Step<Payment, ContractError>)
        requires
            old(self).wf(),
        ensures
            final(self).wf(),
            final(self)@ == boost_next(old(self)@, vault, amount, now, treasury),
            r == boost_step(old(self)@, vault, amount, treasury),
            treasury_sound(old(self)@) ==> treasury_sound(final(self)@),
    {
        let signer = Some(self.manager);
        if amount <= 0 {
            return Step { signer, result: Err(ContractError::InvalidAmount) };
        }
        let c = match self.campaigns.get(&vault) {
            None => return Step { signer, result: Err(ContractError::CampaignNotRegistered) },
            Some(c) => c,
        };
        if !c.active {
            return Step { signer, result: Err(ContractError::CampaignInactive) };
        }
        if amount > c.available() {
            return Step { signer, result: Err(ContractError::InsufficientBudget) };
        }
        let transfer = TokenTransfer { token: c.asset, from: treasury, to: vault, amount };
        let settled = match c.total_boosted.checked_add(amount) {
            None => Err(ContractError::Overflow),
            Some(b) => {
                self.campaigns.update(&vault, Campaign { total_boosted: b, last_boosted_at: now, ..c });
                Ok(TreasuryEvent::Boosted(Boosted { vault, amount }))
            },
        };
        Step { signer, result: Ok(Payment { transfer, settled }) }
    }

    /// The admin (who must authorize this) sends `amount` of a campaign's
    /// budget to `to`, whether or not the campaign is active.
    pub fn transfer(&mut self, vault: Addr, amount: i128, to: Addr, treasury: Addr) -> (r: Step<Payment, ContractError>)
        requires
            old(self).wf(),
        ensures
            final(self).wf(),
            final(self)@ == transfer_next(old(self)@, vault, amount, to, treasury),
            r == transfer_step(old(self)@, vault, amount, to, treasury),
            treasury_sound(old(self)@) ==> treasury_sound(final(self)@),
    {
        let signer = Some(self.roles.admin);
        if amount <= 0 {
            return Step { signer, result: Err(ContractError::InvalidAmount) };
        }
        let c = match self.campaigns.get(&vault) {
            None => return Step { signer, result: Err(ContractError::CampaignNotRegistered) },
            Some(c) => c,
        };
        if amount > c.available() {
            return Step { signer, result: Err(ContractError::InsufficientBudget) };
        }
        let transfer = TokenTransfer { token: c.asset, from: treasury, to, amount };
        let settled = match c.total_withdrawn.checked_add(amount) {
            None => Err(ContractError::Overflow),
            Some(w) => {
                self.campaigns.update(&vault, Campaign { total_withdrawn: w, ..c });
                Ok(TreasuryEvent::Transferred(Transferred { vault, to, amount }))
            },
        };
        Step { signer, result: Ok(Payment { transfer, settled }) }
    }

    /// The admin (who must authorize this) moves `amount` of budget from one
    /// campaign to another in the same asset, active or not; the tokens stay
    /// in the treasury.
    pub fn reallocate(&mut self, from_vault: Addr, to_vault: Addr, amount: i128) -> (r: Step<TreasuryEvent, ContractError>)
        requires
            old(self).wf(),
        ensures
            final(self).wf(),
            final(self)@ == reallocate_next(old(self)@, from_vault, to_vault, amount),
            r == reallocate_step(old(self)@, from_vault, to_vault, amount),
    {
        let signer = Some(self.roles.admin);
        if amount <= 0 {
            return Step { signer, result: Err(ContractError::InvalidAmount) };
        }
        if from_vault == to_vault {
            return Step { signer, result: Err(ContractError::SameVault) };
        }
        let src = match self.campaigns.get(&from_vault) {
            None => return Step { signer, result: Err(ContractError::CampaignNotRegistered) },
            Some(c) => c,
        };
        let dst = match self.campaigns.get(&to_vault) {
            None => return Step { signer, result: Err(ContractError::CampaignNotRegistered) },
            Some(c) => c,
        };
        if src.asset != dst.asset {
            return Step { signer, result: Err(ContractError::AssetMismatch) };
        }
        if amount > src.available() {
            return Step { signer, result: Err(ContractError::InsufficientBudget) };
        }
        let w = match src.total_withdrawn.checked_add(amount) {
            None => return Step { signer, result: Err(ContractError::Overflow) },
            Some(w) => w,
        };
        let d = match dst.total_deposited.checked_add(amount) {
            None => return Step { signer, result: Err(ContractError::Overflow) },
            Some(d) => d,
        };
        let ghost m0 = self@;
        let src2 = Campaign { total_withdrawn: w, ..src };
        let dst2 = Campaign { total_deposited: d, ..dst };
        self.campaigns.update(&from_vault, src2);
        let ghost m1 = self@;
        proof { lemma_with_campaign_model(m0, from_vault, src2); }
        self.campaigns.update(&to_vault, dst2);
        proof {
            lemma_with_campaign_model(m1, to_vault, dst2);
            assert(self@ == with_campaign(m1, to_vault, dst2));
            assert(treasury_sound(self@)) by {
                assert forall|v: Addr| #[trigger] campaign_map(self@).contains_key(v) implies campaign_sound(
                    campaign_map(self@)[v],
                ) by {
                    if v != from_vault && v != to_vault {
                        assert(campaign_map(m0).contains_key(v));
                    }
                }
            }
        }
        Step { signer, result: Ok(TreasuryEvent::Reallocated(Reallocated { from_vault, to_vault, amount })) }
    }

    /// The budget every campaign in `token` still accounts for, added up in
    /// campaign order; `None` when the total leaves the `i128` range.
    pub fn tracked_balance(&self, token: Addr) -> (r: Option<i128>)
        ensures
            r == tracked_from(self@.campaigns, token),
    {
        let n = self.campaigns.len();
        let mut attributed: i128 = 0;
        let mut i: usize = 0;
        while i < n
            invariant
                n == self@.campaigns.len(),
                i <= n,
                tracked_from(self@.campaigns.take(i as int), token) == Some(attributed),
            decreases n - i,
        {
            let (_, c) = self.campaigns.entry(i);
            assert(self@.campaigns.take(i + 1).drop_last() == self@.campaigns.take(i as int));
            if c.asset == token {
                match attributed.checked_add(c.available()) {
                    Some(t) => attributed = t,
                    None => {
                        proof { lemma_tracked_none_extends(self@.campaigns, token, (i + 1) as int); }
                        return None;
                    },
                }
            }
            i += 1;
        }
        assert(self@.campaigns.take(n as int) == self@.campaigns);
        Some(attributed)
    }

    /// First half of sweeping tokens that no campaign accounts for (admin
    /// only): when it succeeds, the treasury's balance of the token is to be
    /// read and handed to `complete_orphan_rescue`.
    pub fn rescue_orphan(&self, amount: i128) -> (r: Step<(), ContractError>)
        ensures
            r == rescue_orphan_step(self@, amount),
    {
        if amount <= 0 {
            Step { signer: Some(self.roles.admin), result: Err(ContractError::InvalidAmount) }
        } else {
            Step { signer: Some(self.roles.admin), result: Ok(()) }
        }
    }

    /// Second half of the sweep, given the treasury's `balance` of `token`.
    pub fn complete_orphan_rescue(
        &self,
        token: Addr,
        to: Addr,
        amount: i128,
        balance: i128,
        treasury: Addr,
    ) -> (r: Result<(TokenTransfer, TreasuryEvent), ContractError>)
        ensures
            r == complete_orphan_rescue_result(self@, token, to, amount, balance, treasury),
    {
        let attributed = match self.tracked_balance(token) {
            None => return Err(ContractError::Overflow),
            Some(t) => t,
        };
        proof { lemma_tracked_nonnegative(self@.campaigns, token); }
        if balance < attributed {
            return Err(ContractError::AccountingCorrupted);
        }
        let orphan = balance - attributed;
        if amount > orphan {
            return Err(ContractError::InsufficientOrphanBalance);
        }
        Ok((
            TokenTransfer { token, from: treasury, to, amount },
            TreasuryEvent::OrphanRescued(OrphanRescued { token, to, amount }),
        ))
    }
}

/// Replacing one campaign leaves every other vault's campaign as it was.
pub proof fn lemma_with_campaign_model(m: TreasuryModel, vault: Addr, c: Campaign)
    requires
        keys_distinct(m.campaigns),
        campaign_map(m).contains_key(vault),
    ensures
        keys_distinct(with_campaign(m, vault, c).campaigns),
        campaign_map(with_campaign(m, vault, c)) == campaign_map(m).insert(vault, c),
{
    let i = key_index(m.campaigns, vault);
    assert(m.campaigns[i].0 == vault);
    crate::registry::lemma_map_update(m.campaigns, i, c);
}

pub proof fn lemma_entries_sound(m: TreasuryModel)
    requires
        keys_distinct(m.campaigns),
        entries_sound(m.campaigns),
    ensures
        treasury_sound(m),
{
    assert forall|v: Addr| #[trigger] campaign_map(m).contains_key(v) implies campaign_sound(campaign_map(m)[v]) by {
        let i = key_index(m.campaigns, v);
        assert(campaign_sound(m.campaigns[i].1));
    }
}

/// The running total is never negative, since no available budget is.
pub proof fn lemma_tracked_nonnegative(s: Seq<(Addr, Campaign)>, token: Addr)
    ensures
        tracked_from(s, token) matches Some(t) ==> t >= 0,
    decreases s.len(),
{
    if s.len() > 0 {
        lemma_tracked_nonnegative(s.drop_last(), token);
    }
}

/// Once a partial total overflows, so does every longer one.
pub proof fn lemma_tracked_none_extends(s: Seq<(Addr, Campaign)>, token: Addr, k: int)
    requires
        0 <= k <= s.len(),
        tracked_from(s.take(k), token) is None,
    ensures
        tracked_from(s, token) is None,
    decreases s.len() - k,
{
    if k < s.len() {
        assert(s.take(k + 1).drop_last() == s.take(k));
        lemma_tracked_none_extends(s, token, k + 1);
    } else {
        assert(s.take(k) == s);
    }
}

} // verus!
