//! What the fee proxy keeps true across its entrypoints.
use vstd::prelude::*;
use crate::address::Addr;
use crate::fee_proxy::{
    pause_vault_strategy_step, rescue_vault_step, set_vault_emergency_manager_step,
    set_vault_fee_receiver_step, set_vault_rebalance_manager_step, unpause_vault_strategy_step,
    upgrade_vault_step, FeeProxyEvent, FeesDistributed, FeesLocked, FeesReleased, VaultRegistered,
    configs_valid, distribute_fees_step, fee_bounds_valid, lock_fees_step,
    passthrough_spec, register_vault_next, release_fees_step, register_vault_step, remove_vault_next, set_fee_bounds_next,
    set_fee_bounds_step, set_target_apy_next, set_vault_manager_next, set_vault_manager_step,
    unregister_vault_step, ContractError, Effect, ProxyModel, VaultCall, VaultConfig,
};

verus! {

/// A fee locked through the proxy always lies within the bounds the vault's
/// admin configured, and a fee outside them is refused as out of bounds
/// once the caller has passed the lane check.
pub proof fn law_locked_fee_within_bounds(m: ProxyModel, caller: Addr, vault: Addr, fee: u32)
    ensures
        lock_fees_step(m, caller, vault, Some(fee)).result is Ok ==> {
            &&& m.vaults.contains_key(vault)
            &&& m.vaults[vault].min_fee_bps <= fee <= m.vaults[vault].max_fee_bps
        },
        (caller == m.fee_manager || (m.vaults.contains_key(vault) && caller == m.vaults[vault].admin))
            && m.vaults.contains_key(vault) && (fee < m.vaults[vault].min_fee_bps || fee
            > m.vaults[vault].max_fee_bps) ==> lock_fees_step(m, caller, vault, Some(fee)).result == Err::<
            Effect,
            ContractError,
        >(ContractError::FeeOutOfBounds),
{
}

/// Locking with no new fee re-locks the current one: once the caller is in
/// the fee lane and the vault is registered, it is passed to the vault
/// without any bounds check and without an event.
pub proof fn law_relock_passes_through(m: ProxyModel, caller: Addr, vault: Addr)
    requires
        caller == m.fee_manager || (m.vaults.contains_key(vault) && caller == m.vaults[vault].admin),
        m.vaults.contains_key(vault),
    ensures
        lock_fees_step(m, caller, vault, None) == (crate::step::Step::<Effect, ContractError> {
            signer: Some(caller),
            result: Ok(Effect { call: Some(VaultCall::LockFees { new_fee_bps: None }), event: None }),
        }),
{
}

/// The fee lane: locking or distributing fees goes through only on a
/// registered vault and only for the fee manager or the vault's own admin,
/// and that caller is the one who must authorize it. An unregistered vault
/// or any other caller is refused before anyone is asked to sign.
pub proof fn law_fee_lane(m: ProxyModel, caller: Addr, vault: Addr, fee: Option<u32>, proxy: Addr)
    ensures
        lock_fees_step(m, caller, vault, fee).result is Ok ==> {
            &&& lock_fees_step(m, caller, vault, fee).signer == Some(caller)
            &&& m.vaults.contains_key(vault)
            &&& (caller == m.fee_manager || caller == m.vaults[vault].admin)
        },
        distribute_fees_step(m, caller, vault, proxy).result is Ok ==> {
            &&& distribute_fees_step(m, caller, vault, proxy).signer == Some(caller)
            &&& m.vaults.contains_key(vault)
            &&& (caller == m.fee_manager || caller == m.vaults[vault].admin)
        },
        !m.vaults.contains_key(vault) ==> {
            &&& lock_fees_step(m, caller, vault, fee) == (crate::step::Step::<Effect, ContractError> {
                signer: None,
                result: Err(ContractError::VaultNotRegistered),
            })
            &&& distribute_fees_step(m, caller, vault, proxy) == (crate::step::Step::<Effect, ContractError> {
                signer: None,
                result: Err(ContractError::VaultNotRegistered),
            })
        },
        caller != m.fee_manager && m.vaults.contains_key(vault) && caller != m.vaults[vault].admin ==> {
            &&& lock_fees_step(m, caller, vault, fee) == crate::step::Step::<Effect, ContractError> {
                signer: None,
                result: Err(ContractError::Unauthorized),
            }
            &&& distribute_fees_step(m, caller, vault, proxy) == crate::step::Step::<Effect, ContractError> {
                signer: None,
                result: Err(ContractError::Unauthorized),
            }
        },
{
}

/// The admin lane: every passthrough, configuration change and hand-back
/// of the Manager role on a vault requires the authorization of that
/// vault's admin, and fails as unregistered for an unknown vault.
pub proof fn law_admin_lane(m: ProxyModel, vault: Addr, call: VaultCall, new_manager: Addr, proxy: Addr, min: u32, max: u32)
    ensures
        m.vaults.contains_key(vault) ==> {
            &&& passthrough_spec(m, vault, call).signer == Some(m.vaults[vault].admin)
            &&& unregister_vault_step(m, vault).signer == Some(m.vaults[vault].admin)
            &&& set_vault_manager_step(m, vault, new_manager, proxy).signer == Some(m.vaults[vault].admin)
            &&& set_fee_bounds_step(m, vault, min, max).signer == Some(m.vaults[vault].admin)
        },
        !m.vaults.contains_key(vault) ==> {
            &&& passthrough_spec(m, vault, call).result == Err::<Effect, ContractError>(
                ContractError::VaultNotRegistered,
            )
            &&& unregister_vault_step(m, vault).result == Err::<Effect, ContractError>(
                ContractError::VaultNotRegistered,
            )
            &&& set_vault_manager_step(m, vault, new_manager, proxy).result == Err::<Effect, ContractError>(
                ContractError::VaultNotRegistered,
            )
            &&& set_fee_bounds_step(m, vault, min, max).result == Err::<Effect, ContractError>(
                ContractError::VaultNotRegistered,
            )
        },
{
}

/// Fees are released only by the vault's admin and only for a positive
/// amount: anything else never reaches the vault.
pub proof fn law_release_needs_positive_amount(m: ProxyModel, vault: Addr, strategy: Addr, amount: i128)
    ensures
        release_fees_step(m, vault, strategy, amount).result is Ok ==> {
            &&& amount > 0
            &&& m.vaults.contains_key(vault)
            &&& release_fees_step(m, vault, strategy, amount).signer == Some(m.vaults[vault].admin)
        },
        m.vaults.contains_key(vault) && amount <= 0 ==> release_fees_step(m, vault, strategy, amount).result
            == Err::<Effect, ContractError>(ContractError::InvalidAmount),
{
}

/// Registration must be signed by the admin it configures: any other
/// signer is refused as a mismatch, before anything else is checked, and
/// the proxy is left unchanged.
pub proof fn law_register_needs_configured_admin(m: ProxyModel, admin: Addr, vault: Addr, config: VaultConfig, proxy: Addr)
    ensures
        admin != config.admin ==> register_vault_step(m, admin, vault, config, proxy) == (crate::step::Step::<
            Effect,
            ContractError,
        > { signer: Some(admin), result: Err(ContractError::AdminMismatch) }),
        admin != config.admin ==> register_vault_next(m, admin, vault, config) == m,
        register_vault_step(m, admin, vault, config, proxy).result is Ok ==> admin == config.admin,
{
}

/// Registering hands the vault's Manager role to the proxy and stores the
/// configuration; unregistering it right after hands the role back to the
/// configured admin, with that admin's authorization, and leaves the
/// proxy's vaults as they were before.
pub proof fn law_register_unregister_round_trip(m: ProxyModel, admin: Addr, vault: Addr, config: VaultConfig, proxy: Addr)
    requires
        admin == config.admin,
        !m.vaults.contains_key(vault),
        fee_bounds_valid(config.min_fee_bps, config.max_fee_bps),
    ensures
        ({
            let n = register_vault_next(m, config.admin, vault, config);
            &&& register_vault_step(m, admin, vault, config, proxy).result matches Ok(e) && e.call == Some(
                VaultCall::SetManager { new_manager: proxy },
            )
            &&& n.vaults.contains_key(vault) && n.vaults[vault] == config
            &&& unregister_vault_step(n, vault).signer == Some(config.admin)
            &&& unregister_vault_step(n, vault).result matches Ok(e) && e.call == Some(
                VaultCall::SetManager { new_manager: config.admin },
            )
            &&& remove_vault_next(n, vault).vaults == m.vaults
        }),
{
    let n = register_vault_next(m, config.admin, vault, config);
    assert(n.vaults.remove(vault) =~= m.vaults);
}

/// Vault isolation: whatever the proxy does on one vault leaves every other
/// vault's configuration as it was.
pub proof fn law_vault_isolation(
    m: ProxyModel,
    vault: Addr,
    other: Addr,
    config: VaultConfig,
    target_apy_bps: u32,
    min: u32,
    max: u32,
    new_manager: Addr,
    proxy: Addr,
)
    requires
        other != vault,
    ensures
        register_vault_next(m, config.admin, vault, config).vaults.contains_key(other) == m.vaults.contains_key(other),
        register_vault_next(m, config.admin, vault, config).vaults[other] == m.vaults[other],
        remove_vault_next(m, vault).vaults.contains_key(other) == m.vaults.contains_key(other),
        remove_vault_next(m, vault).vaults[other] == m.vaults[other],
        set_target_apy_next(m, vault, target_apy_bps).vaults.contains_key(other) == m.vaults.contains_key(other),
        set_target_apy_next(m, vault, target_apy_bps).vaults[other] == m.vaults[other],
        set_fee_bounds_next(m, vault, min, max).vaults.contains_key(other) == m.vaults.contains_key(other),
        set_fee_bounds_next(m, vault, min, max).vaults[other] == m.vaults[other],
        set_vault_manager_next(m, vault, new_manager, proxy).vaults.contains_key(other) == m.vaults.contains_key(
            other,
        ),
        set_vault_manager_next(m, vault, new_manager, proxy).vaults[other] == m.vaults[other],
{
}

/// Handing the Manager role to anyone but the proxy makes the proxy forget
/// the vault, so every later admin-lane call on it is refused; handing it
/// to the proxy itself keeps the configuration.
pub proof fn law_eviction(m: ProxyModel, vault: Addr, new_manager: Addr, proxy: Addr, call: VaultCall)
    requires
        m.vaults.contains_key(vault),
    ensures
        new_manager != proxy ==> {
            &&& !set_vault_manager_next(m, vault, new_manager, proxy).vaults.contains_key(vault)
            &&& passthrough_spec(set_vault_manager_next(m, vault, new_manager, proxy), vault, call).result
                == Err::<Effect, ContractError>(ContractError::VaultNotRegistered)
        },
        new_manager == proxy ==> set_vault_manager_next(m, vault, new_manager, proxy) == m,
{
}

/// Every entrypoint that stores a configuration keeps the fee bounds valid:
/// only bounds with `min <= max <= 10_000` are ever accepted.
pub proof fn law_bounds_stay_valid(
    m: ProxyModel,
    vault: Addr,
    config: VaultConfig,
    target_apy_bps: u32,
    min: u32,
    max: u32,
    new_manager: Addr,
    proxy: Addr,
)
    requires
        configs_valid(m),
    ensures
        configs_valid(register_vault_next(m, config.admin, vault, config)),
        configs_valid(remove_vault_next(m, vault)),
        configs_valid(set_target_apy_next(m, vault, target_apy_bps)),
        configs_valid(set_fee_bounds_next(m, vault, min, max)),
        configs_valid(set_vault_manager_next(m, vault, new_manager, proxy)),
        set_fee_bounds_step(m, vault, min, max).result is Ok ==> fee_bounds_valid(min, max),
        register_vault_step(m, config.admin, vault, config, proxy).result is Ok ==> fee_bounds_valid(
            config.min_fee_bps,
            config.max_fee_bps,
        ),
{
    assert forall|v: Addr| #[trigger] register_vault_next(m, config.admin, vault, config).vaults.contains_key(v) implies fee_bounds_valid(
        register_vault_next(m, config.admin, vault, config).vaults[v].min_fee_bps,
        register_vault_next(m, config.admin, vault, config).vaults[v].max_fee_bps,
    ) by {
        if v != vault {
            assert(m.vaults.contains_key(v));
        }
    }
    assert forall|v: Addr| #[trigger] set_target_apy_next(m, vault, target_apy_bps).vaults.contains_key(v) implies fee_bounds_valid(
        set_target_apy_next(m, vault, target_apy_bps).vaults[v].min_fee_bps,
        set_target_apy_next(m, vault, target_apy_bps).vaults[v].max_fee_bps,
    ) by {
        assert(m.vaults.contains_key(v));
    }
    assert forall|v: Addr| #[trigger] set_fee_bounds_next(m, vault, min, max).vaults.contains_key(v) implies fee_bounds_valid(
        set_fee_bounds_next(m, vault, min, max).vaults[v].min_fee_bps,
        set_fee_bounds_next(m, vault, min, max).vaults[v].max_fee_bps,
    ) by {
        assert(m.vaults.contains_key(v));
    }
    assert forall|v: Addr| #[trigger] remove_vault_next(m, vault).vaults.contains_key(v) implies fee_bounds_valid(
        remove_vault_next(m, vault).vaults[v].min_fee_bps,
        remove_vault_next(m, vault).vaults[v].max_fee_bps,
    ) by {
        assert(m.vaults.contains_key(v));
    }
}

/// Anyone in the fee lane of a registered vault, the fee manager or that
/// vault's own admin alike, may distribute its fees: the caller signs, the
/// vault is asked to distribute with the proxy as its caller, and the
/// distribution is published for that vault.
pub proof fn law_distribute_fees_for_fee_lane(m: ProxyModel, caller: Addr, vault: Addr, proxy: Addr)
    requires
        m.vaults.contains_key(vault),
        caller == m.fee_manager || caller == m.vaults[vault].admin,
    ensures
        distribute_fees_step(m, caller, vault, proxy) == (crate::step::Step::<Effect, ContractError> {
            signer: Some(caller),
            result: Ok(Effect {
                call: Some(VaultCall::DistributeFees { caller: proxy }),
                event: Some(FeeProxyEvent::FeesDistributed(FeesDistributed { vault })),
            }),
        }),
{
}

/// Anyone in the fee lane of a registered vault may lock a new fee within
/// the vault's bounds: the caller signs, the vault is asked to lock exactly
/// that fee, and the new fee is published. A fee outside the bounds is
/// refused, still with the caller as signer, and nothing reaches the vault.
pub proof fn law_lock_fee_for_fee_lane(m: ProxyModel, caller: Addr, vault: Addr, fee: u32)
    requires
        m.vaults.contains_key(vault),
        caller == m.fee_manager || caller == m.vaults[vault].admin,
    ensures
        m.vaults[vault].min_fee_bps <= fee <= m.vaults[vault].max_fee_bps ==> lock_fees_step(m, caller, vault, Some(fee))
            == (crate::step::Step::<Effect, ContractError> {
            signer: Some(caller),
            result: Ok(Effect {
                call: Some(VaultCall::LockFees { new_fee_bps: Some(fee) }),
                event: Some(FeeProxyEvent::FeesLocked(FeesLocked { vault, fee_bps: fee })),
            }),
        }),
        !(m.vaults[vault].min_fee_bps <= fee <= m.vaults[vault].max_fee_bps) ==> lock_fees_step(m, caller, vault, Some(fee))
            == (crate::step::Step::<Effect, ContractError> {
            signer: Some(caller),
            result: Err(ContractError::FeeOutOfBounds),
        }),
        lock_fees_step(m, caller, vault, Some(fee)).result matches Ok(e) ==> e.call == Some(
            VaultCall::LockFees { new_fee_bps: Some(fee) },
        ),
{
}

/// Releasing fees for a registered vault and a positive amount asks the
/// vault, with its admin's authorization, to release exactly that amount
/// for that strategy, and publishes the release.
pub proof fn law_release_fees_exact(m: ProxyModel, vault: Addr, strategy: Addr, amount: i128)
    requires
        m.vaults.contains_key(vault),
        amount > 0,
    ensures
        release_fees_step(m, vault, strategy, amount) == (crate::step::Step::<Effect, ContractError> {
            signer: Some(m.vaults[vault].admin),
            result: Ok(Effect {
                call: Some(VaultCall::ReleaseFees { strategy, amount }),
                event: Some(FeeProxyEvent::FeesReleased(FeesReleased { vault, strategy, amount })),
            }),
        }),
{
}

/// Each passthrough on a registered vault makes exactly its own call on the
/// vault, with the arguments it was given (the proxy standing as caller
/// where the vault asks for one), under the vault admin's authorization and
/// with no event; on an unknown vault each is refused before anyone signs.
pub proof fn law_passthroughs_exact(
    m: ProxyModel,
    vault: Addr,
    hash: [u8; 32],
    who: Addr,
    strategy: Addr,
    proxy: Addr,
)
    ensures
        m.vaults.contains_key(vault) ==> {
            let ok = |call: VaultCall| (crate::step::Step::<Effect, ContractError> {
                signer: Some(m.vaults[vault].admin),
                result: Ok(Effect { call: Some(call), event: None }),
            });
            &&& upgrade_vault_step(m, vault, hash) == ok(VaultCall::Upgrade { new_wasm_hash: hash })
            &&& set_vault_fee_receiver_step(m, vault, who, proxy) == ok(
                VaultCall::SetFeeReceiver { caller: proxy, new_fee_receiver: who },
            )
            &&& set_vault_emergency_manager_step(m, vault, who) == ok(
                VaultCall::SetEmergencyManager { emergency_manager: who },
            )
            &&& set_vault_rebalance_manager_step(m, vault, who) == ok(
                VaultCall::SetRebalanceManager { rebalance_manager: who },
            )
            &&& rescue_vault_step(m, vault, strategy, proxy) == ok(VaultCall::Rescue { strategy, caller: proxy })
            &&& pause_vault_strategy_step(m, vault, strategy, proxy) == ok(
                VaultCall::PauseStrategy { strategy, caller: proxy },
            )
            &&& unpause_vault_strategy_step(m, vault, strategy, proxy) == ok(
                VaultCall::UnpauseStrategy { strategy, caller: proxy },
            )
        },
        !m.vaults.contains_key(vault) ==> {
            let refused = (crate::step::Step::<Effect, ContractError> {
                signer: None,
                result: Err(ContractError::VaultNotRegistered),
            });
            &&& upgrade_vault_step(m, vault, hash) == refused
            &&& set_vault_fee_receiver_step(m, vault, who, proxy) == refused
            &&& set_vault_emergency_manager_step(m, vault, who) == refused
            &&& set_vault_rebalance_manager_step(m, vault, who) == refused
            &&& rescue_vault_step(m, vault, strategy, proxy) == refused
            &&& pause_vault_strategy_step(m, vault, strategy, proxy) == refused
            &&& unpause_vault_strategy_step(m, vault, strategy, proxy) == refused
        },
{
}

/// Registration succeeds exactly when the signer is the configured admin,
/// the vault is new and the fee bounds are valid; it then asks the vault to
/// make the proxy its Manager, publishes the registration, and stores the
/// configuration under the vault, leaving every other vault as it was.
pub proof fn law_register_vault_exact(m: ProxyModel, admin: Addr, vault: Addr, config: VaultConfig, proxy: Addr)
    ensures
        (register_vault_step(m, admin, vault, config, proxy).result is Ok) == (admin == config.admin
            && !m.vaults.contains_key(vault) && fee_bounds_valid(config.min_fee_bps, config.max_fee_bps)),
        register_vault_step(m, admin, vault, config, proxy).signer == Some(admin),
        register_vault_step(m, admin, vault, config, proxy).result is Ok ==> {
            &&& register_vault_step(m, admin, vault, config, proxy).result == Ok::<Effect, ContractError>(
                Effect {
                    call: Some(VaultCall::SetManager { new_manager: proxy }),
                    event: Some(FeeProxyEvent::VaultRegistered(VaultRegistered {
                        vault,
                        admin: config.admin,
                        target_apy_bps: config.target_apy_bps,
                    })),
                },
            )
            &&& register_vault_next(m, admin, vault, config).vaults == m.vaults.insert(vault, config)
            &&& register_vault_next(m, admin, vault, config).fee_manager == m.fee_manager
            &&& register_vault_next(m, admin, vault, config).roles == m.roles
        },
        !(register_vault_step(m, admin, vault, config, proxy).result is Ok) ==> register_vault_next(
            m,
            admin,
            vault,
            config,
        ) == m,
        admin == config.admin && m.vaults.contains_key(vault) ==> register_vault_step(m, admin, vault, config, proxy).result
            == Err::<Effect, ContractError>(ContractError::VaultAlreadyRegistered),
        admin == config.admin && !m.vaults.contains_key(vault) && !fee_bounds_valid(config.min_fee_bps, config.max_fee_bps)
            ==> register_vault_step(m, admin, vault, config, proxy).result == Err::<Effect, ContractError>(
            ContractError::InvalidFeeBounds,
        ),
{
}

/// Changing the target APY or the fee bounds of a registered vault changes
/// only those fields of its configuration, publishes the new configuration,
/// and makes no call on the vault; bounds that are not valid are refused
/// and change nothing.
pub proof fn law_config_updates_exact(m: ProxyModel, vault: Addr, target_apy_bps: u32, min: u32, max: u32)
    requires
        m.vaults.contains_key(vault),
    ensures
        ({
            let c = m.vaults[vault];
            let n = set_target_apy_next(m, vault, target_apy_bps);
            &&& crate::fee_proxy::set_target_apy_step(m, vault, target_apy_bps).signer == Some(c.admin)
            &&& crate::fee_proxy::set_target_apy_step(m, vault, target_apy_bps).result matches Ok(e) && e.call
                is None && e.event == Some(FeeProxyEvent::ConfigUpdated(crate::fee_proxy::ConfigUpdated {
                vault,
                target_apy_bps,
                max_fee_bps: c.max_fee_bps,
                min_fee_bps: c.min_fee_bps,
            }))
            &&& n.vaults[vault].target_apy_bps == target_apy_bps
            &&& n.vaults[vault].admin == c.admin
            &&& n.vaults[vault].min_fee_bps == c.min_fee_bps
            &&& n.vaults[vault].max_fee_bps == c.max_fee_bps
            &&& n.vaults.dom() == m.vaults.dom()
            &&& n.fee_manager == m.fee_manager && n.roles == m.roles
        }),
        fee_bounds_valid(min, max) ==> ({
            let c = m.vaults[vault];
            let n = set_fee_bounds_next(m, vault, min, max);
            &&& set_fee_bounds_step(m, vault, min, max).result matches Ok(e) && e.call is None && e.event
                == Some(FeeProxyEvent::ConfigUpdated(crate::fee_proxy::ConfigUpdated {
                vault,
                target_apy_bps: c.target_apy_bps,
                max_fee_bps: max,
                min_fee_bps: min,
            }))
            &&& n.vaults[vault].min_fee_bps == min && n.vaults[vault].max_fee_bps == max
            &&& n.vaults[vault].admin == c.admin
            &&& n.vaults[vault].target_apy_bps == c.target_apy_bps
            &&& n.vaults.dom() == m.vaults.dom()
            &&& n.fee_manager == m.fee_manager && n.roles == m.roles
        }),
        !fee_bounds_valid(min, max) ==> {
            &&& set_fee_bounds_step(m, vault, min, max).result == Err::<Effect, ContractError>(
                ContractError::InvalidFeeBounds,
            )
            &&& set_fee_bounds_next(m, vault, min, max) == m
        },
{
    assert(set_target_apy_next(m, vault, target_apy_bps).vaults.dom() =~= m.vaults.dom());
    if fee_bounds_valid(min, max) {
        assert(set_fee_bounds_next(m, vault, min, max).vaults.dom() =~= m.vaults.dom());
    }
}

/// Handing a registered vault's Manager role asks the vault to make exactly
/// the given address its Manager, with the vault admin's authorization; the
/// hand-over is published as an unregistration exactly when the new
/// Manager is not the proxy.
pub proof fn law_set_vault_manager_exact(m: ProxyModel, vault: Addr, new_manager: Addr, proxy: Addr)
    requires
        m.vaults.contains_key(vault),
    ensures
        set_vault_manager_step(m, vault, new_manager, proxy).signer == Some(m.vaults[vault].admin),
        set_vault_manager_step(m, vault, new_manager, proxy).result matches Ok(e) && e.call == Some(
            VaultCall::SetManager { new_manager },
        ) && (e.event is Some <==> new_manager != proxy),
        new_manager != proxy ==> set_vault_manager_next(m, vault, new_manager, proxy).vaults == m.vaults.remove(vault),
{
}

/// Unregistering a registered vault hands its Manager role back to the
/// configured admin, with that admin's authorization, publishes it, and
/// forgets exactly that vault.
pub proof fn law_unregister_vault_exact(m: ProxyModel, vault: Addr)
    requires
        m.vaults.contains_key(vault),
    ensures
        unregister_vault_step(m, vault) == (crate::step::Step::<Effect, ContractError> {
            signer: Some(m.vaults[vault].admin),
            result: Ok(Effect {
                call: Some(VaultCall::SetManager { new_manager: m.vaults[vault].admin }),
                event: Some(FeeProxyEvent::VaultUnregistered(crate::fee_proxy::VaultUnregistered {
                    vault,
                    admin: m.vaults[vault].admin,
                })),
            }),
        }),
        remove_vault_next(m, vault).vaults == m.vaults.remove(vault),
        !remove_vault_next(m, vault).vaults.contains_key(vault),
{
}

} // verus!
