//! What the boost treasury keeps true across its entrypoints.
use vstd::prelude::*;
use crate::address::Addr;
use crate::boost_treasury::{
    available_spec, boost_next, boost_step, campaign_map, campaign_sound, complete_orphan_rescue_result,
    complete_registration_next, complete_registration_result, deposit_next, deposit_step, fresh_campaign, tracked_from, tracked_sum,
    transfer_next, transfer_step, treasury_sound, unregister_campaign_step, update_campaign_next, with_campaign,
    Campaign, ContractError, Payment, TreasuryEvent, TreasuryModel, lemma_with_campaign_model, reallocate_next,
    reallocate_step, rescue_orphan_step, update_campaign_step, unregister_campaign_next, fits_i128, TokenTransfer,
    OrphanRescued, CampaignUpdated, Deposited, Boosted, Transferred, Reallocated,
};
use crate::step::Step;
use crate::registry::{key_index, keys_distinct};

verus! {

/// For a campaign with sound accounting, the available budget is exactly
/// `deposited - boosted - withdrawn`, never negative and never more than was
/// deposited.
pub proof fn law_available_is_remaining_budget(c: Campaign)
    requires
        campaign_sound(c),
    ensures
        available_spec(c) == c.total_deposited - c.total_boosted - c.total_withdrawn,
        0 <= available_spec(c) <= c.total_deposited,
{
}

/// A deposit that goes through raises the vault's available budget by the
/// amount deposited and touches no other campaign.
pub proof fn law_deposit_grows_budget(m: TreasuryModel, caller: Addr, vault: Addr, amount: i128, treasury: Addr)
    requires
        keys_distinct(m.campaigns),
        treasury_sound(m),
        deposit_step(m, caller, vault, amount, treasury).result matches Ok(p) && p.settled is Ok,
    ensures
        ({
            let n = deposit_next(m, caller, vault, amount, treasury);
            &&& campaign_map(n).dom() == campaign_map(m).dom()
            &&& available_spec(campaign_map(n)[vault]) == available_spec(campaign_map(m)[vault]) + amount
            &&& campaign_map(n)[vault].total_deposited == campaign_map(m)[vault].total_deposited + amount
            &&& forall|v: Addr| v != vault && #[trigger] campaign_map(m).contains_key(v) ==> campaign_map(n)[v]
                == campaign_map(m)[v]
            &&& treasury_sound(n)
        }),
{
    let c = campaign_map(m)[vault];
    let c2 = Campaign { total_deposited: (c.total_deposited + amount) as i128, ..c };
    lemma_with_campaign_model(m, vault, c2);
    assert(campaign_map(m).insert(vault, c2).dom() =~= campaign_map(m).dom());
}

/// A boost that goes through lowers the vault's available budget by the
/// amount boosted, never below zero, stamps the boost time, and touches no
/// other campaign.
pub proof fn law_boost_spends_budget(m: TreasuryModel, vault: Addr, amount: i128, now: u64, treasury: Addr)
    requires
        keys_distinct(m.campaigns),
        treasury_sound(m),
        boost_step(m, vault, amount, treasury).result is Ok,
    ensures
        ({
            let n = boost_next(m, vault, amount, now, treasury);
            &&& boost_step(m, vault, amount, treasury).result matches Ok(p) && p.settled is Ok
            &&& campaign_map(n).dom() == campaign_map(m).dom()
            &&& available_spec(campaign_map(n)[vault]) == available_spec(campaign_map(m)[vault]) - amount
            &&& available_spec(campaign_map(n)[vault]) >= 0
            &&& campaign_map(n)[vault].last_boosted_at == now
            &&& forall|v: Addr| v != vault && #[trigger] campaign_map(m).contains_key(v) ==> campaign_map(n)[v]
                == campaign_map(m)[v]
            &&& treasury_sound(n)
        }),
{
    let c = campaign_map(m)[vault];
    let c2 = Campaign { total_boosted: (c.total_boosted + amount) as i128, last_boosted_at: now, ..c };
    lemma_with_campaign_model(m, vault, c2);
    assert(campaign_map(m).insert(vault, c2).dom() =~= campaign_map(m).dom());
}

/// A transfer that goes through lowers the vault's available budget by the
/// amount sent, never below zero, active or not, and touches no other
/// campaign.
pub proof fn law_transfer_spends_budget(m: TreasuryModel, vault: Addr, amount: i128, to: Addr, treasury: Addr)
    requires
        keys_distinct(m.campaigns),
        treasury_sound(m),
        transfer_step(m, vault, amount, to, treasury).result is Ok,
    ensures
        ({
            let n = transfer_next(m, vault, amount, to, treasury);
            &&& transfer_step(m, vault, amount, to, treasury).result matches Ok(p) && p.settled is Ok
            &&& campaign_map(n).dom() == campaign_map(m).dom()
            &&& available_spec(campaign_map(n)[vault]) == available_spec(campaign_map(m)[vault]) - amount
            &&& available_spec(campaign_map(n)[vault]) >= 0
            &&& campaign_map(n)[vault].total_withdrawn == campaign_map(m)[vault].total_withdrawn + amount
            &&& forall|v: Addr| v != vault && #[trigger] campaign_map(m).contains_key(v) ==> campaign_map(n)[v]
                == campaign_map(m)[v]
            &&& treasury_sound(n)
        }),
{
    let c = campaign_map(m)[vault];
    let c2 = Campaign { total_withdrawn: (c.total_withdrawn + amount) as i128, ..c };
    lemma_with_campaign_model(m, vault, c2);
    assert(campaign_map(m).insert(vault, c2).dom() =~= campaign_map(m).dom());
}

/// Who must authorize what: a deposit its depositor, a boost the manager,
/// a transfer the admin.
pub proof fn law_signers(m: TreasuryModel, caller: Addr, vault: Addr, amount: i128, to: Addr, treasury: Addr)
    ensures
        deposit_step(m, caller, vault, amount, treasury).signer == Some(caller),
        boost_step(m, vault, amount, treasury).signer == Some(m.manager),
        transfer_step(m, vault, amount, to, treasury).signer == Some(m.roles.admin),
{
}

/// Deposits and boosts need an active campaign; a transfer works on an
/// inactive one exactly as on an active one.
pub proof fn law_active_gate(m: TreasuryModel, caller: Addr, vault: Addr, amount: i128, to: Addr, treasury: Addr)
    requires
        keys_distinct(m.campaigns),
        campaign_map(m).contains_key(vault),
        !campaign_map(m)[vault].active,
        amount > 0,
    ensures
        deposit_step(m, caller, vault, amount, treasury) == (Step::<Payment, ContractError> {
            signer: Some(caller),
            result: Err(ContractError::CampaignInactive),
        }),
        boost_step(m, vault, amount, treasury) == (Step::<Payment, ContractError> {
            signer: Some(m.manager),
            result: Err(ContractError::CampaignInactive),
        }),
        transfer_step(update_campaign_next(m, vault, true), vault, amount, to, treasury) == transfer_step(
            m,
            vault,
            amount,
            to,
            treasury,
        ),
{
    let c = campaign_map(m)[vault];
    lemma_with_campaign_model(m, vault, Campaign { active: true, ..c });
}

/// A campaign's asset is fixed at registration: no entrypoint changes it.
pub proof fn law_asset_fixed(
    m: TreasuryModel,
    caller: Addr,
    vault: Addr,
    amount: i128,
    now: u64,
    to: Addr,
    active: bool,
    treasury: Addr,
)
    requires
        keys_distinct(m.campaigns),
        campaign_map(m).contains_key(vault),
    ensures
        campaign_map(deposit_next(m, caller, vault, amount, treasury))[vault].asset == campaign_map(m)[vault].asset,
        campaign_map(boost_next(m, vault, amount, now, treasury))[vault].asset == campaign_map(m)[vault].asset,
        campaign_map(transfer_next(m, vault, amount, to, treasury))[vault].asset == campaign_map(m)[vault].asset,
        campaign_map(update_campaign_next(m, vault, active))[vault].asset == campaign_map(m)[vault].asset,
{
    let c = campaign_map(m)[vault];
    lemma_with_campaign_model(m, vault, Campaign { total_deposited: (c.total_deposited + amount) as i128, ..c });
    lemma_with_campaign_model(m, vault, Campaign { total_boosted: (c.total_boosted + amount) as i128, last_boosted_at: now, ..c });
    lemma_with_campaign_model(m, vault, Campaign { total_withdrawn: (c.total_withdrawn + amount) as i128, ..c });
    lemma_with_campaign_model(m, vault, Campaign { active, ..c });
}

/// Only a campaign with nothing left to spend can be unregistered.
pub proof fn law_unregister_needs_empty_budget(m: TreasuryModel, vault: Addr)
    requires
        unregister_campaign_step(m, vault).result is Ok,
    ensures
        campaign_map(m).contains_key(vault),
        available_spec(campaign_map(m)[vault]) == 0,
{
}

proof fn lemma_attributed_prefix(m: TreasuryModel, token: Addr, k: int)
    requires
        0 <= k <= m.campaigns.len(),
    ensures
        0 <= tracked_sum(m.campaigns.take(k), token),
        tracked_sum(m.campaigns.take(k), token) <= i128::MAX ==> tracked_from(m.campaigns.take(k), token)
            == Some(tracked_sum(m.campaigns.take(k), token) as i128),
        tracked_sum(m.campaigns.take(k), token) > i128::MAX ==> tracked_from(m.campaigns.take(k), token) is None,
    decreases k,
{
    let s = m.campaigns.take(k);
    if k > 0 {
        lemma_attributed_prefix(m, token, k - 1);
        assert(s.drop_last() == m.campaigns.take(k - 1));
        assert(s.last() == m.campaigns[k - 1]);
    }
}

/// The running total of a token's campaign budgets is the plain sum of
/// their available budgets, never negative, and it overflows exactly when
/// that sum exceeds `i128::MAX`.
pub proof fn law_attributed_total(m: TreasuryModel, token: Addr)
    ensures
        0 <= tracked_sum(m.campaigns, token),
        tracked_sum(m.campaigns, token) <= i128::MAX ==> tracked_from(m.campaigns, token) == Some(
            tracked_sum(m.campaigns, token) as i128,
        ),
        tracked_sum(m.campaigns, token) > i128::MAX ==> tracked_from(m.campaigns, token) is None,
{
    lemma_attributed_prefix(m, token, m.campaigns.len() as int);
    assert(m.campaigns.take(m.campaigns.len() as int) == m.campaigns);
}

/// A balance below what the campaigns in that token account for is a sign
/// of corrupted accounting: the sweep fails closed and moves nothing.
pub proof fn law_rescue_fails_closed(m: TreasuryModel, token: Addr, to: Addr, amount: i128, balance: i128, treasury: Addr)
    requires
        tracked_sum(m.campaigns, token) <= i128::MAX,
        balance < tracked_sum(m.campaigns, token),
    ensures
        complete_orphan_rescue_result(m, token, to, amount, balance, treasury) == Err::<
            (crate::boost_treasury::TokenTransfer, TreasuryEvent),
            ContractError,
        >(ContractError::AccountingCorrupted),
{
    law_attributed_total(m, token);
}

/// A sweep of unattributed tokens never touches campaign money: what stays
/// in the treasury still covers every campaign budget in that token.
pub proof fn law_rescue_spares_campaign_funds(
    m: TreasuryModel,
    token: Addr,
    to: Addr,
    amount: i128,
    balance: i128,
    treasury: Addr,
)
    requires
        complete_orphan_rescue_result(m, token, to, amount, balance, treasury) is Ok,
    ensures
        tracked_sum(m.campaigns, token) <= balance - amount,
{
    law_attributed_total(m, token);
}

/// A campaign is registered only in the asset the admin expects, and only
/// when the vault reports exactly that one asset; it then starts active,
/// with nothing deposited, boosted or withdrawn, and other campaigns are
/// untouched. Any other report leaves the treasury unchanged.
pub proof fn law_registration_checks_asset(m: TreasuryModel, vault: Addr, asset: Addr, assets: Seq<Addr>)
    requires
        keys_distinct(m.campaigns),
        !campaign_map(m).contains_key(vault),
    ensures
        complete_registration_result(vault, asset, assets) is Ok <==> (assets.len() == 1 && assets[0] == asset),
        assets.len() == 1 && assets[0] != asset ==> complete_registration_result(vault, asset, assets) == Err::<
            TreasuryEvent,
            ContractError,
        >(ContractError::AssetMismatch),
        complete_registration_result(vault, asset, assets) is Err ==> complete_registration_next(m, vault, asset, assets)
            == m,
        complete_registration_result(vault, asset, assets) is Ok ==> {
            let n = complete_registration_next(m, vault, asset, assets);
            &&& campaign_map(n) == campaign_map(m).insert(vault, fresh_campaign(asset))
            &&& campaign_map(n)[vault].asset == asset
            &&& available_spec(campaign_map(n)[vault]) == 0
        },
{
    crate::registry::lemma_map_push(m.campaigns, vault, fresh_campaign(asset));
}

/// What one campaign adds to the running total of `token`.
pub open spec fn contribution(c: Campaign, token: Addr) -> int {
    if c.asset == token {
        available_spec(c) as int
    } else {
        0
    }
}

/// Replacing one entry changes the total by the difference of the two
/// entries' contributions.
pub proof fn lemma_tracked_sum_update(s: Seq<(Addr, Campaign)>, i: int, x: (Addr, Campaign), token: Addr)
    requires
        0 <= i < s.len(),
    ensures
        tracked_sum(s.update(i, x), token) == tracked_sum(s, token) - contribution(s[i].1, token) + contribution(
            x.1,
            token,
        ),
    decreases s.len(),
{
    let t = s.update(i, x);
    if i == s.len() - 1 {
        assert(t.drop_last() == s.drop_last());
    } else {
        assert(t.drop_last() == s.drop_last().update(i, x));
        lemma_tracked_sum_update(s.drop_last(), i, x, token);
    }
}

proof fn lemma_tracked_sum_with_campaign(m: TreasuryModel, vault: Addr, c: Campaign, token: Addr)
    requires
        keys_distinct(m.campaigns),
        campaign_map(m).contains_key(vault),
    ensures
        tracked_sum(with_campaign(m, vault, c).campaigns, token) == tracked_sum(m.campaigns, token) - contribution(
            campaign_map(m)[vault],
            token,
        ) + contribution(c, token),
{
    let i = key_index(m.campaigns, vault);
    assert(m.campaigns[i].0 == vault);
    lemma_tracked_sum_update(m.campaigns, i, (vault, c), token);
}

/// A reallocation moves `amount` of available budget from the source to the
/// destination campaign, touches no other campaign, keeps the accounting
/// sound, and leaves every token's attributed total unchanged: no budget is
/// created or lost.
pub proof fn law_reallocate_moves_budget(m: TreasuryModel, from_vault: Addr, to_vault: Addr, amount: i128, token: Addr)
    requires
        keys_distinct(m.campaigns),
        treasury_sound(m),
        reallocate_step(m, from_vault, to_vault, amount).result is Ok,
    ensures
        ({
            let n = reallocate_next(m, from_vault, to_vault, amount);
            &&& campaign_map(n).dom() == campaign_map(m).dom()
            &&& available_spec(campaign_map(n)[from_vault]) == available_spec(campaign_map(m)[from_vault]) - amount
            &&& available_spec(campaign_map(n)[to_vault]) == available_spec(campaign_map(m)[to_vault]) + amount
            &&& forall|v: Addr| v != from_vault && v != to_vault && #[trigger] campaign_map(m).contains_key(v)
                ==> campaign_map(n)[v] == campaign_map(m)[v]
            &&& treasury_sound(n)
            &&& tracked_sum(n.campaigns, token) == tracked_sum(m.campaigns, token)
        }),
{
    let src = campaign_map(m)[from_vault];
    let dst = campaign_map(m)[to_vault];
    let src2 = Campaign { total_withdrawn: (src.total_withdrawn + amount) as i128, ..src };
    let dst2 = Campaign { total_deposited: (dst.total_deposited + amount) as i128, ..dst };
    let m1 = with_campaign(m, from_vault, src2);
    lemma_with_campaign_model(m, from_vault, src2);
    lemma_with_campaign_model(m1, to_vault, dst2);
    lemma_tracked_sum_with_campaign(m, from_vault, src2, token);
    lemma_tracked_sum_with_campaign(m1, to_vault, dst2, token);
    let n = reallocate_next(m, from_vault, to_vault, amount);
    assert(campaign_map(n).dom() =~= campaign_map(m).dom());
    assert(campaign_map(m1)[to_vault] == dst);
    assert forall|v: Addr| #[trigger] campaign_map(n).contains_key(v) implies campaign_sound(campaign_map(n)[v]) by {
        if v != from_vault && v != to_vault {
            assert(campaign_map(m).contains_key(v));
        }
    }
}

/// Sweeping unattributed tokens: the first half goes through exactly for a
/// positive amount, with the admin's authorization; when the sweep
/// succeeds it moves exactly the requested amount of `token` from the
/// treasury to `to`, and it succeeds whenever the orphan balance covers that
/// amount.
pub proof fn law_rescue_moves_requested_amount(
    m: TreasuryModel,
    token: Addr,
    to: Addr,
    amount: i128,
    balance: i128,
    treasury: Addr,
)
    ensures
        rescue_orphan_step(m, amount).signer == Some(m.roles.admin),
        rescue_orphan_step(m, amount).result is Ok <==> amount > 0,
        complete_orphan_rescue_result(m, token, to, amount, balance, treasury) matches Ok(x) ==> {
            &&& x.0 == (TokenTransfer { token, from: treasury, to, amount })
            &&& x.1 == TreasuryEvent::OrphanRescued(OrphanRescued { token, to, amount })
        },
        tracked_sum(m.campaigns, token) <= balance && amount <= balance - tracked_sum(m.campaigns, token)
            ==> complete_orphan_rescue_result(m, token, to, amount, balance, treasury) is Ok,
{
    law_attributed_total(m, token);
}

/// `update_campaign` sets the active flag to exactly the value given, for
/// the admin, and changes nothing else; an unknown vault is refused.
pub proof fn law_update_sets_active_flag(m: TreasuryModel, vault: Addr, active: bool)
    requires
        keys_distinct(m.campaigns),
    ensures
        campaign_map(m).contains_key(vault) ==> {
            let n = update_campaign_next(m, vault, active);
            let c = campaign_map(m)[vault];
            &&& update_campaign_step(m, vault, active) == (Step::<TreasuryEvent, ContractError> {
                signer: Some(m.roles.admin),
                result: Ok(TreasuryEvent::CampaignUpdated(CampaignUpdated { vault, active })),
            })
            &&& campaign_map(n)[vault].active == active
            &&& campaign_map(n)[vault] == (Campaign {
                active,
                asset: c.asset,
                total_deposited: c.total_deposited,
                total_boosted: c.total_boosted,
                total_withdrawn: c.total_withdrawn,
                last_boosted_at: c.last_boosted_at,
            })
            &&& campaign_map(update_campaign_next(n, vault, active)) == campaign_map(n)
            &&& campaign_map(n) == campaign_map(m).insert(vault, campaign_map(n)[vault])
        },
        !campaign_map(m).contains_key(vault) ==> {
            &&& update_campaign_step(m, vault, active).result == Err::<TreasuryEvent, ContractError>(
                ContractError::CampaignNotRegistered,
            )
            &&& update_campaign_next(m, vault, active) == m
        },
{
    if campaign_map(m).contains_key(vault) {
        let c = campaign_map(m)[vault];
        let c2 = Campaign { active, ..c };
        lemma_with_campaign_model(m, vault, c2);
        let n = update_campaign_next(m, vault, active);
        lemma_with_campaign_model(n, vault, c2);
        assert(campaign_map(n).insert(vault, c2) =~= campaign_map(n));
    }
}

/// A deposit goes through exactly for a positive amount into a registered,
/// active campaign; it pulls exactly `amount` of the campaign's asset from
/// the depositor into the treasury, and once that is done adds `amount` to
/// the deposited total, unless that total would overflow.
pub proof fn law_deposit_exact(m: TreasuryModel, caller: Addr, vault: Addr, amount: i128, treasury: Addr)
    requires
        keys_distinct(m.campaigns),
    ensures
        ({
            let st = deposit_step(m, caller, vault, amount, treasury);
            let c = campaign_map(m)[vault];
            &&& st.signer == Some(caller)
            &&& st.result is Ok <==> (amount > 0 && campaign_map(m).contains_key(vault) && c.active)
            &&& st.result matches Ok(p) ==> {
                &&& p.transfer == (TokenTransfer { token: c.asset, from: caller, to: treasury, amount })
                &&& (p.settled is Ok <==> fits_i128(c.total_deposited + amount))
                &&& p.settled is Ok ==> {
                    &&& p.settled == Ok::<TreasuryEvent, ContractError>(
                        TreasuryEvent::Deposited(Deposited { vault, depositor: caller, amount }),
                    )
                    &&& campaign_map(deposit_next(m, caller, vault, amount, treasury)) == campaign_map(m).insert(
                        vault,
                        Campaign { total_deposited: (c.total_deposited + amount) as i128, ..c },
                    )
                }
            }
            &&& !(st.result matches Ok(p) && p.settled is Ok) ==> deposit_next(m, caller, vault, amount, treasury) == m
        }),
{
    if campaign_map(m).contains_key(vault) {
        let c = campaign_map(m)[vault];
        lemma_with_campaign_model(m, vault, Campaign { total_deposited: (c.total_deposited + amount) as i128, ..c });
    }
}

/// A boost goes through exactly for a positive amount, within the available
/// budget of a registered, active campaign; it sends exactly `amount` of the
/// campaign's asset from the treasury to the vault, and once that is done
/// adds it to the boosted total and stamps the boost with `now`.
pub proof fn law_boost_exact(m: TreasuryModel, vault: Addr, amount: i128, now: u64, treasury: Addr)
    requires
        keys_distinct(m.campaigns),
    ensures
        ({
            let st = boost_step(m, vault, amount, treasury);
            let c = campaign_map(m)[vault];
            &&& st.signer == Some(m.manager)
            &&& st.result is Ok <==> (amount > 0 && campaign_map(m).contains_key(vault) && c.active && amount
                <= available_spec(c))
            &&& st.result matches Ok(p) ==> {
                &&& p.transfer == (TokenTransfer { token: c.asset, from: treasury, to: vault, amount })
                &&& (p.settled is Ok <==> fits_i128(c.total_boosted + amount))
                &&& p.settled is Ok ==> {
                    &&& p.settled == Ok::<TreasuryEvent, ContractError>(
                        TreasuryEvent::Boosted(Boosted { vault, amount }),
                    )
                    &&& campaign_map(boost_next(m, vault, amount, now, treasury)) == campaign_map(m).insert(
                        vault,
                        Campaign { total_boosted: (c.total_boosted + amount) as i128, last_boosted_at: now, ..c },
                    )
                }
            }
            &&& !(st.result matches Ok(p) && p.settled is Ok) ==> boost_next(m, vault, amount, now, treasury) == m
        }),
{
    if campaign_map(m).contains_key(vault) {
        let c = campaign_map(m)[vault];
        lemma_with_campaign_model(
            m,
            vault,
            Campaign { total_boosted: (c.total_boosted + amount) as i128, last_boosted_at: now, ..c },
        );
    }
}

/// A transfer goes through exactly for a positive amount within the
/// available budget of a registered campaign, active or not; it sends
/// exactly `amount` of the campaign's asset from the treasury to `to`, and
/// once that is done adds it to the withdrawn total.
pub proof fn law_transfer_exact(m: TreasuryModel, vault: Addr, amount: i128, to: Addr, treasury: Addr)
    requires
        keys_distinct(m.campaigns),
    ensures
        ({
            let st = transfer_step(m, vault, amount, to, treasury);
            let c = campaign_map(m)[vault];
            &&& st.signer == Some(m.roles.admin)
            &&& st.result is Ok <==> (amount > 0 && campaign_map(m).contains_key(vault) && amount <= available_spec(c))
            &&& st.result matches Ok(p) ==> {
                &&& p.transfer == (TokenTransfer { token: c.asset, from: treasury, to, amount })
                &&& (p.settled is Ok <==> fits_i128(c.total_withdrawn + amount))
                &&& p.settled is Ok ==> {
                    &&& p.settled == Ok::<TreasuryEvent, ContractError>(
                        TreasuryEvent::Transferred(Transferred { vault, to, amount }),
                    )
                    &&& campaign_map(transfer_next(m, vault, amount, to, treasury)) == campaign_map(m).insert(
                        vault,
                        Campaign { total_withdrawn: (c.total_withdrawn + amount) as i128, ..c },
                    )
                }
            }
            &&& !(st.result matches Ok(p) && p.settled is Ok) ==> transfer_next(m, vault, amount, to, treasury) == m
        }),
{
    if campaign_map(m).contains_key(vault) {
        let c = campaign_map(m)[vault];
        lemma_with_campaign_model(m, vault, Campaign { total_withdrawn: (c.total_withdrawn + amount) as i128, ..c });
    }
}

/// Unregistering goes through exactly for a registered campaign with
/// nothing available, and then forgets that campaign and only it.
pub proof fn law_unregister_campaign_exact(m: TreasuryModel, vault: Addr)
    requires
        keys_distinct(m.campaigns),
    ensures
        unregister_campaign_step(m, vault).signer == Some(m.roles.admin),
        unregister_campaign_step(m, vault).result is Ok <==> (campaign_map(m).contains_key(vault) && available_spec(
            campaign_map(m)[vault],
        ) == 0),
        unregister_campaign_step(m, vault).result is Ok ==> campaign_map(unregister_campaign_next(m, vault))
            == campaign_map(m).remove(vault),
        unregister_campaign_step(m, vault).result is Err ==> unregister_campaign_next(m, vault) == m,
{
    if campaign_map(m).contains_key(vault) {
        let i = key_index(m.campaigns, vault);
        assert(m.campaigns[i].0 == vault);
        crate::registry::lemma_map_remove(m.campaigns, i);
    }
}

/// A reallocation between two different registered campaigns in the same
/// asset, for a positive amount within the source's available budget whose
/// totals stay in range, goes through whatever the campaigns' active flags:
/// the source's withdrawn and the destination's deposited totals each grow
/// by `amount`.
pub proof fn law_reallocate_succeeds(m: TreasuryModel, from_vault: Addr, to_vault: Addr, amount: i128)
    requires
        keys_distinct(m.campaigns),
        from_vault != to_vault,
        campaign_map(m).contains_key(from_vault),
        campaign_map(m).contains_key(to_vault),
        campaign_map(m)[from_vault].asset == campaign_map(m)[to_vault].asset,
        0 < amount <= available_spec(campaign_map(m)[from_vault]),
        fits_i128(campaign_map(m)[from_vault].total_withdrawn + amount),
        fits_i128(campaign_map(m)[to_vault].total_deposited + amount),
    ensures
        reallocate_step(m, from_vault, to_vault, amount) == (Step::<TreasuryEvent, ContractError> {
            signer: Some(m.roles.admin),
            result: Ok(TreasuryEvent::Reallocated(Reallocated { from_vault, to_vault, amount })),
        }),
        ({
            let n = reallocate_next(m, from_vault, to_vault, amount);
            let src = campaign_map(m)[from_vault];
            let dst = campaign_map(m)[to_vault];
            &&& campaign_map(n)[from_vault] == (Campaign { total_withdrawn: (src.total_withdrawn + amount) as i128, ..src })
            &&& campaign_map(n)[to_vault] == (Campaign { total_deposited: (dst.total_deposited + amount) as i128, ..dst })
        }),
{
    let src = campaign_map(m)[from_vault];
    let dst = campaign_map(m)[to_vault];
    let src2 = Campaign { total_withdrawn: (src.total_withdrawn + amount) as i128, ..src };
    let dst2 = Campaign { total_deposited: (dst.total_deposited + amount) as i128, ..dst };
    let m1 = with_campaign(m, from_vault, src2);
    lemma_with_campaign_model(m, from_vault, src2);
    lemma_with_campaign_model(m1, to_vault, dst2);
}

} // verus!
