use apy_stabilizer::address::Addr;
use apy_stabilizer::boost_treasury::{
    BoostTreasury, Campaign, ContractError, Payment, TokenTransfer, TreasuryEvent,
};
use apy_stabilizer::mock_vault::{MockVault, MultiAssetMockVault};
use apy_stabilizer::step::Step;

// ---------------------------------------------------------------------------
// A small ledger that carries out what the treasury decides: it checks the
// signer, aborts with the contract error, moves tokens between balances and
// answers the vault's `get_assets()` and the token's `balance()`.
// ---------------------------------------------------------------------------

enum Vault {
    Single(MockVault),
    Multi(MultiAssetMockVault),
}

struct Ledger {
    counter: u64,
    timestamp: u64,
    auths_mocked: bool,
    treasury_addr: Addr,
    treasury: BoostTreasury,
    vaults: Vec<(Addr, Vault)>,
    balances: Vec<((Addr, Addr), i128)>,
    events: Vec<TreasuryEvent>,
}

fn account(n: u64) -> Addr {
    Addr { is_contract: false, w0: 0, w1: 0, w2: 0, w3: n }
}

fn contract(n: u64) -> Addr {
    Addr { is_contract: true, w0: 0, w1: 0, w2: 0, w3: n }
}

fn fail(e: ContractError) -> ! {
    panic!("Error(Contract, #{})", e.code())
}

impl Ledger {
    fn generate(&mut self) -> Addr {
        self.counter += 1;
        account(self.counter)
    }

    fn create_test_token(&mut self) -> Addr {
        self.counter += 1;
        contract(self.counter)
    }

    fn register_mock_vault(&mut self, asset: Addr) -> Addr {
        self.counter += 1;
        let addr = contract(self.counter);
        let manager = self.generate();
        self.vaults.push((addr, Vault::Single(MockVault::new(manager, vec![asset]))));
        addr
    }

    fn register_multi_asset_vault(&mut self, asset_a: Addr, asset_b: Addr) -> Addr {
        self.counter += 1;
        let addr = contract(self.counter);
        self.vaults.push((addr, Vault::Multi(MultiAssetMockVault { asset_a, asset_b })));
        addr
    }

    fn get_assets(&self, vault: Addr) -> Vec<Addr> {
        match self.vaults.iter().find(|(a, _)| *a == vault) {
            Some((_, Vault::Single(v))) => v.get_assets().clone(),
            Some((_, Vault::Multi(v))) => v.get_assets(),
            None => panic!("no contract at this address"),
        }
    }

    fn balance(&self, token: Addr, holder: Addr) -> i128 {
        self.balances.iter().find(|(k, _)| *k == (token, holder)).map(|(_, b)| *b).unwrap_or(0)
    }

    fn set_balance(&mut self, token: Addr, holder: Addr, amount: i128) {
        match self.balances.iter_mut().find(|(k, _)| *k == (token, holder)) {
            Some(entry) => entry.1 = amount,
            None => self.balances.push(((token, holder), amount)),
        }
    }

    fn mint(&mut self, token: Addr, to: Addr, amount: i128) {
        let b = self.balance(token, to);
        self.set_balance(token, to, b + amount);
    }

    fn token_transfer(&mut self, t: TokenTransfer) {
        let from = self.balance(t.token, t.from);
        if from < t.amount {
            panic!("Error(Contract, #10): balance is not sufficient to spend");
        }
        self.set_balance(t.token, t.from, from - t.amount);
        let to = self.balance(t.token, t.to);
        self.set_balance(t.token, t.to, to + t.amount);
    }

    fn require_auth(&self, who: Option<Addr>) {
        if who.is_some() && !self.auths_mocked {
            panic!("Error(Auth, InvalidAction): {:?} has not authorized", who);
        }
    }

    fn settle(&mut self, step: Step<TreasuryEvent, ContractError>) {
        self.require_auth(step.signer);
        match step.result {
            Ok(ev) => self.events.push(ev),
            Err(e) => fail(e),
        }
    }

    fn settle_payment(&mut self, step: Step<Payment, ContractError>) {
        self.require_auth(step.signer);
        let payment = match step.result {
            Ok(p) => p,
            Err(e) => fail(e),
        };
        self.token_transfer(payment.transfer);
        match payment.settled {
            Ok(ev) => self.events.push(ev),
            Err(e) => fail(e),
        }
    }

    // --- entrypoints, as the contract runs them ---

    fn get_campaign(&self, vault: Addr) -> Campaign {
        match self.treasury.get_campaign(vault) {
            Ok(c) => c,
            Err(e) => fail(e),
        }
    }

    fn set_manager(&mut self, new_manager: Addr) {
        let step = self.treasury.set_manager(new_manager);
        self.settle(step);
    }

    fn register_campaign(&mut self, vault: Addr, asset: Addr) {
        let step = self.treasury.register_campaign(vault);
        self.require_auth(step.signer);
        if let Err(e) = step.result {
            fail(e);
        }
        let assets = self.get_assets(vault);
        match self.treasury.complete_registration(vault, asset, &assets) {
            Ok(ev) => self.events.push(ev),
            Err(e) => fail(e),
        }
    }

    fn update_campaign(&mut self, vault: Addr, active: bool) {
        let step = self.treasury.update_campaign(vault, active);
        self.settle(step);
    }

    fn unregister_campaign(&mut self, vault: Addr) {
        let step = self.treasury.unregister_campaign(vault);
        self.settle(step);
    }

    fn deposit(&mut self, caller: Addr, vault: Addr, amount: i128) {
        let t = self.treasury_addr;
        let step = self.treasury.deposit(caller, vault, amount, t);
        self.settle_payment(step);
    }

    fn boost(&mut self, vault: Addr, amount: i128) {
        let t = self.treasury_addr;
        let now = self.timestamp;
        let step = self.treasury.boost(vault, amount, now, t);
        self.settle_payment(step);
    }

    fn transfer(&mut self, vault: Addr, amount: i128, to: Addr) {
        let t = self.treasury_addr;
        let step = self.treasury.transfer(vault, amount, to, t);
        self.settle_payment(step);
    }

    fn reallocate(&mut self, from_vault: Addr, to_vault: Addr, amount: i128) {
        let step = self.treasury.reallocate(from_vault, to_vault, amount);
        self.settle(step);
    }

    fn rescue_orphan(&mut self, token: Addr, to: Addr, amount: i128) {
        let step = self.treasury.rescue_orphan(amount);
        self.require_auth(step.signer);
        if let Err(e) = step.result {
            fail(e);
        }
        let t = self.treasury_addr;
        let balance = self.balance(token, t);
        match self.treasury.complete_orphan_rescue(token, to, amount, balance, t) {
            Ok((transfer, ev)) => {
                self.token_transfer(transfer);
                self.events.push(ev);
            }
            Err(e) => fail(e),
        }
    }
}

fn setup() -> (Ledger, Addr, Addr) {
    let admin = account(1);
    let manager = account(2);
    let ledger = Ledger {
        counter: 3,
        timestamp: 0,
        auths_mocked: true,
        treasury_addr: contract(3),
        treasury: BoostTreasury::new(admin, manager),
        vaults: Vec::new(),
        balances: Vec::new(),
        events: Vec::new(),
    };
    (ledger, admin, manager)
}

fn setup_with_campaign() -> (Ledger, Addr, Addr, Addr, Addr) {
    let (mut env, admin, manager) = setup();
    let asset = env.create_test_token();
    let vault = env.register_mock_vault(asset);
    env.register_campaign(vault, asset);
    (env, admin, manager, vault, asset)
}

fn setup_funded_campaign(funding: i128) -> (Ledger, Addr, Addr, Addr, Addr) {
    let (mut env, admin, manager, vault, asset) = setup_with_campaign();
    let depositor = env.generate();
    env.mint(asset, depositor, funding);
    env.deposit(depositor, vault, funding);
    (env, admin, manager, vault, asset)
}

// ---------------------------------------------------------------------------
// Constructor and manager
// ---------------------------------------------------------------------------

#[test]
fn test_constructor_sets_admin_and_manager() {
    let (env, admin, manager) = setup();
    assert_eq!(env.treasury.get_admin(), admin);
    assert_eq!(env.treasury.get_manager(), manager);
}

#[test]
fn test_set_manager() {
    let (mut env, _admin, _manager) = setup();
    let new_manager = env.generate();
    env.set_manager(new_manager);
    assert_eq!(env.treasury.get_manager(), new_manager);
}

// ---------------------------------------------------------------------------
// register_campaign
// ---------------------------------------------------------------------------

#[test]
fn test_register_campaign() {
    let (env, _admin, _manager, vault, asset) = setup_with_campaign();
    let campaign = env.get_campaign(vault);
    assert_eq!(campaign.active, true);
    assert_eq!(campaign.asset, asset);
    assert_eq!(campaign.total_deposited, 0);
    assert_eq!(campaign.total_boosted, 0);
    assert_eq!(campaign.total_withdrawn, 0);
    assert_eq!(campaign.last_boosted_at, 0);
}

#[test]
#[should_panic(expected = "Error(Contract, #110)")]
fn test_register_campaign_already_registered() {
    let (mut env, _, _, vault, asset) = setup_with_campaign();
    env.register_campaign(vault, asset);
}

#[test]
#[should_panic(expected = "Error(Contract, #120)")]
fn test_register_campaign_multi_asset_rejected() {
    let (mut env, _admin, _manager) = setup();
    let asset_a = env.generate();
    let asset_b = env.generate();
    let multi_vault = env.register_multi_asset_vault(asset_a, asset_b);
    env.register_campaign(multi_vault, asset_a);
}

// ---------------------------------------------------------------------------
// update_campaign / unregister_campaign
// ---------------------------------------------------------------------------

#[test]
fn test_update_campaign_toggle_active() {
    let (mut env, _, _, vault, _) = setup_with_campaign();
    env.update_campaign(vault, false);
    assert_eq!(env.get_campaign(vault).active, false);
    env.update_campaign(vault, true);
    assert_eq!(env.get_campaign(vault).active, true);
}

#[test]
#[should_panic(expected = "Error(Contract, #111)")]
fn test_update_campaign_not_registered() {
    let (mut env, _, _) = setup();
    let random_vault = env.generate();
    env.update_campaign(random_vault, false);
}

#[test]
#[should_panic(expected = "Error(Contract, #111)")]
fn test_unregister_campaign() {
    let (mut env, _, _, vault, _) = setup_with_campaign();
    env.unregister_campaign(vault);
    // After unregistering, reading the campaign fails.
    env.get_campaign(vault);
}

#[test]
#[should_panic(expected = "Error(Contract, #111)")]
fn test_unregister_campaign_not_registered() {
    let (mut env, _, _) = setup();
    let random_vault = env.generate();
    env.unregister_campaign(random_vault);
}

// ---------------------------------------------------------------------------
// deposit
// ---------------------------------------------------------------------------

#[test]
fn test_deposit_updates_accounting_and_transfers_tokens() {
    let (mut env, _, _, vault, asset) = setup_with_campaign();
    let depositor = env.generate();
    env.mint(asset, depositor, 1_000);

    env.deposit(depositor, vault, 400);

    let campaign = env.get_campaign(vault);
    assert_eq!(campaign.total_deposited, 400);
    assert_eq!(campaign.available(), 400);

    assert_eq!(env.balance(asset, depositor), 600);
    assert_eq!(env.balance(asset, env.treasury_addr), 400);
}

#[test]
#[should_panic(expected = "Error(Contract, #111)")]
fn test_deposit_campaign_not_registered() {
    let (mut env, _, _) = setup();
    let random_vault = env.generate();
    let depositor = env.generate();
    env.deposit(depositor, random_vault, 100);
}

#[test]
#[should_panic(expected = "Error(Contract, #112)")]
fn test_deposit_campaign_inactive() {
    let (mut env, _, _, vault, asset) = setup_with_campaign();
    env.update_campaign(vault, false);
    let depositor = env.generate();
    env.mint(asset, depositor, 100);
    env.deposit(depositor, vault, 50);
}

#[test]
#[should_panic(expected = "Error(Contract, #130)")]
fn test_deposit_zero_amount() {
    let (mut env, _, _, vault, _) = setup_with_campaign();
    let depositor = env.generate();
    env.deposit(depositor, vault, 0);
}

// ---------------------------------------------------------------------------
// boost
// ---------------------------------------------------------------------------

#[test]
fn test_boost_updates_accounting_and_transfers_to_vault() {
    let (mut env, _, _, vault, asset) = setup_funded_campaign(1_000);
    assert_eq!(env.balance(asset, env.treasury_addr), 1_000);
    assert_eq!(env.balance(asset, vault), 0);

    env.boost(vault, 300);

    let campaign = env.get_campaign(vault);
    assert_eq!(campaign.total_boosted, 300);
    assert_eq!(campaign.available(), 700);

    assert_eq!(env.balance(asset, env.treasury_addr), 700);
    assert_eq!(env.balance(asset, vault), 300);
}

#[test]
fn test_boost_updates_last_boosted_at() {
    let (mut env, _, _, vault, _) = setup_funded_campaign(1_000);
    env.timestamp = 1_700_000_000;
    assert_eq!(env.get_campaign(vault).last_boosted_at, 0);

    env.boost(vault, 100);
    assert_eq!(env.get_campaign(vault).last_boosted_at, 1_700_000_000);

    env.timestamp = 1_700_003_600;
    env.boost(vault, 100);
    assert_eq!(env.get_campaign(vault).last_boosted_at, 1_700_003_600);
}

#[test]
#[should_panic(expected = "Error(Contract, #131)")]
fn test_boost_exceeds_available() {
    let (mut env, _, _, vault, _) = setup_funded_campaign(100);
    env.boost(vault, 200);
}

#[test]
#[should_panic(expected = "Error(Contract, #112)")]
fn test_boost_campaign_inactive() {
    let (mut env, _, _, vault, _) = setup_funded_campaign(100);
    env.update_campaign(vault, false);
    env.boost(vault, 50);
}

#[test]
#[should_panic(expected = "Error(Contract, #130)")]
fn test_boost_zero_amount() {
    let (mut env, _, _, vault, _) = setup_funded_campaign(100);
    env.boost(vault, 0);
}

#[test]
#[should_panic(expected = "Error(Contract, #111)")]
fn test_boost_campaign_not_registered() {
    let (mut env, _, _) = setup();
    let random_vault = env.generate();
    env.boost(random_vault, 100);
}

// ---------------------------------------------------------------------------
// transfer
// ---------------------------------------------------------------------------

#[test]
fn test_transfer_updates_accounting_and_sends_tokens() {
    let (mut env, _, _, vault, asset) = setup_funded_campaign(1_000);
    let recipient = env.generate();

    env.transfer(vault, 250, recipient);

    let campaign = env.get_campaign(vault);
    assert_eq!(campaign.total_withdrawn, 250);
    assert_eq!(campaign.available(), 750);

    assert_eq!(env.balance(asset, env.treasury_addr), 750);
    assert_eq!(env.balance(asset, recipient), 250);
}

#[test]
#[should_panic(expected = "Error(Contract, #131)")]
fn test_transfer_exceeds_available() {
    let (mut env, _, _, vault, _) = setup_funded_campaign(100);
    let recipient = env.generate();
    env.transfer(vault, 200, recipient);
}

#[test]
#[should_panic(expected = "Error(Contract, #130)")]
fn test_transfer_zero_amount() {
    let (mut env, _, _, vault, _) = setup_funded_campaign(100);
    let recipient = env.generate();
    env.transfer(vault, 0, recipient);
}

#[test]
fn test_transfer_allows_unregister_after_draining() {
    let (mut env, _, _, vault, _) = setup_funded_campaign(500);
    let recipient = env.generate();

    env.transfer(vault, 500, recipient);
    assert_eq!(env.get_campaign(vault).available(), 0);

    env.unregister_campaign(vault);
}

#[test]
#[should_panic(expected = "Error(Contract, #113)")]
fn test_unregister_campaign_with_balance_rejected() {
    let (mut env, _, _, vault, _) = setup_funded_campaign(100);
    env.unregister_campaign(vault);
}

// ---------------------------------------------------------------------------
// Authorization failures: the ledger refuses every signature.
// ---------------------------------------------------------------------------

#[test]
#[should_panic]
fn test_set_manager_requires_admin_auth() {
    let (mut env, _admin, _manager) = setup();
    let new_manager = env.generate();
    env.auths_mocked = false;
    env.set_manager(new_manager);
}

#[test]
#[should_panic]
fn test_boost_requires_manager_auth() {
    let (mut env, _, _, vault, _) = setup_funded_campaign(1_000);
    env.auths_mocked = false;
    env.boost(vault, 100);
}

#[test]
#[should_panic]
fn test_deposit_requires_caller_auth() {
    let (mut env, _, _, vault, _) = setup_with_campaign();
    let depositor = env.generate();
    env.auths_mocked = false;
    env.deposit(depositor, vault, 100);
}

#[test]
#[should_panic]
fn test_register_campaign_requires_admin_auth() {
    let (mut env, _admin, _manager) = setup();
    let asset = env.create_test_token();
    let vault = env.register_mock_vault(asset);
    env.auths_mocked = false;
    env.register_campaign(vault, asset);
}

// ---------------------------------------------------------------------------
// Accounting invariant: available() = deposited - boosted - withdrawn
// ---------------------------------------------------------------------------

#[test]
fn test_accounting_invariant_across_operations() {
    let (mut env, _, _, vault, asset) = setup_with_campaign();
    let depositor_a = env.generate();
    let depositor_b = env.generate();
    let recipient = env.generate();
    env.mint(asset, depositor_a, 10_000);
    env.mint(asset, depositor_b, 5_000);

    env.deposit(depositor_a, vault, 3_000);
    env.deposit(depositor_b, vault, 2_000);
    env.boost(vault, 1_500);
    env.transfer(vault, 500, recipient);
    env.deposit(depositor_a, vault, 1_000);

    let campaign = env.get_campaign(vault);
    assert_eq!(campaign.total_deposited, 6_000);
    assert_eq!(campaign.total_boosted, 1_500);
    assert_eq!(campaign.total_withdrawn, 500);
    assert_eq!(campaign.available(), 4_000);
    assert_eq!(
        campaign.available(),
        campaign.total_deposited - campaign.total_boosted - campaign.total_withdrawn
    );
}

// ---------------------------------------------------------------------------
// Full lifecycles
// ---------------------------------------------------------------------------

#[test]
fn test_integration_register_campaign_with_real_asset() {
    let (mut env, _admin, _manager) = setup();
    let asset = env.create_test_token();
    let vault = env.register_mock_vault(asset);
    env.register_campaign(vault, asset);

    let campaign = env.get_campaign(vault);
    assert_eq!(campaign.asset, asset);
    assert!(campaign.active);
}

#[test]
fn test_integration_full_lifecycle() {
    let (mut env, _, _) = setup();
    let asset = env.create_test_token();
    let vault = env.register_mock_vault(asset);

    env.register_campaign(vault, asset);

    let depositor = env.generate();
    env.mint(asset, depositor, 1_000);
    env.deposit(depositor, vault, 600);

    env.boost(vault, 400);
    assert_eq!(env.balance(asset, vault), 400);

    let recipient = env.generate();
    env.transfer(vault, 200, recipient);
    assert_eq!(env.balance(asset, recipient), 200);

    assert_eq!(env.get_campaign(vault).available(), 0);
    env.unregister_campaign(vault);
}

// ---------------------------------------------------------------------------
// Further checks of the contracts and laws on concrete values
// ---------------------------------------------------------------------------

#[test]
fn test_treasury_error_codes() {
    let all = [
        (ContractError::Unauthorized, 100),
        (ContractError::NoPendingAdmin, 101),
        (ContractError::CampaignAlreadyRegistered, 110),
        (ContractError::CampaignNotRegistered, 111),
        (ContractError::CampaignInactive, 112),
        (ContractError::CampaignHasBalance, 113),
        (ContractError::MultiAssetVaultNotSupported, 120),
        (ContractError::AssetMismatch, 121),
        (ContractError::SameVault, 122),
        (ContractError::InvalidAmount, 130),
        (ContractError::InsufficientBudget, 131),
        (ContractError::InsufficientOrphanBalance, 132),
        (ContractError::Overflow, 140),
        (ContractError::AccountingCorrupted, 141),
    ];
    for (e, code) in all {
        assert_eq!(e.code(), code);
    }
}

fn campaign(d: i128, b: i128, w: i128) -> Campaign {
    Campaign {
        active: true,
        asset: contract(7),
        total_deposited: d,
        total_boosted: b,
        total_withdrawn: w,
        last_boosted_at: 0,
    }
}

#[test]
fn test_available_formula_and_clamp() {
    assert_eq!(campaign(1_000, 300, 200).available(), 500);
    assert_eq!(campaign(0, 0, 0).available(), 0);
    // a difference that leaves the i128 range on the way is reported as 0
    assert_eq!(campaign(i128::MIN, 1, 0).available(), 0);
    assert_eq!(campaign(i128::MAX, 0, -1).available(), 0);
    // a negative remainder fails closed at 0
    assert_eq!(campaign(10, 20, 0).available(), 0);
    assert_eq!(campaign(0, 10, 0).available(), 0);
    assert_eq!(campaign(100, 60, 50).available(), 0);
}

#[test]
fn test_transfer_works_on_inactive_campaign() {
    let (mut env, _, _, vault, asset) = setup_funded_campaign(300);
    env.update_campaign(vault, false);
    let to = env.generate();
    env.transfer(vault, 300, to);
    assert_eq!(env.balance(asset, to), 300);
    assert_eq!(env.get_campaign(vault).available(), 0);
    // the asset chosen at registration never changes
    assert_eq!(env.get_campaign(vault).asset, asset);
}

#[test]
fn test_boost_exactly_available_then_nothing_left() {
    let (mut env, _, _, vault, _) = setup_funded_campaign(100);
    env.boost(vault, 100);
    assert_eq!(env.get_campaign(vault).available(), 0);
    let t = env.treasury_addr;
    assert_eq!(env.treasury.boost(vault, 1, 0, t).result, Err(ContractError::InsufficientBudget));
}

#[test]
fn test_deposit_overflow_is_reported_after_the_transfer() {
    let (mut env, _, _, vault, _) = setup_funded_campaign(i128::MAX);
    let caller = env.generate();
    let t = env.treasury_addr;
    let step = env.treasury.deposit(caller, vault, 1, t);
    assert_eq!(step.signer, Some(caller));
    let payment = step.result.unwrap();
    assert_eq!(payment.transfer.amount, 1);
    assert_eq!(payment.transfer.from, caller);
    assert_eq!(payment.settled, Err(ContractError::Overflow));
    // the campaign is unchanged
    assert_eq!(env.get_campaign(vault).total_deposited, i128::MAX);
}

#[test]
fn test_events_of_payments() {
    let (mut env, _, _, vault, _) = setup_funded_campaign(100);
    let to = env.generate();
    env.transfer(vault, 40, to);
    env.boost(vault, 10);
    let n = env.events.len();
    assert_eq!(
        env.events[n - 2],
        TreasuryEvent::Transferred(apy_stabilizer::boost_treasury::Transferred { vault, to, amount: 40 })
    );
    assert_eq!(env.events[n - 1], TreasuryEvent::Boosted(apy_stabilizer::boost_treasury::Boosted { vault, amount: 10 }));
}

#[test]
fn test_rescue_orphan_only_sweeps_unattributed_tokens() {
    let (mut env, _, _, vault, asset) = setup_funded_campaign(1_000);
    // 50 tokens arrive outside deposit()
    let t = env.treasury_addr;
    env.mint(asset, t, 50);
    assert_eq!(env.treasury.tracked_balance(asset), Some(1_000));
    let to = env.generate();
    assert_eq!(
        env.treasury.complete_orphan_rescue(asset, to, 51, 1_050, t),
        Err(ContractError::InsufficientOrphanBalance)
    );
    env.rescue_orphan(asset, to, 50);
    assert_eq!(env.balance(asset, to), 50);
    assert_eq!(env.balance(asset, t), 1_000);
    // campaign money is still fully covered
    assert_eq!(env.get_campaign(vault).available(), 1_000);
}

#[test]
fn test_rescue_orphan_zero_amount() {
    let (env, admin, _) = setup();
    let step = env.treasury.rescue_orphan(0);
    assert_eq!(step.signer, Some(admin));
    assert_eq!(step.result, Err(ContractError::InvalidAmount));
    assert_eq!(env.treasury.rescue_orphan(-5).result, Err(ContractError::InvalidAmount));
    assert_eq!(env.treasury.rescue_orphan(1).result, Ok(()));
}

#[test]
fn test_rescue_orphan_accounting_corrupted() {
    let (env, _, _, _vault, asset) = setup_funded_campaign(1_000);
    let t = env.treasury_addr;
    let to = account(99);
    // a balance of i128::MIN cannot cover the attributed 1_000 without overflow
    assert_eq!(
        env.treasury.complete_orphan_rescue(asset, to, 1, i128::MIN, t),
        Err(ContractError::AccountingCorrupted)
    );
    // a balance just below the attributed 1_000 fails closed too
    assert_eq!(
        env.treasury.complete_orphan_rescue(asset, to, 1, 999, t),
        Err(ContractError::AccountingCorrupted)
    );
    // exactly covered: nothing to sweep, but nothing corrupted
    assert_eq!(
        env.treasury.complete_orphan_rescue(asset, to, 1, 1_000, t),
        Err(ContractError::InsufficientOrphanBalance)
    );
}

#[test]
fn test_register_campaign_asset_mismatch() {
    let (mut env, admin, _) = setup();
    let asset_a = env.create_test_token();
    let asset_b = env.create_test_token();
    let vault = env.register_mock_vault(asset_a);
    let step = env.treasury.register_campaign(vault);
    assert_eq!(step.signer, Some(admin));
    assert_eq!(step.result, Ok(()));
    let reported = env.get_assets(vault);
    assert_eq!(
        env.treasury.complete_registration(vault, asset_b, &reported),
        Err(ContractError::AssetMismatch)
    );
    // nothing was registered
    assert_eq!(env.treasury.get_campaign(vault), Err(ContractError::CampaignNotRegistered));
    assert_eq!(env.treasury.campaign_count(), 0);
    // the matching asset is accepted
    env.register_campaign(vault, asset_a);
    assert_eq!(env.get_campaign(vault).asset, asset_a);
}

#[test]
fn test_restore_rejects_unsound_campaign() {
    let admin = account(1);
    assert!(BoostTreasury::restore(admin, None, admin, vec![(contract(8), campaign(10, 20, 0))]).is_none());
    assert!(BoostTreasury::restore(admin, None, admin, vec![(contract(8), campaign(10, -1, 0))]).is_none());
    assert!(BoostTreasury::restore(admin, None, admin, vec![(contract(8), campaign(10, 4, 6))]).is_some());
}

#[test]
fn test_tracked_balance_counts_only_that_token() {
    let (mut env, _, _) = setup();
    let a = env.create_test_token();
    let b = env.create_test_token();
    let v1 = env.register_mock_vault(a);
    let v2 = env.register_mock_vault(b);
    let v3 = env.register_mock_vault(a);
    env.register_campaign(v1, a);
    env.register_campaign(v2, b);
    env.register_campaign(v3, a);
    let d = env.generate();
    env.mint(a, d, 1_000);
    env.mint(b, d, 1_000);
    env.deposit(d, v1, 100);
    env.deposit(d, v2, 200);
    env.deposit(d, v3, 300);
    assert_eq!(env.treasury.tracked_balance(a), Some(400));
    assert_eq!(env.treasury.tracked_balance(b), Some(200));
    // unregistering an emptied campaign drops it from the total
    let to = env.generate();
    env.transfer(v1, 100, to);
    env.unregister_campaign(v1);
    assert_eq!(env.treasury.tracked_balance(a), Some(300));
}

#[test]
fn test_tracked_balance_overflow() {
    let admin = account(1);
    let token = contract(7);
    let c = campaign(i128::MAX, 0, 0);
    let t = BoostTreasury::restore(admin, None, admin, vec![(contract(8), c), (contract(9), c)]).unwrap();
    assert_eq!(t.tracked_balance(token), None);
    assert_eq!(t.complete_orphan_rescue(token, admin, 1, 0, contract(3)), Err(ContractError::Overflow));
    assert!(BoostTreasury::restore(admin, None, admin, vec![(contract(8), c), (contract(8), c)]).is_none());
}

#[test]
fn test_treasury_two_step_admin() {
    let (mut env, admin, _) = setup();
    let next = env.generate();
    assert_eq!(env.treasury.accept_admin(next).result, Err(ContractError::NoPendingAdmin));
    env.settle_propose(next);
    assert_eq!(env.treasury.get_pending_admin(), Some(next));
    let other = env.generate();
    assert_eq!(env.treasury.accept_admin(other).result, Err(ContractError::Unauthorized));
    let ok = env.treasury.accept_admin(next);
    assert_eq!(ok.signer, Some(next));
    assert!(ok.result.is_ok());
    assert_eq!(env.treasury.get_admin(), next);
    assert_eq!(env.treasury.get_pending_admin(), None);
    assert_ne!(admin, next);
}

impl Ledger {
    fn settle_propose(&mut self, new_admin: Addr) {
        let step = self.treasury.propose_admin(new_admin);
        self.settle(step);
    }
}

#[test]
fn test_reallocate_moves_budget_without_moving_tokens() {
    let (mut env, admin, _, v1, asset) = setup_funded_campaign(1_000);
    let v2 = env.register_mock_vault(asset);
    env.register_campaign(v2, asset);
    env.update_campaign(v1, false);

    let step = env.treasury.reallocate(v1, v2, 300);
    assert_eq!(step.signer, Some(admin));
    env.settle(step);

    let from = env.get_campaign(v1);
    let to = env.get_campaign(v2);
    assert_eq!(from.total_withdrawn, 300);
    assert_eq!(from.available(), 700);
    assert_eq!(to.total_deposited, 300);
    assert_eq!(to.available(), 300);
    // the tokens stay in the treasury, and the attributed total is unchanged
    assert_eq!(env.balance(asset, env.treasury_addr), 1_000);
    assert_eq!(env.treasury.tracked_balance(asset), Some(1_000));
    assert_eq!(
        env.events[env.events.len() - 1],
        TreasuryEvent::Reallocated(apy_stabilizer::boost_treasury::Reallocated { from_vault: v1, to_vault: v2, amount: 300 })
    );
}

#[test]
fn test_reallocate_refusals() {
    let (mut env, _, _, v1, asset) = setup_funded_campaign(100);
    let v2 = env.register_mock_vault(asset);
    env.register_campaign(v2, asset);
    let other = env.create_test_token();
    let v3 = env.register_mock_vault(other);
    env.register_campaign(v3, other);
    let unknown = env.generate();

    assert_eq!(env.treasury.reallocate(v1, v2, 0).result, Err(ContractError::InvalidAmount));
    assert_eq!(env.treasury.reallocate(v1, v1, 10).result, Err(ContractError::SameVault));
    assert_eq!(env.treasury.reallocate(unknown, v2, 10).result, Err(ContractError::CampaignNotRegistered));
    assert_eq!(env.treasury.reallocate(v1, unknown, 10).result, Err(ContractError::CampaignNotRegistered));
    assert_eq!(env.treasury.reallocate(v1, v3, 10).result, Err(ContractError::AssetMismatch));
    assert_eq!(env.treasury.reallocate(v1, v2, 101).result, Err(ContractError::InsufficientBudget));
    // nothing changed
    assert_eq!(env.get_campaign(v1).available(), 100);
    assert_eq!(env.get_campaign(v2).available(), 0);
    // the whole budget can move
    env.reallocate(v1, v2, 100);
    assert_eq!(env.get_campaign(v1).available(), 0);
    assert_eq!(env.get_campaign(v2).available(), 100);
}
