// The same entrypoints, exercised as the roles-manager deployment of the proxy.
use apy_stabilizer::address::Addr;
use apy_stabilizer::fee_proxy::{ContractError, Effect, FeeProxyEvent, VaultCall, VaultConfig, VaultRolesManager};
use apy_stabilizer::mock_vault::MockVault;
use apy_stabilizer::step::Step;

// ---------------------------------------------------------------------------
// A small ledger that carries out what the proxy decides: it checks the
// signer, aborts with the contract error, makes the vault call and records
// the event.
// ---------------------------------------------------------------------------

struct VaultSide {
    addr: Addr,
    vault: MockVault,
    fee_bps: Option<u32>,
    emergency_manager: Option<Addr>,
    rebalance_manager: Option<Addr>,
    fee_receiver: Option<Addr>,
    calls: Vec<VaultCall>,
}

struct Ledger {
    counter: u64,
    auths_mocked: bool,
    proxy_addr: Addr,
    proxy: VaultRolesManager,
    vaults: Vec<VaultSide>,
    events: Vec<FeeProxyEvent>,
}

fn account(n: u64) -> Addr {
    Addr { is_contract: false, w0: 0, w1: 0, w2: 0, w3: n }
}

impl Ledger {
    fn generate(&mut self) -> Addr {
        self.counter += 1;
        account(self.counter)
    }

    fn register_mock_vault(&mut self, manager: Addr) -> Addr {
        self.counter += 1;
        let addr = Addr { is_contract: true, w0: 0, w1: 0, w2: 0, w3: self.counter };
        self.vaults.push(VaultSide {
            addr,
            vault: MockVault::new(manager, Vec::new()),
            fee_bps: None,
            emergency_manager: None,
            rebalance_manager: None,
            fee_receiver: None,
            calls: Vec::new(),
        });
        addr
    }

    fn vault(&mut self, addr: Addr) -> &mut VaultSide {
        self.vaults.iter_mut().find(|v| v.addr == addr).expect("no contract at this address")
    }

    fn require_auth(&self, who: Addr) {
        if !self.auths_mocked {
            panic!("Error(Auth, InvalidAction): {:?} has not authorized", who);
        }
    }

    fn settle(&mut self, vault: Addr, step: Step<Effect, ContractError>) {
        if let Some(s) = step.signer {
            self.require_auth(s);
        }
        let effect = match step.result {
            Ok(e) => e,
            Err(e) => panic!("Error(Contract, #{})", e.code()),
        };
        if let Some(call) = effect.call {
            let auths = self.auths_mocked;
            let side = self.vault(vault);
            side.calls.push(call);
            match call {
                VaultCall::SetManager { new_manager } => {
                    let signer = side.vault.set_manager(new_manager);
                    if !auths {
                        panic!("Error(Auth, InvalidAction): {:?} has not authorized", signer);
                    }
                }
                VaultCall::LockFees { new_fee_bps } => {
                    if new_fee_bps.is_some() {
                        side.fee_bps = new_fee_bps;
                    }
                }
                VaultCall::SetEmergencyManager { emergency_manager } => side.emergency_manager = Some(emergency_manager),
                VaultCall::SetRebalanceManager { rebalance_manager } => side.rebalance_manager = Some(rebalance_manager),
                VaultCall::SetFeeReceiver { new_fee_receiver, .. } => side.fee_receiver = Some(new_fee_receiver),
                _ => {}
            }
        }
        if let Some(ev) = effect.event {
            self.events.push(ev);
        }
    }

    fn get_manager(&mut self, vault: Addr) -> Addr {
        self.vault(vault).vault.get_manager()
    }

    fn get_vault_config(&self, vault: Addr) -> VaultConfig {
        match self.proxy.get_vault_config(vault) {
            Ok(c) => c,
            Err(e) => panic!("Error(Contract, #{})", e.code()),
        }
    }

    fn register_vault(&mut self, admin: Addr, vault: Addr, config: VaultConfig) {
        let p = self.proxy_addr;
        let step = self.proxy.register_vault(admin, vault, config, p);
        self.settle(vault, step);
    }

    fn unregister_vault(&mut self, vault: Addr) {
        let step = self.proxy.unregister_vault(vault);
        self.settle(vault, step);
    }

    fn lock_fees(&mut self, caller: Addr, vault: Addr, fee: Option<u32>) {
        let step = self.proxy.lock_fees(caller, vault, fee);
        self.settle(vault, step);
    }

    fn distribute_fees(&mut self, caller: Addr, vault: Addr) {
        let p = self.proxy_addr;
        let step = self.proxy.distribute_fees(caller, vault, p);
        self.settle(vault, step);
    }

    fn set_fee_manager(&mut self, new_fee_manager: Addr) {
        let step = self.proxy.set_fee_manager(new_fee_manager);
        self.settle(self.proxy_addr, step);
    }
}

fn setup() -> (Ledger, Addr, Addr) {
    let admin = account(1);
    let fee_manager = account(2);
    let proxy_addr = Addr { is_contract: true, w0: 0, w1: 0, w2: 0, w3: 3 };
    let ledger = Ledger {
        counter: 3,
        auths_mocked: true,
        proxy_addr,
        proxy: VaultRolesManager::new(admin, fee_manager),
        vaults: Vec::new(),
        events: Vec::new(),
    };
    (ledger, admin, fee_manager)
}

fn setup_with_vault() -> (Ledger, Addr, Addr, Addr, Addr) {
    let (mut env, admin, fee_manager) = setup();
    let vault_admin = env.generate();
    let proxy = env.proxy_addr;
    let vault_id = env.register_mock_vault(proxy);
    let config = VaultConfig { admin: vault_admin, target_apy_bps: 500, min_fee_bps: 10, max_fee_bps: 200 };
    env.register_vault(vault_admin, vault_id, config);
    (env, admin, fee_manager, vault_admin, vault_id)
}

// ---------------------------------------------------------------------------
// Tests
// ---------------------------------------------------------------------------

#[test]
fn test_test_constructor_sets_admin_and_fee_manager() {
    let (env, admin, fee_manager) = setup();
    assert_eq!(env.proxy.get_admin(), admin);
    assert_eq!(env.proxy.get_fee_manager(), fee_manager);
}

#[test]
fn test_test_set_fee_manager_by_admin() {
    let (mut env, _admin, _fee_manager) = setup();
    let new_fm = env.generate();
    env.set_fee_manager(new_fm);
    assert_eq!(env.proxy.get_fee_manager(), new_fm);
}

#[test]
fn test_test_register_vault() {
    let (mut env, _admin, _fee_manager) = setup();
    let vault_admin = env.generate();
    let proxy = env.proxy_addr;
    let vault_id = env.register_mock_vault(proxy);
    let config = VaultConfig { admin: vault_admin, target_apy_bps: 500, min_fee_bps: 10, max_fee_bps: 200 };
    env.register_vault(vault_admin, vault_id, config);

    let stored = env.get_vault_config(vault_id);
    assert_eq!(stored.admin, vault_admin);
    assert_eq!(stored.target_apy_bps, 500);

    // The vault's manager is now the proxy.
    assert_eq!(env.get_manager(vault_id), env.proxy_addr);
}

#[test]
fn test_test_unregister_vault() {
    let (mut env, _admin, _fee_manager, vault_admin, vault_id) = setup_with_vault();
    env.unregister_vault(vault_id);
    // Manager is returned to vault_admin.
    assert_eq!(env.get_manager(vault_id), vault_admin);
}

#[test]
#[should_panic(expected = "Error(Contract, #110)")]
fn test_test_register_vault_already_registered() {
    let (mut env, _admin, _fee_manager, vault_admin, vault_id) = setup_with_vault();
    let config = VaultConfig { admin: vault_admin, target_apy_bps: 500, min_fee_bps: 10, max_fee_bps: 200 };
    env.register_vault(vault_admin, vault_id, config);
}

#[test]
#[should_panic(expected = "Error(Contract, #121)")]
fn test_test_register_vault_invalid_fee_bounds() {
    let (mut env, _admin, _fee_manager) = setup();
    let vault_admin = env.generate();
    let proxy = env.proxy_addr;
    let vault_id = env.register_mock_vault(proxy);
    let bad_config = VaultConfig { admin: vault_admin, target_apy_bps: 500, min_fee_bps: 300, max_fee_bps: 100 };
    env.register_vault(vault_admin, vault_id, bad_config);
}

#[test]
fn test_test_lock_fees_by_fee_manager() {
    let (mut env, _admin, fee_manager, _vault_admin, vault_id) = setup_with_vault();
    env.lock_fees(fee_manager, vault_id, Some(100u32));
}

#[test]
fn test_test_lock_fees_by_vault_admin() {
    let (mut env, _admin, _fee_manager, vault_admin, vault_id) = setup_with_vault();
    env.lock_fees(vault_admin, vault_id, Some(50u32));
}

#[test]
#[should_panic(expected = "Error(Contract, #120)")]
fn test_test_lock_fees_out_of_bounds() {
    let (mut env, _admin, fee_manager, _vault_admin, vault_id) = setup_with_vault();
    // 201 > max_fee_bps (200)
    env.lock_fees(fee_manager, vault_id, Some(201u32));
}

#[test]
fn test_test_lock_fees_none_passes_through() {
    let (mut env, _admin, fee_manager, _vault_admin, vault_id) = setup_with_vault();
    env.lock_fees(fee_manager, vault_id, None);
}

#[test]
fn test_test_distribute_fees() {
    let (mut env, _admin, fee_manager, _vault_admin, vault_id) = setup_with_vault();
    env.distribute_fees(fee_manager, vault_id);
}

#[test]
fn test_test_release_fees_admin_only() {
    let (mut env, _admin, _fee_manager, _vault_admin, vault_id) = setup_with_vault();
    let strategy = env.generate();
    let step = env.proxy.release_fees(vault_id, strategy, 1000i128);
    env.settle(vault_id, step);
}

#[test]
fn test_test_set_target_apy() {
    let (mut env, _admin, _fee_manager, _vault_admin, vault_id) = setup_with_vault();
    let step = env.proxy.set_target_apy(vault_id, 800u32);
    env.settle(vault_id, step);

    let config = env.get_vault_config(vault_id);
    assert_eq!(config.target_apy_bps, 800);
    assert_eq!(config.min_fee_bps, 10);
    assert_eq!(config.max_fee_bps, 200);
}

#[test]
fn test_test_set_fee_bounds() {
    let (mut env, _admin, _fee_manager, _vault_admin, vault_id) = setup_with_vault();
    let step = env.proxy.set_fee_bounds(vault_id, 5u32, 150u32);
    env.settle(vault_id, step);

    let config = env.get_vault_config(vault_id);
    assert_eq!(config.min_fee_bps, 5);
    assert_eq!(config.max_fee_bps, 150);
    assert_eq!(config.target_apy_bps, 500);
}

#[test]
#[should_panic(expected = "Error(Contract, #121)")]
fn test_test_set_fee_bounds_invalid() {
    let (mut env, _admin, _fee_manager, _vault_admin, vault_id) = setup_with_vault();
    // max > 10_000
    let step = env.proxy.set_fee_bounds(vault_id, 0u32, 10_001u32);
    env.settle(vault_id, step);
}

