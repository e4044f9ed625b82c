//! The contract as its users see it, one whole call at a time.

use std::cell::RefCell;
use std::rc::Rc;

use solar_grid::access::CURRENT_CONTRACT_VERSION;
use solar_grid::events::{Event, Topic, EVENT_NAMESPACE};
use solar_grid::state::{
    Invocation, SolarGridContract, SECONDS_PER_DAY, SECONDS_PER_WEEK,
};
use solar_grid::table::Table;
use solar_grid::types::{
    BatchDeactivateSummary, CallError, ContractError, LegacyMeter, Metadata, Meter, PaymentPlan,
    StoredMeter, Transfer,
};
use solar_grid::values::{Address, AddressKind, Text};

/// A ledger with one contract, one token and a clock.
struct World {
    contract: SolarGridContract,
    address: Address,
    now: u64,
    /// Whether everybody who is asked for an authorisation gives it.
    everybody_signs: bool,
    holdings: Vec<(Address, i128)>,
    generated: u128,
    events: Vec<Event<Text>>,
    /// A payment that the token tries to make, and what it was answered, while it moves tokens.
    intruder: Option<Text>,
    answered: Option<Result<(), ContractError>>,
}

#[derive(Clone)]
struct Env(Rc<RefCell<World>>);

#[derive(Clone)]
struct Client {
    env: Env,
    address: Address,
}

struct TokenAdmin(Env);

struct TokenClient(Env);

fn t(s: &str) -> Text {
    Text::new(s)
}

fn key(kind: AddressKind, lo: u128) -> Address {
    Address { kind, hi: 0, lo }
}

fn message(e: ContractError) -> &'static str {
    match e {
        ContractError::MeterNotActive => "meter is not active",
        ContractError::Unauthorized => "unauthorized",
        ContractError::InsufficientBalance => "insufficient balance",
        _ => "refused",
    }
}

fn done<T>(r: Result<T, ContractError>) -> T {
    match r {
        Ok(v) => v,
        Err(e) => panic!("{}: {:?}", message(e), e),
    }
}

fn answer<T>(r: Result<T, CallError>) -> Result<T, ContractError> {
    match r {
        Ok(v) => Ok(v),
        Err(CallError::Contract(e)) => Err(e),
        Err(CallError::MissingAuth(who)) => panic!("not authorised by {:?}", who),
    }
}

impl World {
    fn holding(&self, who: Address) -> i128 {
        let mut held: i128 = 0;
        for (holder, amount) in self.holdings.iter() {
            if *holder == who {
                held += *amount;
            }
        }
        held
    }

    /// Makes the call, with the authorisations it asks for if everybody signs.
    fn call<T>(
        &mut self,
        f: &dyn Fn(&mut SolarGridContract, &Invocation) -> Result<T, CallError>,
    ) -> Result<T, CallError> {
        let mut signers: Vec<Address> = Vec::new();
        loop {
            let env = Invocation { now: self.now, contract: self.address, signers: signers.clone() };
            match f(&mut self.contract, &env) {
                Err(CallError::MissingAuth(who)) if self.everybody_signs => signers.push(who),
                r => return r,
            }
        }
    }

    fn transfer(&mut self, transfer: Transfer) {
        if let Some(meter_id) = self.intruder.take() {
            let answered = self.call(&|c: &mut SolarGridContract, env: &Invocation| {
                c.make_payment(
                    env,
                    &meter_id,
                    transfer.from,
                    transfer.amount,
                    PaymentPlan::Daily,
                    None,
                )
            });
            self.answered = Some(answer(answered.map(|_| ())));
            return;
        }
        assert!(self.holding(transfer.from) >= transfer.amount, "transfer without tokens");
        self.holdings.push((transfer.from, -transfer.amount));
        self.holdings.push((transfer.to, transfer.amount));
    }
}

impl Env {
    fn new() -> Env {
        Env(Rc::new(RefCell::new(World {
            contract: SolarGridContract::new(),
            address: key(AddressKind::Contract, 1),
            now: 0,
            everybody_signs: true,
            holdings: Vec::new(),
            generated: 0,
            events: Vec::new(),
            intruder: None,
            answered: None,
        })))
    }

    fn generate(&self) -> Address {
        let mut world = self.0.borrow_mut();
        world.generated += 1;
        key(AddressKind::Account, world.generated)
    }

    fn now(&self) -> u64 {
        self.0.borrow().now
    }

    fn set_time(&self, now: u64) {
        self.0.borrow_mut().now = now;
    }

    fn advance(&self, by: u64) {
        self.0.borrow_mut().now += by;
    }

    /// Whether the last call published an event about the meter under that name.
    fn published(&self, name: &str, meter_id: &Text) -> bool {
        self.0.borrow().events.iter().any(|e| {
            let topics = e.topics();
            topics.len() >= 3
                && topics[0] == Topic::Symbol(EVENT_NAMESPACE)
                && matches!(&topics[1], Topic::Symbol(s) if *s == name)
                && topics[2] == Topic::Meter(meter_id.clone())
        })
    }

    /// Whether the last call published an event whose topic at `i` is that name.
    fn published_at(&self, i: usize, name: &str) -> bool {
        self.0.borrow().events.iter().any(|e| {
            let topics = e.topics();
            topics.len() > i && matches!(&topics[i], Topic::Symbol(s) if *s == name)
        })
    }
}

impl TokenAdmin {
    fn new(env: &Env) -> TokenAdmin {
        TokenAdmin(env.clone())
    }

    fn mint(&self, who: &Address, amount: &i128) {
        self.0 .0.borrow_mut().holdings.push((*who, *amount));
    }
}

impl TokenClient {
    fn new(env: &Env) -> TokenClient {
        TokenClient(env.clone())
    }

    fn balance(&self, who: &Address) -> i128 {
        self.0 .0.borrow().holding(*who)
    }
}

impl Client {
    fn new(env: &Env) -> Client {
        Client { env: env.clone(), address: env.0.borrow().address }
    }

    /// Makes one whole call: what it published before is gone.
    fn run<T>(
        &self,
        f: &dyn Fn(&mut SolarGridContract, &Invocation) -> Result<T, CallError>,
    ) -> Result<T, ContractError> {
        let mut world = self.env.0.borrow_mut();
        let r = world.call(f);
        world.events = world.contract.take_events();
        answer(r)
    }

    /// Makes one whole call that asks for nobody's authorisation. What was published before is
    /// still there.
    fn ask<T>(
        &self,
        f: &dyn Fn(&mut SolarGridContract, &Invocation) -> Result<T, ContractError>,
    ) -> Result<T, ContractError> {
        let mut world = self.env.0.borrow_mut();
        let env = Invocation { now: world.now, contract: world.address, signers: Vec::new() };
        let r = f(&mut world.contract, &env);
        let mut published = world.contract.take_events();
        world.events.append(&mut published);
        r
    }

    fn try_initialize(&self, admin: &Address, token: &Address) -> Result<(), ContractError> {
        self.run(&|c: &mut SolarGridContract, env: &Invocation| c.initialize(env, *admin, *token))
    }

    fn initialize(&self, admin: &Address, token: &Address) {
        done(self.try_initialize(admin, token))
    }

    fn get_contract_version(&self) -> Text {
        self.env.0.borrow().contract.get_contract_version()
    }

    fn allowlist_add(&self, who: &Address) {
        done(self.run(&|c: &mut SolarGridContract, env: &Invocation| c.allowlist_add(env, *who)))
    }

    fn allowlist_remove(&self, who: &Address) {
        done(self.run(&|c: &mut SolarGridContract, env: &Invocation| c.allowlist_remove(env, *who)))
    }

    fn get_allowlist(&self) -> Vec<Address> {
        done(self.ask(&|c: &mut SolarGridContract, _env: &Invocation| c.get_allowlist()))
    }

    fn try_register_meter(&self, id: &Text, owner: &Address) -> Result<(), ContractError> {
        self.run(&|c: &mut SolarGridContract, env: &Invocation| c.register_meter(env, id, *owner))
    }

    fn register_meter(&self, id: &Text, owner: &Address) {
        done(self.try_register_meter(id, owner))
    }

    fn transfer_meter_ownership(&self, id: &Text, owner: &Address) {
        done(self.run(&|c: &mut SolarGridContract, env: &Invocation| {
            c.transfer_meter_ownership(env, id, *owner)
        }))
    }

    fn get_meters_by_owner(&self, owner: &Address) -> Vec<Text> {
        done(self.ask(&|c: &mut SolarGridContract, _env: &Invocation| c.get_meters_by_owner(*owner)))
    }

    fn get_all_meters(&self) -> Vec<Meter<Metadata>> {
        done(self.run(&|c: &mut SolarGridContract, env: &Invocation| c.get_all_meters(env)))
    }

    fn get_all_meters_paginated(&self, offset: &u32, limit: &u32) -> Vec<Text> {
        done(self.run(&|c: &mut SolarGridContract, env: &Invocation| {
            c.get_all_meters_paginated(env, *offset, *limit)
        }))
    }

    fn try_get_meter(&self, id: &Text) -> Result<Meter<Metadata>, ContractError> {
        self.ask(&|c: &mut SolarGridContract, _env: &Invocation| c.get_meter(id))
    }

    fn get_meter(&self, id: &Text) -> Meter<Metadata> {
        done(self.try_get_meter(id))
    }

    fn get_meter_balance(&self, id: &Text) -> i128 {
        done(self.ask(&|c: &mut SolarGridContract, _env: &Invocation| c.get_meter_balance(id)))
    }

    fn check_access(&self, id: &Text) -> bool {
        done(self.ask(&|c: &mut SolarGridContract, env: &Invocation| c.check_access(env, id)))
    }

    fn set_oracle(&self, oracle: &Address) {
        done(self.run(&|c: &mut SolarGridContract, env: &Invocation| c.set_oracle(env, *oracle)))
    }

    fn get_oracle(&self) -> Option<Address> {
        done(self.ask(&|c: &mut SolarGridContract, _env: &Invocation| c.get_oracle()))
    }

    fn freeze_contract(&self) {
        done(self.run(&|c: &mut SolarGridContract, env: &Invocation| c.freeze_contract(env)))
    }

    fn try_unfreeze_contract(&self) -> Result<(), ContractError> {
        self.run(&|c: &mut SolarGridContract, env: &Invocation| c.unfreeze_contract(env))
    }

    fn unfreeze_contract(&self) {
        done(self.try_unfreeze_contract())
    }

    fn try_make_payment(
        &self,
        id: &Text,
        payer: &Address,
        amount: &i128,
        plan: &PaymentPlan,
        memo: &Option<Text>,
    ) -> Result<(), ContractError> {
        let mut world = self.env.0.borrow_mut();
        let booked = world.call(&|c: &mut SolarGridContract, env: &Invocation| {
            let memo = memo.as_ref().map(|m| m.clone());
            c.make_payment(env, id, *payer, *amount, *plan, memo)
        });
        let r = match booked {
            Ok(pending) => {
                world.transfer(pending.transfer);
                world.contract.complete_payment(pending);
                Ok(())
            }
            Err(e) => Err(e),
        };
        world.events = world.contract.take_events();
        answer(r)
    }

    fn make_payment(
        &self,
        id: &Text,
        payer: &Address,
        amount: &i128,
        plan: &PaymentPlan,
        memo: &Option<Text>,
    ) {
        done(self.try_make_payment(id, payer, amount, plan, memo))
    }

    fn try_refund_payment(
        &self,
        id: &Text,
        amount: &i128,
        recipient: &Address,
        reason: &Text,
    ) -> Result<(), ContractError> {
        let mut world = self.env.0.borrow_mut();
        let asked = world.call(&|c: &mut SolarGridContract, env: &Invocation| {
            c.refund_payment(env, id, *amount, *recipient, reason.clone())
        });
        let r = match asked {
            Ok(request) => {
                let held = world.holding(request.query.holder);
                match world.contract.refund_with_balance(request, held) {
                    Ok(pending) => {
                        world.transfer(pending.transfer);
                        world.contract.complete_refund(pending);
                        Ok(())
                    }
                    Err(e) => Err(CallError::Contract(e)),
                }
            }
            Err(e) => Err(e),
        };
        world.events = world.contract.take_events();
        answer(r)
    }

    fn refund_payment(&self, id: &Text, amount: &i128, recipient: &Address, reason: &Text) {
        done(self.try_refund_payment(id, amount, recipient, reason))
    }

    fn set_refund_limit(&self, limit: &i128) {
        done(self.run(&|c: &mut SolarGridContract, env: &Invocation| c.set_refund_limit(env, *limit)))
    }

    fn get_payer_refunded(&self, id: &Text, payer: &Address) -> i128 {
        self.env.0.borrow().contract.get_payer_refunded(id, *payer)
    }

    fn try_withdraw_revenue(&self, provider: &Address, amount: &i128) -> Result<(), ContractError> {
        let mut world = self.env.0.borrow_mut();
        let booked = world.call(&|c: &mut SolarGridContract, env: &Invocation| {
            c.withdraw_revenue(env, *provider, *amount)
        });
        let r = match booked {
            Ok(transfer) => {
                world.transfer(transfer);
                world.contract.leave();
                Ok(())
            }
            Err(e) => Err(e),
        };
        world.events = world.contract.take_events();
        answer(r)
    }

    fn withdraw_revenue(&self, provider: &Address, amount: &i128) {
        done(self.try_withdraw_revenue(provider, amount))
    }

    fn get_provider_revenue(&self, provider: &Address) -> i128 {
        done(self.ask(&|c: &mut SolarGridContract, _env: &Invocation| {
            c.get_provider_revenue(*provider)
        }))
    }

    fn admin_withdraw(&self, admin: &Address, amount: &i128) {
        let mut world = self.env.0.borrow_mut();
        let asked = world.call(&|c: &mut SolarGridContract, env: &Invocation| {
            c.admin_withdraw(env, *admin, *amount)
        });
        let r = match asked {
            Ok(pending) => {
                let held = world.holding(pending.query.holder);
                match world.contract.admin_withdraw_with_balance(pending, held) {
                    Ok(transfer) => {
                        world.transfer(transfer);
                        world.contract.leave();
                        Ok(())
                    }
                    Err(e) => Err(CallError::Contract(e)),
                }
            }
            Err(e) => Err(e),
        };
        world.events = world.contract.take_events();
        done(answer(r))
    }

    fn try_emergency_withdraw(&self, to: &Address) -> Result<(), ContractError> {
        let mut world = self.env.0.borrow_mut();
        let asked = world.call(&|c: &mut SolarGridContract, env: &Invocation| {
            c.emergency_withdraw(env, *to)
        });
        let r = match asked {
            Ok(pending) => {
                let held = world.holding(pending.query.holder);
                if let Some(transfer) = world.contract.emergency_withdraw_with_balance(pending, held) {
                    world.transfer(transfer);
                }
                world.contract.leave();
                Ok(())
            }
            Err(e) => Err(e),
        };
        world.events = world.contract.take_events();
        answer(r)
    }

    fn emergency_withdraw(&self, to: &Address) {
        done(self.try_emergency_withdraw(to))
    }

    fn try_update_usage(&self, id: &Text, units: &u64, cost: &i128) -> Result<(), ContractError> {
        self.run(&|c: &mut SolarGridContract, env: &Invocation| {
            c.update_usage(env, id, *units, *cost)
        })
    }

    fn update_usage(&self, id: &Text, units: &u64, cost: &i128) {
        done(self.try_update_usage(id, units, cost))
    }

    fn try_batch_update_usage(
        &self,
        updates: &Vec<(Text, u64, i128)>,
    ) -> Result<Vec<Text>, ContractError> {
        self.run(&|c: &mut SolarGridContract, env: &Invocation| c.batch_update_usage(env, updates))
    }

    fn batch_update_usage(&self, updates: &Vec<(Text, u64, i128)>) -> Vec<Text> {
        done(self.try_batch_update_usage(updates))
    }

    fn try_set_daily_limit(&self, id: &Text, limit: &i128) -> Result<(), ContractError> {
        self.run(&|c: &mut SolarGridContract, env: &Invocation| c.set_daily_limit(env, id, *limit))
    }

    fn set_daily_limit(&self, id: &Text, limit: &i128) {
        done(self.try_set_daily_limit(id, limit))
    }

    fn try_set_active(&self, id: &Text, active: &bool) -> Result<(), ContractError> {
        self.run(&|c: &mut SolarGridContract, env: &Invocation| c.set_active(env, id, *active))
    }

    fn set_active(&self, id: &Text, active: &bool) {
        done(self.try_set_active(id, active))
    }

    fn deactivate_meter(&self, id: &Text) {
        done(self.run(&|c: &mut SolarGridContract, env: &Invocation| c.deactivate_meter(env, id)))
    }

    fn try_batch_deactivate_meters(
        &self,
        ids: &Vec<Text>,
    ) -> Result<BatchDeactivateSummary, ContractError> {
        self.run(&|c: &mut SolarGridContract, env: &Invocation| c.batch_deactivate_meters(env, ids))
    }

    fn batch_deactivate_meters(&self, ids: &Vec<Text>) -> BatchDeactivateSummary {
        done(self.try_batch_deactivate_meters(ids))
    }

    fn try_expire_meter(&self, id: &Text) -> Result<(), ContractError> {
        self.run(&|c: &mut SolarGridContract, env: &Invocation| c.expire_meter(env, id))
    }

    fn expire_meter(&self, id: &Text) {
        done(self.try_expire_meter(id))
    }

    fn migrate_meter(&self, id: &Text) {
        done(self.run(&|c: &mut SolarGridContract, env: &Invocation| c.migrate_meter(env, id)))
    }

    fn try_add_collaborator(&self, who: &Address, share: &u32) -> Result<(), ContractError> {
        self.run(&|c: &mut SolarGridContract, env: &Invocation| c.add_collaborator(env, *who, *share))
    }

    fn add_collaborator(&self, who: &Address, share: &u32) {
        done(self.try_add_collaborator(who, share))
    }

    fn try_remove_collaborator(&self, who: &Address) -> Result<(), ContractError> {
        self.run(&|c: &mut SolarGridContract, env: &Invocation| c.remove_collaborator(env, *who))
    }

    fn remove_collaborator(&self, who: &Address) {
        done(self.try_remove_collaborator(who))
    }

    fn get_collaborators(&self) -> Vec<Address> {
        self.env.0.borrow().contract.get_collaborators()
    }

    fn get_collaborator_share(&self, who: &Address) -> Option<u32> {
        self.env.0.borrow().contract.get_collaborator_share(*who)
    }

    fn get_all_shares(&self) -> Table<Address, u32> {
        self.env.0.borrow().contract.get_all_shares()
    }

    fn try_distribute(&self, amount: &i128) -> Result<Table<Address, i128>, ContractError> {
        self.run(&|c: &mut SolarGridContract, env: &Invocation| c.distribute(env, *amount))
    }

    fn distribute(&self, amount: &i128) -> Table<Address, i128> {
        done(self.try_distribute(amount))
    }
}

/// A contract that is initialised, on a ledger where everybody signs.
fn setup() -> (Env, Client, Address) {
    let env = Env::new();
    let client = Client::new(&env);
    let admin = env.generate();
    client.initialize(&admin, &key(AddressKind::Contract, 2));
    (env, client, admin)
}

fn setup_oracle(env: &Env, client: &Client) -> Address {
    let oracle = env.generate();
    client.set_oracle(&oracle);
    oracle
}

fn allowlist_and_register(client: &Client, meter_id: &Text, user: &Address) {
    client.allowlist_add(user);
    client.register_meter(meter_id, user);
}

fn register_and_fund(env: &Env, client: &Client, meter_id: &Text, amount: i128) {
    let user = env.generate();
    allowlist_and_register(client, meter_id, &user);
    TokenAdmin::new(env).mint(&user, &amount);
    client.make_payment(meter_id, &user, &amount, &PaymentPlan::UsageBased, &None);
}

#[test]
fn test_get_contract_version_matches_cargo_semver_snapshot() {
    let (_env, client, _admin) = setup();
    assert_eq!(
        client.get_contract_version(),
        t(CURRENT_CONTRACT_VERSION)
    );
}

#[test]
fn test_register_and_pay() {
    let (env, client, _admin) = setup();
    let token_admin_client = TokenAdmin::new(&env);
    let token_client = TokenClient::new(&env);
    setup_oracle(&env, &client);

    let user = env.generate();
    let meter_id = t("METER1");

    allowlist_and_register(&client, &meter_id, &user);
    assert!(!client.check_access(&meter_id));

    token_admin_client.mint(&user, &5_000_000_i128);
    client.make_payment(&meter_id, &user, &5_000_000_i128, &PaymentPlan::Daily, &None);
    assert!(client.check_access(&meter_id));
    assert_eq!(token_client.balance(&user), 0);

    client.update_usage(&meter_id, &100_u64, &5_000_000_i128);
    assert!(!client.check_access(&meter_id));
}

#[test]
fn test_make_payment_blocks_reentrancy() {
    let env = Env::new();
    let client = Client::new(&env);
    let admin = env.generate();
    let malicious_token = key(AddressKind::Contract, 2);
    client.initialize(&admin, &malicious_token);

    let user = env.generate();
    let meter_id = t("REENTRY-METER");
    client.allowlist_add(&user);
    client.register_meter(&meter_id, &user);

    // While it moves the tokens, the token tries to pay once more.
    env.0.borrow_mut().intruder = Some(meter_id.clone());

    // The outer payment succeeds exactly once all the same.
    client.make_payment(&meter_id, &user, &1_000_i128, &PaymentPlan::Daily, &None);

    assert_eq!(env.0.borrow().answered, Some(Err(ContractError::ReentrantCall)));
    assert_eq!(client.get_meter_balance(&meter_id), 1_000_i128);
    assert!(client.check_access(&meter_id));
}

#[test]
fn test_register_meter_duplicate_returns_typed_error() {
    let (env, client, _admin) = setup();
    let user = env.generate();
    let meter_id = t("METER2");
    allowlist_and_register(&client, &meter_id, &user);
    assert_eq!(
        client.try_register_meter(&meter_id, &user),
        Err(ContractError::MeterAlreadyExists)
    );
}

#[test]
fn test_initialize_second_call_returns_already_initialized() {
    let (_env, client, admin) = setup();
    assert_eq!(
        client.try_initialize(&admin, &key(AddressKind::Contract, 2)),
        Err(ContractError::AlreadyInitialized)
    );
}

#[test]
fn test_make_payment_zero_amount_returns_typed_error() {
    let (env, client, _admin) = setup();
    let user = env.generate();
    let meter_id = t("METER3");
    allowlist_and_register(&client, &meter_id, &user);
    assert_eq!(
        client.try_make_payment(&meter_id, &user, &0_i128, &PaymentPlan::Daily, &None),
        Err(ContractError::InvalidAmount)
    );
}

#[test]
fn test_make_payment_negative_amount_returns_typed_error() {
    let (env, client, _admin) = setup();
    let user = env.generate();
    let meter_id = t("METER4");
    allowlist_and_register(&client, &meter_id, &user);
    assert_eq!(
        client.try_make_payment(&meter_id, &user, &-1_i128, &PaymentPlan::Daily, &None),
        Err(ContractError::InvalidAmount)
    );
}

#[test]
fn test_update_usage_balance_drains_correctly() {
    let (env, client, _admin) = setup();
    let token_admin_client = TokenAdmin::new(&env);
    setup_oracle(&env, &client);

    let user = env.generate();
    let meter_id = t("METER5");

    allowlist_and_register(&client, &meter_id, &user);
    token_admin_client.mint(&user, &10_000_000_i128);
    client.make_payment(&meter_id, &user, &10_000_000_i128, &PaymentPlan::UsageBased, &None);

    client.update_usage(&meter_id, &50_u64, &4_000_000_i128);
    assert_eq!(client.get_meter_balance(&meter_id), 6_000_000);
    let meter = client.get_meter(&meter_id);
    assert_eq!(meter.units_used, 50);
    assert!(meter.active);

    client.update_usage(&meter_id, &60_u64, &6_000_000_i128);
    assert_eq!(client.get_meter_balance(&meter_id), 0);
    let meter = client.get_meter(&meter_id);
    assert_eq!(meter.units_used, 110);
    assert!(!meter.active);
}

#[test]
#[should_panic(expected = "meter is not active")]
fn test_update_usage_panics_if_meter_inactive() {
    let (env, client, _admin) = setup();
    setup_oracle(&env, &client);

    let user = env.generate();
    let meter_id = t("INACT");

    allowlist_and_register(&client, &meter_id, &user);

    // Meter is registered but no payment made, so it's inactive
    client.update_usage(&meter_id, &50_u64, &100_000_i128);
}

#[test]
fn test_update_usage_huge_cost_clamps_to_zero() {
    let (env, client, _admin) = setup();
    let token_admin_client = TokenAdmin::new(&env);
    setup_oracle(&env, &client);

    let user = env.generate();
    let meter_id = t("METER9");

    allowlist_and_register(&client, &meter_id, &user);
    token_admin_client.mint(&user, &100_i128);
    client.make_payment(&meter_id, &user, &100_i128, &PaymentPlan::UsageBased, &None);

    client.update_usage(&meter_id, &1_u64, &i128::MAX);
    assert_eq!(client.get_meter_balance(&meter_id), 0);
    let meter = client.get_meter(&meter_id);
    assert_eq!(meter.units_used, 1);
    assert!(!meter.active);
}

#[test]
fn test_check_access_false_when_balance_zero() {
    let (env, client, _admin) = setup();
    let token_admin_client = TokenAdmin::new(&env);
    setup_oracle(&env, &client);

    let user = env.generate();
    let meter_id = t("METER7");

    allowlist_and_register(&client, &meter_id, &user);
    assert!(!client.check_access(&meter_id));

    token_admin_client.mint(&user, &2_000_000_i128);
    client.make_payment(&meter_id, &user, &2_000_000_i128, &PaymentPlan::Weekly, &None);
    assert!(client.check_access(&meter_id));

    client.update_usage(&meter_id, &10_u64, &2_000_000_i128);
    assert!(!client.check_access(&meter_id));

    assert_eq!(client.get_meter_balance(&meter_id), 0);
    assert!(!client.get_meter(&meter_id).active);
}

/// Daily plans should auto-expire after 24 hours even with remaining balance.
#[test]
fn test_check_access_false_when_plan_expired() {
    let (env, client, _admin) = setup();
    let token_admin_client = TokenAdmin::new(&env);

    let user = env.generate();
    let meter_id = t("METER9");

    allowlist_and_register(&client, &meter_id, &user);
    token_admin_client.mint(&user, &2_000_000_i128);
    client.make_payment(&meter_id, &user, &2_000_000_i128, &PaymentPlan::Daily, &None);
    assert!(client.check_access(&meter_id));

    let meter = client.get_meter(&meter_id);
    env.set_time(meter.expires_at);
    assert!(!client.check_access(&meter_id));
}

#[test]
fn test_check_access_false_when_weekly_plan_expired() {
    let (env, client, _admin) = setup();
    let token_admin_client = TokenAdmin::new(&env);

    let user = env.generate();
    let meter_id = t("WK_EXP");

    allowlist_and_register(&client, &meter_id, &user);
    token_admin_client.mint(&user, &5_000_000_i128);
    client.make_payment(&meter_id, &user, &5_000_000_i128, &PaymentPlan::Weekly, &None);
    assert!(client.check_access(&meter_id));

    let meter = client.get_meter(&meter_id);
    assert_eq!(meter.expires_at - meter.last_payment, SECONDS_PER_WEEK);

    env.set_time(meter.expires_at);
    assert!(!client.check_access(&meter_id));
}

#[test]
fn test_usage_based_plan_never_expires_by_time() {
    let (env, client, _admin) = setup();
    let token_admin_client = TokenAdmin::new(&env);

    let user = env.generate();
    let meter_id = t("UB_EXP");

    allowlist_and_register(&client, &meter_id, &user);
    token_admin_client.mint(&user, &1_000_i128);
    client.make_payment(&meter_id, &user, &1_000_i128, &PaymentPlan::UsageBased, &None);

    let meter = client.get_meter(&meter_id);
    assert_eq!(meter.expires_at, u64::MAX);

    env.set_time(u64::MAX - 1);
    assert!(client.check_access(&meter_id));
}

#[test]
fn test_renewal_resets_expiry_and_restores_access() {
    let (env, client, _admin) = setup();
    let token_admin_client = TokenAdmin::new(&env);

    let user = env.generate();
    let meter_id = t("RENEW");

    allowlist_and_register(&client, &meter_id, &user);
    token_admin_client.mint(&user, &4_000_000_i128);
    client.make_payment(&meter_id, &user, &2_000_000_i128, &PaymentPlan::Daily, &None);

    let meter = client.get_meter(&meter_id);
    env.set_time(meter.expires_at);
    assert!(!client.check_access(&meter_id));

    client.make_payment(&meter_id, &user, &2_000_000_i128, &PaymentPlan::Daily, &None);
    assert!(client.check_access(&meter_id));

    let renewed = client.get_meter(&meter_id);
    assert!(renewed.expires_at > meter.expires_at);
}

#[test]
fn test_register_meter_owner_not_allowlisted_returns_typed_error() {
    let (env, client, _admin) = setup();
    let user = env.generate();
    let meter_id = t("METER8");
    assert_eq!(
        client.try_register_meter(&meter_id, &user),
        Err(ContractError::Unauthorized)
    );
}

/// allowlist_add / allowlist_remove round-trip.
#[test]
fn test_allowlist_add_remove() {
    let (env, client, _admin) = setup();
    let user = env.generate();

    assert!(!client.get_allowlist().contains(&user));

    client.allowlist_add(&user);
    assert!(client.get_allowlist().contains(&user));

    client.allowlist_remove(&user);
    assert!(!client.get_allowlist().contains(&user));
}

/// Adding the same address twice should not duplicate it.
#[test]
fn test_allowlist_no_duplicates() {
    let (env, client, _admin) = setup();
    let user = env.generate();

    client.allowlist_add(&user);
    client.allowlist_add(&user);

    let list = client.get_allowlist();
    let count = list.iter().filter(|a| **a == user).count();
    assert_eq!(count, 1);
}

/// Removing an address that was never added is a no-op.
#[test]
fn test_allowlist_remove_nonexistent_is_noop() {
    let (env, client, _admin) = setup();
    let user = env.generate();
    // Should not panic
    client.allowlist_remove(&user);
    assert!(!client.get_allowlist().contains(&user));
}

#[test]
fn test_withdraw_revenue_tracks_and_withdraws_provider_balance() {
    let (env, client, admin) = setup();
    let token_admin_client = TokenAdmin::new(&env);
    let token_client = TokenClient::new(&env);

    let user = env.generate();
    let meter_id = t("METER9");
    allowlist_and_register(&client, &meter_id, &user);

    token_admin_client.mint(&user, &5_000_000_i128);
    client.make_payment(&meter_id, &user, &5_000_000_i128, &PaymentPlan::Daily, &None);

    assert_eq!(client.get_provider_revenue(&admin), 5_000_000_i128);
    assert_eq!(token_client.balance(&client.address), 5_000_000_i128);

    client.withdraw_revenue(&admin, &2_000_000_i128);
    assert_eq!(client.get_provider_revenue(&admin), 3_000_000_i128);
    assert_eq!(token_client.balance(&client.address), 3_000_000_i128);
    assert_eq!(token_client.balance(&admin), 2_000_000_i128);
}

#[test]
fn test_withdraw_revenue_returns_insufficient_balance_error() {
    let (env, client, admin) = setup();
    let user = env.generate();
    let meter_id = t("METR10");
    allowlist_and_register(&client, &meter_id, &user);
    assert_eq!(
        client.try_withdraw_revenue(&admin, &1_i128),
        Err(ContractError::InsufficientBalance)
    );
}

#[test]
fn test_admin_withdraw_authorized() {
    let (env, client, admin) = setup();
    let token_admin_client = TokenAdmin::new(&env);
    let token_client = TokenClient::new(&env);

    token_admin_client.mint(&client.address, &1000_i128);
    client.admin_withdraw(&admin, &500_i128);

    assert_eq!(token_client.balance(&admin), 500_i128);
    assert_eq!(token_client.balance(&client.address), 500_i128);
}

#[test]
#[should_panic(expected = "unauthorized")]
fn test_admin_withdraw_unauthorized() {
    let (env, client, _admin) = setup();
    let token_admin_client = TokenAdmin::new(&env);

    token_admin_client.mint(&client.address, &1000_i128);
    let fake_admin = env.generate();
    client.admin_withdraw(&fake_admin, &500_i128);
}

#[test]
#[should_panic(expected = "insufficient balance")]
fn test_admin_withdraw_insufficient_balance() {
    let (env, client, admin) = setup();
    let token_admin_client = TokenAdmin::new(&env);

    token_admin_client.mint(&client.address, &500_i128);
    client.admin_withdraw(&admin, &1000_i128);
}

#[test]
fn test_update_usage_exact_balance_deactivates_meter() {
    let (env, client, _admin) = setup();
    let token_admin_client = TokenAdmin::new(&env);
    setup_oracle(&env, &client);

    let user = env.generate();
    let meter_id = t("EXACT");

    allowlist_and_register(&client, &meter_id, &user);
    token_admin_client.mint(&user, &5_000_000_i128);
    client.make_payment(&meter_id, &user, &5_000_000_i128, &PaymentPlan::UsageBased, &None);

    client.update_usage(&meter_id, &1_u64, &5_000_000_i128);
    assert_eq!(
        client.get_meter_balance(&meter_id),
        0,
        "balance should be 0"
    );
    assert!(
        !client.get_meter(&meter_id).active,
        "meter should be deactivated when balance hits 0"
    );
}

#[test]
fn test_set_active_true_returns_cannot_activate_without_balance_error() {
    let (env, client, _admin) = setup();
    let user = env.generate();
    let meter_id = t("ZERO_BAL");
    allowlist_and_register(&client, &meter_id, &user);
    assert_eq!(
        client.try_set_active(&meter_id, &true),
        Err(ContractError::CannotActivateWithoutBalance)
    );
}

#[test]
fn test_event_meter_registered() {
    let (env, client, _admin) = setup();
    let user = env.generate();
    let meter_id = t("EV_REG");

    client.allowlist_add(&user);
    client.register_meter(&meter_id, &user);

    let found = env.published("mtr_reg", &meter_id);
    assert!(found, "meter registered event not emitted");
}

#[test]
fn test_event_payment_received_and_meter_activated() {
    let (env, client, _admin) = setup();
    let token_admin_client = TokenAdmin::new(&env);
    let user = env.generate();
    let meter_id = t("EV_PMT");

    allowlist_and_register(&client, &meter_id, &user);
    token_admin_client.mint(&user, &1_000_000_i128);
    client.make_payment(&meter_id, &user, &1_000_000_i128, &PaymentPlan::Daily, &None);

    let has_pmt = env.published("payment", &meter_id);
    let has_actv = env.published("mtr_actv", &meter_id);
    assert!(has_pmt, "payment event not emitted");
    assert!(has_actv, "mtr_actv event not emitted");
}

#[test]
fn test_event_usage_updated_and_meter_deactivated() {
    let (env, client, _admin) = setup();
    let token_admin_client = TokenAdmin::new(&env);
    setup_oracle(&env, &client);
    let user = env.generate();
    let meter_id = t("EV_USG");

    allowlist_and_register(&client, &meter_id, &user);
    token_admin_client.mint(&user, &500_i128);
    client.make_payment(&meter_id, &user, &500_i128, &PaymentPlan::UsageBased, &None);

    client.update_usage(&meter_id, &10_u64, &500_i128);

    let has_usg = env.published("usg_upd", &meter_id);
    let has_deact = env.published("mtr_deact", &meter_id);
    assert!(has_usg, "usage event not emitted");
    assert!(has_deact, "mtr_deact event not emitted on balance drain");
}

#[test]
fn test_event_meter_deactivated_via_set_active() {
    let (env, client, _admin) = setup();
    let token_admin_client = TokenAdmin::new(&env);
    let user = env.generate();
    let meter_id = t("EV_SET");

    allowlist_and_register(&client, &meter_id, &user);
    token_admin_client.mint(&user, &1_000_i128);
    client.make_payment(&meter_id, &user, &1_000_i128, &PaymentPlan::Daily, &None);

    client.set_active(&meter_id, &false);

    let has_deact = env.published("mtr_deact", &meter_id);
    assert!(
        has_deact,
        "mtr_deact event not emitted by set_active(false)"
    );
}

#[test]
fn test_event_meter_ownership_transferred() {
    let (env, client, _admin) = setup();
    let old_owner = env.generate();
    let new_owner = env.generate();
    let meter_id = t("EV_XFR");

    allowlist_and_register(&client, &meter_id, &old_owner);
    client.allowlist_add(&new_owner);
    client.transfer_meter_ownership(&meter_id, &new_owner);

    let found = env.published("mtr_xfer", &meter_id)
        && env.0.borrow().events.iter().any(|e| {
            matches!(e, Event::OwnershipTransferred { new_owner: to, .. } if *to == new_owner)
        });
    assert!(found, "mtr_xfer event with new owner not emitted");
    assert_eq!(client.get_meter(&meter_id).owner, new_owner);
}

/// register 3 meters for the same owner - get_meters_by_owner returns all 3.
#[test]
fn test_get_meters_by_owner_returns_all() {
    let (env, client, _admin) = setup();
    let user = env.generate();
    let ids = [
        t("OWN_A"),
        t("OWN_B"),
        t("OWN_C"),
    ];

    client.allowlist_add(&user);
    for id in &ids {
        client.register_meter(id, &user);
    }

    let meters = client.get_meters_by_owner(&user);
    assert_eq!(meters.len(), 3);
    for id in &ids {
        assert!(meters.contains(id));
    }
}

/// get_all_meters returns all registered meters across all owners.
#[test]
fn test_get_all_meters_returns_all_registered() {
    let (env, client, _admin) = setup();
    let user1 = env.generate();
    let user2 = env.generate();
    let ids = [
        t("ALL_1"),
        t("ALL_2"),
        t("ALL_3"),
        t("ALL_4"),
        t("ALL_5"),
        t("ALL_6"),
        t("ALL_7"),
        t("ALL_8"),
        t("ALL_9"),
        t("ALL_A"),
        t("ALL_B"),
    ];

    client.allowlist_add(&user1);
    client.allowlist_add(&user2);
    for (i, id) in ids.iter().enumerate() {
        let owner = if i < 6 { &user1 } else { &user2 };
        client.register_meter(id, owner);
    }

    let all_meters = client.get_all_meters();
    assert_eq!(all_meters.len(), 11);
    for meter in all_meters.iter() {
        assert!(!meter.active);
        assert_eq!(meter.units_used, 0);
    }
}

/// get_all_meters_paginated returns first page of meter IDs.
#[test]
fn test_get_all_meters_paginated_first_page() {
    let (env, client, _admin) = setup();
    let user = env.generate();
    let ids = [
        t("PAG_1"),
        t("PAG_2"),
        t("PAG_3"),
        t("PAG_4"),
        t("PAG_5"),
        t("PAG_6"),
        t("PAG_7"),
        t("PAG_8"),
        t("PAG_9"),
        t("PAG_A"),
    ];

    client.allowlist_add(&user);
    for id in ids.iter() {
        client.register_meter(id, &user);
    }

    // Get first 3 meter IDs
    let page = client.get_all_meters_paginated(&0_u32, &3_u32);
    assert_eq!(page.len(), 3);
    for (i, meter_id) in page.iter().enumerate() {
        assert_eq!(meter_id, &ids[i]);
    }
}

/// get_all_meters_paginated returns middle page of meter IDs.
#[test]
fn test_get_all_meters_paginated_middle_page() {
    let (env, client, _admin) = setup();
    let user = env.generate();
    let ids = [
        t("MID_1"),
        t("MID_2"),
        t("MID_3"),
        t("MID_4"),
        t("MID_5"),
        t("MID_6"),
        t("MID_7"),
        t("MID_8"),
        t("MID_9"),
        t("MID_A"),
    ];

    client.allowlist_add(&user);
    for id in ids.iter() {
        client.register_meter(id, &user);
    }

    // Get middle page (offset 4, limit 3)
    let page = client.get_all_meters_paginated(&4_u32, &3_u32);
    assert_eq!(page.len(), 3);
    for (i, meter_id) in page.iter().enumerate() {
        assert_eq!(meter_id, &ids[4 + i]);
    }
}

/// get_all_meters_paginated returns last page with partial results.
#[test]
fn test_get_all_meters_paginated_last_page() {
    let (env, client, _admin) = setup();
    let user = env.generate();
    let ids = [
        t("LST_1"),
        t("LST_2"),
        t("LST_3"),
        t("LST_4"),
        t("LST_5"),
        t("LST_6"),
        t("LST_7"),
        t("LST_8"),
        t("LST_9"),
        t("LST_A"),
    ];

    client.allowlist_add(&user);
    for id in ids.iter() {
        client.register_meter(id, &user);
    }

    // Get last page (offset 8, limit 5) - only 2 results available
    let page = client.get_all_meters_paginated(&8_u32, &5_u32);
    assert_eq!(page.len(), 2);
    assert_eq!(page.get(0), Some(&ids[8]));
    assert_eq!(page.get(1), Some(&ids[9]));
}

/// get_all_meters_paginated returns empty vec when offset exceeds total count.
#[test]
fn test_get_all_meters_paginated_offset_exceeds_count() {
    let (env, client, _admin) = setup();
    let user = env.generate();
    let ids = [
        t("OOB_1"),
        t("OOB_2"),
        t("OOB_3"),
    ];

    client.allowlist_add(&user);
    for id in ids.iter() {
        client.register_meter(id, &user);
    }

    // Offset beyond the 3 meters
    let page = client.get_all_meters_paginated(&5_u32, &10_u32);
    assert_eq!(page.len(), 0);
}

/// Snapshot: offset=9999 on a 3-meter contract must return an empty page, not panic.
#[test]
fn test_get_all_meters_paginated_offset_9999_empty_page() {
    let (env, client, _admin) = setup();
    let user = env.generate();
    let ids = [
        t("O999_1"),
        t("O999_2"),
        t("O999_3"),
    ];

    client.allowlist_add(&user);
    for id in ids.iter() {
        client.register_meter(id, &user);
    }

    let page = client.get_all_meters_paginated(&9999_u32, &10_u32);
    assert_eq!(page.len(), 0);
}

/// get_all_meters_paginated caps limit at 100 to prevent overruns.
#[test]
fn test_get_all_meters_paginated_limit_capped_at_100() {
    let (env, client, _admin) = setup();
    let user = env.generate();

    // Register 20 meters to test the capping behavior
    let ids = [
        t("CAP_01"),
        t("CAP_02"),
        t("CAP_03"),
        t("CAP_04"),
        t("CAP_05"),
        t("CAP_06"),
        t("CAP_07"),
        t("CAP_08"),
        t("CAP_09"),
        t("CAP_10"),
        t("CAP_11"),
        t("CAP_12"),
        t("CAP_13"),
        t("CAP_14"),
        t("CAP_15"),
        t("CAP_16"),
        t("CAP_17"),
        t("CAP_18"),
        t("CAP_19"),
        t("CAP_20"),
    ];

    client.allowlist_add(&user);
    for id in ids.iter() {
        client.register_meter(id, &user);
    }

    // Request with limit 200, should be capped at 100
    // Since we only have 20 meters, we should get all 20
    let page = client.get_all_meters_paginated(&0_u32, &200_u32);
    assert_eq!(page.len(), 20);
}

/// get_all_meters_paginated with offset 0 and large limit gets first page.
#[test]
fn test_get_all_meters_paginated_offset_zero() {
    let (env, client, _admin) = setup();
    let user = env.generate();
    let ids = [
        t("OFF0_1"),
        t("OFF0_2"),
        t("OFF0_3"),
        t("OFF0_4"),
        t("OFF0_5"),
    ];

    client.allowlist_add(&user);
    for id in ids.iter() {
        client.register_meter(id, &user);
    }

    // Get first 5 with offset 0
    let page = client.get_all_meters_paginated(&0_u32, &10_u32);
    assert_eq!(page.len(), 5);
    for (i, meter_id) in page.iter().enumerate() {
        assert_eq!(meter_id, &ids[i]);
    }
}

/// get_all_meters_paginated with empty contract returns empty vec.
#[test]
fn test_get_all_meters_paginated_empty_contract() {
    let (_env, client, _admin) = setup();
    let page = client.get_all_meters_paginated(&0_u32, &10_u32);
    assert_eq!(page.len(), 0);
}

#[test]
fn test_event_meter_activated_via_set_active() {
    let (env, client, _admin) = setup();
    let token_admin_client = TokenAdmin::new(&env);
    let user = env.generate();
    let meter_id = t("EV_ON");

    allowlist_and_register(&client, &meter_id, &user);
    token_admin_client.mint(&user, &1_000_i128);
    client.make_payment(&meter_id, &user, &1_000_i128, &PaymentPlan::Daily, &None);
    client.set_active(&meter_id, &false);

    client.set_active(&meter_id, &true);

    let has_actv = env.published("mtr_actv", &meter_id);
    assert!(has_actv, "mtr_actv event not emitted by set_active(true)");
}

#[test]
fn test_batch_update_usage_single() {
    let (env, client, _admin) = setup();
    setup_oracle(&env, &client);
    let m1 = t("B1_M1");
    register_and_fund(&env, &client, &m1, 10_000_i128);

    let failed = client.batch_update_usage(&vec![(m1.clone(), 10_u64, 3_000_i128)]);
    assert_eq!(failed.len(), 0, "Expected no failed meters");

    assert_eq!(client.get_meter_balance(&m1), 7_000);
    assert_eq!(client.get_meter(&m1).units_used, 10);
    assert!(client.get_meter(&m1).active);
}

#[test]
fn test_batch_update_usage_five_meters() {
    let (env, client, _admin) = setup();
    setup_oracle(&env, &client);
    let ids = [
        t("B5_M1"),
        t("B5_M2"),
        t("B5_M3"),
        t("B5_M4"),
        t("B5_M5"),
    ];
    for id in ids.iter() {
        register_and_fund(&env, &client, id, 10_000_i128);
    }

    let mut updates: Vec<(Text, u64, i128)> = Vec::new();
    for id in ids.iter() {
        updates.push((id.clone(), 5_u64, 1_000_i128));
    }
    let failed = client.batch_update_usage(&updates);
    assert_eq!(failed.len(), 0, "Expected no failed meters");

    for id in ids.iter() {
        assert_eq!(client.get_meter_balance(id), 9_000);
        assert_eq!(client.get_meter(id).units_used, 5);
    }
}

#[test]
fn test_batch_update_usage_twenty_meters() {
    let (env, client, _admin) = setup();
    setup_oracle(&env, &client);
    let ids = [
        t("B20M1"),
        t("B20M2"),
        t("B20M3"),
        t("B20M4"),
        t("B20M5"),
        t("B20M6"),
        t("B20M7"),
        t("B20M8"),
        t("B20M9"),
        t("B20MA"),
        t("B20MB"),
        t("B20MC"),
        t("B20MD"),
        t("B20ME"),
        t("B20MF"),
        t("B20MG"),
        t("B20MH"),
        t("B20MI"),
        t("B20MJ"),
        t("B20MK"),
    ];
    for id in ids.iter() {
        register_and_fund(&env, &client, id, 5_000_i128);
    }

    let mut updates: Vec<(Text, u64, i128)> = Vec::new();
    for id in ids.iter() {
        updates.push((id.clone(), 2_u64, 500_i128));
    }
    let failed = client.batch_update_usage(&updates);
    assert_eq!(failed.len(), 0, "Expected no failed meters");

    for id in ids.iter() {
        assert_eq!(client.get_meter_balance(id), 4_500);
        assert_eq!(client.get_meter(id).units_used, 2);
    }
}

#[test]
fn test_batch_update_usage_drains_and_deactivates() {
    let (env, client, _admin) = setup();
    setup_oracle(&env, &client);
    let m1 = t("BD_M1");
    let m2 = t("BD_M2");
    register_and_fund(&env, &client, &m1, 1_000_i128);
    register_and_fund(&env, &client, &m2, 5_000_i128);

    client.batch_update_usage(&vec![(m1.clone(), 1_u64, 1_000_i128),
        (m2.clone(), 1_u64, 500_i128),
    ]);

    assert_eq!(client.get_meter_balance(&m1), 0);
    assert!(!client.get_meter(&m1).active);
    assert_eq!(client.get_meter_balance(&m2), 4_500);
    assert!(client.get_meter(&m2).active);
}

#[test]
fn test_batch_update_usage_skips_invalid_meter() {
    let (env, client, _admin) = setup();
    setup_oracle(&env, &client);
    let valid = t("BS_V1");
    let invalid = t("BS_BAD");
    register_and_fund(&env, &client, &valid, 5_000_i128);

    let failed = client.batch_update_usage(&vec![(invalid.clone(), 1_u64, 100_i128),
        (valid.clone(), 2_u64, 200_i128),
    ]);

    // Verify the invalid meter is in the failure list
    assert_eq!(failed.len(), 1);
    assert_eq!(failed[0], invalid);

    // Verify the valid meter was processed successfully
    assert_eq!(client.get_meter_balance(&valid), 4_800);
    assert_eq!(client.get_meter(&valid).units_used, 2);

    let skipped = env.published_at(0, "btch_skip");
    assert!(skipped, "batch_skip event not emitted for invalid meter");
}

#[test]
fn test_batch_update_usage_rejects_oversized_batch() {
    let (env, client, _admin) = setup();
    setup_oracle(&env, &client);
    let meter_id = t("OVER");
    register_and_fund(&env, &client, &meter_id, 1_000_000_i128);

    let mut updates: Vec<(Text, u64, i128)> = Vec::new();
    // Create 51 unique meter IDs using symbol_short with different names
    let ids = [
        t("M0"),
        t("M1"),
        t("M2"),
        t("M3"),
        t("M4"),
        t("M5"),
        t("M6"),
        t("M7"),
        t("M8"),
        t("M9"),
        t("MA"),
        t("MB"),
        t("MC"),
        t("MD"),
        t("ME"),
        t("MF"),
        t("MG"),
        t("MH"),
        t("MI"),
        t("MJ"),
        t("MK"),
        t("ML"),
        t("MM"),
        t("MN"),
        t("MO"),
        t("MP"),
        t("MQ"),
        t("MR"),
        t("MS"),
        t("MT"),
        t("MU"),
        t("MV"),
        t("MW"),
        t("MX"),
        t("MY"),
        t("MZ"),
        t("N0"),
        t("N1"),
        t("N2"),
        t("N3"),
        t("N4"),
        t("N5"),
        t("N6"),
        t("N7"),
        t("N8"),
        t("N9"),
        t("NA"),
        t("NB"),
        t("NC"),
        t("ND"),
        t("NE"),
    ];
    for id in ids.iter() {
        updates.push((id.clone(), 1_u64, 100_i128));
    }
    let result = client.try_batch_update_usage(&updates);
    assert_eq!(result, Err(ContractError::BatchTooLarge));
}

/// batch_update_usage returns the ids of the updates it could not apply.
#[test]
fn test_batch_update_usage_returns_failed_meter_ids() {
    let (env, client, _admin) = setup();
    let token_admin_client = TokenAdmin::new(&env);
    setup_oracle(&env, &client);

    // Register and fund three valid meters
    let meter_valid1 = t("BF_V1");
    let meter_valid2 = t("BF_V2");
    let meter_valid3 = t("BF_V3");
    let user1 = env.generate();
    let user2 = env.generate();
    let user3 = env.generate();

    allowlist_and_register(&client, &meter_valid1, &user1);
    token_admin_client.mint(&user1, &5_000_i128);
    client.make_payment(&meter_valid1, &user1, &5_000_i128, &PaymentPlan::UsageBased, &None);

    allowlist_and_register(&client, &meter_valid2, &user2);
    token_admin_client.mint(&user2, &5_000_i128);
    client.make_payment(&meter_valid2, &user2, &5_000_i128, &PaymentPlan::UsageBased, &None);

    allowlist_and_register(&client, &meter_valid3, &user3);
    token_admin_client.mint(&user3, &1_000_i128);
    client.make_payment(&meter_valid3, &user3, &1_000_i128, &PaymentPlan::UsageBased, &None);

    // Deactivate the third valid meter
    client.deactivate_meter(&meter_valid3);

    // Create batch with: invalid1, valid1, valid3(deactivated), invalid2, valid2
    let meter_invalid1 = t("BF_INV1");
    let meter_invalid2 = t("BF_INV2");

    let updates = vec![
        (meter_invalid1.clone(), 1_u64, 100_i128), // missing meter
        (meter_valid1.clone(), 1_u64, 500_i128),   // valid
        (meter_valid3.clone(), 1_u64, 100_i128),   // deactivated
        (meter_invalid2.clone(), 1_u64, 100_i128), // missing meter
        (meter_valid2.clone(), 1_u64, 500_i128),   // valid
    ];

    let failed = client.batch_update_usage(&updates);

    // Verify failed list contains both invalid meters and the deactivated meter
    assert_eq!(
        failed.len(),
        3,
        "Expected 3 failed meters (2 missing + 1 deactivated)"
    );

    // Check that all expected failures are present
    let mut found_invalid1 = false;
    let mut found_invalid2 = false;
    let mut found_valid3 = false;
    for fail_id in failed.iter() {
        if *fail_id == meter_invalid1 {
            found_invalid1 = true;
        } else if *fail_id == meter_invalid2 {
            found_invalid2 = true;
        } else if *fail_id == meter_valid3 {
            found_valid3 = true;
        }
    }
    assert!(found_invalid1, "meter_invalid1 should be in failed list");
    assert!(found_invalid2, "meter_invalid2 should be in failed list");
    assert!(
        found_valid3,
        "meter_valid3 (deactivated) should be in failed list"
    );

    // Verify valid meters were processed successfully
    assert_eq!(client.get_meter_balance(&meter_valid1), 4_500);
    assert_eq!(client.get_meter(&meter_valid1).units_used, 1);

    assert_eq!(client.get_meter_balance(&meter_valid2), 4_500);
    assert_eq!(client.get_meter(&meter_valid2).units_used, 1);

    // Verify deactivated meter was not modified
    assert_eq!(client.get_meter_balance(&meter_valid3), 1_000);
    assert_eq!(client.get_meter(&meter_valid3).units_used, 0);
}

/// set_oracle stores the address; get_oracle returns it.
#[test]
fn test_set_and_get_oracle() {
    let (env, client, _admin) = setup();
    assert_eq!(client.get_oracle(), None);
    let oracle = env.generate();
    client.set_oracle(&oracle);
    assert_eq!(client.get_oracle(), Some(oracle));
}

/// update_usage is refused with OracleNotSet when no oracle is registered.
#[test]
fn test_update_usage_panics_when_oracle_not_set() {
    let (env, client, _admin) = setup();
    let token_admin_client = TokenAdmin::new(&env);
    let user = env.generate();
    let meter_id = t("ORC_NS");
    allowlist_and_register(&client, &meter_id, &user);
    token_admin_client.mint(&user, &1_000_i128);
    client.make_payment(&meter_id, &user, &1_000_i128, &PaymentPlan::UsageBased, &None);

    let result = client.try_update_usage(&meter_id, &10_u64, &100_i128);
    assert_eq!(result, Err(ContractError::OracleNotSet));
}

/// Only the registered oracle can call update_usage; admin alone is not enough.
#[test]
fn test_update_usage_succeeds_with_registered_oracle() {
    let (env, client, _admin) = setup();
    let token_admin_client = TokenAdmin::new(&env);
    setup_oracle(&env, &client);
    let user = env.generate();
    let meter_id = t("ORC_OK");
    allowlist_and_register(&client, &meter_id, &user);
    token_admin_client.mint(&user, &1_000_i128);
    client.make_payment(&meter_id, &user, &1_000_i128, &PaymentPlan::UsageBased, &None);

    client.update_usage(&meter_id, &5_u64, &200_i128);
    assert_eq!(client.get_meter_balance(&meter_id), 800);
    assert_eq!(client.get_meter(&meter_id).units_used, 5);
}

/// batch_update_usage is refused with OracleNotSet when no oracle is registered.
#[test]
fn test_batch_update_usage_panics_when_oracle_not_set() {
    let (env, client, _admin) = setup();
    let meter_id = t("BON_NS");
    register_and_fund(&env, &client, &meter_id, 1_000_i128);

    let result =
        client.try_batch_update_usage(&vec![(meter_id.clone(), 1_u64, 100_i128)]);
    assert_eq!(result, Err(ContractError::OracleNotSet));
}

#[test]
fn test_get_meter_existing_and_missing() {
    let (env, client, _admin) = setup();
    let user = env.generate();
    let meter_id = t("EXISTING");

    allowlist_and_register(&client, &meter_id, &user);

    let existing = client.get_meter(&meter_id);
    assert_eq!(existing.owner, user);

    let missing_id = t("MISSING");
    let result = client.try_get_meter(&missing_id).map(|_| ());
    assert_eq!(result, Err(ContractError::MeterNotFound));
}

/// Calling an admin function on an uninitialized contract returns NotInitialized.
#[test]
fn test_admin_fn_on_uninitialized_contract_returns_not_initialized() {
    let env = Env::new();
    let client = Client::new(&env);
    // Contract is not initialized - set_active should return NotInitialized
    let result = client.try_set_active(&t("UNINIT"), &true);
    assert_eq!(result, Err(ContractError::NotInitialized));
}

#[test]
fn test_initialize_returns_already_initialized_on_second_call() {
    let env = Env::new();
    let client = Client::new(&env);
    let admin = env.generate();
    let token_address = key(AddressKind::Contract, 2);

    client.initialize(&admin, &token_address);

    let result = client.try_initialize(&admin, &token_address);
    assert_eq!(result, Err(ContractError::AlreadyInitialized));
}

/// initialize must be signed by the admin being set - any other caller is rejected.
#[test]
fn test_initialize_requires_admin_auth() {
    let env = Env::new();
    // Nobody signs anything.
    env.0.borrow_mut().everybody_signs = false;
    let admin = env.generate();
    let token_address = key(AddressKind::Contract, 2);

    let result = env.0.borrow_mut().call(&|c: &mut SolarGridContract, call: &Invocation| {
        c.initialize(call, admin, token_address)
    });
    assert!(result.is_err());
    assert_eq!(result, Err(CallError::MissingAuth(admin)));
}

#[test]
fn test_get_meter_returns_meter_not_found_for_unknown_meter() {
    let (_env, client, _admin) = setup();
    let result = client.try_get_meter(&t("MISS_MTR"));
    assert!(matches!(result, Err(ContractError::MeterNotFound)));
}

#[test]
fn test_withdraw_revenue_returns_unauthorized_for_non_admin() {
    let (env, client, _admin) = setup();
    let provider = env.generate();
    let result = client.try_withdraw_revenue(&provider, &1_i128);
    assert_eq!(result, Err(ContractError::Unauthorized));
}

/// Simulate a v0->v1 struct upgrade: write a LegacyMeter directly into storage,
/// call migrate_meter, then verify the entry reads back as a valid v1 Meter.
#[test]
fn test_migrate_meter_upgrades_legacy_entry() {
    let (env, client, _admin) = setup();
    let meter_id = t("MIG_V0");
    let owner = env.generate();

    // Write a LegacyMeter (v0) directly into persistent storage, bypassing register_meter.
    let legacy = LegacyMeter {
        owner: owner.clone(),
        active: true,
        balance: 5_000_i128,
        units_used: 42,
        plan: PaymentPlan::UsageBased,
        last_payment: 1_000,
        expires_at: u64::MAX,
    };
    env.0.borrow_mut().contract.meters.set(meter_id.clone(), StoredMeter::V0(legacy));

    // Run the migration.
    client.migrate_meter(&meter_id);

    // The entry should now deserialize as a v2 Meter.
    let meter = client.get_meter(&meter_id);
    assert_eq!(meter.version, 2);
    assert_eq!(meter.owner, owner);
    assert!(meter.active);
    assert_eq!(meter.units_used, 42);
    assert_eq!(meter.plan, PaymentPlan::UsageBased);
    assert_eq!(meter.last_payment, 1_000);
    assert_eq!(meter.expires_at, u64::MAX);
}

/// Calling migrate_meter on an already-migrated v2 meter is idempotent.
#[test]
fn test_migrate_meter_idempotent_on_v2() {
    let (env, client, _admin) = setup();
    let user = env.generate();
    let meter_id = t("MIG_IDP");

    // Register creates a v2 meter.
    allowlist_and_register(&client, &meter_id, &user);
    let before = client.get_meter(&meter_id);
    assert_eq!(before.version, 2);

    // Calling migrate_meter again must succeed and leave the entry unchanged.
    client.migrate_meter(&meter_id);
    let after = client.get_meter(&meter_id);
    assert_eq!(after.version, 2);
    assert_eq!(after.owner, before.owner);
    assert_eq!(after.units_used, before.units_used);
}

/// get_all_shares returns the full map in one call.
#[test]
fn test_get_all_shares_single_call() {
    let (env, client, _admin) = setup();

    let alice = env.generate();
    let bob = env.generate();

    client.add_collaborator(&alice, &6_000_u32); // 60%
    client.add_collaborator(&bob, &4_000_u32); // 40%

    let shares = client.get_all_shares();
    assert_eq!(*shares.get(&alice).unwrap(), 6_000);
    assert_eq!(*shares.get(&bob).unwrap(), 4_000);

    // get_collaborators preserves insertion order
    let collabs = client.get_collaborators();
    assert_eq!(collabs[0], alice);
    assert_eq!(collabs[1], bob);
}

/// distribute splits amount proportionally using insertion-ordered Vec.
#[test]
fn test_distribute_proportional() {
    let (env, client, _admin) = setup();

    let alice = env.generate();
    let bob = env.generate();

    client.add_collaborator(&alice, &7_500_u32); // 75%
    client.add_collaborator(&bob, &2_500_u32); // 25%

    let payouts = client.distribute(&10_000_000_i128);
    assert_eq!(*payouts.get(&alice).unwrap(), 7_500_000);
    assert_eq!(*payouts.get(&bob).unwrap(), 2_500_000);
}

/// Adding a duplicate collaborator should return CollaboratorAlreadyExists error.
#[test]
fn test_add_collaborator_duplicate_returns_typed_error() {
    let (env, client, _admin) = setup();
    let alice = env.generate();
    client.add_collaborator(&alice, &5_000_u32);
    let result = client.try_add_collaborator(&alice, &5_000_u32);
    assert_eq!(result, Err(ContractError::CollaboratorAlreadyExists));
}

/// Total shares exceeding 100% should return InvalidAmount error.
#[test]
fn test_add_collaborator_overflow_returns_typed_error() {
    let (env, client, _admin) = setup();
    let alice = env.generate();
    let bob = env.generate();
    client.add_collaborator(&alice, &6_000_u32);
    let result = client.try_add_collaborator(&bob, &5_000_u32); // 60 + 50 > 100%
    assert_eq!(result, Err(ContractError::InvalidAmount));
}

/// Daily plan sets expires_at = now + 86400.
#[test]
fn test_plan_duration_daily_sets_correct_expiry() {
    let (env, client, _admin) = setup();
    let token_admin_client = TokenAdmin::new(&env);
    let user = env.generate();
    let meter_id = t("PD_DAY");
    allowlist_and_register(&client, &meter_id, &user);
    token_admin_client.mint(&user, &1_000_i128);

    let before = env.now();
    client.make_payment(&meter_id, &user, &1_000_i128, &PaymentPlan::Daily, &None);
    let meter = client.get_meter(&meter_id);
    assert_eq!(meter.expires_at - before, SECONDS_PER_DAY);
}

/// Weekly plan sets expires_at = now + 604800.
#[test]
fn test_plan_duration_weekly_sets_correct_expiry() {
    let (env, client, _admin) = setup();
    let token_admin_client = TokenAdmin::new(&env);
    let user = env.generate();
    let meter_id = t("PD_WEEK");
    allowlist_and_register(&client, &meter_id, &user);
    token_admin_client.mint(&user, &1_000_i128);

    let before = env.now();
    client.make_payment(&meter_id, &user, &1_000_i128, &PaymentPlan::Weekly, &None);
    let meter = client.get_meter(&meter_id);
    assert_eq!(meter.expires_at - before, SECONDS_PER_WEEK);
}

/// Monthly plan sets expires_at = now + 30 days.
#[test]
fn test_plan_duration_monthly_sets_correct_expiry() {
    let (env, client, _admin) = setup();
    let token_admin_client = TokenAdmin::new(&env);
    let user = env.generate();
    let meter_id = t("PD_MONT");
    allowlist_and_register(&client, &meter_id, &user);
    token_admin_client.mint(&user, &1_000_i128);

    let before = env.now();
    client.make_payment(&meter_id, &user, &1_000_i128, &PaymentPlan::Monthly, &None);
    let meter = client.get_meter(&meter_id);
    assert_eq!(meter.expires_at - before, 30 * SECONDS_PER_DAY);
}

/// UsageBased plan sets expires_at = u64::MAX (no time expiry).
#[test]
fn test_plan_duration_usage_based_sets_max_expiry() {
    let (env, client, _admin) = setup();
    let token_admin_client = TokenAdmin::new(&env);
    let user = env.generate();
    let meter_id = t("PD_UB");
    allowlist_and_register(&client, &meter_id, &user);
    token_admin_client.mint(&user, &1_000_i128);

    client.make_payment(&meter_id, &user, &1_000_i128, &PaymentPlan::UsageBased, &None);
    let meter = client.get_meter(&meter_id);
    assert_eq!(meter.expires_at, u64::MAX);
}

/// With daily_limit > 0, exceeding it returns DailyLimitReached.
#[test]
fn test_daily_limit_blocks_usage_when_exceeded() {
    let (env, client, _admin) = setup();
    let token_admin_client = TokenAdmin::new(&env);
    setup_oracle(&env, &client);

    let user = env.generate();
    let meter_id = t("DL_HIT");
    allowlist_and_register(&client, &meter_id, &user);
    token_admin_client.mint(&user, &10_000_i128);
    client.make_payment(&meter_id, &user, &10_000_i128, &PaymentPlan::UsageBased, &None);

    // Set daily limit to 500 stroops.
    client.set_daily_limit(&meter_id, &500_i128);

    // First usage within limit - should succeed.
    client.update_usage(&meter_id, &1_u64, &400_i128);
    assert_eq!(client.get_meter_balance(&meter_id), 9_600);

    // Second call would push day_spent (400 + 200 = 600) over the 500 cap.
    let result = client.try_update_usage(&meter_id, &1_u64, &200_i128);
    assert_eq!(result, Err(ContractError::DailyLimitReached));
}

#[test]
fn test_daily_limit_hit_emits_limit_hit_event() {
    let (env, client, _admin) = setup();
    let token_admin_client = TokenAdmin::new(&env);
    setup_oracle(&env, &client);

    let user = env.generate();
    let meter_id = t("DL_EVT");
    allowlist_and_register(&client, &meter_id, &user);
    token_admin_client.mint(&user, &10_000_i128);
    client.make_payment(&meter_id, &user, &10_000_i128, &PaymentPlan::UsageBased, &None);
    client.set_daily_limit(&meter_id, &500_i128);

    let result = client.try_update_usage(&meter_id, &1_u64, &600_i128);
    assert_eq!(result, Err(ContractError::DailyLimitReached));

    let found = env.published("limit_hit", &meter_id);
    assert!(found, "limit_hit event not emitted");
}

/// After 24 h the window resets and spending is allowed again.
#[test]
fn test_daily_limit_window_resets_after_24h() {
    let (env, client, _admin) = setup();
    let token_admin_client = TokenAdmin::new(&env);
    setup_oracle(&env, &client);

    let user = env.generate();
    let meter_id = t("DL_RST");
    allowlist_and_register(&client, &meter_id, &user);
    token_admin_client.mint(&user, &10_000_i128);
    client.make_payment(&meter_id, &user, &10_000_i128, &PaymentPlan::UsageBased, &None);

    client.set_daily_limit(&meter_id, &500_i128);

    // Spend up to the limit on day 1.
    client.update_usage(&meter_id, &1_u64, &500_i128);
    let result = client.try_update_usage(&meter_id, &1_u64, &1_i128);
    assert_eq!(result, Err(ContractError::DailyLimitReached));

    // Advance ledger by more than 24 h.
    env.advance(SECONDS_PER_DAY + 1);

    // Window resets - spending is allowed again.
    client.update_usage(&meter_id, &1_u64, &500_i128);
    assert_eq!(client.get_meter_balance(&meter_id), 9_000);
}

/// daily_limit = 0 means unlimited - any cost is accepted regardless of size.
#[test]
fn test_daily_limit_zero_means_unlimited() {
    let (env, client, _admin) = setup();
    let token_admin_client = TokenAdmin::new(&env);
    setup_oracle(&env, &client);

    let user = env.generate();
    let meter_id = t("DL_UNL");
    allowlist_and_register(&client, &meter_id, &user);
    token_admin_client.mint(&user, &100_000_i128);
    client.make_payment(&meter_id, &user, &100_000_i128, &PaymentPlan::UsageBased, &None);

    // daily_limit defaults to 0 (unlimited) - large repeated costs must succeed.
    client.update_usage(&meter_id, &1_u64, &40_000_i128);
    client.update_usage(&meter_id, &1_u64, &40_000_i128);
    assert_eq!(client.get_meter_balance(&meter_id), 20_000);
}

/// Test that update_usage rejects usage on deactivated meters.
#[test]
fn test_update_usage_rejects_deactivated_meter() {
    let (env, client, _admin) = setup();
    let token_admin_client = TokenAdmin::new(&env);
    setup_oracle(&env, &client);

    let user = env.generate();
    let meter_id = t("UA_DEACT");
    allowlist_and_register(&client, &meter_id, &user);
    token_admin_client.mint(&user, &10_000_i128);
    client.make_payment(&meter_id, &user, &10_000_i128, &PaymentPlan::UsageBased, &None);

    // Meter is now active
    assert!(client.check_access(&meter_id));

    // Deactivate the meter
    client.deactivate_meter(&meter_id);
    assert!(!client.check_access(&meter_id));

    // Try to update usage on deactivated meter - should fail with MeterNotActive
    let result = client.try_update_usage(&meter_id, &1_u64, &100_i128);
    assert_eq!(result, Err(ContractError::MeterNotActive));

    // Verify units_used and balance were not modified
    assert_eq!(client.get_meter(&meter_id).units_used, 0);
    assert_eq!(client.get_meter_balance(&meter_id), 10_000);
}

/// Test that batch_update_usage rejects usage on deactivated meters.
#[test]
fn test_batch_update_usage_rejects_deactivated_meter() {
    let (env, client, _admin) = setup();
    let token_admin_client = TokenAdmin::new(&env);
    setup_oracle(&env, &client);

    let user1 = env.generate();
    let meter_id1 = t("BM1");
    allowlist_and_register(&client, &meter_id1, &user1);
    token_admin_client.mint(&user1, &10_000_i128);
    client.make_payment(&meter_id1, &user1, &10_000_i128, &PaymentPlan::UsageBased, &None);

    let user2 = env.generate();
    let meter_id2 = t("BM2");
    allowlist_and_register(&client, &meter_id2, &user2);
    token_admin_client.mint(&user2, &10_000_i128);
    client.make_payment(&meter_id2, &user2, &10_000_i128, &PaymentPlan::UsageBased, &None);

    // Deactivate the first meter
    client.deactivate_meter(&meter_id1);

    // Batch update: meter1 (inactive) and meter2 (active)
    let updates = vec![
        (meter_id1.clone(), 1_u64, 500_i128),
        (meter_id2.clone(), 1_u64, 500_i128),
    ];
    let failed = client.batch_update_usage(&updates);

    // Meter 1 (deactivated) should be in the failure list
    assert_eq!(failed.len(), 1);
    assert_eq!(failed[0], meter_id1);

    // Meter 1 (deactivated) should not have consumed resources
    assert_eq!(client.get_meter(&meter_id1).units_used, 0);
    assert_eq!(client.get_meter_balance(&meter_id1), 10_000);

    // Meter 2 (active) should have consumed resources normally
    assert_eq!(client.get_meter(&meter_id2).units_used, 1);
    assert_eq!(client.get_meter_balance(&meter_id2), 9_500);
}

/// Test that administratively deactivated meter cannot consume daily limit.
/// Ensures daily_limit is not consumed for inactive meters.
#[test]
fn test_deactivated_meter_does_not_consume_daily_limit() {
    let (env, client, _admin) = setup();
    let token_admin_client = TokenAdmin::new(&env);
    setup_oracle(&env, &client);

    let user = env.generate();
    let meter_id = t("DL_DEACT");
    allowlist_and_register(&client, &meter_id, &user);
    token_admin_client.mint(&user, &10_000_i128);
    client.make_payment(&meter_id, &user, &10_000_i128, &PaymentPlan::UsageBased, &None);

    // Set a daily limit
    client.set_daily_limit(&meter_id, &500_i128);

    // Deactivate the meter
    client.deactivate_meter(&meter_id);

    // Try to update usage - should be rejected by active check, not daily limit
    let result = client.try_update_usage(&meter_id, &1_u64, &100_i128);
    assert_eq!(result, Err(ContractError::MeterNotActive));

    // Verify day_spent was not incremented
    let meter = client.get_meter(&meter_id);
    assert_eq!(meter.day_spent, 0);
}

#[test]
fn test_unfreeze_requires_frozen_state() {
    let (_env, client, _admin) = setup();
    let result = client.try_unfreeze_contract();
    assert_eq!(result, Err(ContractError::ContractNotFrozen));
}

#[test]
fn test_unfreeze_requires_oracle_configured() {
    let (_env, client, _admin) = setup();
    client.freeze_contract();
    let result = client.try_unfreeze_contract();
    assert_eq!(result, Err(ContractError::OracleNotSet));
}

/// set_daily_limit with negative value returns InvalidAmount.
#[test]
fn test_set_daily_limit_negative_returns_invalid_amount() {
    let (env, client, _admin) = setup();
    let user = env.generate();
    let meter_id = t("DL_NEG");
    allowlist_and_register(&client, &meter_id, &user);

    let result = client.try_set_daily_limit(&meter_id, &-1_i128);
    assert_eq!(result, Err(ContractError::InvalidAmount));
}

/// Invalid basis_points (0 or > 10000) should return InvalidAmount error.
#[test]
fn test_add_collaborator_invalid_basis_points_returns_typed_error() {
    let (env, client, _admin) = setup();
    let alice = env.generate();

    // Test zero basis points
    let result = client.try_add_collaborator(&alice, &0_u32);
    assert_eq!(result, Err(ContractError::InvalidAmount));

    // Test basis points > 10000
    let bob = env.generate();
    let result = client.try_add_collaborator(&bob, &10_001_u32);
    assert_eq!(result, Err(ContractError::InvalidAmount));
}

/// distribute with zero or negative amount should return InvalidAmount error.
#[test]
fn test_distribute_invalid_amount_returns_typed_error() {
    let (env, client, _admin) = setup();
    let alice = env.generate();
    client.add_collaborator(&alice, &5_000_u32);

    // Test zero amount
    let result = client.try_distribute(&0_i128).map(|_| ());
    assert_eq!(result, Err(ContractError::InvalidAmount));

    // Test negative amount
    let result = client.try_distribute(&-1_i128).map(|_| ());
    assert_eq!(result, Err(ContractError::InvalidAmount));
}

#[test]
fn test_get_all_meters_with_multiple_meters() {
    let (env, client, _admin) = setup();

    let meter_ids = [
        t("M1"),
        t("M2"),
        t("M3"),
        t("M4"),
        t("M5"),
        t("M6"),
        t("M7"),
        t("M8"),
        t("M9"),
        t("M10"),
        t("M11"),
        t("M12"),
    ];

    for meter_id in meter_ids.iter() {
        let user = env.generate();
        client.allowlist_add(&user);
        client.register_meter(meter_id, &user);
    }

    let all_meters = client.get_all_meters();
    assert_eq!(all_meters.len(), 12);
}

#[test]
fn test_set_active_blocked_for_zero_balance() {
    let (env, client, _admin) = setup();
    let user = env.generate();
    let meter_id = t("METER1");

    client.allowlist_add(&user);
    client.register_meter(&meter_id, &user);

    // Try to activate without balance
    let result = client.try_set_active(&meter_id, &true);
    assert_eq!(result, Err(ContractError::CannotActivateWithoutBalance));

    // Verify it works after payment
    let token_admin_client = TokenAdmin::new(&env);
    token_admin_client.mint(&user, &1_000_i128);
    client.make_payment(&meter_id, &user, &1_000_i128, &PaymentPlan::Daily, &None);

    // Deactivate then reactivate
    client.set_active(&meter_id, &false);
    assert_eq!(client.check_access(&meter_id), false);
    client.set_active(&meter_id, &true);
    assert_eq!(client.check_access(&meter_id), true);
}

#[test]
fn test_get_collaborator_share_returns_correct_value() {
    let (env, client, _admin) = setup();
    let alice = env.generate();
    client.add_collaborator(&alice, &3_000_u32);
    assert_eq!(client.get_collaborator_share(&alice), Some(3_000_u32));
}

#[test]
fn test_get_collaborator_share_returns_none_for_unknown_address() {
    let (env, client, _admin) = setup();
    let unknown = env.generate();
    assert_eq!(client.get_collaborator_share(&unknown), None);
}

/// Happy path: remove deletes the address from COLLABS and SHARES and leaves
/// remaining total within the 10 000 basis-point cap.
#[test]
fn test_remove_collaborator_happy_path() {
    let (env, client, _admin) = setup();
    let alice = env.generate();
    let bob = env.generate();

    client.add_collaborator(&alice, &6_000_u32);
    client.add_collaborator(&bob, &3_000_u32);

    client.remove_collaborator(&alice);

    let collabs = client.get_collaborators();
    assert_eq!(collabs.len(), 1);
    assert_eq!(collabs[0], bob);

    let shares = client.get_all_shares();
    assert_eq!(shares.get(&alice), None);
    assert_eq!(*shares.get(&bob).unwrap(), 3_000);

    let mut total: u32 = 0;
    for i in 0..shares.len() {
        total += *shares.at(i).1;
    }
    assert!(total <= 10_000);
}

/// Removing an address that is not a collaborator returns CollaboratorNotFound.
#[test]
fn test_remove_collaborator_missing_address() {
    let (env, client, _admin) = setup();
    let unknown = env.generate();
    let result = client.try_remove_collaborator(&unknown);
    assert_eq!(result, Err(ContractError::CollaboratorNotFound));
}

#[test]
fn test_emergency_withdraw_transfers_full_balance() {
    let (env, client, _admin) = setup();
    let token_admin_client = TokenAdmin::new(&env);
    let token_client = TokenClient::new(&env);

    token_admin_client.mint(&client.address, &1_000_i128);
    client.freeze_contract();

    let recipient = env.generate();
    client.emergency_withdraw(&recipient);

    assert_eq!(token_client.balance(&recipient), 1_000);
    assert_eq!(token_client.balance(&client.address), 0);
}

#[test]
fn test_emergency_withdraw_noop_when_balance_zero() {
    let (env, client, _admin) = setup();
    client.freeze_contract();
    let recipient = env.generate();
    client.emergency_withdraw(&recipient);
}

#[test]
fn test_emergency_withdraw_requires_frozen() {
    let (env, client, _admin) = setup();
    let recipient = env.generate();
    let result = client.try_emergency_withdraw(&recipient);
    assert_eq!(result, Err(ContractError::ContractNotFrozen));
}

#[test]
fn test_expire_meter_sets_inactive_and_expired() {
    let (env, client, _admin) = setup();
    let token_admin_client = TokenAdmin::new(&env);
    let user = env.generate();
    let meter_id = t("EXP_MTR");

    allowlist_and_register(&client, &meter_id, &user);
    token_admin_client.mint(&user, &1_000_i128);
    client.make_payment(&meter_id, &user, &1_000_i128, &PaymentPlan::Weekly, &None);
    assert!(client.get_meter(&meter_id).active);

    client.expire_meter(&meter_id);

    let meter = client.get_meter(&meter_id);
    assert!(!meter.active);
    assert!(meter.expires_at <= env.now());
}

#[test]
fn test_expire_meter_returns_not_found_for_unknown() {
    let (_env, client, _admin) = setup();
    let result = client.try_expire_meter(&t("NO_METER"));
    assert_eq!(result, Err(ContractError::MeterNotFound));
}

#[test]
fn test_snapshot_set_active_true_emits_mtr_actv() {
    let (env, client, _admin) = setup();
    let token_admin_client = TokenAdmin::new(&env);
    let user = env.generate();
    let meter_id = t("SA_TRUE");

    allowlist_and_register(&client, &meter_id, &user);
    token_admin_client.mint(&user, &1_000_i128);
    client.make_payment(&meter_id, &user, &1_000_i128, &PaymentPlan::Daily, &None);
    client.set_active(&meter_id, &false);
    // set_active(true) is the last invocation
    client.set_active(&meter_id, &true);

    {
        let world = env.0.borrow();
        assert_eq!(
            world.events,
            vec![Event::MeterActivated { meter_id: meter_id.clone() }]
        );
        assert_eq!(
            world.events[0].topics(),
            vec![
                Topic::Symbol(EVENT_NAMESPACE),
                Topic::Symbol("mtr_actv"),
                Topic::Meter(meter_id.clone()),
            ]
        );
    }
    assert!(client.get_meter(&meter_id).active);
}

#[test]
fn test_snapshot_set_active_false_emits_mtr_deact() {
    let (env, client, _admin) = setup();
    let token_admin_client = TokenAdmin::new(&env);
    let user = env.generate();
    let meter_id = t("SA_FALS");

    allowlist_and_register(&client, &meter_id, &user);
    token_admin_client.mint(&user, &1_000_i128);
    client.make_payment(&meter_id, &user, &1_000_i128, &PaymentPlan::Daily, &None);
    // set_active(false) is the last invocation
    client.set_active(&meter_id, &false);

    {
        let world = env.0.borrow();
        assert_eq!(
            world.events,
            vec![Event::MeterDeactivated { meter_id: meter_id.clone() }]
        );
        assert_eq!(
            world.events[0].topics(),
            vec![
                Topic::Symbol(EVENT_NAMESPACE),
                Topic::Symbol("mtr_deact"),
                Topic::Meter(meter_id.clone()),
            ]
        );
    }
    assert!(!client.get_meter(&meter_id).active);
}

#[test]
fn test_snapshot_deactivate_meter_with_string_id() {
    let (env, client, _admin) = setup();
    let token_admin_client = TokenAdmin::new(&env);
    let user = env.generate();
    let meter_id = t("STR_DM");

    allowlist_and_register(&client, &meter_id, &user);
    token_admin_client.mint(&user, &1_000_i128);
    client.make_payment(&meter_id, &user, &1_000_i128, &PaymentPlan::Daily, &None);
    // deactivate_meter is the last invocation
    client.deactivate_meter(&meter_id);

    {
        let world = env.0.borrow();
        assert_eq!(
            world.events,
            vec![Event::MeterDeactivated { meter_id: meter_id.clone() }]
        );
        assert_eq!(
            world.events[0].topics(),
            vec![
                Topic::Symbol(EVENT_NAMESPACE),
                Topic::Symbol("mtr_deact"),
                Topic::Meter(meter_id.clone()),
            ]
        );
    }
    assert!(!client.get_meter(&meter_id).active);
}

#[test]
fn test_frozen_make_payment_returns_contract_frozen() {
    let (env, client, _admin) = setup();
    let user = env.generate();
    let meter_id = t("FRZ_PMT");
    allowlist_and_register(&client, &meter_id, &user);

    client.freeze_contract();
    let result = client.try_make_payment(&meter_id, &user, &1_000_i128, &PaymentPlan::Daily, &None);
    assert_eq!(result, Err(ContractError::ContractFrozen));
}

#[test]
fn test_frozen_update_usage_returns_contract_frozen() {
    let (env, client, _admin) = setup();
    let token_admin_client = TokenAdmin::new(&env);
    setup_oracle(&env, &client);

    let user = env.generate();
    let meter_id = t("FRZ_USG");
    allowlist_and_register(&client, &meter_id, &user);
    token_admin_client.mint(&user, &1_000_i128);
    client.make_payment(&meter_id, &user, &1_000_i128, &PaymentPlan::Daily, &None);

    client.freeze_contract();
    let result = client.try_update_usage(&meter_id, &1_u64, &100_i128);
    assert_eq!(result, Err(ContractError::ContractFrozen));
}

#[test]
fn test_freeze_unfreeze_make_payment_round_trip() {
    let (env, client, _admin) = setup();
    let token_admin_client = TokenAdmin::new(&env);
    setup_oracle(&env, &client);

    let user = env.generate();
    let meter_id = t("FRZ_RT");
    allowlist_and_register(&client, &meter_id, &user);
    token_admin_client.mint(&user, &2_000_i128);

    // Freeze: payment blocked
    client.freeze_contract();
    let frozen_result = client.try_make_payment(&meter_id, &user, &1_000_i128, &PaymentPlan::Daily, &None);
    assert_eq!(frozen_result, Err(ContractError::ContractFrozen));

    // Unfreeze: payment succeeds
    client.unfreeze_contract();
    client.make_payment(&meter_id, &user, &1_000_i128, &PaymentPlan::Daily, &None);
    assert!(client.check_access(&meter_id));
}

#[test]
fn test_plan_change_emits_plan_chg_event() {
    let (env, client, _admin) = setup();
    let token_admin_client = TokenAdmin::new(&env);
    let user = env.generate();
    let meter_id = t("PLAN_CHG");
    allowlist_and_register(&client, &meter_id, &user);
    token_admin_client.mint(&user, &10_000_i128);

    client.make_payment(&meter_id, &user, &1_000_i128, &PaymentPlan::Daily, &None);
    // Same plan again - no plan_chg event expected.
    client.make_payment(&meter_id, &user, &1_000_i128, &PaymentPlan::Daily, &None);
    let has_plan_chg_yet = env.published_at(1, "plan_chg");
    assert!(!has_plan_chg_yet, "plan_chg should not fire when plan is unchanged");

    // Switch to Weekly - should emit plan_chg.
    client.make_payment(&meter_id, &user, &1_000_i128, &PaymentPlan::Weekly, &None);
    let found = env.published("plan_chg", &meter_id);
    assert!(found, "plan_chg event not emitted on plan switch");
}

#[test]
fn test_refund_payment_transfers_and_updates_balance() {
    let (env, client, _admin) = setup();
    let token_admin_client = TokenAdmin::new(&env);
    let token_client = TokenClient::new(&env);
    let user = env.generate();
    let meter_id = t("RFND1");
    allowlist_and_register(&client, &meter_id, &user);
    token_admin_client.mint(&user, &10_000_i128);

    client.make_payment(&meter_id, &user, &10_000_i128, &PaymentPlan::UsageBased, &None);
    assert_eq!(client.get_meter_balance(&meter_id), 10_000);

    let reason = t("duplicate payment");
    client.refund_payment(&meter_id, &3_000_i128, &user, &reason);

    assert_eq!(client.get_meter_balance(&meter_id), 7_000);
    assert_eq!(token_client.balance(&user), 3_000);
    assert_eq!(client.get_payer_refunded(&meter_id, &user), 3_000);
}

#[test]
fn test_refund_payment_emits_pmt_rfnd_event() {
    let (env, client, _admin) = setup();
    let token_admin_client = TokenAdmin::new(&env);
    let user = env.generate();
    let meter_id = t("RFND2");
    allowlist_and_register(&client, &meter_id, &user);
    token_admin_client.mint(&user, &5_000_i128);
    client.make_payment(&meter_id, &user, &5_000_i128, &PaymentPlan::UsageBased, &None);

    let reason = t("billing error");
    client.refund_payment(&meter_id, &1_000_i128, &user, &reason);

    let found = env.published_at(1, "pmt_rfnd");
    assert!(found, "pmt_rfnd event not emitted");
}

#[test]
fn test_refund_payment_rejects_amount_above_total_paid() {
    let (env, client, _admin) = setup();
    let token_admin_client = TokenAdmin::new(&env);
    let user = env.generate();
    let meter_id = t("RFND3");
    allowlist_and_register(&client, &meter_id, &user);
    token_admin_client.mint(&user, &1_000_i128);
    client.make_payment(&meter_id, &user, &1_000_i128, &PaymentPlan::UsageBased, &None);

    let reason = t("abuse attempt");
    let result = client.try_refund_payment(&meter_id, &1_001_i128, &user, &reason);
    assert_eq!(result, Err(ContractError::RefundExceedsPayments));
}

#[test]
fn test_refund_payment_rejects_double_refund_over_paid_total() {
    let (env, client, _admin) = setup();
    let token_admin_client = TokenAdmin::new(&env);
    let user = env.generate();
    let meter_id = t("RFND4");
    allowlist_and_register(&client, &meter_id, &user);
    token_admin_client.mint(&user, &1_000_i128);
    client.make_payment(&meter_id, &user, &1_000_i128, &PaymentPlan::UsageBased, &None);

    let reason = t("partial refund");
    client.refund_payment(&meter_id, &600_i128, &user, &reason);
    // Only 400 remains refundable.
    let result = client.try_refund_payment(&meter_id, &500_i128, &user, &reason);
    assert_eq!(result, Err(ContractError::RefundExceedsPayments));
}

#[test]
fn test_refund_payment_rejects_recipient_with_no_payments() {
    let (env, client, _admin) = setup();
    let token_admin_client = TokenAdmin::new(&env);
    let user = env.generate();
    let meter_id = t("RFND5");
    allowlist_and_register(&client, &meter_id, &user);
    token_admin_client.mint(&user, &1_000_i128);
    client.make_payment(&meter_id, &user, &1_000_i128, &PaymentPlan::UsageBased, &None);

    // A recipient who never paid towards this meter has nothing refundable,
    // regardless of the contract's overall token balance.
    let reason = t("n/a");
    let stranger = env.generate();
    let result = client.try_refund_payment(&meter_id, &100_i128, &stranger, &reason);
    assert_eq!(result, Err(ContractError::RefundExceedsPayments));
}

#[test]
fn test_refund_payment_zero_amount_returns_typed_error() {
    let (env, client, _admin) = setup();
    let token_admin_client = TokenAdmin::new(&env);
    let user = env.generate();
    let meter_id = t("RFND6");
    allowlist_and_register(&client, &meter_id, &user);
    token_admin_client.mint(&user, &1_000_i128);
    client.make_payment(&meter_id, &user, &1_000_i128, &PaymentPlan::UsageBased, &None);

    let reason = t("n/a");
    let result = client.try_refund_payment(&meter_id, &0_i128, &user, &reason);
    assert_eq!(result, Err(ContractError::InvalidAmount));
}

#[test]
fn test_refund_payment_respects_rolling_window_limit() {
    let (env, client, _admin) = setup();
    let token_admin_client = TokenAdmin::new(&env);
    let user = env.generate();
    let meter_id = t("RFND7");
    allowlist_and_register(&client, &meter_id, &user);
    token_admin_client.mint(&user, &10_000_i128);
    client.make_payment(&meter_id, &user, &10_000_i128, &PaymentPlan::UsageBased, &None);

    // Cap total refunds to 500 stroops per 24h window.
    client.set_refund_limit(&500_i128);

    let reason = t("window test");
    client.refund_payment(&meter_id, &500_i128, &user, &reason);

    // A further refund within the same window should be rejected even
    // though the payer still has refundable balance.
    let result = client.try_refund_payment(&meter_id, &1_i128, &user, &reason);
    assert_eq!(result, Err(ContractError::RefundLimitExceeded));

    // After the window rolls over, refunds resume.
    env.advance(SECONDS_PER_DAY + 1);
    client.refund_payment(&meter_id, &1_i128, &user, &reason);
    assert_eq!(client.get_payer_refunded(&meter_id, &user), 501);
}

#[test]
fn test_refund_payment_deactivates_meter_when_balance_hits_zero() {
    let (env, client, _admin) = setup();
    let token_admin_client = TokenAdmin::new(&env);
    let user = env.generate();
    let meter_id = t("RFND8");
    allowlist_and_register(&client, &meter_id, &user);
    token_admin_client.mint(&user, &1_000_i128);
    client.make_payment(&meter_id, &user, &1_000_i128, &PaymentPlan::UsageBased, &None);
    assert!(client.get_meter(&meter_id).active);

    let reason = t("full refund");
    client.refund_payment(&meter_id, &1_000_i128, &user, &reason);
    assert!(!client.get_meter(&meter_id).active);
}

#[test]
fn test_time_based_access_during_dst_transition() {
    let (env, client, _admin) = setup();
    let token_admin_client = TokenAdmin::new(&env);

    // 2025-03-08 01:00:00 UTC (Unix timestamp: 1741395600) - day before US DST transition
    let dst_start_ts = 1741395600_u64;
    env.set_time(dst_start_ts);

    let user = env.generate();
    let meter_id = t("MTR_DST");
    allowlist_and_register(&client, &meter_id, &user);
    token_admin_client.mint(&user, &1_000_i128);

    // Pay for 24-hour Daily access
    client.make_payment(&meter_id, &user, &1_000_i128, &PaymentPlan::Daily, &None);

    // Verify expires_at is exactly now + 86400 seconds (1741482000)
    let meter = client.get_meter(&meter_id);
    assert_eq!(meter.expires_at, dst_start_ts + SECONDS_PER_DAY);

    // At 23 hours elapsed (1741478400), access must remain active
    env.set_time(dst_start_ts + 23 * 3600);
    assert!(client.check_access(&meter_id));

    // At 23 hours and 59 minutes (1741481940), access must remain active
    env.set_time(dst_start_ts + 86340);
    assert!(client.check_access(&meter_id));

    // At exactly 24 hours elapsed (1741482000), access expires
    env.set_time(dst_start_ts + SECONDS_PER_DAY);
    assert!(!client.check_access(&meter_id));
}

#[test]
fn test_batch_deactivate_all_active() {
    let (env, client, _admin) = setup();
    let token_admin_client = TokenAdmin::new(&env);

    // Register and activate 3 meters
    let meters = ["BDM1", "BDM2", "BDM3"];
    for id in &meters {
        let meter_id = t(id);
        let user = env.generate();
        allowlist_and_register(&client, &meter_id, &user);
        token_admin_client.mint(&user, &10_000_i128);
        client.make_payment(&meter_id, &user, &10_000_i128, &PaymentPlan::Daily, &None);
    }

    let mut ids: Vec<Text> = vec![];
    for id in &meters {
        ids.push(t(id));
    }

    let summary = client.batch_deactivate_meters(&ids);
    assert_eq!(summary.total, 3);
    assert_eq!(summary.deactivated, 3);
    assert_eq!(summary.skipped, 0);

    // All meters should be inactive now
    for id in &meters {
        let meter_id = t(id);
        assert!(!client.get_meter(&meter_id).active);
    }
}

#[test]
fn test_batch_deactivate_skips_inactive() {
    let (env, client, _admin) = setup();
    let token_admin_client = TokenAdmin::new(&env);

    let user1 = env.generate();
    let user2 = env.generate();
    let meter_id1 = t("BDM_SK1");
    let meter_id2 = t("BDM_SK2");

    allowlist_and_register(&client, &meter_id1, &user1);
    allowlist_and_register(&client, &meter_id2, &user2);
    token_admin_client.mint(&user1, &10_000_i128);
    token_admin_client.mint(&user2, &10_000_i128);
    client.make_payment(&meter_id1, &user1, &10_000_i128, &PaymentPlan::Daily, &None);
    client.make_payment(&meter_id2, &user2, &10_000_i128, &PaymentPlan::Daily, &None);

    // Manually deactivate M1
    client.deactivate_meter(&meter_id1);

    let mut ids: Vec<Text> = vec![];
    ids.push(meter_id1.clone());
    ids.push(meter_id2.clone());

    let summary = client.batch_deactivate_meters(&ids);
    assert_eq!(summary.total, 2);
    assert_eq!(summary.deactivated, 1);
    assert_eq!(summary.skipped, 1);

    // M1 was already inactive - should be skipped
    let r0 = summary.results.get(0).unwrap();
    assert!(!r0.success);

    // M2 was active - should be deactivated
    let r1 = summary.results.get(1).unwrap();
    assert!(r1.success);
    assert!(!client.get_meter(&meter_id2).active);
}

#[test]
fn test_batch_deactivate_skips_nonexistent() {
    let (_env, client, _admin) = setup();

    let mut ids: Vec<Text> = vec![];
    ids.push(t("BDM_NONE"));

    let summary = client.batch_deactivate_meters(&ids);
    assert_eq!(summary.total, 1);
    assert_eq!(summary.deactivated, 0);
    assert_eq!(summary.skipped, 1);

    let r = summary.results.get(0).unwrap();
    assert!(!r.success);
}

#[test]
fn test_batch_deactivate_mixed() {
    let (env, client, _admin) = setup();
    let token_admin_client = TokenAdmin::new(&env);

    let user1 = env.generate();
    let user2 = env.generate();
    let meter_id1 = t("BDM_MX1");
    let meter_id2 = t("BDM_MX2");

    allowlist_and_register(&client, &meter_id1, &user1);
    allowlist_and_register(&client, &meter_id2, &user2);
    token_admin_client.mint(&user1, &10_000_i128);
    token_admin_client.mint(&user2, &10_000_i128);
    client.make_payment(&meter_id1, &user1, &10_000_i128, &PaymentPlan::Daily, &None);
    client.make_payment(&meter_id2, &user2, &10_000_i128, &PaymentPlan::Daily, &None);

    // Deactivate M1 so it's already inactive
    client.deactivate_meter(&meter_id1);

    let mut ids: Vec<Text> = vec![];
    ids.push(meter_id1.clone());   // inactive -> skip
    ids.push(meter_id2.clone());   // active -> deactivate
    ids.push(t("BDM_MX3")); // nonexistent -> skip

    let summary = client.batch_deactivate_meters(&ids);
    assert_eq!(summary.total, 3);
    assert_eq!(summary.deactivated, 1);
    assert_eq!(summary.skipped, 2);
}

#[test]
fn test_batch_deactivate_empty() {
    let (_env, client, _admin) = setup();
    let ids: Vec<Text> = vec![];
    let summary = client.batch_deactivate_meters(&ids);
    assert_eq!(summary.total, 0);
    assert_eq!(summary.deactivated, 0);
    assert_eq!(summary.skipped, 0);
}

#[test]
fn test_batch_deactivate_too_large() {
    let (_env, client, _admin) = setup();
    let mut ids: Vec<Text> = vec![];
    for i in 0..51 {
        ids.push(t(&format!("TOO_{}", i)));
    }
    let result = client.try_batch_deactivate_meters(&ids).map(|_| ());
    assert_eq!(result, Err(ContractError::BatchTooLarge));
}

#[test]
fn test_batch_deactivate_emits_events() {
    let (env, client, _admin) = setup();
    let token_admin_client = TokenAdmin::new(&env);

    let user = env.generate();
    let meter_id = t("BDM_EVT");
    allowlist_and_register(&client, &meter_id, &user);
    token_admin_client.mint(&user, &10_000_i128);
    client.make_payment(&meter_id, &user, &10_000_i128, &PaymentPlan::Daily, &None);

    let mut ids: Vec<Text> = vec![];
    ids.push(meter_id);

    client.batch_deactivate_meters(&ids);

    // Verify events were emitted - the contract should have mtr_deact events
    let meter = client.get_meter(&t("BDM_EVT"));
    assert!(!meter.active);
}
