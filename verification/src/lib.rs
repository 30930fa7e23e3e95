//! A toll-transit fare settlement core: a registry of vehicles, a table of
//! route fares with a maximum-fare fallback, a prepaid balance ledger, and
//! the settlement decisions built on them.
#![verifier::loop_isolation(false)]

mod fare_table;
mod ledger;
mod registry;
mod vehicle;

pub use fare_table::FareTable;
pub use fare_table::RouteFare;
pub use ledger::Account;
pub use ledger::BalanceLedger;
pub use ledger::DebitOutcome;
pub use ledger::LedgerError;
pub use registry::VehicleRegistry;
pub use vehicle::spec_category_of;
pub use vehicle::Vehicle;
pub use vehicle::VehicleType;

use vstd::prelude::*;

verus! {

/// The base unit in which every fare is denominated.
pub fn one_near() -> (r: u128)
    ensures
        r == 1000000000000000000000000u128,
{
    1000000000000000000000000u128
}

/// The maximum fare: what an exit on an unknown route or by an unregistered
/// vehicle costs, ten times the base unit.
pub open spec fn spec_max_fare() -> u128 {
    10000000000000000000000000u128
}

/// What a deposit-mode settlement decided: the user-facing result, and the
/// transfer the engine authorizes, if any.
pub struct SettlementDecision {
    pub message: String,
    pub transfer: Option<u128>,
}

/// The application state: the fare table, the vehicle registry and the
/// prepaid balance ledger, with every operation on them funnelled through
/// the methods here.
pub struct App {
    route_fares: FareTable,
    car: VehicleRegistry,
    accounts: BalanceLedger,
}

impl Default for App {
    /// The expressway dataset: each listed directed route priced at the base
    /// unit, and no vehicles or accounts yet.
    #[verifier::rlimit(100)]
    fn default() -> (r: App)
        ensures
            r.wf(),
            r.spec_registry()@ =~= Seq::<Vehicle>::empty(),
            r.spec_ledger()@ =~= Seq::<Account>::empty(),
            r.spec_fares()@.len() == 16,
            r.spec_fares().spec_lookup("westlands-mlolongo"@) == Some(1000000000000000000000000u128),
            r.spec_fares().spec_lookup("mlolongo-westlands"@) == Some(1000000000000000000000000u128),
            r.spec_fares().spec_lookup("westlands-syokimau"@) == Some(1000000000000000000000000u128),
            r.spec_fares().spec_lookup("syokimau-westlands"@) == Some(1000000000000000000000000u128),
            r.spec_fares().spec_lookup("westlands-jkia"@) == Some(1000000000000000000000000u128),
            r.spec_fares().spec_lookup("jkia-westlands"@) == Some(1000000000000000000000000u128),
            r.spec_fares().spec_lookup("westlands-easternBypass"@) == Some(
                1000000000000000000000000u128,
            ),
            r.spec_fares().spec_lookup("easternBypass-westlands"@) == Some(
                1000000000000000000000000u128,
            ),
            r.spec_fares().spec_lookup("westlands-southernBypass"@) == Some(
                1000000000000000000000000u128,
            ),
            r.spec_fares().spec_lookup("southernBypass-westlands"@) == Some(
                1000000000000000000000000u128,
            ),
            r.spec_fares().spec_lookup("westlands-capitalCenter"@) == Some(
                1000000000000000000000000u128,
            ),
            r.spec_fares().spec_lookup("capitalCenter-westlands"@) == Some(
                1000000000000000000000000u128,
            ),
            r.spec_fares().spec_lookup("westlands-haileSelassie"@) == Some(
                1000000000000000000000000u128,
            ),
            r.spec_fares().spec_lookup("haileSelassie-westlands"@) == Some(
                1000000000000000000000000u128,
            ),
            r.spec_fares().spec_lookup("westlands-museumHill"@) == Some(
                1000000000000000000000000u128,
            ),
            r.spec_fares().spec_lookup("museumHill-westlands"@) == Some(
                1000000000000000000000000u128,
            ),
    {
        proof {
            reveal_strlit("westlands-mlolongo");
            reveal_strlit("mlolongo-westlands");
            reveal_strlit("westlands-syokimau");
            reveal_strlit("syokimau-westlands");
            reveal_strlit("westlands-jkia");
            reveal_strlit("jkia-westlands");
            reveal_strlit("westlands-easternBypass");
            reveal_strlit("easternBypass-westlands");
            reveal_strlit("westlands-southernBypass");
            reveal_strlit("southernBypass-westlands");
            reveal_strlit("westlands-capitalCenter");
            reveal_strlit("capitalCenter-westlands");
            reveal_strlit("westlands-haileSelassie");
            reveal_strlit("haileSelassie-westlands");
            reveal_strlit("westlands-museumHill");
            reveal_strlit("museumHill-westlands");
        }
        let base = one_near();
        let mut routes: Vec<RouteFare> = Vec::new();
        routes.push(RouteFare { from_to: "westlands-mlolongo".to_string(), fare: base });
        routes.push(RouteFare { from_to: "mlolongo-westlands".to_string(), fare: base });
        routes.push(RouteFare { from_to: "westlands-syokimau".to_string(), fare: base });
        routes.push(RouteFare { from_to: "syokimau-westlands".to_string(), fare: base });
        routes.push(RouteFare { from_to: "westlands-jkia".to_string(), fare: base });
        routes.push(RouteFare { from_to: "jkia-westlands".to_string(), fare: base });
        routes.push(RouteFare { from_to: "westlands-easternBypass".to_string(), fare: base });
        routes.push(RouteFare { from_to: "easternBypass-westlands".to_string(), fare: base });
        routes.push(RouteFare { from_to: "westlands-southernBypass".to_string(), fare: base });
        routes.push(RouteFare { from_to: "southernBypass-westlands".to_string(), fare: base });
        routes.push(RouteFare { from_to: "westlands-capitalCenter".to_string(), fare: base });
        routes.push(RouteFare { from_to: "capitalCenter-westlands".to_string(), fare: base });
        routes.push(RouteFare { from_to: "westlands-haileSelassie".to_string(), fare: base });
        routes.push(RouteFare { from_to: "haileSelassie-westlands".to_string(), fare: base });
        routes.push(RouteFare { from_to: "westlands-museumHill".to_string(), fare: base });
        routes.push(RouteFare { from_to: "museumHill-westlands".to_string(), fare: base });
        proof {
            assert(routes@.len() == 16);
            assert(routes@[0].from_to@ == "westlands-mlolongo"@);
            assert(routes@[1].from_to@ == "mlolongo-westlands"@);
            assert(routes@[2].from_to@ == "westlands-syokimau"@);
            assert(routes@[3].from_to@ == "syokimau-westlands"@);
            assert(routes@[4].from_to@ == "westlands-jkia"@);
            assert(routes@[5].from_to@ == "jkia-westlands"@);
            assert(routes@[6].from_to@ == "westlands-easternBypass"@);
            assert(routes@[7].from_to@ == "easternBypass-westlands"@);
            assert(routes@[8].from_to@ == "westlands-southernBypass"@);
            assert(routes@[9].from_to@ == "southernBypass-westlands"@);
            assert(routes@[10].from_to@ == "westlands-capitalCenter"@);
            assert(routes@[11].from_to@ == "capitalCenter-westlands"@);
            assert(routes@[12].from_to@ == "westlands-haileSelassie"@);
            assert(routes@[13].from_to@ == "haileSelassie-westlands"@);
            assert(routes@[14].from_to@ == "westlands-museumHill"@);
            assert(routes@[15].from_to@ == "museumHill-westlands"@);
            assert("westlands-mlolongo"@[0] == 'w' && "westlands-mlolongo"@[10] == 'm');
            assert("mlolongo-westlands"@[0] == 'm' && "mlolongo-westlands"@[10] == 'e');
            assert("westlands-syokimau"@[0] == 'w' && "westlands-syokimau"@[10] == 's');
            assert("syokimau-westlands"@[0] == 's' && "syokimau-westlands"@[10] == 'e');
            assert("westlands-jkia"@[0] == 'w' && "westlands-jkia"@[10] == 'j');
            assert("jkia-westlands"@[0] == 'j' && "jkia-westlands"@[10] == 'a');
            assert("westlands-easternBypass"@[0] == 'w' && "westlands-easternBypass"@[10] == 'e');
            assert("easternBypass-westlands"@[0] == 'e' && "easternBypass-westlands"@[10] == 'a');
            assert("westlands-southernBypass"@[0] == 'w' && "westlands-southernBypass"@[10] == 's');
            assert("southernBypass-westlands"@[0] == 's' && "southernBypass-westlands"@[10] == 'p');
            assert("westlands-capitalCenter"@[0] == 'w' && "westlands-capitalCenter"@[10] == 'c');
            assert("capitalCenter-westlands"@[0] == 'c' && "capitalCenter-westlands"@[10] == 't');
            assert("westlands-haileSelassie"@[0] == 'w' && "westlands-haileSelassie"@[10] == 'h');
            assert("haileSelassie-westlands"@[0] == 'h' && "haileSelassie-westlands"@[10] == 's');
            assert("westlands-museumHill"@[0] == 'w' && "westlands-museumHill"@[10] == 'm');
            assert("museumHill-westlands"@[0] == 'm' && "museumHill-westlands"@[10] == '-');
            assert forall|i: int, j: int| 0 <= i < j < routes@.len() implies routes@[i].from_to@
                != routes@[j].from_to@ by {
                assert(0 <= i < 16 && 0 <= j < 16);
            }
        }
        let route = FareTable::from_routes(routes);
        proof {
            let t = route;
            fare_table::lemma_lookup_at(t, 0);
            fare_table::lemma_lookup_at(t, 1);
            fare_table::lemma_lookup_at(t, 2);
            fare_table::lemma_lookup_at(t, 3);
            fare_table::lemma_lookup_at(t, 4);
            fare_table::lemma_lookup_at(t, 5);
            fare_table::lemma_lookup_at(t, 6);
            fare_table::lemma_lookup_at(t, 7);
            fare_table::lemma_lookup_at(t, 8);
            fare_table::lemma_lookup_at(t, 9);
            fare_table::lemma_lookup_at(t, 10);
            fare_table::lemma_lookup_at(t, 11);
            fare_table::lemma_lookup_at(t, 12);
            fare_table::lemma_lookup_at(t, 13);
            fare_table::lemma_lookup_at(t, 14);
            fare_table::lemma_lookup_at(t, 15);
        }
        App { route_fares: route, car: VehicleRegistry::new(), accounts: BalanceLedger::new() }
    }
}

impl App {
    /// The fare table held by this state store.
    pub closed spec fn spec_fares(self) -> FareTable {
        self.route_fares
    }

    /// The vehicle registry held by this state store.
    pub closed spec fn spec_registry(self) -> VehicleRegistry {
        self.car
    }

    /// The balance ledger held by this state store.
    pub closed spec fn spec_ledger(self) -> BalanceLedger {
        self.accounts
    }

    /// Every component keeps its uniqueness invariant.
    pub open spec fn wf(self) -> bool {
        self.spec_fares().wf() && self.spec_registry().wf() && self.spec_ledger().wf()
    }

    /// The fare owed on exit by the vehicle with this registration number:
    /// the configured fare of its recorded route, or the maximum fare when
    /// the route is unknown or the vehicle is not registered. Resolution
    /// always yields an amount; it never fails.
    pub open spec fn spec_amount_to_pay(self, reg_no: Seq<char>) -> u128 {
        match self.spec_registry().spec_find(reg_no) {
            Some(v) => match self.spec_fares().spec_lookup(v.from_to@) {
                Some(fare) => fare,
                None => spec_max_fare(),
            },
            None => spec_max_fare(),
        }
    }

    /// A state store with the given fare table and no vehicles or accounts.
    pub fn new(route_fares: FareTable) -> (r: App)
        requires
            route_fares.wf(),
        ensures
            r.wf(),
            r.spec_fares() == route_fares,
            r.spec_registry()@ =~= Seq::<Vehicle>::empty(),
            r.spec_ledger()@ =~= Seq::<Account>::empty(),
    {
        App { route_fares, car: VehicleRegistry::new(), accounts: BalanceLedger::new() }
    }

    pub fn max_fare(&self) -> (r: u128)
        ensures
            r == spec_max_fare(),
    {
        one_near() * 10
    }

    /// A read-only snapshot of every registered vehicle, in insertion order.
    pub fn get_cars(&self) -> (r: Vec<Vehicle>)
        ensures
            r@ == self.spec_registry()@,
    {
        self.car.list()
    }

    /// The category named by a free-text label: exact, case-sensitive
    /// matching against the fixed vocabulary, with every unrecognized label
    /// falling back to `OTHER`.
    pub fn get_car_type(&self, car_type: String) -> (t: VehicleType)
        ensures
            t == spec_category_of(car_type@),
    {
        let sl = "saloon".to_string();
        let bs = "bus".to_string();
        let tl = "trailer".to_string();
        if car_type == sl {
            VehicleType::SALOON
        } else if car_type == bs {
            VehicleType::BUS
        } else if car_type == tl {
            VehicleType::TRAILER
        } else {
            VehicleType::OTHER
        }
    }

    /// Registers a vehicle once: a duplicate registration number performs no
    /// state change and reports `false`.
    pub fn new_car(&mut self, from_to: String, types: String, reg_no: String) -> (inserted: bool)
        requires
            old(self).wf(),
        ensures
            final(self).wf(),
            final(self).spec_fares() == old(self).spec_fares(),
            final(self).spec_ledger() == old(self).spec_ledger(),
            inserted == !old(self).spec_registry().contains_reg(reg_no@),
            inserted ==> final(self).spec_registry()@ =~= old(self).spec_registry()@.push(
                (Vehicle { types: spec_category_of(types@), reg_no, from_to }),
            ),
            !inserted ==> final(self).spec_registry()@ == old(self).spec_registry()@,
    {
        let vehicle_type = self.get_car_type(types);
        let vehicle = Vehicle { types: vehicle_type, reg_no, from_to };
        self.car.register(vehicle)
    }

    /// Resolves the fare owed by this vehicle; see `spec_amount_to_pay` for
    /// the fallback policy.
    pub fn amount_to_pay(&self, reg_no: String) -> (r: u128)
        requires
            self.wf(),
        ensures
            r == self.spec_amount_to_pay(reg_no@),
    {
        match self.car.find(&reg_no) {
            Some(found) => match self.route_fares.get(&found.from_to) {
                Some(amount) => amount,
                None => self.max_fare(),
            },
            None => self.max_fare(),
        }
    }

    /// Deposit-mode settlement: compares the payment attached to the call
    /// against the resolved fare. When it covers the fare, the decision is
    /// "ok" and authorizes release of exactly the fare — never the whole
    /// attached amount; otherwise it is "error" and authorizes no transfer.
    pub fn pay(&self, reg_no: String, attached_deposit: u128) -> (r: SettlementDecision)
        requires
            self.wf(),
        ensures
            r.transfer == (if attached_deposit >= self.spec_amount_to_pay(reg_no@) {
                Some(self.spec_amount_to_pay(reg_no@))
            } else {
                None::<u128>
            }),
            attached_deposit >= self.spec_amount_to_pay(reg_no@) ==> r.message@ == "ok"@,
            attached_deposit < self.spec_amount_to_pay(reg_no@) ==> r.message@ == "error"@,
    {
        let amount = self.amount_to_pay(reg_no);
        if attached_deposit < amount {
            SettlementDecision { message: "error".to_string(), transfer: None }
        } else {
            SettlementDecision { message: "ok".to_string(), transfer: Some(amount) }
        }
    }

    /// Balance-mode settlement: resolves the fare and debits the payer's
    /// account when the balance covers it. On a missing account or an
    /// insufficient balance the ledger is untouched and the result is
    /// "error" — the caller must pay by another channel.
    pub fn settle(&mut self, reg_no: String, payer_account: &String) -> (r: String)
        requires
            old(self).wf(),
        ensures
            final(self).wf(),
            final(self).spec_fares() == old(self).spec_fares(),
            final(self).spec_registry() == old(self).spec_registry(),
            ({
                let fare = old(self).spec_amount_to_pay(reg_no@);
                let led = old(self).spec_ledger();
                if led.contains_account(payer_account@) && led.balance_of(payer_account@) >= fare {
                    r@ == "ok"@ && BalanceLedger::updated(
                        led,
                        final(self).spec_ledger(),
                        payer_account@,
                        (led.balance_of(payer_account@) - fare) as u128,
                    )
                } else {
                    r@ == "error"@ && final(self).spec_ledger()@ == led@
                }
            }),
    {
        let amount = self.amount_to_pay(reg_no);
        match self.accounts.debit_if_sufficient(payer_account, amount) {
            DebitOutcome::Debited => "ok".to_string(),
            DebitOutcome::InsufficientFunds => "error".to_string(),
            DebitOutcome::AccountNotFound => "error".to_string(),
        }
    }

    /// Opens a zero-balance account; opening an existing one is a no-op that
    /// reports the duplicate and keeps its balance.
    pub fn open_account(&mut self, account_id: String) -> (r: Result<(), LedgerError>)
        requires
            old(self).wf(),
        ensures
            final(self).wf(),
            final(self).spec_fares() == old(self).spec_fares(),
            final(self).spec_registry() == old(self).spec_registry(),
            old(self).spec_ledger().contains_account(account_id@) ==> r == Err::<(), LedgerError>(
                LedgerError::AccountAlreadyExists,
            ) && final(self).spec_ledger()@ == old(self).spec_ledger()@,
            !old(self).spec_ledger().contains_account(account_id@) ==> r == Ok::<(), LedgerError>(
                (),
            ) && final(self).spec_ledger()@ =~= old(self).spec_ledger()@.push(
                (Account { id: account_id, balance: 0 }),
            ),
    {
        self.accounts.open_account(account_id)
    }

    /// Adds the amount to an existing account's balance; topping up a
    /// missing account performs no state change.
    pub fn top_up(&mut self, account_id: &String, amount: u128) -> (r: Result<(), LedgerError>)
        requires
            old(self).wf(),
            old(self).spec_ledger().contains_account(account_id@) ==> old(
                self,
            ).spec_ledger().balance_of(account_id@) + amount <= u128::MAX,
        ensures
            final(self).wf(),
            final(self).spec_fares() == old(self).spec_fares(),
            final(self).spec_registry() == old(self).spec_registry(),
            !old(self).spec_ledger().contains_account(account_id@) ==> r == Err::<(), LedgerError>(
                LedgerError::AccountNotFound,
            ) && final(self).spec_ledger()@ == old(self).spec_ledger()@,
            old(self).spec_ledger().contains_account(account_id@) ==> r == Ok::<(), LedgerError>(
                (),
            ) && BalanceLedger::updated(
                old(self).spec_ledger(),
                final(self).spec_ledger(),
                account_id@,
                (old(self).spec_ledger().balance_of(account_id@) + amount) as u128,
            ),
    {
        self.accounts.top_up(account_id, amount)
    }

    /// The balance held under this identifier, if the account exists.
    pub fn balance_of(&self, account_id: &String) -> (r: Option<u128>)
        requires
            self.wf(),
        ensures
            r == self.spec_ledger().spec_balance(account_id@),
    {
        self.accounts.balance(account_id)
    }
}

/// Fare fallback: resolution for a registration number nobody registered is
/// the maximum fare, whatever the fare table holds.
pub proof fn lemma_fare_fallback(app: App, reg_no: Seq<char>)
    requires
        !app.spec_registry().contains_reg(reg_no),
    ensures
        app.spec_amount_to_pay(reg_no) == spec_max_fare(),
{
}

/// Fare exactness: a registered vehicle pays exactly the fare configured for
/// its own recorded route — never that of another key.
pub proof fn lemma_fare_exact(app: App, reg_no: Seq<char>, v: Vehicle, fare: u128)
    requires
        app.spec_registry().spec_find(reg_no) == Some(v),
        app.spec_fares().spec_lookup(v.from_to@) == Some(fare),
    ensures
        app.spec_amount_to_pay(reg_no) == fare,
{
}

} // verus!
