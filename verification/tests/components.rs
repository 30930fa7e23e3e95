use toll_settlement::App;
use toll_settlement::BalanceLedger;
use toll_settlement::DebitOutcome;
use toll_settlement::FareTable;
use toll_settlement::LedgerError;
use toll_settlement::RouteFare;
use toll_settlement::Vehicle;
use toll_settlement::VehicleRegistry;
use toll_settlement::VehicleType;

#[test]
fn category_vocabulary_is_exact_and_case_sensitive() {
    let app = App::default();
    assert_eq!(app.get_car_type("saloon".to_string()), VehicleType::SALOON);
    assert_eq!(app.get_car_type("bus".to_string()), VehicleType::BUS);
    assert_eq!(app.get_car_type("trailer".to_string()), VehicleType::TRAILER);
    assert_eq!(app.get_car_type("Saloon".to_string()), VehicleType::OTHER);
    assert_eq!(app.get_car_type("BUS".to_string()), VehicleType::OTHER);
    assert_eq!(app.get_car_type("lorry".to_string()), VehicleType::OTHER);
    assert_eq!(app.get_car_type("".to_string()), VehicleType::OTHER);
}

#[test]
fn listing_keeps_insertion_order() {
    let mut app = App::default();
    app.new_car("westlands-mlolongo".to_string(), "saloon".to_string(), "KDA 001A".to_string());
    app.new_car("mlolongo-westlands".to_string(), "bus".to_string(), "KDB 002B".to_string());
    app.new_car("westlands-jkia".to_string(), "trailer".to_string(), "KDC 003C".to_string());
    let cars = app.get_cars();
    assert_eq!(cars.len(), 3);
    assert_eq!(cars[0].reg_no, "KDA 001A".to_string());
    assert_eq!(cars[1].reg_no, "KDB 002B".to_string());
    assert_eq!(cars[2].reg_no, "KDC 003C".to_string());
    assert_eq!(cars[1].types, VehicleType::BUS);
    assert_eq!(cars[2].from_to, "westlands-jkia".to_string());
}

#[test]
fn registry_register_and_find() {
    let mut registry = VehicleRegistry::new();
    let inserted = registry.register(Vehicle {
        types: VehicleType::SALOON,
        reg_no: "KDJ 001A".to_string(),
        from_to: "westlands-mlolongo".to_string(),
    });
    assert!(inserted);
    let duplicate = registry.register(Vehicle {
        types: VehicleType::BUS,
        reg_no: "KDJ 001A".to_string(),
        from_to: "mlolongo-westlands".to_string(),
    });
    assert!(!duplicate);
    let found = registry.find(&"KDJ 001A".to_string()).expect("registered vehicle");
    assert_eq!(found.types, VehicleType::SALOON);
    assert_eq!(found.from_to, "westlands-mlolongo".to_string());
    assert!(registry.find(&"KDJ 999Z".to_string()).is_none());
}

#[test]
fn fare_table_lookup_hits_and_misses() {
    let table = FareTable::from_routes(vec![
        RouteFare { from_to: "westlands-mlolongo".to_string(), fare: 100 },
        RouteFare { from_to: "mlolongo-westlands".to_string(), fare: 250 },
    ]);
    assert_eq!(table.get(&"westlands-mlolongo".to_string()), Some(100));
    assert_eq!(table.get(&"mlolongo-westlands".to_string()), Some(250));
    assert_eq!(table.get(&"westlands-unknown".to_string()), None);
}

#[test]
fn debit_outcomes_cover_all_cases() {
    let mut ledger = BalanceLedger::new();
    assert_eq!(
        ledger.debit_if_sufficient(&"A".to_string(), 10),
        DebitOutcome::AccountNotFound
    );
    assert_eq!(ledger.open_account("A".to_string()), Ok(()));
    assert_eq!(ledger.top_up(&"A".to_string(), 100), Ok(()));
    assert_eq!(
        ledger.debit_if_sufficient(&"A".to_string(), 150),
        DebitOutcome::InsufficientFunds
    );
    assert_eq!(ledger.balance(&"A".to_string()), Some(100));
    assert_eq!(
        ledger.debit_if_sufficient(&"A".to_string(), 60),
        DebitOutcome::Debited
    );
    assert_eq!(ledger.balance(&"A".to_string()), Some(40));
    assert_eq!(
        ledger.debit_if_sufficient(&"A".to_string(), 40),
        DebitOutcome::Debited
    );
    assert_eq!(ledger.balance(&"A".to_string()), Some(0));
}

#[test]
fn ledger_accounts_are_independent() {
    let mut ledger = BalanceLedger::new();
    assert_eq!(ledger.open_account("A".to_string()), Ok(()));
    assert_eq!(ledger.open_account("B".to_string()), Ok(()));
    assert_eq!(
        ledger.open_account("B".to_string()),
        Err(LedgerError::AccountAlreadyExists)
    );
    assert_eq!(ledger.top_up(&"A".to_string(), 70), Ok(()));
    assert_eq!(ledger.top_up(&"B".to_string(), 30), Ok(()));
    assert_eq!(ledger.debit_if_sufficient(&"A".to_string(), 50), DebitOutcome::Debited);
    assert_eq!(ledger.balance(&"A".to_string()), Some(20));
    assert_eq!(ledger.balance(&"B".to_string()), Some(30));
}
