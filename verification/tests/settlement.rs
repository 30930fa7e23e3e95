use toll_settlement::App;
use toll_settlement::FareTable;
use toll_settlement::LedgerError;
use toll_settlement::RouteFare;
use toll_settlement::VehicleType;
use toll_settlement::one_near;

#[test]
fn new_car() {
    let mut app = App::default();

    app.new_car(
        "westlands-mlolongo".to_string(),
        "saloon".to_string(),
        "KDJ 001A".to_string(),
    );
    assert_eq!(app.get_cars().len(), 1);
}

#[test]
fn pay() {
    let bal = one_near() * 20;
    let mut app = App::default();

    app.new_car(
        "westlands-mlolongo".to_string(),
        "saloon".to_string(),
        "KDJ 001A".to_string(),
    );

    let res = app.pay("KDJ 001A".to_string(), bal);
    assert_eq!(res.message, "ok".to_string())
}

#[test]
fn duplicate_registration_keeps_one_record() {
    let mut app = App::default();
    let first = app.new_car(
        "westlands-mlolongo".to_string(),
        "saloon".to_string(),
        "KDJ 001A".to_string(),
    );
    let second = app.new_car(
        "westlands-syokimau".to_string(),
        "bus".to_string(),
        "KDJ 001A".to_string(),
    );
    assert!(first);
    assert!(!second);
    let cars = app.get_cars();
    assert_eq!(cars.len(), 1);
    assert_eq!(cars[0].from_to, "westlands-mlolongo".to_string());
    assert_eq!(cars[0].types, VehicleType::SALOON);
}

#[test]
fn unregistered_vehicle_pays_max_fare() {
    let app = App::default();
    assert_eq!(app.amount_to_pay("KXX 999Z".to_string()), app.max_fare());
    assert_eq!(app.max_fare(), one_near() * 10);
}

#[test]
fn fare_is_exact_for_the_registered_route() {
    let routes = vec![
        RouteFare { from_to: "westlands-southernBypass".to_string(), fare: 240 },
        RouteFare { from_to: "westlands-mlolongo".to_string(), fare: 360 },
    ];
    let mut app = App::new(FareTable::from_routes(routes));
    app.new_car(
        "westlands-southernBypass".to_string(),
        "saloon".to_string(),
        "KDK 001A".to_string(),
    );
    assert_eq!(app.amount_to_pay("KDK 001A".to_string()), 240);
}

#[test]
fn default_table_prices_each_route_at_base_unit() {
    let mut app = App::default();
    app.new_car(
        "westlands-southernBypass".to_string(),
        "saloon".to_string(),
        "KDK 001A".to_string(),
    );
    assert_eq!(app.amount_to_pay("KDK 001A".to_string()), one_near());
}

#[test]
fn unknown_route_falls_back_to_max_fare() {
    let mut app = App::default();
    app.new_car(
        "westlands-nowhere".to_string(),
        "saloon".to_string(),
        "KDL 002B".to_string(),
    );
    assert_eq!(app.amount_to_pay("KDL 002B".to_string()), app.max_fare());
}

#[test]
fn opening_an_existing_account_keeps_its_balance() {
    let mut app = App::default();
    assert_eq!(app.open_account("A".to_string()), Ok(()));
    assert_eq!(app.balance_of(&"A".to_string()), Some(0));
    assert_eq!(app.top_up(&"A".to_string(), 500), Ok(()));
    assert_eq!(
        app.open_account("A".to_string()),
        Err(LedgerError::AccountAlreadyExists)
    );
    assert_eq!(app.balance_of(&"A".to_string()), Some(500));
}

#[test]
fn top_up_of_a_missing_account_is_rejected() {
    let mut app = App::default();
    assert_eq!(
        app.top_up(&"nobody".to_string(), 100),
        Err(LedgerError::AccountNotFound)
    );
    assert_eq!(app.balance_of(&"nobody".to_string()), None);
}

#[test]
fn balance_settlement_end_to_end() {
    let routes = vec![RouteFare { from_to: "westlands-mlolongo".to_string(), fare: 360 }];
    let mut app = App::new(FareTable::from_routes(routes));
    let account = "A".to_string();

    assert_eq!(app.open_account("A".to_string()), Ok(()));
    assert_eq!(app.balance_of(&account), Some(0));
    assert_eq!(app.top_up(&account, 1000), Ok(()));
    assert_eq!(app.balance_of(&account), Some(1000));

    app.new_car(
        "westlands-mlolongo".to_string(),
        "saloon".to_string(),
        "KDJ 001A".to_string(),
    );

    assert_eq!(app.settle("KDJ 001A".to_string(), &account), "ok".to_string());
    assert_eq!(app.balance_of(&account), Some(640));
    assert_eq!(app.settle("KDJ 001A".to_string(), &account), "ok".to_string());
    assert_eq!(app.balance_of(&account), Some(280));
    assert_eq!(app.settle("KDJ 001A".to_string(), &account), "error".to_string());
    assert_eq!(app.balance_of(&account), Some(280));
}

#[test]
fn settling_from_a_missing_account_changes_nothing() {
    let mut app = App::default();
    app.new_car(
        "westlands-mlolongo".to_string(),
        "saloon".to_string(),
        "KDJ 001A".to_string(),
    );
    assert_eq!(
        app.settle("KDJ 001A".to_string(), &"ghost".to_string()),
        "error".to_string()
    );
}

#[test]
fn settling_an_unregistered_vehicle_debits_max_fare() {
    let mut app = App::default();
    let account = "B".to_string();
    assert_eq!(app.open_account("B".to_string()), Ok(()));
    assert_eq!(app.top_up(&account, one_near() * 10), Ok(()));
    assert_eq!(app.settle("KZZ 000Z".to_string(), &account), "ok".to_string());
    assert_eq!(app.balance_of(&account), Some(0));
}

#[test]
fn deposit_covers_fare_releases_exactly_the_fare() {
    let mut app = App::default();
    app.new_car(
        "westlands-mlolongo".to_string(),
        "saloon".to_string(),
        "KDJ 001A".to_string(),
    );
    let res = app.pay("KDJ 001A".to_string(), one_near() * 10);
    assert_eq!(res.message, "ok".to_string());
    assert_eq!(res.transfer, Some(one_near()));
}

#[test]
fn deposit_below_fare_authorizes_no_transfer() {
    let mut app = App::default();
    app.new_car(
        "westlands-mlolongo".to_string(),
        "saloon".to_string(),
        "KDJ 001A".to_string(),
    );
    let res = app.pay("KDJ 001A".to_string(), one_near() - 1);
    assert_eq!(res.message, "error".to_string());
    assert_eq!(res.transfer, None);
}

#[test]
fn one_near_is_the_base_unit() {
    assert_eq!(one_near(), 1_000_000_000_000_000_000_000_000u128);
}
