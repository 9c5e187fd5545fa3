use breakfast::quantity::Quantity;
use breakfast::using_anyhow::{
    context_frames, make_breakfast, Breakfast, CoffeeMachine, Espresso, Toast,
};

fn amount(number: f64) -> Quantity {
    Quantity { bits: number.to_bits() }
}

fn machine(water: f64, beans: f64) -> CoffeeMachine {
    CoffeeMachine { water_tank_volume: amount(water), available_coffee_beans: amount(beans) }
}

#[test]
fn using_anyhow_error_returned_when_making_espresso_without_beans() {
    let machine = machine(300.0, 2.0);

    let result = machine.make_espresso();
    assert!(result.is_err());
    println!("{result:?}");
}

#[test]
fn using_anyhow_error_returned_when_making_espresso_without_water() {
    let machine = machine(0.0, 7.0);

    let result = machine.make_espresso();
    assert!(result.is_err());
    println!("{result:?}");
}

#[test]
fn using_anyhow_espresso_is_made_with_water_and_beans() {
    let machine = machine(300.0, 7.0);

    let result = machine.make_espresso();
    assert!(result.is_ok());
}

#[test]
fn using_anyhow_error_returned_when_making_breakfast_without_beans() {
    let coffee_machine = machine(300.0, 2.0);

    let result = make_breakfast(coffee_machine);
    assert!(result.is_err());

    let err = result.unwrap_err();
    for inner in err.chain() {
        println!("{inner}");
    }
}

#[test]
fn using_anyhow_brewing_failure_is_one_frame() {
    let error = machine(300.0, 2.0).make_espresso().unwrap_err();
    assert_eq!(error.to_string(), "Not enough coffee beans");
    assert_eq!(context_frames(&error), vec!["Not enough coffee beans".to_string()]);

    let error = machine(24.999, 100.0).make_espresso().unwrap_err();
    assert_eq!(error.to_string(), "Not enough water in tank");
    assert_eq!(context_frames(&error), vec!["Not enough water in tank".to_string()]);
}

#[test]
fn using_anyhow_composing_failure_lays_context_over_the_cause() {
    let error = make_breakfast(machine(300.0, 2.0)).unwrap_err();
    assert_eq!(error.to_string(), "Unable to make espresso");
    assert_eq!(error.root_cause().to_string(), "Not enough coffee beans");
    assert_eq!(
        context_frames(&error),
        vec!["Unable to make espresso".to_string(), "Not enough coffee beans".to_string()]
    );

    let error = make_breakfast(machine(0.0, 7.0)).unwrap_err();
    assert_eq!(
        context_frames(&error),
        vec!["Unable to make espresso".to_string(), "Not enough water in tank".to_string()]
    );
}

#[test]
fn using_anyhow_breakfast_holds_one_espresso_and_one_toast() {
    assert_eq!(machine(300.0, 7.0).make_espresso().unwrap(), Espresso {});
    assert_eq!(
        make_breakfast(machine(300.0, 7.0)).unwrap(),
        Breakfast { espresso: Espresso {}, toast: Toast {} }
    );
    assert!(make_breakfast(machine(25.0, 7.0)).is_ok());
}
