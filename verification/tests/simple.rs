use breakfast::quantity::Quantity;
use breakfast::simple::{make_breakfast, Breakfast, CoffeeMachine, Espresso, Toast};

fn amount(number: f64) -> Quantity {
    Quantity { bits: number.to_bits() }
}

fn machine(water: f64, beans: f64) -> CoffeeMachine {
    CoffeeMachine { water_tank_volume: amount(water), available_coffee_beans: amount(beans) }
}

#[test]
fn simple_error_returned_when_making_espresso_without_beans() {
    let machine = machine(300.0, 2.0);

    let result = machine.make_espresso();
    assert!(result.is_err());
    assert_eq!(result, Err("Not enough coffee beans".to_string()));
}

#[test]
fn simple_error_returned_when_making_espresso_without_water() {
    let machine = machine(0.0, 7.0);

    let result = machine.make_espresso();
    assert!(result.is_err());
    assert_eq!(result, Err("Not enough water in tank".to_string()));
}

#[test]
fn simple_espresso_is_made_with_water_and_beans() {
    let machine = machine(300.0, 7.0);

    let result = machine.make_espresso();
    assert!(result.is_ok());
}

#[test]
fn simple_error_returned_when_making_breakfast_without_beans() {
    let coffee_machine = machine(300.0, 2.0);

    let result = make_breakfast(coffee_machine);
    assert!(result.is_err());
    assert_eq!(
        result,
        Err("The coffee machine failed to make espresso, \
             Not enough coffee beans"
            .to_string())
    );
}

#[test]
fn simple_breakfast_without_water_embeds_the_water_message() {
    assert_eq!(
        make_breakfast(machine(0.0, 7.0)),
        Err("The coffee machine failed to make espresso, Not enough water in tank".to_string())
    );
}

#[test]
fn simple_breakfast_holds_one_espresso_and_one_toast() {
    assert_eq!(
        make_breakfast(machine(300.0, 7.0)),
        Ok(Breakfast { espresso: Espresso {}, toast: Toast {} })
    );
}

#[test]
fn simple_thresholds_themselves_are_enough() {
    assert_eq!(machine(25.0, 7.0).make_espresso(), Ok(Espresso {}));
    assert!(make_breakfast(machine(25.0, 7.0)).is_ok());
}

#[test]
fn simple_water_is_looked_at_before_beans() {
    assert_eq!(
        machine(24.999, 100.0).make_espresso(),
        Err("Not enough water in tank".to_string())
    );
    assert_eq!(machine(0.0, 0.0).make_espresso(), Err("Not enough water in tank".to_string()));
}
