//! Failures as text.
//!
//! Brewing fails with one of two fixed messages. Composing fails with a
//! message of its own making: a fixed lead, then the brewing message. The
//! cause survives as text inside the longer text and in no other way.

use vstd::prelude::*;
use vstd::string::StringExecFns;
use crate::quantity::{whole, Quantity};
use crate::recipe::{
    lacks_beans,
    lacks_water,
    spec_lacks_beans,
    spec_lacks_water,
    BEANS_PER_ESPRESSO,
    WATER_PER_ESPRESSO,
};

verus! {

/// The message of a brewing failure for want of water.
pub const NOT_ENOUGH_WATER: &'static str = "Not enough water in tank";

/// The message of a brewing failure for want of beans.
pub const NOT_ENOUGH_BEANS: &'static str = "Not enough coffee beans";

/// What a composing failure's message starts with.
pub const ESPRESSO_FAILED: &'static str = "The coffee machine failed to make espresso, ";

/// The supplies that the brewing stage draws on.
pub struct CoffeeMachine {
    pub water_tank_volume: Quantity,
    pub available_coffee_beans: Quantity,
}

/// A brewed espresso.
#[derive(PartialEq, Eq, Debug, Structural)]
pub struct Espresso {}

/// A slice of toast.
#[derive(PartialEq, Eq, Debug, Structural)]
pub struct Toast {}

/// An espresso with a slice of toast.
#[derive(PartialEq, Eq, Debug, Structural)]
pub struct Breakfast {
    pub espresso: Espresso,
    pub toast: Toast,
}

/// A result whose failure is a message, with the message as the text it
/// holds.
pub open spec fn by_text<T>(result: Result<T, String>) -> Result<T, Seq<char>> {
    match result {
        Ok(made) => Ok(made),
        Err(message) => Err(message@),
    }
}

impl CoffeeMachine {
    /// What brewing comes to: water is looked at first, and beans only
    /// when there is water enough.
    pub open spec fn spec_make_espresso(&self) -> Result<Espresso, Seq<char>> {
        if spec_lacks_water(self.water_tank_volume) {
            Err(NOT_ENOUGH_WATER@)
        } else if spec_lacks_beans(self.available_coffee_beans) {
            Err(NOT_ENOUGH_BEANS@)
        } else {
            Ok(Espresso {})
        }
    }

    /// Brews one espresso, or says in words which supply is short.
    pub fn make_espresso(&self) -> (result: Result<Espresso, String>)
        ensures
            by_text(result) == self.spec_make_espresso(),
            spec_lacks_water(self.water_tank_volume) ==> (result matches Err(message) && message@ == NOT_ENOUGH_WATER@),
            self.water_tank_volume@.ge(whole(WATER_PER_ESPRESSO as nat)) && spec_lacks_beans(
                self.available_coffee_beans,
            ) ==> (result matches Err(message) && message@ == NOT_ENOUGH_BEANS@),
            self.water_tank_volume@.ge(whole(WATER_PER_ESPRESSO as nat))
                && self.available_coffee_beans@.ge(whole(BEANS_PER_ESPRESSO as nat)) ==> (result matches Ok(_)),
    {
        if lacks_water(self.water_tank_volume) {
            Err(String::from_str(NOT_ENOUGH_WATER))
        } else if lacks_beans(self.available_coffee_beans) {
            Err(String::from_str(NOT_ENOUGH_BEANS))
        } else {
            Ok(Espresso {})
        }
    }
}

/// What composing comes to: a breakfast around the espresso, or the lead
/// followed by the brewing message.
pub open spec fn spec_make_breakfast(coffee_machine: CoffeeMachine) -> Result<
    Breakfast,
    Seq<char>,
> {
    match coffee_machine.spec_make_espresso() {
        Ok(espresso) => Ok(Breakfast { espresso, toast: Toast {} }),
        Err(cause) => Err(ESPRESSO_FAILED@ + cause),
    }
}

/// Brews an espresso and adds toast to it, or says in words that the
/// espresso failed and why.
pub fn make_breakfast(coffee_machine: CoffeeMachine) -> (result: Result<Breakfast, String>)
    ensures
        by_text(result) == spec_make_breakfast(coffee_machine),
{
    match coffee_machine.make_espresso() {
        Ok(espresso) => Ok(Breakfast { espresso, toast: Toast {} }),
        Err(cause) => Err(String::from_str(ESPRESSO_FAILED).concat(cause.as_str())),
    }
}

} // verus!
