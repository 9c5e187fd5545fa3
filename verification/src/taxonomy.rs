//! Failures as a closed taxonomy.
//!
//! Each stage has an enum of its own with one variant per cause, and the
//! composing stage embeds the brewing stage's value in one of its variants.
//! A caller finds the root cause by matching, never by reading text.

use vstd::prelude::*;
use vstd::string::StringExecFns;
use crate::quantity::{whole, Quantity};
use crate::recipe::{
    lacks_beans,
    lacks_water,
    spec_lacks_beans,
    spec_lacks_water,
    BEANS_PER_ESPRESSO,
    WATER_PER_ESPRESSO,
};

verus! {

/// The supplies that the brewing stage draws on.
pub struct CoffeeMachine {
    pub water_tank_volume: Quantity,
    pub available_coffee_beans: Quantity,
}

/// A brewed espresso.
#[derive(PartialEq, Eq, Debug, Structural)]
pub struct Espresso {}

/// Why no espresso was brewed.
#[derive(PartialEq, Eq, Debug, Structural)]
pub enum MakeEspressoError {
    NotEnoughWater,
    NotEnoughBeans,
}

impl MakeEspressoError {
    /// The text that describes this cause.
    pub open spec fn spec_message(self) -> Seq<char> {
        match self {
            MakeEspressoError::NotEnoughWater => "Not enough water in tank"@,
            MakeEspressoError::NotEnoughBeans => "Not enough coffee beans"@,
        }
    }

    /// The text that describes this cause.
    pub fn message(&self) -> (text: String)
        ensures
            text@ == self.spec_message(),
    {
        match self {
            MakeEspressoError::NotEnoughWater => String::from_str("Not enough water in tank"),
            MakeEspressoError::NotEnoughBeans => String::from_str("Not enough coffee beans"),
        }
    }
}

impl CoffeeMachine {
    /// What brewing comes to: water is looked at first, and beans only
    /// when there is water enough.
    pub open spec fn spec_make_espresso(&self) -> Result<Espresso, MakeEspressoError> {
        if spec_lacks_water(self.water_tank_volume) {
            Err(MakeEspressoError::NotEnoughWater)
        } else if spec_lacks_beans(self.available_coffee_beans) {
            Err(MakeEspressoError::NotEnoughBeans)
        } else {
            Ok(Espresso {})
        }
    }

    /// Brews one espresso, or says which supply is short.
    pub fn make_espresso(&self) -> (result: Result<Espresso, MakeEspressoError>)
        ensures
            result == self.spec_make_espresso(),
            spec_lacks_water(self.water_tank_volume) ==> (result matches Err(MakeEspressoError::NotEnoughWater)),
            self.water_tank_volume@.ge(whole(WATER_PER_ESPRESSO as nat)) && spec_lacks_beans(
                self.available_coffee_beans,
            ) ==> (result matches Err(MakeEspressoError::NotEnoughBeans)),
            self.water_tank_volume@.ge(whole(WATER_PER_ESPRESSO as nat))
                && self.available_coffee_beans@.ge(whole(BEANS_PER_ESPRESSO as nat)) ==> (result matches Ok(_)),
    {
        if lacks_water(self.water_tank_volume) {
            Err(MakeEspressoError::NotEnoughWater)
        } else if lacks_beans(self.available_coffee_beans) {
            Err(MakeEspressoError::NotEnoughBeans)
        } else {
            Ok(Espresso {})
        }
    }
}

/// A slice of toast.
#[derive(PartialEq, Eq, Debug, Structural)]
pub struct Toast {}

/// An espresso with a slice of toast.
#[derive(PartialEq, Eq, Debug, Structural)]
pub struct Breakfast {
    pub espresso: Espresso,
    pub toast: Toast,
}

/// Why no breakfast was composed.
#[derive(PartialEq, Eq, Debug, Structural)]
pub enum MakeBreakfastError {
    /// The brewing stage failed, for the cause held here.
    UnableToMakeEspresso(MakeEspressoError),
    /// The toast could not be made. Toast always succeeds, so nothing
    /// returns this yet.
    UnableToMakeToast,
}

impl From<MakeEspressoError> for MakeBreakfastError {
    fn from(cause: MakeEspressoError) -> (error: MakeBreakfastError) {
        MakeBreakfastError::UnableToMakeEspresso(cause)
    }
}

impl vstd::std_specs::convert::FromSpecImpl<MakeEspressoError> for MakeBreakfastError {
    open spec fn obeys_from_spec() -> bool {
        true
    }

    open spec fn from_spec(cause: MakeEspressoError) -> MakeBreakfastError {
        MakeBreakfastError::UnableToMakeEspresso(cause)
    }
}

impl MakeBreakfastError {
    /// The brewing failure underneath, if this failure has one.
    pub open spec fn spec_cause(self) -> Option<MakeEspressoError> {
        match self {
            MakeBreakfastError::UnableToMakeEspresso(cause) => Some(cause),
            MakeBreakfastError::UnableToMakeToast => None,
        }
    }

    /// The brewing failure underneath, if this failure has one.
    pub fn cause(&self) -> (cause: Option<&MakeEspressoError>)
        ensures
            match cause {
                Some(found) => self.spec_cause() == Some(*found),
                None => self.spec_cause() is None,
            },
    {
        match self {
            MakeBreakfastError::UnableToMakeEspresso(cause) => Some(cause),
            MakeBreakfastError::UnableToMakeToast => None,
        }
    }

    /// The text that describes this failure: for a brewing failure, a fixed
    /// lead followed by the cause's own text.
    pub open spec fn spec_message(self) -> Seq<char> {
        match self {
            MakeBreakfastError::UnableToMakeEspresso(cause) => "Unable to make espresso, "@
                + cause.spec_message(),
            MakeBreakfastError::UnableToMakeToast => "Unable to make toast"@,
        }
    }

    /// The text that describes this failure.
    pub fn message(&self) -> (text: String)
        ensures
            text@ == self.spec_message(),
    {
        match self {
            MakeBreakfastError::UnableToMakeEspresso(cause) => {
                let inner = cause.message();
                String::from_str("Unable to make espresso, ").concat(inner.as_str())
            },
            MakeBreakfastError::UnableToMakeToast => String::from_str("Unable to make toast"),
        }
    }
}

/// What composing comes to: a breakfast around the espresso, or the brewing
/// failure inside a composing failure.
pub open spec fn spec_make_breakfast(coffee_machine: CoffeeMachine) -> Result<
    Breakfast,
    MakeBreakfastError,
> {
    match coffee_machine.spec_make_espresso() {
        Ok(espresso) => Ok(Breakfast { espresso, toast: Toast {} }),
        Err(cause) => Err(MakeBreakfastError::UnableToMakeEspresso(cause)),
    }
}

/// Brews an espresso and adds toast to it, or says why the espresso failed.
pub fn make_breakfast(coffee_machine: CoffeeMachine) -> (result: Result<
    Breakfast,
    MakeBreakfastError,
>)
    ensures
        result == spec_make_breakfast(coffee_machine),
{
    match coffee_machine.make_espresso() {
        Ok(espresso) => Ok(Breakfast { espresso, toast: Toast {} }),
        Err(cause) => Err(MakeBreakfastError::from(cause)),
    }
}

/// Composing succeeds exactly when brewing does, and a breakfast then holds
/// one espresso and one toast.
pub proof fn lemma_breakfast_exactly_when_espresso(coffee_machine: CoffeeMachine)
    ensures
        spec_make_breakfast(coffee_machine) is Ok <==> coffee_machine.spec_make_espresso() is Ok,
        spec_make_breakfast(coffee_machine) is Ok ==> spec_make_breakfast(coffee_machine) == Ok::<
            _,
            MakeBreakfastError,
        >(Breakfast { espresso: Espresso {}, toast: Toast {} }),
{
}

/// A composing failure holds the very cause that brewing gives for the same
/// supplies, and it is never a toast failure.
pub proof fn lemma_breakfast_failure_keeps_cause(coffee_machine: CoffeeMachine)
    ensures
        match spec_make_breakfast(coffee_machine) {
            Ok(_) => true,
            Err(error) => {
                &&& error !is UnableToMakeToast
                &&& coffee_machine.spec_make_espresso() == Err::<Espresso, _>(error->0)
                &&& error.spec_cause() == Some(error->0)
            },
        },
        coffee_machine.spec_make_espresso() matches Err(cause) ==> spec_make_breakfast(
            coffee_machine,
        ) == Err::<Breakfast, _>(MakeBreakfastError::UnableToMakeEspresso(cause)),
{
}

} // verus!
