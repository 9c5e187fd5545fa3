//! Failures as a chain of context.
//!
//! A failure is an `anyhow::Error`: a message, under any number of frames
//! of context that the stages above have laid over it. What such a value
//! holds is read as its frames, outermost first. The frames are text, so
//! the cause can be shown but not matched on.

use vstd::prelude::*;
use crate::quantity::{whole, Quantity};
use crate::recipe::{
    lacks_beans,
    lacks_water,
    spec_lacks_beans,
    spec_lacks_water,
    BEANS_PER_ESPRESSO,
    WATER_PER_ESPRESSO,
};

verus! {

/// The message of a brewing failure for want of water.
pub const NOT_ENOUGH_WATER: &'static str = "Not enough water in tank";

/// The message of a brewing failure for want of beans.
pub const NOT_ENOUGH_BEANS: &'static str = "Not enough coffee beans";

/// The context that composing lays over a brewing failure.
pub const UNABLE_TO_MAKE_ESPRESSO: &'static str = "Unable to make espresso";

#[verifier::external_type_specification]
#[verifier::external_body]
pub struct ExError(anyhow::Error);

/// The frames of a failure, outermost first: what each error that
/// `anyhow::Error::chain` visits shows as text.
pub uninterp spec fn frames(error: anyhow::Error) -> Seq<Seq<char>>;

/// `anyhow::Error::msg` on a string: the failure made has one frame, the
/// message itself, since a message error has no source.
#[verifier::external_body]
fn failure(message: &'static str) -> (error: anyhow::Error)
    ensures
        frames(error) == seq![message@],
{
    anyhow::Error::msg(message)
}

/// `anyhow::Error::context` with a string: the failure made shows the
/// context, and its source is the failure it was laid over, so the context
/// comes first and the earlier frames follow unchanged.
#[verifier::external_body]
fn in_context(error: anyhow::Error, context: &'static str) -> (wrapped: anyhow::Error)
    ensures
        frames(wrapped) == seq![context@] + frames(error),
{
    error.context(context)
}

/// `anyhow::Error::chain`, each error visited turned into the text it
/// shows. The walk starts at the failure itself, so there is always a
/// first frame.
#[verifier::external_body]
fn chain_text(error: &anyhow::Error) -> (texts: Vec<String>)
    ensures
        texts@.len() == frames(*error).len(),
        texts@.len() >= 1,
        forall|i: int| 0 <= i < texts@.len() ==> (#[trigger] texts@[i])@ == frames(*error)[i],
{
    error.chain().map(|cause| cause.to_string()).collect()
}

/// The supplies that the brewing stage draws on.
pub struct CoffeeMachine {
    pub water_tank_volume: Quantity,
    pub available_coffee_beans: Quantity,
}

/// A brewed espresso.
#[derive(PartialEq, Eq, Debug, Structural)]
pub struct Espresso {}

/// A slice of toast.
#[derive(PartialEq, Eq, Debug, Structural)]
pub struct Toast {}

/// An espresso with a slice of toast.
#[derive(PartialEq, Eq, Debug, Structural)]
pub struct Breakfast {
    pub espresso: Espresso,
    pub toast: Toast,
}

/// A result whose failure is a chain of context, with the chain as the
/// frames it holds.
pub open spec fn by_frames<T>(result: Result<T, anyhow::Error>) -> Result<T, Seq<Seq<char>>> {
    match result {
        Ok(made) => Ok(made),
        Err(error) => Err(frames(error)),
    }
}

impl CoffeeMachine {
    /// What brewing comes to: water is looked at first, and beans only
    /// when there is water enough. A failure is a single frame.
    pub open spec fn spec_make_espresso(&self) -> Result<Espresso, Seq<Seq<char>>> {
        if spec_lacks_water(self.water_tank_volume) {
            Err(seq![NOT_ENOUGH_WATER@])
        } else if spec_lacks_beans(self.available_coffee_beans) {
            Err(seq![NOT_ENOUGH_BEANS@])
        } else {
            Ok(Espresso {})
        }
    }

    /// Brews one espresso, or fails with a message that names the supply
    /// that is short.
    pub fn make_espresso(&self) -> (result: Result<Espresso, anyhow::Error>)
        ensures
            by_frames(result) == self.spec_make_espresso(),
            spec_lacks_water(self.water_tank_volume) ==> (result matches Err(error) && frames(error) == seq![NOT_ENOUGH_WATER@]),
            self.water_tank_volume@.ge(whole(WATER_PER_ESPRESSO as nat)) && spec_lacks_beans(
                self.available_coffee_beans,
            ) ==> (result matches Err(error) && frames(error) == seq![NOT_ENOUGH_BEANS@]),
            self.water_tank_volume@.ge(whole(WATER_PER_ESPRESSO as nat))
                && self.available_coffee_beans@.ge(whole(BEANS_PER_ESPRESSO as nat)) ==> (result matches Ok(_)),
    {
        if lacks_water(self.water_tank_volume) {
            Err(failure(NOT_ENOUGH_WATER))
        } else if lacks_beans(self.available_coffee_beans) {
            Err(failure(NOT_ENOUGH_BEANS))
        } else {
            Ok(Espresso {})
        }
    }
}

/// What composing comes to: a breakfast around the espresso, or the
/// brewing failure under one more frame.
pub open spec fn spec_make_breakfast(coffee_machine: CoffeeMachine) -> Result<
    Breakfast,
    Seq<Seq<char>>,
> {
    match coffee_machine.spec_make_espresso() {
        Ok(espresso) => Ok(Breakfast { espresso, toast: Toast {} }),
        Err(cause) => Err(seq![UNABLE_TO_MAKE_ESPRESSO@] + cause),
    }
}

/// Brews an espresso and adds toast to it, or lays its own context over
/// the brewing failure.
pub fn make_breakfast(coffee_machine: CoffeeMachine) -> (result: Result<Breakfast, anyhow::Error>)
    ensures
        by_frames(result) == spec_make_breakfast(coffee_machine),
{
    match coffee_machine.make_espresso() {
        Ok(espresso) => Ok(Breakfast { espresso, toast: Toast {} }),
        Err(cause) => Err(in_context(cause, UNABLE_TO_MAKE_ESPRESSO)),
    }
}

/// The frames of a failure as text, outermost first, and the root cause
/// last.
pub fn context_frames(error: &anyhow::Error) -> (texts: Vec<String>)
    ensures
        texts@.len() >= 1,
        texts@.map_values(|text: String| text@) == frames(*error),
{
    let texts = chain_text(error);
    assert(texts@.map_values(|text: String| text@) =~= frames(*error));
    texts
}

/// Composing succeeds exactly when brewing does, and a breakfast then holds
/// one espresso and one toast.
pub proof fn lemma_breakfast_exactly_when_espresso(coffee_machine: CoffeeMachine)
    ensures
        spec_make_breakfast(coffee_machine) is Ok <==> coffee_machine.spec_make_espresso() is Ok,
        spec_make_breakfast(coffee_machine) is Ok ==> spec_make_breakfast(coffee_machine) == Ok::<
            _,
            Seq<Seq<char>>,
        >(Breakfast { espresso: Espresso {}, toast: Toast {} }),
{
}

/// A composing failure has two frames: the context of composing, and under
/// it, as the root cause, the one frame that brewing fails with on the
/// same supplies.
pub proof fn lemma_breakfast_failure_keeps_cause(coffee_machine: CoffeeMachine)
    ensures
        spec_make_breakfast(coffee_machine) matches Err(chain) ==> {
            &&& chain.len() == 2
            &&& chain[0] == UNABLE_TO_MAKE_ESPRESSO@
            &&& coffee_machine.spec_make_espresso() == Err::<Espresso, _>(seq![chain.last()])
        },
{
    if let Err(cause) = coffee_machine.spec_make_espresso() {
        let chain = seq![UNABLE_TO_MAKE_ESPRESSO@] + cause;
        assert(cause =~= seq![chain.last()]);
    }
}

} // verus!
