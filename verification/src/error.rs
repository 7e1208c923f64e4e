//! Errors of the TSL2591 driver.
use vstd::prelude::*;

verus! {

/// Errors that can occur when interacting with the TSL2591 sensor
#[derive(Debug)]
pub enum Tsl2591Error<E> {
    /// I2C communication error
    ///
    /// This wraps the error type of the underlying I2C bus implementation.
    I2c(E),
    /// The device ID doesn't match the expected value
    ///
    /// The TSL2591 should return `0x50` when reading the `DeviceID` register.
    /// This error indicates the sensor might not be connected or is not a TSL2591.
    /// It carries the ID that was actually read from the sensor.
    InvalidDevice(u8),
    /// Saturated sensor reading
    ///
    /// The light level is too high to be represented (value reached `0xFFFF`).
    /// Try reducing gain or integration time.
    Overflow,
}

/// The error of the first failed bus call among `outcomes`, in order; `None`
/// when every call succeeded.
pub open spec fn first_bus_error<E>(outcomes: Seq<Result<(), E>>) -> Option<E>
    decreases outcomes.len(),
{
    if outcomes.len() == 0 {
        None
    } else {
        match outcomes[0] {
            Err(e) => Some(e),
            Ok(_) => first_bus_error(outcomes.drop_first()),
        }
    }
}

/// There is a first failed bus call exactly when some bus call failed.
pub proof fn lemma_first_bus_error_exists<E>(outcomes: Seq<Result<(), E>>)
    ensures
        first_bus_error(outcomes) is None <==> forall|i: int|
            0 <= i < outcomes.len() ==> (#[trigger] outcomes[i]) is Ok,
    decreases outcomes.len(),
{
    if outcomes.len() > 0 {
        lemma_first_bus_error_exists(outcomes.drop_first());
        if first_bus_error(outcomes) is None {
            assert forall|i: int| 0 <= i < outcomes.len() implies (#[trigger] outcomes[i]) is Ok by {
                if i > 0 {
                    assert(outcomes[i] == outcomes.drop_first()[i - 1]);
                }
            }
        } else if outcomes[0] is Ok {
            let j = choose|j: int|
                0 <= j < outcomes.drop_first().len() && !(#[trigger] outcomes.drop_first()[j] is Ok);
            assert(outcomes[j + 1] == outcomes.drop_first()[j]);
        }
    }
}

/// Reports the outcome of the bus calls that an operation made: fails with
/// `I2c(e)`, where `e` is the error of the first failed call, exactly when a
/// call failed.
pub fn check_bus<E>(outcomes: Vec<Result<(), E>>) -> (r: Result<(), Tsl2591Error<E>>)
    ensures
        r is Ok <==> forall|i: int| 0 <= i < outcomes@.len() ==> (#[trigger] outcomes@[i]) is Ok,
        r == match first_bus_error(outcomes@) {
            Some(e) => Err(Tsl2591Error::I2c(e)),
            None => Ok::<(), Tsl2591Error<E>>(()),
        },
{
    let ghost all = outcomes@;
    let mut rest = outcomes;
    let mut first: Option<E> = None;
    while rest.len() > 0
        invariant
            rest@.len() <= all.len(),
            rest@ == all.subrange(0, rest@.len() as int),
            first == first_bus_error(all.subrange(rest@.len() as int, all.len() as int)),
        decreases rest@.len(),
    {
        let ghost n = rest@.len();
        let outcome = rest.pop();
        proof {
            let suffix = all.subrange(n - 1, all.len() as int);
            assert(suffix.drop_first() =~= all.subrange(n as int, all.len() as int));
            assert(suffix[0] == all[n - 1]);
        }
        match outcome {
            Some(Err(e)) => {
                first = Some(e);
            },
            _ => {},
        }
    }
    proof {
        assert(all.subrange(0, all.len() as int) =~= all);
        lemma_first_bus_error_exists(all);
    }
    match first {
        Some(e) => Err(Tsl2591Error::I2c(e)),
        None => Ok(()),
    }
}

} // verus!
