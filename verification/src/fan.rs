//! Blocking fan control.
//!
//! A driver supplies the fan's limits and one command, [`Fan::set_speed_rpm`].
//! The other commands are derived from these and behave alike on every fan.

use vstd::prelude::*;
use crate::error::ErrorType;
use crate::speed::{
    hundred_percent_is_max, percent_of_max, rpm_from_percent, zero_percent_is_standstill,
};

verus! {

/// The speeds that bound what a fan can do, in RPM. They are characteristics of
/// the device: no command changes them.
#[derive(Debug, Copy, Clone, Eq, PartialEq, Structural)]
pub struct Limits {
    /// The maximum RPM the fan is capable of running at.
    pub max_rpm: u16,
    /// The minimum RPM the fan is capable of running at.
    pub min_rpm: u16,
    /// The minimum RPM needed for the fan to begin running from a dead stop. Starting
    /// takes more than running does, so this may lie above the minimum.
    pub min_start_rpm: u16,
}

impl Limits {
    /// Whether the limits are in the order that a fan's are: it runs no slower than
    /// its minimum, starts at no less than that, and at no more than its maximum.
    ///
    /// Drivers are expected to report limits in this order. [`Fan`] does not demand
    /// it of them, so code that relies on the order states it as a precondition.
    pub open spec fn ordered(&self) -> bool {
        self.min_rpm <= self.min_start_rpm <= self.max_rpm
    }
}

/// Blocking fan methods
///
/// The two spec functions are the fan's model: its limits, and the driver's
/// account of its one command. The methods that set a speed promise an outcome
/// that [`Fan::speed_set`] admits, and leave the limits as they were.
///
/// A driver may override a derived method to do the same work faster. It then owes
/// the same contract, so what callers observe does not change.
pub trait Fan: ErrorType {
    /// The fan's limits.
    spec fn limits(&self) -> Limits;

    /// Whether commanding this fan to `rpm` may leave it as `after` and report
    /// `outcome`: the speed that was achieved, or the error that kept the fan from it.
    spec fn speed_set(&self, rpm: u16, after: &Self, outcome: Result<u16, Self::Error>) -> bool;

    /// Returns the maximum RPM the fan is capable of running at.
    fn max_rpm(&self) -> (rpm: u16)
        ensures
            rpm == self.limits().max_rpm,
    ;

    /// Returns the minimum RPM the fan is capable of running at.
    fn min_rpm(&self) -> (rpm: u16)
        ensures
            rpm == self.limits().min_rpm,
    ;

    /// Returns the minimum RPM needed for the fan to begin running from a dead stop
    /// (which may be the same as the minimum running speed).
    fn min_start_rpm(&self) -> (rpm: u16)
        ensures
            rpm == self.limits().min_start_rpm,
    ;

    /// Sets the fan's speed in terms of absolute RPM.
    /// Returns the actual RPM set on success.
    fn set_speed_rpm(&mut self, rpm: u16) -> (outcome: Result<u16, Self::Error>)
        ensures
            (*old(self)).speed_set(rpm, &*final(self), outcome),
            (*final(self)).limits() == (*old(self)).limits(),
    ;

    /// Sets the fan's speed in terms of percent of maximum RPM.
    /// Returns the actual RPM set on success.
    ///
    /// The fan is commanded once, to `percent` hundredths of its maximum, rounded
    /// down, and the outcome of that command is returned as it came.
    #[inline]
    fn set_speed_percent(&mut self, percent: u8) -> (outcome: Result<u16, Self::Error>)
        requires
            percent <= 100,
        ensures
            (*old(self)).speed_set(
                percent_of_max((*old(self)).limits().max_rpm, percent),
                &*final(self),
                outcome,
            ),
            (*final(self)).limits() == (*old(self)).limits(),
    {
        let target: u16 = rpm_from_percent(Self::max_rpm(self), percent);
        self.set_speed_rpm(target)
    }

    /// Sets the fan's speed to the maximum RPM it's capable of running at.
    ///
    /// The fan is commanded once, to its maximum. The speed it achieved is dropped;
    /// an error is returned as it came.
    #[inline]
    fn set_speed_max(&mut self) -> (outcome: Result<(), Self::Error>)
        ensures
            match outcome {
                Ok(_) => exists|achieved: u16|
                    (*old(self)).speed_set(
                        (*old(self)).limits().max_rpm,
                        &*final(self),
                        Ok(achieved),
                    ),
                Err(error) => (*old(self)).speed_set(
                    (*old(self)).limits().max_rpm,
                    &*final(self),
                    Err(error),
                ),
            },
            (*final(self)).limits() == (*old(self)).limits(),
    {
        let target: u16 = Self::max_rpm(self);
        self.set_speed_rpm(target)?;
        Ok(())
    }

    /// Stops the fan completely.
    ///
    /// The fan is commanded once, to zero. The speed it achieved is dropped; an
    /// error is returned as it came.
    #[inline]
    fn stop(&mut self) -> (outcome: Result<(), Self::Error>)
        ensures
            match outcome {
                Ok(_) => exists|achieved: u16|
                    (*old(self)).speed_set(0, &*final(self), Ok(achieved)),
                Err(error) => (*old(self)).speed_set(0, &*final(self), Err(error)),
            },
            (*final(self)).limits() == (*old(self)).limits(),
    {
        self.set_speed_rpm(0)?;
        Ok(())
    }
}

/// An exclusive borrow of a fan is a fan: every method hands the call to the
/// borrowed fan and returns what it returned. This holds of the derived methods
/// too, which are the borrowed fan's own and are not derived a second time.
///
/// The model of the borrow is the model of the fan it borrows. Each command states
/// its outcome over the borrowed fan itself, that the borrow is afterwards still a
/// borrow of that fan, and that the outcome is one of the borrowed fan's own method
/// of that name, run on the fan as it was and leaving it as it now is. So a caller
/// who knows the driver learns through the borrow what a direct call would tell.
impl<T: Fan + ?Sized> Fan for &mut T {
    open spec fn limits(&self) -> Limits {
        (**self).limits()
    }

    open spec fn speed_set(&self, rpm: u16, after: &Self, outcome: Result<u16, Self::Error>) -> bool {
        (**self).speed_set(rpm, &**after, outcome)
    }

    #[inline]
    fn max_rpm(&self) -> (rpm: u16)
        ensures
            rpm == self.limits().max_rpm,
    {
        T::max_rpm(self)
    }

    #[inline]
    fn min_rpm(&self) -> (rpm: u16)
        ensures
            rpm == self.limits().min_rpm,
    {
        T::min_rpm(self)
    }

    #[inline]
    fn min_start_rpm(&self) -> (rpm: u16)
        ensures
            rpm == self.limits().min_start_rpm,
    {
        T::min_start_rpm(self)
    }

    #[inline]
    fn set_speed_rpm(&mut self, rpm: u16) -> (outcome: Result<u16, Self::Error>)
        ensures
            (**old(self)).speed_set(rpm, &**final(self), outcome),
            (**final(self)).limits() == (**old(self)).limits(),
            &*final(*final(self)) == &*final(*old(self)),
            exists|lent: &mut T|
                &*lent == &**old(self) && &*final(lent) == &**final(self)
                    && #[trigger] call_ensures(<T as Fan>::set_speed_rpm, (lent, rpm), outcome),
    {
        T::set_speed_rpm(self, rpm)
    }

    #[inline]
    fn set_speed_percent(&mut self, percent: u8) -> (outcome: Result<u16, Self::Error>)
        ensures
            (**old(self)).speed_set(
                percent_of_max((**old(self)).limits().max_rpm, percent),
                &**final(self),
                outcome,
            ),
            (**final(self)).limits() == (**old(self)).limits(),
            &*final(*final(self)) == &*final(*old(self)),
            exists|lent: &mut T|
                &*lent == &**old(self) && &*final(lent) == &**final(self)
                    && #[trigger] call_ensures(
                    <T as Fan>::set_speed_percent,
                    (lent, percent),
                    outcome,
                ),
    {
        T::set_speed_percent(self, percent)
    }

    #[inline]
    fn set_speed_max(&mut self) -> (outcome: Result<(), Self::Error>)
        ensures
            match outcome {
                Ok(_) => exists|achieved: u16|
                    (**old(self)).speed_set(
                        (**old(self)).limits().max_rpm,
                        &**final(self),
                        Ok(achieved),
                    ),
                Err(error) => (**old(self)).speed_set(
                    (**old(self)).limits().max_rpm,
                    &**final(self),
                    Err(error),
                ),
            },
            (**final(self)).limits() == (**old(self)).limits(),
            &*final(*final(self)) == &*final(*old(self)),
            exists|lent: &mut T|
                &*lent == &**old(self) && &*final(lent) == &**final(self)
                    && #[trigger] call_ensures(<T as Fan>::set_speed_max, (lent,), outcome),
    {
        let outcome = T::set_speed_max(self);
        proof {
            if outcome is Ok {
                let achieved = choose|achieved: u16|
                    (**old(self)).speed_set(
                        (**old(self)).limits().max_rpm,
                        &**self,
                        Ok(achieved),
                    );
                assert((*old(self)).speed_set(
                    (*old(self)).limits().max_rpm,
                    &*self,
                    Ok(achieved),
                ));
            }
        }
        outcome
    }

    #[inline]
    fn stop(&mut self) -> (outcome: Result<(), Self::Error>)
        ensures
            match outcome {
                Ok(_) => exists|achieved: u16|
                    (**old(self)).speed_set(0, &**final(self), Ok(achieved)),
                Err(error) => (**old(self)).speed_set(0, &**final(self), Err(error)),
            },
            (**final(self)).limits() == (**old(self)).limits(),
            &*final(*final(self)) == &*final(*old(self)),
            exists|lent: &mut T|
                &*lent == &**old(self) && &*final(lent) == &**final(self)
                    && #[trigger] call_ensures(<T as Fan>::stop, (lent,), outcome),
    {
        let outcome = T::stop(self);
        proof {
            if outcome is Ok {
                let achieved = choose|achieved: u16|
                    (**old(self)).speed_set(0, &**self, Ok(achieved));
                assert((*old(self)).speed_set(0, &*self, Ok(achieved)));
            }
        }
        outcome
    }
}

/// Lending a fan changes nothing in its model: a borrow has the limits of the fan
/// it borrows, and a command admits through the borrow exactly the outcomes that
/// it admits on the fan itself.
pub proof fn borrowed_fan_has_the_fans_model<T: Fan + ?Sized>()
    ensures
        forall|borrow: &mut T| #[trigger]
            <&mut T as Fan>::limits(&borrow) == T::limits(&*borrow),
        forall|before: &mut T, after: &mut T, rpm: u16, outcome: Result<u16, T::Error>|
            #[trigger] <&mut T as Fan>::speed_set(&before, rpm, &after, outcome)
                == T::speed_set(&*before, rpm, &*after, outcome),
{
}

/// On every fan, setting the speed to zero percent is commanding zero RPM: the two
/// admit the same outcomes, whatever the fan's maximum is.
pub proof fn zero_percent_sets_zero_rpm<F: Fan + ?Sized>(
    before: &F,
    after: &F,
    outcome: Result<u16, F::Error>,
)
    ensures
        before.speed_set(percent_of_max(before.limits().max_rpm, 0), after, outcome)
            <==> before.speed_set(0, after, outcome),
{
    zero_percent_is_standstill(before.limits().max_rpm);
}

/// On every fan, setting the speed to one hundred percent is commanding the fan's
/// maximum RPM: the two admit the same outcomes.
pub proof fn hundred_percent_sets_max_rpm<F: Fan + ?Sized>(
    before: &F,
    after: &F,
    outcome: Result<u16, F::Error>,
)
    ensures
        before.speed_set(percent_of_max(before.limits().max_rpm, 100), after, outcome)
            <==> before.speed_set(before.limits().max_rpm, after, outcome),
{
    hundred_percent_is_max(before.limits().max_rpm);
}

} // verus!
