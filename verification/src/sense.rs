//! Blocking speed sensing.
//!
//! Sensing is a capability of its own: a fan with a tachometer need not be
//! controllable, and a controllable fan need not have a tachometer.

use vstd::prelude::*;
use crate::error::ErrorType;

verus! {

/// Blocking RPM sensing (tachometer) methods
pub trait RpmSense: ErrorType {
    /// Whether a measurement taken of this device may leave it as `after` and
    /// report `outcome`.
    spec fn rpm_sensed(&self, after: &Self, outcome: Result<u16, Self::Error>) -> bool;

    /// Returns the fan's currently measured RPM.
    fn rpm(&mut self) -> (outcome: Result<u16, Self::Error>)
        ensures
            (*old(self)).rpm_sensed(&*final(self), outcome),
    ;
}

/// An exclusive borrow of a sensing device senses as the device does: the
/// measurement is taken by the device's own method and handed back as it came.
impl<T: RpmSense + ?Sized> RpmSense for &mut T {
    open spec fn rpm_sensed(&self, after: &Self, outcome: Result<u16, Self::Error>) -> bool {
        (**self).rpm_sensed(&**after, outcome)
    }

    #[inline]
    fn rpm(&mut self) -> (outcome: Result<u16, Self::Error>)
        ensures
            (**old(self)).rpm_sensed(&**final(self), outcome),
            &*final(*final(self)) == &*final(*old(self)),
            exists|lent: &mut T|
                &*lent == &**old(self) && &*final(lent) == &**final(self)
                    && #[trigger] call_ensures(<T as RpmSense>::rpm, (lent,), outcome),
    {
        T::rpm(self)
    }
}

/// Lending a sensor changes nothing in its model: a measurement admits through
/// the borrow exactly the outcomes that it admits on the sensor itself.
pub proof fn borrowed_sensor_has_the_sensors_model<T: RpmSense + ?Sized>()
    ensures
        forall|before: &mut T, after: &mut T, outcome: Result<u16, T::Error>|
            #[trigger] <&mut T as RpmSense>::rpm_sensed(&before, &after, outcome)
                == T::rpm_sensed(&*before, &*after, outcome),
{
}

} // verus!
