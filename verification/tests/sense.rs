use embedded_fans::error::{Error, ErrorKind, ErrorType};
use embedded_fans::sense::RpmSense;

#[derive(Debug, Clone, Copy, PartialEq, Eq)]
struct NoPulse;

impl Error for NoPulse {
    fn spec_kind(&self) -> ErrorKind {
        ErrorKind::Peripheral
    }

    fn kind(&self) -> ErrorKind {
        ErrorKind::Peripheral
    }
}

/// A tachometer that plays back readings, then loses its signal.
#[derive(Debug, Clone, PartialEq, Eq)]
struct Tachometer {
    readings: Vec<u16>,
    taken: usize,
}

impl ErrorType for Tachometer {
    type Error = NoPulse;
}

impl RpmSense for Tachometer {
    fn rpm_sensed(&self, after: &Self, outcome: Result<u16, NoPulse>) -> bool {
        after.readings == self.readings
            && after.taken == self.taken + 1
            && outcome == self.readings.get(self.taken).copied().ok_or(NoPulse)
    }

    fn rpm(&mut self) -> Result<u16, NoPulse> {
        let reading = self.readings.get(self.taken).copied().ok_or(NoPulse);
        self.taken += 1;
        reading
    }
}

fn read_twice<S: RpmSense>(mut sensor: S) -> (Result<u16, S::Error>, Result<u16, S::Error>) {
    (sensor.rpm(), sensor.rpm())
}

#[test]
fn a_sensor_reports_the_measured_speed() {
    let mut sensor = Tachometer { readings: vec![42, 1575], taken: 0 };
    assert_eq!(sensor.rpm(), Ok(42));
    assert_eq!(sensor.rpm(), Ok(1575));
}

#[test]
fn a_sensor_hands_its_error_back() {
    let mut sensor = Tachometer { readings: vec![], taken: 0 };
    let error = sensor.rpm().unwrap_err();
    assert_eq!(error, NoPulse);
    assert_eq!(error.kind(), ErrorKind::Peripheral);
}

#[test]
fn a_measurement_is_one_that_the_model_admits() {
    let start = Tachometer { readings: vec![65535], taken: 0 };
    let mut sensor = start.clone();
    let outcome = sensor.rpm();
    assert_eq!(outcome, Ok(65535));
    assert!(start.rpm_sensed(&sensor, outcome));
    assert!(!start.rpm_sensed(&sensor, Ok(0)));
}

#[test]
fn a_borrowed_sensor_senses_as_the_sensor_does() {
    let mut direct = Tachometer { readings: vec![900], taken: 0 };
    let mut lent = direct.clone();
    let direct_results = (direct.rpm(), direct.rpm());
    let lent_results = read_twice(&mut lent);
    assert_eq!(lent_results, (Ok(900), Err(NoPulse)));
    assert_eq!(lent_results, direct_results);
    assert_eq!(lent, direct);
}

#[test]
fn a_borrow_of_a_borrowed_sensor_senses_as_the_sensor_does() {
    let mut lent = Tachometer { readings: vec![3, 2, 1], taken: 1 };
    let mut handle = &mut lent;
    assert_eq!(read_twice(&mut handle), (Ok(2), Ok(1)));
    assert_eq!(lent.taken, 3);
}
