//! Admission of sensor measurements reported by the data-transfer units, and
//! the site-id check that the simulation requests share with it.
use vstd::prelude::*;
use crate::site::invalid_site_id_message;
use crate::text::{concat_str, str_eq};

verus! {

/// `id` is one of the ids in `list`.
pub open spec fn listed(list: Seq<String>, id: Seq<char>) -> bool {
    exists|i: int| 0 <= i < list.len() && (#[trigger] list[i])@ == id
}

/// Whether `id` is one of the ids in `list`.
pub fn is_listed(list: &Vec<String>, id: &str) -> (r: bool)
    ensures
        r == listed(list@, id@),
{
    let mut i: usize = 0;
    while i < list.len()
        invariant
            i <= list@.len(),
            forall|j: int| 0 <= j < i ==> (#[trigger] list@[j])@ != id@,
        decreases list@.len() - i,
    {
        if str_eq(list[i].as_str(), id) {
            assert(list@[i as int]@ == id@);
            return true;
        }
        i = i + 1;
    }
    false
}

/// Why a reported measurement was refused.
#[derive(Debug)]
pub enum MeasurementError {
    /// The site id is not one of the configured sites.
    InvalidSiteId(String),
    /// The sensor id is not one of the configured sensors.
    InvalidSensorId(String),
    /// The reverberation time T60 is not greater than zero.
    NonPositiveReverbTime,
    /// The sound pressure level is infinite or not a number.
    NonFiniteSoundPressure,
}

/// The message of an error, as the service reports it.
pub open spec fn spec_error_message(e: MeasurementError) -> Seq<char> {
    match e {
        MeasurementError::InvalidSiteId(id) => "Invalid site_id: "@ + id@,
        MeasurementError::InvalidSensorId(id) => "Invalid sensor_id: "@ + id@,
        MeasurementError::NonPositiveReverbTime => "reverb_time_t60 must be > 0"@,
        MeasurementError::NonFiniteSoundPressure => "sound_pressure_level must be finite"@,
    }
}

impl MeasurementError {
    /// The message of the error.
    pub fn message(&self) -> (m: String)
        ensures
            m@ == spec_error_message(*self),
    {
        match self {
            MeasurementError::InvalidSiteId(id) => invalid_site_id_message(id.as_str()),
            MeasurementError::InvalidSensorId(id) => concat_str(
                "Invalid sensor_id: ",
                id.as_str(),
            ),
            MeasurementError::NonPositiveReverbTime => String::from_str(
                "reverb_time_t60 must be > 0",
            ),
            MeasurementError::NonFiniteSoundPressure => String::from_str(
                "sound_pressure_level must be finite",
            ),
        }
    }
}

/// Decides whether a measurement is admitted. `reverb_positive` says whether
/// its T60 is greater than zero and `spl_finite` whether its sound pressure
/// level is finite. The checks run in the order site, sensor, T60, SPL, and
/// the first one that fails is reported, with the offending id.
pub fn check_measurement(
    valid_sites: &Vec<String>,
    valid_sensors: &Vec<String>,
    site_id: &str,
    sensor_id: &str,
    reverb_positive: bool,
    spl_finite: bool,
) -> (r: Result<(), MeasurementError>)
    ensures
        r is Ok <==> (listed(valid_sites@, site_id@) && listed(valid_sensors@, sensor_id@)
            && reverb_positive && spl_finite),
        r matches Err(MeasurementError::InvalidSiteId(id)) ==> !listed(valid_sites@, site_id@)
            && id@ == site_id@,
        r matches Err(MeasurementError::InvalidSensorId(id)) ==> listed(valid_sites@, site_id@)
            && !listed(valid_sensors@, sensor_id@) && id@ == sensor_id@,
        r matches Err(MeasurementError::NonPositiveReverbTime) ==> listed(valid_sites@, site_id@)
            && listed(valid_sensors@, sensor_id@) && !reverb_positive,
        r matches Err(MeasurementError::NonFiniteSoundPressure) ==> listed(valid_sites@, site_id@)
            && listed(valid_sensors@, sensor_id@) && reverb_positive && !spl_finite,
{
    if !is_listed(valid_sites, site_id) {
        return Err(MeasurementError::InvalidSiteId(String::from_str(site_id)));
    }
    if !is_listed(valid_sensors, sensor_id) {
        return Err(MeasurementError::InvalidSensorId(String::from_str(sensor_id)));
    }
    if !reverb_positive {
        return Err(MeasurementError::NonPositiveReverbTime);
    }
    if !spl_finite {
        return Err(MeasurementError::NonFiniteSoundPressure);
    }
    Ok(())
}

/// A refusal's message tells which check failed and, for an unknown id, which
/// id: two errors of different kinds, or naming different ids, have different
/// messages.
pub proof fn law_error_messages_distinct(e1: MeasurementError, e2: MeasurementError)
    ensures
        (match (e1, e2) {
            (MeasurementError::InvalidSiteId(a), MeasurementError::InvalidSiteId(b)) => a@ != b@,
            (MeasurementError::InvalidSensorId(a), MeasurementError::InvalidSensorId(b)) => a@ != b@,
            (MeasurementError::NonPositiveReverbTime, MeasurementError::NonPositiveReverbTime) => false,
            (MeasurementError::NonFiniteSoundPressure, MeasurementError::NonFiniteSoundPressure) => false,
            _ => true,
        }) ==> spec_error_message(e1) != spec_error_message(e2),
{
    reveal_strlit("Invalid site_id: ");
    reveal_strlit("Invalid sensor_id: ");
    reveal_strlit("reverb_time_t60 must be > 0");
    reveal_strlit("sound_pressure_level must be finite");
    let site = "Invalid site_id: "@;
    let sensor = "Invalid sensor_id: "@;
    let reverb = "reverb_time_t60 must be > 0"@;
    let spl = "sound_pressure_level must be finite"@;
    let m1 = spec_error_message(e1);
    let m2 = spec_error_message(e2);
    if m1 == m2 {
        match (e1, e2) {
            (MeasurementError::InvalidSiteId(a), MeasurementError::InvalidSiteId(b)) => {
                assert(a@ =~= m1.skip(site.len() as int));
                assert(b@ =~= m2.skip(site.len() as int));
            },
            (MeasurementError::InvalidSensorId(a), MeasurementError::InvalidSensorId(b)) => {
                assert(a@ =~= m1.skip(sensor.len() as int));
                assert(b@ =~= m2.skip(sensor.len() as int));
            },
            _ => {
                assert(m1[0] == m2[0]);
                assert(m1[9] == m2[9]);
                assert(site[0] == 'I' && sensor[0] == 'I' && reverb[0] == 'r' && spl[0] == 's');
                assert(site[9] == 'i' && sensor[9] == 'e');
                assert(site.len() == 17 && sensor.len() == 19 && reverb.len() == 27);
            },
        }
    }
}

} // verus!
