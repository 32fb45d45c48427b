use crate::resolve::location_of_id;
use crate::resolve::resolve;
use crate::resolve::spec_location_of_id;
use crate::resolve::spec_resolve;
use vstd::prelude::*;

verus! {

/// The descriptive part of a reading: everything but the measured value and
/// the timestamp, which are drawn per request by the caller.
pub struct Reading {
    pub location: String,
    pub sensor_id: String,
    pub unit: String,
    pub status: String,
    pub sensor_type: String,
    pub description: String,
}

impl Reading {
    /// Every reading names a room and a sensor: neither string is empty.
    pub open spec fn wf(self) -> bool {
        &&& self.location@.len() > 0
        &&& self.sensor_id@.len() > 0
    }

    /// The fields that are the same in every reading.
    pub open spec fn has_fixed_fields(self) -> bool {
        &&& self.unit@ == "\u{b0}C"@
        &&& self.status@ == "active"@
        &&& self.sensor_type@ == "temperature"@
        &&& self.description@ == "comment"@
    }
}

/// Build the reading metadata for a request that carries an optional
/// location text and an optional sensor identifier (absent halves are
/// empty strings): the pair is resolved and the fixed fields attached.
pub fn make_reading(location_text: &str, sensor_id: &str) -> (r: Reading)
    ensures
        r.location@ == spec_resolve(location_text@, sensor_id@).0.spec_name(),
        r.sensor_id@ == spec_resolve(location_text@, sensor_id@).1,
        r.has_fixed_fields(),
        r.wf(),
{
    let (location, id) = resolve(location_text, sensor_id);
    proof {
        reveal_strlit("Living Room");
        reveal_strlit("Bedroom");
        reveal_strlit("Kitchen");
        reveal_strlit("Unknown");
        reveal_strlit("0");
        reveal_strlit("1");
        reveal_strlit("2");
        reveal_strlit("3");
    }
    Reading {
        location: location.to_string(),
        sensor_id: id,
        unit: "\u{b0}C".to_owned(),
        status: "active".to_owned(),
        sensor_type: "temperature".to_owned(),
        description: "comment".to_owned(),
    }
}

/// Build the reading metadata for a request addressed to a sensor by
/// identifier alone: the room comes from the fixed table and the
/// identifier is passed through unchanged, whether known or not.
pub fn make_reading_by_id(sensor_id: &str) -> (r: Reading)
    ensures
        r.location@ == spec_location_of_id(sensor_id@).spec_name(),
        r.sensor_id@ == sensor_id@,
        r.has_fixed_fields(),
        sensor_id@.len() > 0 ==> r.wf(),
{
    let location = location_of_id(sensor_id);
    proof {
        reveal_strlit("Living Room");
        reveal_strlit("Bedroom");
        reveal_strlit("Kitchen");
        reveal_strlit("Unknown");
    }
    Reading {
        location: location.to_string(),
        sensor_id: sensor_id.to_owned(),
        unit: "\u{b0}C".to_owned(),
        status: "active".to_owned(),
        sensor_type: "temperature".to_owned(),
        description: "comment".to_owned(),
    }
}

} // verus!
