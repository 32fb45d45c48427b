use crate::location::Location;
use crate::location::canon_of_lowered;
use crate::location::is_bedroom_synonym;
use crate::location::is_kitchen_synonym;
use crate::location::is_living_room_synonym;
use crate::location::spec_from_str;
use crate::location::str_eq;
use vstd::prelude::*;

verus! {

/// Which room a sensor identifier belongs to, per the fixed table; an
/// unknown identifier belongs to `Unknown`.
pub open spec fn spec_location_of_id(id: Seq<char>) -> Location {
    if id == "1"@ {
        Location::LivingRoom
    } else if id == "2"@ {
        Location::Bedroom
    } else if id == "3"@ {
        Location::Kitchen
    } else {
        Location::Unknown
    }
}

/// How an optional location text and an optional sensor identifier resolve
/// to a (room, sensor identifier) pair. An absent half is an empty string.
///
/// - both absent: `Unknown` with identifier "0";
/// - only the identifier given: the room from the fixed table, identifier
///   passed through unchanged;
/// - only the location given: the normalized room with its default
///   identifier;
/// - both given: the normalized room and the given identifier, verbatim,
///   with no cross-validation.
pub open spec fn spec_resolve(lt: Seq<char>, sid: Seq<char>) -> (Location, Seq<char>) {
    if lt.len() == 0 && sid.len() == 0 {
        (Location::Unknown, "0"@)
    } else if lt.len() == 0 {
        (spec_location_of_id(sid), sid)
    } else if sid.len() == 0 {
        (spec_from_str(lt), spec_from_str(lt).spec_default_sensor_id())
    } else {
        (spec_from_str(lt), sid)
    }
}

/// The room a sensor identifier maps to under the fixed table.
pub fn location_of_id(id: &str) -> (l: Location)
    ensures
        l == spec_location_of_id(id@),
{
    if str_eq(id, "1") {
        Location::LivingRoom
    } else if str_eq(id, "2") {
        Location::Bedroom
    } else if str_eq(id, "3") {
        Location::Kitchen
    } else {
        Location::Unknown
    }
}

/// Resolve an optional location text and an optional sensor identifier,
/// either of which may be empty, to a room and the sensor identifier to
/// report. Every input resolves; nothing is rejected.
pub fn resolve(location_text: &str, sensor_id: &str) -> (r: (Location, String))
    ensures
        r.0 == spec_resolve(location_text@, sensor_id@).0,
        r.1@ == spec_resolve(location_text@, sensor_id@).1,
{
    if location_text.is_empty() && sensor_id.is_empty() {
        (Location::Unknown, "0".to_owned())
    } else if location_text.is_empty() {
        (location_of_id(sensor_id), sensor_id.to_owned())
    } else if sensor_id.is_empty() {
        let location = Location::from_str(location_text);
        let default_id = location.default_sensor_id();
        (location, default_id.to_owned())
    } else {
        (Location::from_str(location_text), sensor_id.to_owned())
    }
}

/// Both halves absent: the resolved room is `Unknown` and the reported
/// sensor identifier is "0".
pub proof fn lemma_defaults_when_both_absent(lt: Seq<char>, sid: Seq<char>)
    requires
        lt.len() == 0,
        sid.len() == 0,
    ensures
        spec_resolve(lt, sid).0 == Location::Unknown,
        spec_resolve(lt, sid).1 == "0"@,
{
}

/// A known sensor identifier with no location text: the room and its
/// display name follow the fixed table, and the identifier is passed
/// through unchanged.
pub proof fn lemma_known_id_infers_room(lt: Seq<char>, sid: Seq<char>)
    requires
        lt.len() == 0,
        sid == "1"@ || sid == "2"@ || sid == "3"@,
    ensures
        spec_resolve(lt, sid).1 == sid,
        sid == "1"@ ==> spec_resolve(lt, sid).0 == Location::LivingRoom
            && spec_resolve(lt, sid).0.spec_name() == "Living Room"@,
        sid == "2"@ ==> spec_resolve(lt, sid).0 == Location::Bedroom && spec_resolve(
            lt,
            sid,
        ).0.spec_name() == "Bedroom"@,
        sid == "3"@ ==> spec_resolve(lt, sid).0 == Location::Kitchen && spec_resolve(
            lt,
            sid,
        ).0.spec_name() == "Kitchen"@,
{
    reveal_strlit("1");
    reveal_strlit("2");
    reveal_strlit("3");
    assert("1"@[0] == '1' && "2"@[0] == '2' && "3"@[0] == '3');
}

/// An unknown sensor identifier with no location text: the room is
/// `Unknown` and the identifier is still passed through unchanged.
pub proof fn lemma_unknown_id_passes_through(lt: Seq<char>, sid: Seq<char>)
    requires
        lt.len() == 0,
        sid.len() > 0,
        sid != "1"@,
        sid != "2"@,
        sid != "3"@,
    ensures
        spec_resolve(lt, sid).0 == Location::Unknown,
        spec_resolve(lt, sid).1 == sid,
{
}

/// Location text alone: the room is the normalized text and the sensor
/// identifier is that room's fixed default.
pub proof fn lemma_location_only_uses_default_id(lt: Seq<char>, sid: Seq<char>)
    requires
        lt.len() > 0,
        sid.len() == 0,
    ensures
        spec_resolve(lt, sid).0 == spec_from_str(lt),
        spec_resolve(lt, sid).1 == spec_from_str(lt).spec_default_sensor_id(),
{
}

/// The synonym sets are disjoint and each resolves to its own room, whose
/// default sensor identifier is fixed; text in no set yields `Unknown`.
pub proof fn lemma_synonyms_are_canonical(t: Seq<char>)
    ensures
        is_living_room_synonym(t) ==> canon_of_lowered(t) == Location::LivingRoom,
        is_bedroom_synonym(t) ==> canon_of_lowered(t) == Location::Bedroom,
        is_kitchen_synonym(t) ==> canon_of_lowered(t) == Location::Kitchen,
        !is_living_room_synonym(t) && !is_bedroom_synonym(t) && !is_kitchen_synonym(t)
            ==> canon_of_lowered(t) == Location::Unknown,
        Location::LivingRoom.spec_default_sensor_id() == "1"@,
        Location::Bedroom.spec_default_sensor_id() == "2"@,
        Location::Kitchen.spec_default_sensor_id() == "3"@,
        Location::Unknown.spec_default_sensor_id() == "0"@,
{
    reveal_strlit("living room");
    reveal_strlit("livingroom");
    reveal_strlit("living");
    reveal_strlit("living_room");
    reveal_strlit("living rum");
    reveal_strlit("bedroom");
    reveal_strlit("bed");
    reveal_strlit("bed_room");
    reveal_strlit("bedrum");
    reveal_strlit("kitchen");
    // The sets are told apart by their first character alone.
    assert("living room"@[0] == 'l' && "livingroom"@[0] == 'l' && "living"@[0] == 'l'
        && "living_room"@[0] == 'l' && "living rum"@[0] == 'l');
    assert("bedroom"@[0] == 'b' && "bed"@[0] == 'b' && "bed_room"@[0] == 'b' && "bedrum"@[0]
        == 'b');
    assert("kitchen"@[0] == 'k');
}

/// Both halves given: no cross-validation occurs. The room is the
/// normalized text and the identifier is echoed verbatim, even when the
/// two disagree.
pub proof fn lemma_no_cross_validation(lt: Seq<char>, sid: Seq<char>)
    requires
        lt.len() > 0,
        sid.len() > 0,
    ensures
        spec_resolve(lt, sid).0 == spec_from_str(lt),
        spec_resolve(lt, sid).1 == sid,
{
}

} // verus!
