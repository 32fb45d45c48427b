use temperature_detector::location::Location;
use temperature_detector::reading::make_reading;
use temperature_detector::reading::make_reading_by_id;
use temperature_detector::resolve::location_of_id;
use temperature_detector::resolve::resolve;

#[test]
fn both_absent_falls_back_to_unknown() {
    let (location, sensor_id) = resolve("", "");
    assert_eq!(location, Location::Unknown);
    assert_eq!(sensor_id, "0");
}

#[test]
fn known_sensor_ids_follow_the_table() {
    let (location, sensor_id) = resolve("", "1");
    assert_eq!(location, Location::LivingRoom);
    assert_eq!(location.to_string(), "Living Room");
    assert_eq!(sensor_id, "1");

    let (location, sensor_id) = resolve("", "2");
    assert_eq!(location, Location::Bedroom);
    assert_eq!(location.to_string(), "Bedroom");
    assert_eq!(sensor_id, "2");

    let (location, sensor_id) = resolve("", "3");
    assert_eq!(location, Location::Kitchen);
    assert_eq!(location.to_string(), "Kitchen");
    assert_eq!(sensor_id, "3");
}

#[test]
fn unknown_sensor_id_passes_through() {
    let (location, sensor_id) = resolve("", "99");
    assert_eq!(location, Location::Unknown);
    assert_eq!(sensor_id, "99");
}

#[test]
fn sensor_id_table_defaults_to_unknown() {
    assert_eq!(location_of_id("1"), Location::LivingRoom);
    assert_eq!(location_of_id("2"), Location::Bedroom);
    assert_eq!(location_of_id("3"), Location::Kitchen);
    assert_eq!(location_of_id("4"), Location::Unknown);
    assert_eq!(location_of_id("99"), Location::Unknown);
    assert_eq!(location_of_id("one"), Location::Unknown);
}

#[test]
fn living_room_synonyms_normalize() {
    for text in ["living room", "livingroom", "living", "living_room", "living rum"] {
        assert_eq!(Location::from_str(text), Location::LivingRoom);
    }
    let (location, sensor_id) = resolve("Living Room", "");
    assert_eq!(location, Location::LivingRoom);
    assert_eq!(sensor_id, "1");
}

#[test]
fn bedroom_synonyms_normalize() {
    for text in ["bedroom", "bed", "bed_room", "bedrum"] {
        assert_eq!(Location::from_str(text), Location::Bedroom);
    }
    let (location, sensor_id) = resolve("BEDRUM", "");
    assert_eq!(location, Location::Bedroom);
    assert_eq!(sensor_id, "2");
}

#[test]
fn kitchen_synonym_normalizes() {
    assert_eq!(Location::from_str("kitchen"), Location::Kitchen);
    let (location, sensor_id) = resolve("KiTcHeN", "");
    assert_eq!(location, Location::Kitchen);
    assert_eq!(sensor_id, "3");
}

#[test]
fn matching_is_case_insensitive() {
    assert_eq!(Location::from_str("LIVING ROOM"), Location::LivingRoom);
    assert_eq!(Location::from_str("BedRoom"), Location::Bedroom);
    assert_eq!(Location::from_str("KITCHEN"), Location::Kitchen);
}

#[test]
fn unmatched_text_yields_unknown() {
    for text in ["garage", "kitchen ", "living  room", "bath", "Unknown"] {
        assert_eq!(Location::from_str(text), Location::Unknown);
    }
    let (location, sensor_id) = resolve("garage", "");
    assert_eq!(location, Location::Unknown);
    assert_eq!(sensor_id, "0");
}

#[test]
fn default_sensor_ids_are_fixed() {
    assert_eq!(Location::LivingRoom.default_sensor_id(), "1");
    assert_eq!(Location::Bedroom.default_sensor_id(), "2");
    assert_eq!(Location::Kitchen.default_sensor_id(), "3");
    assert_eq!(Location::Unknown.default_sensor_id(), "0");
}

#[test]
fn both_given_skips_cross_validation() {
    let (location, sensor_id) = resolve("kitchen", "1");
    assert_eq!(location, Location::Kitchen);
    assert_eq!(sensor_id, "1");

    let (location, sensor_id) = resolve("garage", "3");
    assert_eq!(location, Location::Unknown);
    assert_eq!(sensor_id, "3");
}

#[test]
fn reading_for_kitchen_query() {
    let reading = make_reading("kitchen", "");
    assert_eq!(reading.location, "Kitchen");
    assert_eq!(reading.sensor_id, "3");
    assert_eq!(reading.unit, "\u{b0}C");
    assert_eq!(reading.unit, "°C");
    assert_eq!(reading.status, "active");
    assert_eq!(reading.sensor_type, "temperature");
    assert_eq!(reading.description, "comment");
}

#[test]
fn reading_by_id_two_is_the_bedroom() {
    let reading = make_reading_by_id("2");
    assert_eq!(reading.location, "Bedroom");
    assert_eq!(reading.sensor_id, "2");
}

#[test]
fn reading_by_unknown_id_passes_it_through() {
    let reading = make_reading_by_id("77");
    assert_eq!(reading.location, "Unknown");
    assert_eq!(reading.sensor_id, "77");
}

#[test]
fn reading_without_parameters_uses_defaults() {
    let reading = make_reading("", "");
    assert_eq!(reading.location, "Unknown");
    assert_eq!(reading.sensor_id, "0");
}
