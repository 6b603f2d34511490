use geoclue_fake::fix::{LocationStore, PositionFix};
use geoclue_fake::paths::{client_path_bytes, location_path_bytes};
use geoclue_fake::service::{ClientProperty, GeoService, LocationProperty, PropValue};
use geoclue_fake::errors::Error;

fn sender() -> Option<String> {
    Some(String::from(":1.42"))
}

fn test_fix() -> PositionFix {
    PositionFix {
        latitude_bits: 48.8f64.to_bits(),
        longitude_bits: 2.3f64.to_bits(),
        accuracy_bits: 5.0f64.to_bits(),
        altitude_bits: 35.5f64.to_bits(),
        speed_bits: 1.25f64.to_bits(),
        heading_bits: 90.0f64.to_bits(),
        description: String::from("somewhere"),
        timestamp: 1_700_000_000,
    }
}

#[test]
fn get_client_returns_distinct_increasing_paths() {
    let mut svc = GeoService::new(PositionFix::empty());
    let p0 = svc.get_client(sender()).unwrap();
    let p1 = svc.get_client(sender()).unwrap();
    let p2 = svc.get_client(sender()).unwrap();
    assert_eq!(p0, client_path_bytes(0));
    assert_eq!(p1, client_path_bytes(1));
    assert_eq!(p2, client_path_bytes(2));
    assert_ne!(p0, p1);
    assert_ne!(p1, p2);
    assert_ne!(p0, p2);
}

#[test]
fn start_activates_and_reports_child_path() {
    let mut svc = GeoService::new(test_fix());
    let p = svc.get_client(sender()).unwrap();
    assert_eq!(svc.client_get(&p, ClientProperty::Active).unwrap(), PropValue::Bool(false));
    assert_eq!(
        svc.client_get(&p, ClientProperty::Location).unwrap(),
        PropValue::ObjectPath(b"/".to_vec())
    );
    svc.client_start(&p, Some(":1.42")).unwrap();
    assert_eq!(svc.client_get(&p, ClientProperty::Active).unwrap(), PropValue::Bool(true));
    assert_eq!(
        svc.client_get(&p, ClientProperty::Location).unwrap(),
        PropValue::ObjectPath(location_path_bytes(0))
    );
}

#[test]
fn stop_deactivates_but_child_stays_queryable() {
    let mut svc = GeoService::new(test_fix());
    let p = svc.get_client(sender()).unwrap();
    svc.client_start(&p, Some(":1.42")).unwrap();
    svc.client_stop(&p, Some(":1.42")).unwrap();
    assert_eq!(svc.client_get(&p, ClientProperty::Active).unwrap(), PropValue::Bool(false));
    assert_eq!(
        svc.client_get(&p, ClientProperty::Location).unwrap(),
        PropValue::ObjectPath(b"/".to_vec())
    );
    // the location child object remains readable after a stop
    let lat = svc.location_get(&location_path_bytes(0), LocationProperty::Latitude).unwrap();
    assert_eq!(lat, PropValue::F64Bits(48.8f64.to_bits()));
}

#[test]
fn start_emits_one_signal_with_fixed_payload() {
    let mut svc = GeoService::new(test_fix());
    let p = svc.get_client(sender()).unwrap();
    let sig = svc.client_start(&p, Some(":1.42")).unwrap();
    assert_eq!(sig.old_path, b"/".to_vec());
    assert_eq!(sig.new_path, location_path_bytes(0));
}

#[test]
fn restarting_an_active_session_resignals() {
    let mut svc = GeoService::new(test_fix());
    let p = svc.get_client(sender()).unwrap();
    let first = svc.client_start(&p, Some(":1.42")).unwrap();
    let again = svc.client_start(&p, Some(":1.42")).unwrap();
    assert_eq!(first.old_path, again.old_path);
    assert_eq!(first.new_path, again.new_path);
    assert_eq!(svc.client_get(&p, ClientProperty::Active).unwrap(), PropValue::Bool(true));
}

#[test]
fn location_properties_report_the_loaded_fix() {
    let mut svc = GeoService::new(test_fix());
    let p = svc.get_client(sender()).unwrap();
    svc.client_start(&p, Some(":1.42")).unwrap();
    let lp = location_path_bytes(0);
    assert_eq!(
        svc.location_get(&lp, LocationProperty::Latitude).unwrap(),
        PropValue::F64Bits(48.8f64.to_bits())
    );
    assert_eq!(
        svc.location_get(&lp, LocationProperty::Longitude).unwrap(),
        PropValue::F64Bits(2.3f64.to_bits())
    );
    assert_eq!(
        svc.location_get(&lp, LocationProperty::Accuracy).unwrap(),
        PropValue::F64Bits(5.0f64.to_bits())
    );
    assert_eq!(
        svc.location_get(&lp, LocationProperty::Altitude).unwrap(),
        PropValue::F64Bits(35.5f64.to_bits())
    );
    assert_eq!(
        svc.location_get(&lp, LocationProperty::Speed).unwrap(),
        PropValue::F64Bits(1.25f64.to_bits())
    );
    assert_eq!(
        svc.location_get(&lp, LocationProperty::Heading).unwrap(),
        PropValue::F64Bits(90.0f64.to_bits())
    );
    assert_eq!(
        svc.location_get(&lp, LocationProperty::Description).unwrap(),
        PropValue::Text(String::from("somewhere"))
    );
    assert_eq!(
        svc.location_get(&lp, LocationProperty::Timestamp).unwrap(),
        PropValue::U64(1_700_000_000)
    );
}

#[test]
fn distance_threshold_set_then_read_echoes() {
    let mut svc = GeoService::new(PositionFix::empty());
    let p = svc.get_client(sender()).unwrap();
    let echo = svc.client_set_distance_threshold(&p, 42).unwrap();
    assert_eq!(echo, 42);
    assert_eq!(
        svc.client_get(&p, ClientProperty::DistanceThreshold).unwrap(),
        PropValue::U32(42)
    );
}

#[test]
fn inert_properties_echo_without_side_effects() {
    let mut svc = GeoService::new(PositionFix::empty());
    let p = svc.get_client(sender()).unwrap();
    assert_eq!(svc.client_set_time_threshold(&p, 7).unwrap(), 7);
    assert_eq!(svc.client_set_requested_accuracy_level(&p, 8).unwrap(), 8);
    assert_eq!(svc.client_get(&p, ClientProperty::TimeThreshold).unwrap(), PropValue::U32(7));
    assert_eq!(
        svc.client_get(&p, ClientProperty::RequestedAccuracyLevel).unwrap(),
        PropValue::U32(8)
    );
    // nothing else moved
    assert_eq!(svc.client_get(&p, ClientProperty::Active).unwrap(), PropValue::Bool(false));
    assert_eq!(
        svc.client_get(&p, ClientProperty::Location).unwrap(),
        PropValue::ObjectPath(b"/".to_vec())
    );
    assert_eq!(
        svc.client_get(&p, ClientProperty::DistanceThreshold).unwrap(),
        PropValue::U32(0)
    );
}

#[test]
fn desktop_id_set_then_read_echoes() {
    let mut svc = GeoService::new(PositionFix::empty());
    let p = svc.get_client(sender()).unwrap();
    let echo = svc.client_set_desktop_id(&p, String::from("navit")).unwrap();
    assert_eq!(echo, String::from("navit"));
    assert_eq!(
        svc.client_get(&p, ClientProperty::DesktopId).unwrap(),
        PropValue::Text(String::from("navit"))
    );
}

#[test]
fn requests_without_a_sender_are_refused() {
    let mut svc = GeoService::new(PositionFix::empty());
    assert_eq!(svc.get_client(None), Err(Error::NoSender));
    let mut svc = GeoService::new(PositionFix::empty());
    let p = svc.get_client(sender()).unwrap();
    assert_eq!(svc.client_start(&p, None), Err(Error::NoSender));
    assert_eq!(svc.client_stop(&p, None), Err(Error::NoSender));
}

#[test]
fn malformed_paths_are_refused() {
    let mut svc = GeoService::new(PositionFix::empty());
    let _ = svc.get_client(sender()).unwrap();
    assert_eq!(svc.client_start(b"/bogus", Some(":1.42")), Err(Error::InvalidPath));
    assert_eq!(
        svc.client_get(b"not even a path", ClientProperty::Active),
        Err(Error::InvalidPath)
    );
    assert_eq!(
        svc.location_get(b"/org/freedesktop/GeoClue2/Client/x/Location/0", LocationProperty::Latitude),
        Err(Error::InvalidPath)
    );
}

#[test]
fn unknown_objects_are_refused() {
    let mut svc = GeoService::new(PositionFix::empty());
    let p = svc.get_client(sender()).unwrap();
    // a well-formed path for a session never allocated
    assert_eq!(
        svc.client_start(&client_path_bytes(5), Some(":1.42")),
        Err(Error::NoSuchObject)
    );
    // the manager is not a session
    assert_eq!(
        svc.client_get(b"/org/freedesktop/GeoClue2/Manager", ClientProperty::Active),
        Err(Error::NoSuchObject)
    );
    // a location child exists only once its session was started
    assert_eq!(
        svc.location_get(&location_path_bytes(0), LocationProperty::Latitude),
        Err(Error::NoSuchObject)
    );
    svc.client_start(&p, Some(":1.42")).unwrap();
    assert!(svc.location_get(&location_path_bytes(0), LocationProperty::Latitude).is_ok());
}

#[test]
fn store_snapshot_and_replace_are_consistent() {
    let mut store = LocationStore::new(PositionFix::empty());
    let before = store.snapshot();
    assert_eq!(before.latitude_bits, 0);
    assert_eq!(before.description, String::new());
    assert_eq!(before.timestamp, 0);
    store.replace(test_fix());
    let after = store.snapshot();
    assert_eq!(after.latitude_bits, 48.8f64.to_bits());
    assert_eq!(after.description, String::from("somewhere"));
    assert_eq!(after.timestamp, 1_700_000_000);
}
