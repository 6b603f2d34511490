use geoclue_fake::errors::Error;
use geoclue_fake::fix::PositionFix;
use geoclue_fake::paths::Target;
use geoclue_fake::registry::SessionRegistry;
use geoclue_fake::router::PathRouter;
use geoclue_fake::service::{ClientProperty, GeoService, LocationProperty, PropValue};
use geoclue_fake::signal::location_updated_signal;
use geoclue_fake::startup::{boot, initial_fix, ConfigSource};

#[test]
fn missing_config_yields_all_defaults() {
    let mut svc = boot(ConfigSource::Missing).unwrap();
    let p = svc.get_client(Some(String::from(":1.9"))).unwrap();
    svc.client_start(&p, Some(":1.9")).unwrap();
    let lp = b"/org/freedesktop/GeoClue2/Client/0/Location/0".to_vec();
    assert_eq!(svc.location_get(&lp, LocationProperty::Latitude).unwrap(), PropValue::F64Bits(0));
    assert_eq!(svc.location_get(&lp, LocationProperty::Longitude).unwrap(), PropValue::F64Bits(0));
    assert_eq!(svc.location_get(&lp, LocationProperty::Speed).unwrap(), PropValue::F64Bits(0));
    assert_eq!(
        svc.location_get(&lp, LocationProperty::Description).unwrap(),
        PropValue::Text(String::new())
    );
    assert_eq!(svc.location_get(&lp, LocationProperty::Timestamp).unwrap(), PropValue::U64(0));
}

#[test]
fn malformed_config_aborts_startup() {
    assert_eq!(initial_fix(ConfigSource::Malformed).err(), Some(Error::StartupConfig));
    assert_eq!(boot(ConfigSource::Malformed).err(), Some(Error::StartupConfig));
}

#[test]
fn unreadable_config_aborts_startup() {
    assert_eq!(initial_fix(ConfigSource::Unreadable).err(), Some(Error::StartupIo));
    assert_eq!(boot(ConfigSource::Unreadable).err(), Some(Error::StartupIo));
}

#[test]
fn loaded_config_is_taken_verbatim() {
    let fix = PositionFix {
        latitude_bits: 48.8f64.to_bits(),
        longitude_bits: 2.3f64.to_bits(),
        accuracy_bits: 0,
        altitude_bits: 0,
        speed_bits: 0,
        heading_bits: 0,
        description: String::from("paris"),
        timestamp: 7,
    };
    let loaded = initial_fix(ConfigSource::Loaded(fix)).unwrap();
    assert_eq!(loaded.latitude_bits, 48.8f64.to_bits());
    assert_eq!(loaded.description, String::from("paris"));
}

#[test]
fn scenario_two_clients_over_a_loaded_fix() {
    // configuration supplies latitude 48.8 and longitude 2.3
    let fix = PositionFix {
        latitude_bits: 48.8f64.to_bits(),
        longitude_bits: 2.3f64.to_bits(),
        accuracy_bits: 0,
        altitude_bits: 0,
        speed_bits: 0,
        heading_bits: 0,
        description: String::new(),
        timestamp: 0,
    };
    let mut svc = boot(ConfigSource::Loaded(fix)).unwrap();
    let p1 = svc.get_client(Some(String::from(":1.7"))).unwrap();
    svc.client_start(&p1, Some(":1.7")).unwrap();
    let mut lp = p1.clone();
    lp.extend_from_slice(b"/Location/0");
    let lat = svc.location_get(&lp, LocationProperty::Latitude).unwrap();
    let lon = svc.location_get(&lp, LocationProperty::Longitude).unwrap();
    assert_eq!(lat, PropValue::F64Bits(48.8f64.to_bits()));
    assert_eq!(lon, PropValue::F64Bits(2.3f64.to_bits()));
    match lat {
        PropValue::F64Bits(bits) => assert_eq!(f64::from_bits(bits), 48.8),
        _ => panic!("latitude must be a floating point reading"),
    }
    let p2 = svc.get_client(Some(String::from(":1.8"))).unwrap();
    assert_ne!(p1, p2);
}

#[test]
fn duplicate_registration_is_refused() {
    let mut router = PathRouter::new();
    assert_eq!(router.register(Target::Manager), Ok(()));
    assert_eq!(router.register(Target::Manager), Err(Error::DuplicatePath));
    assert_eq!(router.register(Target::Client { id: 0 }), Ok(()));
    assert!(router.resolve(Target::Manager));
    assert!(router.resolve(Target::Client { id: 0 }));
    assert!(!router.resolve(Target::Location { id: 0 }));
}

#[test]
fn exhausted_identity_space_is_fatal() {
    // a registry whose counter has reached the end of the identity space
    let mut registry = SessionRegistry { sessions: Vec::new(), next_id: u32::MAX };
    assert_eq!(
        registry.allocate(String::from(":1.2")),
        Err(Error::IdentitySpaceExhausted)
    );
}

#[test]
fn fatal_errors_are_classified() {
    assert!(Error::StartupIo.is_fatal());
    assert!(Error::StartupConfig.is_fatal());
    assert!(Error::Transport.is_fatal());
    assert!(Error::IdentitySpaceExhausted.is_fatal());
    assert!(!Error::NoSuchObject.is_fatal());
    assert!(!Error::InvalidPath.is_fatal());
    assert!(!Error::NoSender.is_fatal());
    assert!(!Error::StoreUnavailable.is_fatal());
    assert!(!Error::DuplicatePath.is_fatal());
}

#[test]
fn signal_payload_is_root_to_location() {
    let sig = location_updated_signal(9);
    assert_eq!(sig.old_path, b"/".to_vec());
    assert_eq!(sig.new_path, b"/org/freedesktop/GeoClue2/Client/9/Location/0".to_vec());
}

#[test]
fn fresh_service_routes_only_the_manager() {
    let svc = GeoService::new(PositionFix::empty());
    assert!(svc.router.resolve(Target::Manager));
    assert!(!svc.router.resolve(Target::Client { id: 0 }));
    assert_eq!(
        svc.client_get(b"/org/freedesktop/GeoClue2/Client/0", ClientProperty::Active),
        Err(Error::NoSuchObject)
    );
}
