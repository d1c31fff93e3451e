use memecycle::launch::{database_config, temp_dir_path};
use memecycle::models::DbError;
use memecycle::schema::Geometry;
use memecycle::simple::{delete_ride, get_health, get_ride, post_ride, Ride};
use memecycle::simple::InsertableRide;
use memecycle::utils::storage_geo_json_in_db;

fn simple_ride() -> Ride {
    Ride { id: 4, title: "Test Ride".to_string(), description: "desc".to_string() }
}

#[test]
fn tests_check_health() {
    assert_eq!(get_health(), "OK");
    assert_eq!(serde_json::to_string(&get_health()).unwrap(), "\"OK\"");
}

#[test]
fn simple_routes() {
    assert_eq!(get_ride(Ok(Some(simple_ride()))), Some(simple_ride()));
    assert_eq!(get_ride(Ok(None)), None);
    assert_eq!(get_ride(Err(DbError { message: "x".to_string() })), None);
    assert_eq!(post_ride(Ok(simple_ride())), Some(simple_ride()));
    assert_eq!(post_ride(Err(DbError { message: "x".to_string() })), None);
    assert_eq!(delete_ride(4, Ok(1)), "1 ride(s) with id 4 deleted.");
    assert_eq!(
        delete_ride(4, Err(DbError { message: "timed out".to_string() })),
        "Error deleting ride timed out"
    );
}

#[test]
fn launch_settings() {
    let config = database_config("postgres://localhost/rides".to_string());
    assert_eq!(config.url, "postgres://localhost/rides");
    assert_eq!(config.pool_size, 10);
    assert_eq!(config.timeout, 5);
    assert_eq!(temp_dir_path(Ok(Some("tmp".to_string()))), Some("tmp".to_string()));
    assert_eq!(temp_dir_path(Ok(None)), None);
    assert_eq!(temp_dir_path(Err("missing".to_string())), None);
}

#[test]
fn check_add_ride() {
    let example_ride = InsertableRide {
        title: "Test Ride".to_string(),
        description: "This is a test ride created by our internal tests.".to_string(),
    };
    let stored = Ride { id: 1, title: example_ride.title.clone(), description: example_ride.description.clone() };
    let returned_ride = post_ride(Ok(stored)).expect("Failed to deserialise response into a Ride object.");
    assert_eq!(example_ride.title, returned_ride.title);
    assert_eq!(example_ride.description, returned_ride.description);
}

#[test]
fn placeholders() {
    storage_geo_json_in_db();
    memecycle::utils::helpers::storage_geo_json_in_db();
    assert_eq!(Geometry, Geometry);
}
