use memecycle::models::{
    ApiResponse, ContentKind, DbError, InsertableRide, ResponseStatus, Ride, RideData, RideFile, UploadedFile,
};
use memecycle::routes::{
    delete_ride, fetch_ride, fetch_ride_files, get_all_rides, get_health, post_ride, post_ride_data,
};
use memecycle::upload::{upload_step, UploadAction, UploadEvent, UploadPhase};

fn db_error() -> DbError {
    DbError { message: "connection refused".to_string() }
}

fn stored(id: i32, title: &str, description: &str) -> Ride {
    Ride { id, title: title.to_string(), description: description.to_string(), created_date: 1_700_000_000_000_000 }
}

#[test]
fn check_health() {
    let answer = get_health();
    assert_eq!(answer, "OK");
    assert_eq!(serde_json::to_string(&answer).unwrap(), "\"OK\"");
}

#[test]
fn post_ride_answers_the_stored_ride() {
    let example_ride = InsertableRide {
        title: "Test Ride".to_string(),
        description: "This is a test ride created by our internal tests.".to_string(),
    };
    let inserted = stored(1, &example_ride.title, &example_ride.description);
    match post_ride(Ok(inserted)) {
        Ok(ApiResponse::Success { data }) => {
            assert_eq!(example_ride.title, data.title);
            assert_eq!(example_ride.description, data.description);
        },
        _ => panic!("Failed to deserialise response into a Ride object."),
    }
}

#[test]
fn post_ride_failure_is_service_unavailable() {
    assert_eq!(post_ride(Err(db_error())), Err(ResponseStatus::ServiceUnavailable));
    assert_eq!(ResponseStatus::ServiceUnavailable.code(), 503);
}

#[test]
fn test_get_all_rides() {
    let input_ride = InsertableRide {
        title: "test_ride_title".to_string(),
        description: "test_ride_description.".to_string(),
    };
    let rides = vec![
        stored(1, &input_ride.title, &input_ride.description),
        stored(2, &input_ride.title, &input_ride.description),
    ];
    match get_all_rides(Ok(rides)) {
        Ok(ApiResponse::Success { data }) => assert!(data.len() > 1),
        _ => panic!("test_get_all_rides(): No rides returned from DB."),
    }
}

#[test]
fn get_all_rides_failure_is_internal_error() {
    assert_eq!(get_all_rides(Err(db_error())), Err(ResponseStatus::InternalServerError));
    assert_eq!(ResponseStatus::InternalServerError.code(), 500);
}

#[test]
fn test_everything() {
    // Add a ride.
    let input_ride = InsertableRide {
        title: "test_ride_title".to_string(),
        description: "test_ride_description.".to_string(),
    };
    let row = stored(42, &input_ride.title, &input_ride.description);
    let posted = match post_ride(Ok(row.clone())) {
        Ok(ApiResponse::Success { data }) => data,
        _ => panic!("Failed to deserialise response into a Ride object."),
    };
    assert_eq!(input_ride.title, posted.title);
    assert_eq!(input_ride.description, posted.description);

    // GET the added ride.
    let found = fetch_ride(Ok(row.clone())).expect("ride must be found");
    let got = match fetch_ride_files(found, Ok(Vec::new())) {
        Ok(ApiResponse::Success { data }) => data,
        _ => panic!("Failed to deserialize response into a Ride struct."),
    };
    assert_eq!(got.id, posted.id, "POST Ride and GET Ride are not equal!");
    assert_eq!(got.title, posted.title, "POST Ride and GET Ride are not equal!");
    assert_eq!(got.description, posted.description, "POST Ride and GET Ride are not equal!");
    assert_eq!(got.created_date, posted.created_date, "POST Ride and GET Ride are not equal!");
    assert!(got.ride_files.is_empty());

    // DELETE the added ride.
    let deleted = delete_ride(got.id, Ok(1)).expect("Delete failed.");
    assert_eq!(deleted, ApiResponse::Success { data: "1 ride(s) with id 42 deleted.".to_string() });

    // The deleted ride is gone: looking it up by its id fails in the
    // database, and a failed lookup is answered with 404 Not Found. (A
    // request whose path holds no number never reaches this decision: the
    // router turns it away before any lookup.)
    let lookup: Result<Ride, DbError> = Err(DbError { message: "Record not found".to_string() });
    assert_eq!(fetch_ride(lookup), Err(ResponseStatus::NotFound), "Deleted item still exists.");
}

#[test]
fn fetch_ride_carries_its_files() {
    let ride = stored(5, "Loop", "Around the lake");
    let file = RideFile {
        id: 9,
        created_date: 3,
        description: "temp_description".to_string(),
        rides_id: 5,
        file_name: "storage/x.fit".to_string(),
        file_type: "ride".to_string(),
    };
    match fetch_ride_files(ride, Ok(vec![file.clone()])) {
        Ok(ApiResponse::Success { data }) => {
            assert_eq!(data.id, 5);
            assert_eq!(data.title, "Loop");
            assert_eq!(data.description, "Around the lake");
            assert_eq!(data.created_date, 1_700_000_000_000_000);
            assert_eq!(data.ride_files, vec![file]);
        },
        other => panic!("unexpected answer {:?}", other),
    }
}

#[test]
fn fetch_ride_failures_are_not_found() {
    assert_eq!(fetch_ride(Err(db_error())), Err(ResponseStatus::NotFound));
    assert_eq!(fetch_ride_files(stored(1, "a", "b"), Err(db_error())), Err(ResponseStatus::NotFound));
    assert_eq!(ResponseStatus::NotFound.code(), 404);
}

#[test]
fn delete_ride_reports_count_and_id() {
    assert_eq!(
        delete_ride(7, Ok(0)),
        Ok(ApiResponse::Success { data: "0 ride(s) with id 7 deleted.".to_string() })
    );
    assert_eq!(
        delete_ride(-31, Ok(12)),
        Ok(ApiResponse::Success { data: "12 ride(s) with id -31 deleted.".to_string() })
    );
    assert_eq!(
        delete_ride(i32::MIN, Ok(1000)),
        Ok(ApiResponse::Success { data: "1000 ride(s) with id -2147483648 deleted.".to_string() })
    );
    assert_eq!(delete_ride(7, Err(db_error())), Err(ResponseStatus::ServiceUnavailable));
}

#[test]
fn test_multipart_without_files() {
    let form = RideData {
        title: "Test ride without data".to_string(),
        description:
            "This is the description of the test ride without data attached.  We have no files!".to_string(),
        data: None,
    };
    let (state, action) = post_ride_data(form.clone());
    assert!(matches!(state.phase, UploadPhase::InsertingRide));
    match action {
        UploadAction::InsertRide(ride) => {
            assert_eq!(ride.title, form.title);
            assert_eq!(ride.description, form.description);
        },
        _ => panic!("the ride must be inserted first"),
    }
    let (state, action) = upload_step(state, UploadEvent::RideInserted(Ok(stored(3, &form.title, &form.description))));
    assert!(matches!(state.phase, UploadPhase::Finished));
    match action {
        UploadAction::Respond(status) => assert_eq!(status.code(), 200),
        _ => panic!("the request must be answered"),
    }
}

#[test]
fn test_multipart_form_with_files() {
    let form = RideData {
        title: "Test ride without data".to_string(),
        description:
            "This is the description of the test ride without data attached.  We have no files!".to_string(),
        data: Some(vec![UploadedFile {
            name: Some("image_1".to_string()),
            content_type: Some(ContentKind { extension: Some("jpeg".to_string()), is_png: false, is_jpeg: true }),
        }]),
    };
    let (state, _) = post_ride_data(form);
    let (state, action) = upload_step(state, UploadEvent::RideInserted(Ok(stored(8, "t", "d"))));
    let path = match action {
        UploadAction::PersistFile { index, path } => {
            assert_eq!(index, 0);
            path
        },
        _ => panic!("the file must be saved"),
    };
    assert!(path.starts_with("storage/"));
    assert!(path.ends_with("_image_1.jpeg"));
    let (state, action) = upload_step(state, UploadEvent::FilePersisted(Ok(())));
    match action {
        UploadAction::InsertRecord(record) => {
            assert_eq!(record.description, "temp_description");
            assert_eq!(record.rides_id, 8);
            assert_eq!(record.file_name, path);
            assert_eq!(record.file_type, "image");
        },
        _ => panic!("the file row must be inserted"),
    }
    let (state, action) = upload_step(state, UploadEvent::RecordInserted(Ok(1)));
    assert!(matches!(state.phase, UploadPhase::Finished));
    match action {
        UploadAction::Respond(status) => assert_eq!(status, ResponseStatus::Success),
        _ => panic!("the request must be answered"),
    }
}
