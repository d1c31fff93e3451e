use vstd::prelude::*;
use vstd::string::*;

use crate::models::{
    ApiResponse, DbError, InsertableRide, ResponseStatus, Ride, RideData, RideFile, RideWithFiles, UploadedFile,
};
use crate::text::{
    decimal, decimal_injective, decimal_is_digits, decimal_value, digits_value, i32_to_decimal, is_digit,
    signed_decimal, signed_decimal_injective, signed_decimal_value, usize_to_decimal,
};
use crate::upload::{steps_left, upload_wf, UploadAction, UploadPhase, UploadState};

verus! {

/// The answer to a ride lookup: go on with the ride when it was found,
/// `404 Not Found` when the lookup failed.
pub open spec fn fetch_ride_answer(ride: Result<Ride, DbError>) -> Result<Ride, ResponseStatus> {
    match ride {
        Ok(r) => Ok(r),
        Err(_) => Err(ResponseStatus::NotFound),
    }
}

/// A ride together with its files.
pub open spec fn with_files(ride: Ride, ride_files: Vec<RideFile>) -> RideWithFiles {
    RideWithFiles {
        id: ride.id,
        title: ride.title,
        description: ride.description,
        created_date: ride.created_date,
        ride_files,
    }
}

/// The answer once the files of a found ride were looked up: the ride with
/// its files, or `404 Not Found` when the file lookup failed.
pub open spec fn ride_files_answer(ride: Ride, ride_files: Result<Vec<RideFile>, DbError>) -> Result<ApiResponse<RideWithFiles>, ResponseStatus> {
    match ride_files {
        Ok(files) => Ok(ApiResponse::Success { data: with_files(ride, files) }),
        Err(_) => Err(ResponseStatus::NotFound),
    }
}

/// The answer to listing every ride: the rides, or `500 Internal Server
/// Error` when the query failed.
pub open spec fn all_rides_answer(rides: Result<Vec<Ride>, DbError>) -> Result<ApiResponse<Vec<Ride>>, ResponseStatus> {
    match rides {
        Ok(all) => Ok(ApiResponse::Success { data: all }),
        Err(_) => Err(ResponseStatus::InternalServerError),
    }
}

/// The answer to creating a ride: the stored ride, or `503 Service
/// Unavailable` when the insert failed.
pub open spec fn post_ride_answer(inserted: Result<Ride, DbError>) -> Result<ApiResponse<Ride>, ResponseStatus> {
    match inserted {
        Ok(ride) => Ok(ApiResponse::Success { data: ride }),
        Err(_) => Err(ResponseStatus::ServiceUnavailable),
    }
}

/// The text reporting a deletion: `<count> ride(s) with id <id> deleted.`
pub open spec fn delete_message(count: nat, ride_id: int) -> Seq<char> {
    decimal(count) + " ride(s) with id "@ + signed_decimal(ride_id) + " deleted."@
}

/// First step of `GET /ride/<id>`: decides on the result of looking the
/// ride up. `Ok(ride)` means: look up its files next.
pub fn fetch_ride(ride: Result<Ride, DbError>) -> (res: Result<Ride, ResponseStatus>)
    ensures
        res == fetch_ride_answer(ride),
{
    match ride {
        Ok(r) => Ok(r),
        Err(_) => Err(ResponseStatus::NotFound),
    }
}

/// Second step of `GET /ride/<id>`: answers with the ride and the result
/// of looking its files up.
pub fn fetch_ride_files(ride: Ride, ride_files: Result<Vec<RideFile>, DbError>) -> (res: Result<ApiResponse<RideWithFiles>, ResponseStatus>)
    ensures
        res == ride_files_answer(ride, ride_files),
{
    match ride_files {
        Ok(files) => Ok(
            ApiResponse::Success {
                data: RideWithFiles {
                    id: ride.id,
                    title: ride.title,
                    description: ride.description,
                    created_date: ride.created_date,
                    ride_files: files,
                },
            },
        ),
        Err(_) => Err(ResponseStatus::NotFound),
    }
}

/// `DELETE /ride/<id>`: answers with how many rides the delete removed, or
/// `503 Service Unavailable` when it failed.
pub fn delete_ride(ride_id: i32, deleted: Result<usize, DbError>) -> (res: Result<ApiResponse<String>, ResponseStatus>)
    ensures
        match deleted {
            Ok(count) => res matches Ok(ApiResponse::Success { data }) && data@ == delete_message(
                count as nat,
                ride_id as int,
            ),
            Err(_) => res == Err::<ApiResponse<String>, ResponseStatus>(ResponseStatus::ServiceUnavailable),
        },
{
    match deleted {
        Ok(count) => {
            let mut message = usize_to_decimal(count);
            message.append(" ride(s) with id ");
            let id_text = i32_to_decimal(ride_id);
            message.append(id_text.as_str());
            message.append(" deleted.");
            Ok(ApiResponse::Success { data: message })
        },
        Err(_) => Err(ResponseStatus::ServiceUnavailable),
    }
}

/// `GET /health`: the service answers `OK`.
pub fn get_health() -> (res: String)
    ensures
        res@ == "OK"@,
{
    String::from_str("OK")
}

/// `GET /rides`: answers with the result of listing every ride.
pub fn get_all_rides(rides: Result<Vec<Ride>, DbError>) -> (res: Result<ApiResponse<Vec<Ride>>, ResponseStatus>)
    ensures
        res == all_rides_answer(rides),
{
    match rides {
        Ok(all) => Ok(ApiResponse::Success { data: all }),
        Err(_) => Err(ResponseStatus::InternalServerError),
    }
}

/// `POST /ride`: answers with the result of inserting the ride.
pub fn post_ride(inserted: Result<Ride, DbError>) -> (res: Result<ApiResponse<Ride>, ResponseStatus>)
    ensures
        res == post_ride_answer(inserted),
{
    match inserted {
        Ok(ride) => Ok(ApiResponse::Success { data: ride }),
        Err(_) => Err(ResponseStatus::ServiceUnavailable),
    }
}

/// The files an upload form carries: none when it has no file field.
pub open spec fn form_files(form: RideData) -> Seq<UploadedFile> {
    match form.data {
        Some(files) => files@,
        None => Seq::<UploadedFile>::empty(),
    }
}

/// `(s, a)` is how an upload request for `form` starts.
pub open spec fn upload_started(form: RideData, s: UploadState, a: UploadAction) -> bool {
    &&& upload_wf(s)
    &&& s.phase is InsertingRide
    &&& s.files@ == form_files(form)
    &&& a == UploadAction::InsertRide(InsertableRide { title: form.title, description: form.description })
}

/// `POST /ride_data`: starts an upload request; it first inserts the ride
/// the form describes. The request then goes on through
/// `upload::upload_step`.
pub fn post_ride_data(form: RideData) -> (res: (UploadState, UploadAction))
    ensures
        upload_wf(res.0),
        res.0.phase is InsertingRide,
        steps_left(res.0) == 5 * res.0.files@.len() + 1,
        res.0.files@ == (match form.data {
            Some(files) => files@,
            None => Seq::<UploadedFile>::empty(),
        }),
        res.1 == UploadAction::InsertRide(InsertableRide { title: form.title, description: form.description }),
        upload_started(form, res.0, res.1),
{
    let files = match form.data {
        Some(files) => files,
        None => Vec::new(),
    };
    let state = UploadState { files, ride_id: 0, current: 0, phase: UploadPhase::InsertingRide };
    (state, UploadAction::InsertRide(InsertableRide { title: form.title, description: form.description }))
}

/// What `GET /ride/<id>` answers about a ride that was found, with its
/// files, is the ride that `POST /ride` answered when it was stored.
pub proof fn get_answers_what_post_stored(ride: Ride, ride_files: Vec<RideFile>)
    ensures
        fetch_ride_answer(Ok(ride)) == Ok::<Ride, ResponseStatus>(ride),
        post_ride_answer(Ok(ride)) == Ok::<ApiResponse<Ride>, ResponseStatus>(ApiResponse::Success { data: ride }),
        ride_files_answer(ride, Ok(ride_files)) matches Ok(ApiResponse::Success { data }) && {
            &&& data.id == ride.id
            &&& data.title == ride.title
            &&& data.description == ride.description
            &&& data.created_date == ride.created_date
            &&& data.ride_files == ride_files
        },
{
}

/// A deletion report is unambiguous: two equal reports were written for
/// the same number of deleted rides and the same ride id.
pub proof fn delete_message_unambiguous(count1: nat, ride_id1: int, count2: nat, ride_id2: int)
    requires
        delete_message(count1, ride_id1) == delete_message(count2, ride_id2),
    ensures
        count1 == count2,
        ride_id1 == ride_id2,
{
    reveal_strlit(" ride(s) with id ");
    reveal_strlit(" deleted.");
    let sep = " ride(s) with id "@;
    let tail = " deleted."@;
    let d1 = decimal(count1);
    let d2 = decimal(count2);
    let x1 = signed_decimal(ride_id1);
    let x2 = signed_decimal(ride_id2);
    let m = delete_message(count1, ride_id1);
    assert(m == d1 + sep + x1 + tail);
    assert(m == d2 + sep + x2 + tail);
    decimal_is_digits(count1);
    decimal_is_digits(count2);
    assert(sep[0] == ' ');
    assert(!is_digit(' '));
    if d1.len() < d2.len() {
        assert(m[d1.len() as int] == sep[0]);
        assert(m[d1.len() as int] == d2[d1.len() as int]);
    } else if d2.len() < d1.len() {
        assert(m[d2.len() as int] == sep[0]);
        assert(m[d2.len() as int] == d1[d2.len() as int]);
    }
    assert(d1.len() == d2.len());
    let k = d1.len() as int;
    assert(d1 =~= m.subrange(0, k));
    assert(d2 =~= m.subrange(0, k));
    decimal_injective(count1, count2);
    assert(x1 =~= m.subrange(k + 17, m.len() - 9));
    assert(x2 =~= m.subrange(k + 17, m.len() - 9));
    signed_decimal_injective(ride_id1, ride_id2);
}

/// Listing rides answers every successful query, the empty one included,
/// with exactly the rides it found; only a failed query is an error, and
/// it is `500 Internal Server Error`.
pub proof fn all_rides_law(rides: Vec<Ride>, error: DbError)
    ensures
        all_rides_answer(Ok(rides)) == Ok::<ApiResponse<Vec<Ride>>, ResponseStatus>(
            ApiResponse::Success { data: rides },
        ),
        all_rides_answer(Err(error)) == Err::<ApiResponse<Vec<Ride>>, ResponseStatus>(
            ResponseStatus::InternalServerError,
        ),
{
}

/// Creating a ride answers with exactly the row the insert returned; only a
/// failed insert is an error, and it is `503 Service Unavailable`.
pub proof fn post_ride_law(ride: Ride, error: DbError)
    ensures
        post_ride_answer(Ok(ride)) == Ok::<ApiResponse<Ride>, ResponseStatus>(ApiResponse::Success { data: ride }),
        post_ride_answer(Err(error)) == Err::<ApiResponse<Ride>, ResponseStatus>(ResponseStatus::ServiceUnavailable),
{
}

/// Looking a ride up goes on with exactly the ride found; a failed lookup,
/// of the ride or of its files, is `404 Not Found`; a found ride is
/// answered with its own fields and exactly the files found, the empty
/// list included.
pub proof fn fetch_ride_law(ride: Ride, ride_files: Vec<RideFile>, error: DbError)
    ensures
        fetch_ride_answer(Ok(ride)) == Ok::<Ride, ResponseStatus>(ride),
        fetch_ride_answer(Err(error)) == Err::<Ride, ResponseStatus>(ResponseStatus::NotFound),
        ride_files_answer(ride, Err(error)) == Err::<ApiResponse<RideWithFiles>, ResponseStatus>(
            ResponseStatus::NotFound,
        ),
        ride_files_answer(ride, Ok(ride_files)) == Ok::<ApiResponse<RideWithFiles>, ResponseStatus>(
            ApiResponse::Success {
                data: RideWithFiles {
                    id: ride.id,
                    title: ride.title,
                    description: ride.description,
                    created_date: ride.created_date,
                    ride_files,
                },
            },
        ),
{
}

/// A deletion report reads: the digits of the number of deleted rides,
/// ` ride(s) with id `, the ride id in decimal (with `-` when negative),
/// and ` deleted.`.
pub proof fn delete_message_law(count: nat, ride_id: int)
    ensures
        ({
            let m = delete_message(count, ride_id);
            let k = decimal(count).len() as int;
            let id_text = m.subrange(k + 17, m.len() - 9);
            &&& 1 <= k
            &&& forall|i: int| 0 <= i < k ==> is_digit(#[trigger] m[i])
            &&& digits_value(m.subrange(0, k)) == count
            &&& m.subrange(k, k + 17) == " ride(s) with id "@
            &&& ride_id < 0 ==> id_text[0] == '-' && digits_value(id_text.drop_first()) == -ride_id
            &&& ride_id >= 0 ==> digits_value(id_text) == ride_id
            &&& m.subrange(m.len() - 9, m.len() as int) == " deleted."@
        }),
{
    reveal_strlit(" ride(s) with id ");
    reveal_strlit(" deleted.");
    let m = delete_message(count, ride_id);
    let d = decimal(count);
    let k = d.len() as int;
    let x = signed_decimal(ride_id);
    decimal_is_digits(count);
    decimal_value(count);
    signed_decimal_value(ride_id);
    assert(m == d + " ride(s) with id "@ + x + " deleted."@);
    assert(m.subrange(0, k) =~= d);
    assert forall|i: int| 0 <= i < k implies is_digit(#[trigger] m[i]) by {
        assert(m[i] == d[i]);
    }
    assert(m.subrange(k, k + 17) =~= " ride(s) with id "@);
    assert(m.subrange(k + 17, m.len() - 9) =~= x);
    assert(m.subrange(m.len() - 9, m.len() as int) =~= " deleted."@);
}

/// An upload request starts by inserting the ride the form describes,
/// with its title and description as given, and holds every file of the
/// form, in the form's order, none added; it can then run as
/// `upload::upload_run` describes.
pub proof fn upload_start_law(form: RideData, s: UploadState, a: UploadAction, files: Vec<UploadedFile>)
    requires
        upload_started(form, s, a),
    ensures
        a is InsertRide,
        a->InsertRide_0.title == form.title,
        a->InsertRide_0.description == form.description,
        form.data == Some(files) ==> s.files@.len() == files@.len() && forall|i: int|
            0 <= i < files@.len() ==> s.files@[i] == files@[i],
        form.data is None ==> s.files@.len() == 0,
        crate::upload::upload_run(seq![s], Seq::<crate::upload::UploadEvent>::empty(), seq![a]),
{
}

} // verus!
