//! The first, smaller form of the ride service: rides are only an id, a
//! title and a description, and answers are bare values rather than
//! wrapped ones.

use vstd::prelude::*;
use vstd::string::*;

use crate::models::DbError;
use crate::text::{i32_to_decimal, usize_to_decimal};

verus! {

/// A ride of the smaller service.
#[derive(Debug, PartialEq, Clone)]
pub struct Ride {
    pub id: i32,
    pub title: String,
    pub description: String,
}

/// The fields a client gives to create a ride in the smaller service.
#[derive(Debug, PartialEq, Clone)]
pub struct InsertableRide {
    pub title: String,
    pub description: String,
}

/// What `GET /ride/<id>` answers on a lookup result.
pub open spec fn lookup_answer(found: Result<Option<Ride>, DbError>) -> Option<Ride> {
    match found {
        Ok(Some(ride)) => Some(ride),
        _ => None,
    }
}

/// What `POST /ride` answers on an insert result.
pub open spec fn insert_answer(inserted: Result<Ride, DbError>) -> Option<Ride> {
    match inserted {
        Ok(ride) => Some(ride),
        Err(_) => None,
    }
}

/// What `DELETE /ride/<id>` answers on a delete result.
pub open spec fn delete_report(ride_id: int, deleted: Result<usize, DbError>) -> Seq<char> {
    match deleted {
        Ok(count) => crate::routes::delete_message(count as nat, ride_id),
        Err(e) => "Error deleting ride "@ + e.message@,
    }
}

/// `GET /ride/<id>`: the ride when the lookup found one; nothing (a `404`)
/// when it found none or failed.
pub fn get_ride(found: Result<Option<Ride>, DbError>) -> (res: Option<Ride>)
    ensures
        res == (match found {
            Ok(Some(ride)) => Some(ride),
            _ => None::<Ride>,
        }),
        res == lookup_answer(found),
{
    match found {
        Ok(Some(ride)) => Some(ride),
        _ => None,
    }
}

/// `DELETE /ride/<id>`: reports how many rides were deleted, or the
/// database's error.
pub fn delete_ride(ride_id: i32, deleted: Result<usize, DbError>) -> (res: String)
    ensures
        res@ == (match deleted {
            Ok(count) => crate::routes::delete_message(count as nat, ride_id as int),
            Err(e) => "Error deleting ride "@ + e.message@,
        }),
        res@ == delete_report(ride_id as int, deleted),
{
    match deleted {
        Ok(count) => {
            let mut message = usize_to_decimal(count);
            message.append(" ride(s) with id ");
            let id_text = i32_to_decimal(ride_id);
            message.append(id_text.as_str());
            message.append(" deleted.");
            message
        },
        Err(e) => {
            let mut message = String::from_str("Error deleting ride ");
            message.append(e.message.as_str());
            message
        },
    }
}

/// `GET /health`: the service answers `OK`.
pub fn get_health() -> (res: String)
    ensures
        res@ == "OK"@,
{
    String::from_str("OK")
}

/// `POST /ride`: the stored ride, or nothing (a `404`) when the insert
/// failed.
pub fn post_ride(inserted: Result<Ride, DbError>) -> (res: Option<Ride>)
    ensures
        res == (match inserted {
            Ok(ride) => Some(ride),
            Err(_) => None::<Ride>,
        }),
        res == insert_answer(inserted),
{
    match inserted {
        Ok(ride) => Some(ride),
        Err(_) => None,
    }
}

/// A lookup answers with exactly the ride it found; finding none, or
/// failing, answers nothing.
pub proof fn lookup_law(ride: Ride, error: DbError)
    ensures
        lookup_answer(Ok(Some(ride))) == Some(ride),
        lookup_answer(Ok(None)) == None::<Ride>,
        lookup_answer(Err(error)) == None::<Ride>,
{
}

/// An insert answers with exactly the row it returned; a failed insert
/// answers nothing.
pub proof fn insert_law(ride: Ride, error: DbError)
    ensures
        insert_answer(Ok(ride)) == Some(ride),
        insert_answer(Err(error)) == None::<Ride>,
{
}

/// A successful delete is reported as the wrapped service reports it; a
/// failed one is reported as `Error deleting ride ` followed by the whole
/// database message.
pub proof fn delete_report_law(ride_id: int, count: usize, error: DbError)
    ensures
        delete_report(ride_id, Ok(count)) == crate::routes::delete_message(count as nat, ride_id),
        delete_report(ride_id, Err(error)).subrange(0, 20) == "Error deleting ride "@,
        delete_report(ride_id, Err(error)).subrange(20, 20 + error.message@.len() as int) == error.message@,
        delete_report(ride_id, Err(error)).len() == 20 + error.message@.len(),
{
    reveal_strlit("Error deleting ride ");
    let r = delete_report(ride_id, Err(error));
    assert(r.subrange(0, 20) =~= "Error deleting ride "@);
    assert(r.subrange(20, 20 + error.message@.len() as int) =~= error.message@);
}

} // verus!
