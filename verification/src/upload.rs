use vstd::prelude::*;
use vstd::string::*;

use crate::models::{ContentKind, DbError, InsertableRide, InsertableRideFile, ResponseStatus, Ride, UploadedFile};

verus! {

// ---------------------------------------------------------------------
// Text predicates
// ---------------------------------------------------------------------

/// The code of `c` with ASCII upper-case letters folded to lower case.
pub open spec fn ascii_lower_code(c: char) -> int {
    if 65 <= (c as u32) && (c as u32) <= 90 {
        (c as u32) + 32
    } else {
        c as u32 as int
    }
}

/// `a` and `b` are equal when ASCII letters are compared without case.
pub open spec fn eq_ignore_ascii_case(a: Seq<char>, b: Seq<char>) -> bool {
    &&& a.len() == b.len()
    &&& forall|i: int| 0 <= i < a.len() ==> #[trigger] ascii_lower_code(a[i]) == ascii_lower_code(b[i])
}

/// `c` is a lower-case hexadecimal digit.
pub open spec fn is_lower_hex(c: char) -> bool {
    ('0' <= c && c <= '9') || ('a' <= c && c <= 'f')
}

/// `s` is the hyphenated lower-case text of a version-4 UUID:
/// 36 characters, `-` at 8, 13, 18 and 23, hexadecimal digits elsewhere,
/// and the version digit `4` at 14.
pub open spec fn is_uuid_text(s: Seq<char>) -> bool {
    &&& s.len() == 36
    &&& forall|i: int|
        0 <= i < 36 ==> (if i == 8 || i == 13 || i == 18 || i == 23 {
            #[trigger] s[i] == '-'
        } else {
            is_lower_hex(s[i])
        })
    &&& s[14] == '4'
}

pub open spec fn opt_string_view(o: Option<String>) -> Option<Seq<char>> {
    match o {
        Some(s) => Some(s@),
        None => None,
    }
}

pub open spec fn opt_str_view(o: Option<&str>) -> Option<Seq<char>> {
    match o {
        Some(s) => Some(s@),
        None => None,
    }
}

// ---------------------------------------------------------------------
// Naming and classifying an uploaded file
// ---------------------------------------------------------------------

/// The extension under which an upload is stored: that of its content
/// type, with `bin` (in any case) read as `fit`, and `unk` when the content
/// type is missing or has no known extension.
pub open spec fn stored_file_extension(content_type: Option<ContentKind>) -> Seq<char> {
    match content_type {
        None => "unk"@,
        Some(kind) => match kind.extension {
            None => "unk"@,
            Some(ext) => if eq_ignore_ascii_case(ext@, "bin"@) {
                "fit"@
            } else {
                ext@
            },
        },
    }
}

/// The kind recorded for an upload: `image` for PNG and JPEG content,
/// `ride` for anything else, a missing content type included.
pub open spec fn stored_file_kind(content_type: Option<ContentKind>) -> Seq<char> {
    match content_type {
        None => "ride"@,
        Some(kind) => if kind.is_png || kind.is_jpeg {
            "image"@
        } else {
            "ride"@
        },
    }
}

/// Where an upload is stored: `storage/<stem>_<name>.<ext>`, or
/// `storage/<stem>.<ext>` when the client gave no name.
pub open spec fn stored_file_path(stem: Seq<char>, name: Option<Seq<char>>, ext: Seq<char>) -> Seq<char> {
    "storage/"@ + stem + (match name {
        Some(n) => "_"@ + n,
        None => Seq::<char>::empty(),
    }) + "."@ + ext
}

fn is_bin_extension(ext: &str) -> (b: bool)
    ensures
        b == eq_ignore_ascii_case(ext@, "bin"@),
{
    proof {
        reveal_strlit("bin");
    }
    let n = ext.unicode_len();
    if n != 3 {
        return false;
    }
    let c0 = ext.get_char(0);
    let c1 = ext.get_char(1);
    let c2 = ext.get_char(2);
    let b = (c0 == 'b' || c0 == 'B') && (c1 == 'i' || c1 == 'I') && (c2 == 'n' || c2 == 'N');
    proof {
        let t = "bin"@;
        assert(t[0] == 'b' && t[1] == 'i' && t[2] == 'n');
        if !b {
            if !(c0 == 'b' || c0 == 'B') {
                assert(ascii_lower_code(ext@[0]) != ascii_lower_code(t[0]));
            } else if !(c1 == 'i' || c1 == 'I') {
                assert(ascii_lower_code(ext@[1]) != ascii_lower_code(t[1]));
            } else {
                assert(ascii_lower_code(ext@[2]) != ascii_lower_code(t[2]));
            }
        } else {
            assert forall|i: int| 0 <= i < ext@.len() implies #[trigger] ascii_lower_code(ext@[i])
                == ascii_lower_code(t[i]) by {
                if i == 0 {
                } else if i == 1 {
                } else {
                }
            }
        }
    }
    b
}

/// The extension under which an upload with this content type is stored.
pub fn upload_extension(content_type: &Option<ContentKind>) -> (ext: String)
    ensures
        ext@ == stored_file_extension(*content_type),
{
    proof {
        reveal_strlit("unk");
        reveal_strlit("fit");
    }
    match content_type {
        None => String::from_str("unk"),
        Some(kind) => match &kind.extension {
            None => String::from_str("unk"),
            Some(ext) => if is_bin_extension(ext.as_str()) {
                String::from_str("fit")
            } else {
                ext.clone()
            },
        },
    }
}

/// The kind recorded for an upload with this content type.
pub fn upload_file_type(content_type: &Option<ContentKind>) -> (kind: String)
    ensures
        kind@ == stored_file_kind(*content_type),
{
    match content_type {
        None => String::from_str("ride"),
        Some(kind) => if kind.is_png || kind.is_jpeg {
            String::from_str("image")
        } else {
            String::from_str("ride")
        },
    }
}

/// The path under which an upload is stored, from the random stem, the
/// name the client gave, if any, and the extension.
pub fn upload_path(stem: &str, name: Option<&str>, extension: &str) -> (path: String)
    ensures
        path@ == stored_file_path(stem@, opt_str_view(name), extension@),
{
    let mut path = String::from_str("storage/");
    path.append(stem);
    match name {
        Some(n) => {
            path.append("_");
            path.append(n);
        },
        None => {},
    }
    path.append(".");
    path.append(extension);
    proof {
        let named = match name {
            Some(n) => "_"@ + n@,
            None => Seq::<char>::empty(),
        };
        assert(path@ =~= "storage/"@ + stem@ + named + "."@ + extension@);
    }
    path
}

/// Calls `uuid::Uuid::new_v4` and writes it with `to_string`. Claimed: the
/// text is the hyphenated lower-case form of a version-4 UUID. Which UUID
/// comes out is random.
#[verifier::external_body]
fn new_upload_stem() -> (stem: String)
    ensures
        is_uuid_text(stem@),
{
    uuid::Uuid::new_v4().to_string()
}

/// Stored paths of uploads begin with `storage/`, hold the stem right
/// after it, and end with `.` and the extension; so two uploads whose
/// stems differ are stored under different paths.
pub proof fn stored_path_layout(stem: Seq<char>, name: Option<Seq<char>>, ext: Seq<char>)
    requires
        is_uuid_text(stem),
    ensures
        stored_file_path(stem, name, ext).subrange(0, 8) == "storage/"@,
        stored_file_path(stem, name, ext).subrange(8, 44) == stem,
        stored_file_path(stem, name, ext).subrange(
            stored_file_path(stem, name, ext).len() - ext.len() - 1,
            stored_file_path(stem, name, ext).len() as int,
        ) == "."@ + ext,
{
    reveal_strlit("storage/");
    reveal_strlit(".");
    let named = match name {
        Some(n) => "_"@ + n,
        None => Seq::<char>::empty(),
    };
    let p = stored_file_path(stem, name, ext);
    assert(p == "storage/"@ + stem + named + "."@ + ext);
    assert(p.subrange(0, 8) =~= "storage/"@);
    assert(p.subrange(8, 44) =~= stem);
    assert(p.subrange(p.len() - ext.len() - 1, p.len() as int) =~= "."@ + ext);
}

/// Two uploads stored under the same path have the same stem: distinct
/// stems never collide.
pub proof fn stored_paths_distinct(
    stem1: Seq<char>,
    name1: Option<Seq<char>>,
    ext1: Seq<char>,
    stem2: Seq<char>,
    name2: Option<Seq<char>>,
    ext2: Seq<char>,
)
    requires
        is_uuid_text(stem1),
        is_uuid_text(stem2),
        stored_file_path(stem1, name1, ext1) == stored_file_path(stem2, name2, ext2),
    ensures
        stem1 == stem2,
{
    stored_path_layout(stem1, name1, ext1);
    stored_path_layout(stem2, name2, ext2);
}

/// The stored extension reads only the content type's extension: it is
/// `unk` exactly when there is no content type or no extension; `fit` for
/// `bin` in any letter case; any other extension is kept as it is, whatever
/// the PNG and JPEG flags say.
pub proof fn stored_extension_law(content_type: Option<ContentKind>, is_png: bool, is_jpeg: bool)
    ensures
        content_type matches Some(kind) ==> stored_file_extension(content_type) == stored_file_extension(
            Some(ContentKind { extension: kind.extension, is_png, is_jpeg }),
        ),
        (content_type is None || content_type->0.extension is None) ==> stored_file_extension(content_type)
            == "unk"@,
        (content_type is Some && content_type->0.extension is Some) ==> ({
            let ext = content_type->0.extension->0;
            &&& eq_ignore_ascii_case(ext@, "bin"@) ==> stored_file_extension(content_type) == "fit"@
            &&& !eq_ignore_ascii_case(ext@, "bin"@) ==> stored_file_extension(content_type) == ext@
        }),
{
}

/// The kind of an upload is `image` exactly for PNG and JPEG content and
/// `ride` for everything else.
pub proof fn stored_kind_law(content_type: Option<ContentKind>)
    ensures
        (stored_file_kind(content_type) == "image"@) == (content_type matches Some(kind) && (kind.is_png
            || kind.is_jpeg)),
        stored_file_kind(content_type) == "image"@ || stored_file_kind(content_type) == "ride"@,
{
    reveal_strlit("image");
    reveal_strlit("ride");
    assert("image"@[0] != "ride"@[0]);
}

/// A stored path is `storage/`, the whole stem, then `_` and the whole name
/// the client gave (when it gave one), then `.` and the whole extension,
/// and nothing else.
pub proof fn stored_path_law(stem: Seq<char>, name: Option<Seq<char>>, ext: Seq<char>)
    ensures
        ({
            let p = stored_file_path(stem, name, ext);
            let after_stem: int = 8 + stem.len() as int;
            &&& p.subrange(0, 8) == "storage/"@
            &&& p.subrange(8, after_stem) == stem
            &&& match name {
                Some(n) => {
                    &&& p.len() == after_stem + 1 + n.len() + 1 + ext.len()
                    &&& p[after_stem] == '_'
                    &&& p.subrange(after_stem + 1, after_stem + 1 + n.len()) == n
                },
                None => p.len() == after_stem + 1 + ext.len(),
            }
            &&& p[p.len() - ext.len() - 1] == '.'
            &&& p.subrange(p.len() - ext.len(), p.len() as int) == ext
        }),
{
    reveal_strlit("storage/");
    reveal_strlit(".");
    reveal_strlit("_");
    let named = match name {
        Some(n) => "_"@ + n,
        None => Seq::<char>::empty(),
    };
    let p = stored_file_path(stem, name, ext);
    let a: int = 8 + stem.len() as int;
    assert(p == "storage/"@ + stem + named + "."@ + ext);
    assert(p.subrange(0, 8) =~= "storage/"@);
    assert(p.subrange(8, a) =~= stem);
    if let Some(n) = name {
        assert(p[a] == named[0]);
        assert(p.subrange(a + 1, a + 1 + n.len()) =~= n);
    }
    assert(p[p.len() - ext.len() - 1] == "."@[0]);
    assert(p.subrange(p.len() - ext.len(), p.len() as int) =~= ext);
}

// ---------------------------------------------------------------------
// The upload conversation
// ---------------------------------------------------------------------

/// Where an upload request stands. Between two events the service is in
/// exactly one of these phases; the per-file phases concern
/// `files[current]`.
pub enum UploadPhase {
    /// The new ride is being inserted.
    InsertingRide,
    /// The current file is being saved under `path`.
    Persisting { stem: String, path: String, file_type: String },
    /// The row describing the saved file is being inserted.
    Recording { stem: String, path: String, file_type: String },
    /// The saved file is being read back and decoded as FIT.
    Parsing { stem: String, path: String },
    /// The decoded FIT records are being written out.
    Writing,
    /// The request has been answered.
    Finished,
}

/// The state of one upload request.
pub struct UploadState {
    pub files: Vec<UploadedFile>,
    pub ride_id: i32,
    pub current: usize,
    pub phase: UploadPhase,
}

/// What the outside world reports back after performing an action.
pub enum UploadEvent {
    RideInserted(Result<Ride, DbError>),
    FilePersisted(Result<(), String>),
    RecordInserted(Result<usize, DbError>),
    FitDecoded(Result<Vec<fitparser::FitDataRecord>, String>),
    OutputWritten(Result<(), String>),
}

/// What the service asks the outside world to do next.
pub enum UploadAction {
    InsertRide(InsertableRide),
    PersistFile { index: usize, path: String },
    InsertRecord(InsertableRideFile),
    DecodeFitFile { path: String },
    WriteOutput { records: Vec<fitparser::FitDataRecord>, file_name: String },
    Respond(ResponseStatus),
}

/// The event that answers the action of each phase.
pub open spec fn event_fits(phase: UploadPhase, event: UploadEvent) -> bool {
    match phase {
        UploadPhase::InsertingRide => event is RideInserted,
        UploadPhase::Persisting { .. } => event is FilePersisted,
        UploadPhase::Recording { .. } => event is RecordInserted,
        UploadPhase::Parsing { .. } => event is FitDecoded,
        UploadPhase::Writing => event is OutputWritten,
        UploadPhase::Finished => false,
    }
}

/// `path` is where file `i` of `files` is stored under the UUID text `stem`.
pub open spec fn file_path_ok(files: Seq<UploadedFile>, i: int, stem: Seq<char>, path: Seq<char>) -> bool {
    &&& 0 <= i < files.len()
    &&& is_uuid_text(stem)
    &&& path == stored_file_path(
        stem,
        opt_string_view(files[i].name),
        stored_file_extension(files[i].content_type),
    )
}

/// The invariant of an upload request: a per-file phase concerns an
/// existing file, carries the path that file is stored under and the kind
/// it is recorded as, and FIT decoding concerns only files of kind `ride`.
pub open spec fn upload_wf(s: UploadState) -> bool {
    &&& s.current <= s.files@.len()
    &&& match s.phase {
        UploadPhase::InsertingRide => s.current == 0,
        UploadPhase::Persisting { stem, path, file_type } => {
            &&& file_path_ok(s.files@, s.current as int, stem@, path@)
            &&& file_type@ == stored_file_kind(s.files@[s.current as int].content_type)
        },
        UploadPhase::Recording { stem, path, file_type } => {
            &&& file_path_ok(s.files@, s.current as int, stem@, path@)
            &&& file_type@ == stored_file_kind(s.files@[s.current as int].content_type)
        },
        UploadPhase::Parsing { stem, path } => {
            &&& file_path_ok(s.files@, s.current as int, stem@, path@)
            &&& stored_file_kind(s.files@[s.current as int].content_type) == "ride"@
        },
        UploadPhase::Writing => {
            &&& s.current < s.files@.len()
            &&& stored_file_kind(s.files@[s.current as int].content_type) == "ride"@
        },
        UploadPhase::Finished => true,
    }
}

/// How many steps at most remain before the request is answered.
pub open spec fn steps_left(s: UploadState) -> nat {
    let left: int = s.files@.len() - s.current;
    match s.phase {
        UploadPhase::InsertingRide => (5 * s.files@.len() + 1) as nat,
        UploadPhase::Persisting { .. } => (5 * left) as nat,
        UploadPhase::Recording { .. } => (5 * left - 1) as nat,
        UploadPhase::Parsing { .. } => (5 * left - 2) as nat,
        UploadPhase::Writing => (5 * left - 3) as nat,
        UploadPhase::Finished => 0,
    }
}

/// `(s, a)` is what handling file `i` of `files` for ride `ride_id` starts
/// with: saving it under its stored path with a fresh UUID stem, or, once
/// every file has been handled, answering `200 OK`.
pub open spec fn began_file(files: Seq<UploadedFile>, ride_id: i32, i: int, s: UploadState, a: UploadAction) -> bool {
    &&& s.files@ == files
    &&& s.ride_id == ride_id
    &&& s.current == i
    &&& if i < files.len() {
        &&& s.phase matches UploadPhase::Persisting { stem, path, file_type }
        &&& file_path_ok(files, i, stem@, path@)
        &&& file_type@ == stored_file_kind(files[i].content_type)
        &&& a matches UploadAction::PersistFile { index, path: p }
        &&& index == i
        &&& p == path
    } else {
        &&& s.phase is Finished
        &&& a == UploadAction::Respond(ResponseStatus::Success)
    }
}

/// `(new, a)` keeps the files, the ride and the current file of `old`.
pub open spec fn same_file(old: UploadState, new: UploadState) -> bool {
    &&& new.files@ == old.files@
    &&& new.ride_id == old.ride_id
    &&& new.current == old.current
}

/// One step of an upload request: from the state and the event that
/// answers its last action, the next state and action.
pub open spec fn upload_step_taken(old: UploadState, event: UploadEvent, new: UploadState, a: UploadAction) -> bool {
    let next = old.current + 1;
    match old.phase {
        UploadPhase::InsertingRide => match event {
            UploadEvent::RideInserted(Ok(ride)) => began_file(old.files@, ride.id, 0, new, a),
            UploadEvent::RideInserted(Err(_)) => {
                &&& same_file(old, new)
                &&& new.phase is Finished
                &&& a == UploadAction::Respond(ResponseStatus::Success)
            },
            _ => false,
        },
        UploadPhase::Persisting { stem, path, file_type } => match event {
            UploadEvent::FilePersisted(Ok(_)) => {
                &&& same_file(old, new)
                &&& new.phase == (UploadPhase::Recording { stem, path, file_type })
                &&& a matches UploadAction::InsertRecord(record)
                &&& record.description@ == "temp_description"@
                &&& record.rides_id == old.ride_id
                &&& record.file_name == path
                &&& record.file_type == file_type
            },
            UploadEvent::FilePersisted(Err(_)) => began_file(old.files@, old.ride_id, next, new, a),
            _ => false,
        },
        UploadPhase::Recording { stem, path, file_type } => match event {
            UploadEvent::RecordInserted(Ok(_)) => if file_type@ == "ride"@ {
                &&& same_file(old, new)
                &&& new.phase == (UploadPhase::Parsing { stem, path })
                &&& a == (UploadAction::DecodeFitFile { path })
            } else {
                began_file(old.files@, old.ride_id, next, new, a)
            },
            UploadEvent::RecordInserted(Err(_)) => began_file(old.files@, old.ride_id, next, new, a),
            _ => false,
        },
        UploadPhase::Parsing { stem, path } => match event {
            UploadEvent::FitDecoded(Ok(decoded)) => {
                &&& same_file(old, new)
                &&& new.phase is Writing
                &&& a matches UploadAction::WriteOutput { records, file_name }
                &&& records == decoded
                &&& file_name@ == "output.txt"@
            },
            UploadEvent::FitDecoded(Err(_)) => began_file(old.files@, old.ride_id, next, new, a),
            _ => false,
        },
        UploadPhase::Writing => match event {
            UploadEvent::OutputWritten(_) => began_file(old.files@, old.ride_id, next, new, a),
            _ => false,
        },
        UploadPhase::Finished => false,
    }
}

/// Starts handling file `index` of `files` for ride `ride_id`, or answers
/// once every file has been handled.
pub fn begin_file(files: Vec<UploadedFile>, ride_id: i32, index: usize) -> (res: (UploadState, UploadAction))
    requires
        index <= files@.len(),
    ensures
        began_file(files@, ride_id, index as int, res.0, res.1),
        upload_wf(res.0),
{
    if index < files.len() {
        let stem = new_upload_stem();
        let (path, file_type) = {
            let file = &files[index];
            let ext = upload_extension(&file.content_type);
            let kind = upload_file_type(&file.content_type);
            let name: Option<&str> = match &file.name {
                Some(n) => Some(n.as_str()),
                None => None,
            };
            assert(opt_str_view(name) == opt_string_view(files@[index as int].name));
            (upload_path(stem.as_str(), name, ext.as_str()), kind)
        };
        let action = UploadAction::PersistFile { index, path: path.clone() };
        let state = UploadState {
            files,
            ride_id,
            current: index,
            phase: UploadPhase::Persisting { stem, path, file_type },
        };
        (state, action)
    } else {
        let state = UploadState { files, ride_id, current: index, phase: UploadPhase::Finished };
        (state, UploadAction::Respond(ResponseStatus::Success))
    }
}

/// Advances an upload request by one event. Besides the exact step, this
/// states what holds of every step: the invariant is kept, the request
/// comes strictly closer to its answer, the only answer is `200 OK`, and a
/// file row always names the ride that was inserted and the path the file
/// was just saved under.
pub fn upload_step(state: UploadState, event: UploadEvent) -> (res: (UploadState, UploadAction))
    requires
        upload_wf(state),
        event_fits(state.phase, event),
    ensures
        upload_step_taken(state, event, res.0, res.1),
        upload_wf(res.0),
        steps_left(res.0) < steps_left(state),
        res.0.files@ == state.files@,
        res.1 matches UploadAction::Respond(status) ==> status == ResponseStatus::Success
            && res.0.phase is Finished,
        res.0.phase is Finished ==> res.1 == UploadAction::Respond(ResponseStatus::Success),
        res.1 matches UploadAction::InsertRecord(record) ==> {
            &&& state.phase matches UploadPhase::Persisting { path, .. }
            &&& record.file_name == path
            &&& record.rides_id == state.ride_id
            &&& record.rides_id == res.0.ride_id
        },
        res.1 matches UploadAction::DecodeFitFile { path } ==> {
            &&& state.phase matches UploadPhase::Recording { path: saved, .. }
            &&& path == saved
            &&& stored_file_kind(state.files@[state.current as int].content_type) == "ride"@
        },
{
    let UploadState { files, ride_id, current, phase } = state;
    // The length of a vector fits in `usize`, so `current + 1` below does too.
    let _file_count = files.len();
    match phase {
        UploadPhase::InsertingRide => match event {
            UploadEvent::RideInserted(Ok(ride)) => begin_file(files, ride.id, 0),
            UploadEvent::RideInserted(Err(_)) => {
                let new_state = UploadState { files, ride_id, current, phase: UploadPhase::Finished };
                (new_state, UploadAction::Respond(ResponseStatus::Success))
            },
            _ => {
                assert(false);
                let new_state = UploadState { files, ride_id, current, phase: UploadPhase::Finished };
                (new_state, UploadAction::Respond(ResponseStatus::Success))
            },
        },
        UploadPhase::Persisting { stem, path, file_type } => match event {
            UploadEvent::FilePersisted(Ok(_)) => {
                let record = InsertableRideFile {
                    description: String::from_str("temp_description"),
                    rides_id: ride_id,
                    file_name: path.clone(),
                    file_type: file_type.clone(),
                };
                let new_state = UploadState {
                    files,
                    ride_id,
                    current,
                    phase: UploadPhase::Recording { stem, path, file_type },
                };
                (new_state, UploadAction::InsertRecord(record))
            },
            _ => begin_file(files, ride_id, current + 1),
        },
        UploadPhase::Recording { stem, path, file_type } => match event {
            UploadEvent::RecordInserted(Ok(_)) => {
                if file_type == String::from_str("ride") {
                    let action = UploadAction::DecodeFitFile { path: path.clone() };
                    let new_state = UploadState {
                        files,
                        ride_id,
                        current,
                        phase: UploadPhase::Parsing { stem, path },
                    };
                    (new_state, action)
                } else {
                    begin_file(files, ride_id, current + 1)
                }
            },
            _ => begin_file(files, ride_id, current + 1),
        },
        UploadPhase::Parsing { stem, path } => match event {
            UploadEvent::FitDecoded(Ok(records)) => {
                let new_state = UploadState { files, ride_id, current, phase: UploadPhase::Writing };
                (new_state, UploadAction::WriteOutput { records, file_name: String::from_str("output.txt") })
            },
            _ => begin_file(files, ride_id, current + 1),
        },
        UploadPhase::Writing => begin_file(files, ride_id, current + 1),
        UploadPhase::Finished => {
            assert(false);
            let new_state = UploadState { files, ride_id, current, phase: UploadPhase::Finished };
            (new_state, UploadAction::Respond(ResponseStatus::Success))
        },
    }
}

// ---------------------------------------------------------------------
// Whole upload requests
// ---------------------------------------------------------------------

/// `(states, events, actions)` is an upload request as it runs:
/// `states[k]` and `actions[k]` are what the service holds and asks for
/// after `k` events, it starts by inserting the ride (as
/// `routes::post_ride_data` starts it), and each event answers the last
/// action and leads to the next state and action as `upload_step` takes it.
pub open spec fn upload_run(states: Seq<UploadState>, events: Seq<UploadEvent>, actions: Seq<UploadAction>) -> bool {
    &&& states.len() == events.len() + 1
    &&& actions.len() == states.len()
    &&& states[0].phase is InsertingRide
    &&& upload_wf(states[0])
    &&& actions[0] is InsertRide
    &&& forall|k: int|
        #![trigger events[k]]
        0 <= k < events.len() ==> event_fits(states[k].phase, events[k]) && upload_step_taken(
            states[k],
            events[k],
            states[k + 1],
            actions[k + 1],
        )
}

/// The phase concerns one file of the upload.
pub open spec fn per_file(phase: UploadPhase) -> bool {
    ||| phase is Persisting
    ||| phase is Recording
    ||| phase is Parsing
    ||| phase is Writing
}

/// `(s, a)` starts the file `s.current`, or ends the request after the
/// last file.
pub open spec fn moved_to(s: UploadState, a: UploadAction) -> bool {
    ||| s.phase is Persisting && a is PersistFile && a->index == s.current
    ||| s.phase is Finished && s.current == s.files@.len()
}

/// File `i` was asked to be saved by one of `actions[1..=k]`.
pub open spec fn file_saved_by(actions: Seq<UploadAction>, i: int, k: int) -> bool {
    exists|j: int|
        1 <= j <= k && #[trigger] actions[j] is PersistFile && actions[j]->index == i
}

proof fn file_saved_later(actions: Seq<UploadAction>, i: int, k: int)
    requires
        file_saved_by(actions, i, k),
    ensures
        file_saved_by(actions, i, k + 1),
{
    let j = choose|j: int|
        1 <= j <= k && #[trigger] actions[j] is PersistFile && actions[j]->index == i;
    assert(1 <= j <= k + 1 && actions[j] is PersistFile && actions[j]->index == i);
}

proof fn began_file_facts(files: Seq<UploadedFile>, ride_id: i32, i: int, s: UploadState, a: UploadAction)
    requires
        0 <= i <= files.len(),
        began_file(files, ride_id, i, s, a),
    ensures
        upload_wf(s),
        steps_left(s) <= 5 * (files.len() - i),
        !(a is InsertRide),
        !(a is InsertRecord),
        a matches UploadAction::Respond(status) ==> status == ResponseStatus::Success && s.phase is Finished,
        s.phase is Finished ==> a is Respond,
        s.current == i,
        moved_to(s, a),
{
}

/// What one step of an upload request keeps and changes, stated over the
/// step relation itself.
proof fn upload_step_facts(old: UploadState, event: UploadEvent, new: UploadState, a: UploadAction)
    requires
        upload_wf(old),
        event_fits(old.phase, event),
        upload_step_taken(old, event, new, a),
    ensures
        upload_wf(new),
        steps_left(new) < steps_left(old),
        new.files@ == old.files@,
        !(old.phase is InsertingRide) ==> new.ride_id == old.ride_id,
        event matches UploadEvent::RideInserted(Ok(ride)) ==> new.ride_id == ride.id,
        event matches UploadEvent::RideInserted(Err(_)) ==> new.phase is Finished,
        !(a is InsertRide),
        a matches UploadAction::InsertRecord(record) ==> {
            &&& record.rides_id == old.ride_id
            &&& new.phase matches UploadPhase::Recording { path, file_type, .. }
            &&& record.file_name == path
            &&& record.file_type == file_type
            &&& new.current < new.files@.len()
        },
        a matches UploadAction::Respond(status) ==> status == ResponseStatus::Success && new.phase is Finished,
        new.phase is Finished ==> a is Respond,
        per_file(old.phase) ==> {
            ||| new.current == old.current && per_file(new.phase) && !(a is PersistFile)
            ||| new.current == old.current + 1 && moved_to(new, a)
        },
        event matches UploadEvent::RideInserted(Ok(_)) ==> new.current == 0 && moved_to(new, a),
{
    reveal_strlit("ride");
    let next = old.current + 1;
    match old.phase {
        UploadPhase::InsertingRide => {
            if let UploadEvent::RideInserted(Ok(ride)) = event {
                began_file_facts(old.files@, ride.id, 0, new, a);
            }
        },
        UploadPhase::Persisting { .. } => {
            if let UploadEvent::FilePersisted(Err(_)) = event {
                began_file_facts(old.files@, old.ride_id, next, new, a);
            }
        },
        UploadPhase::Recording { file_type, .. } => {
            if event matches UploadEvent::RecordInserted(Ok(_)) && file_type@ == "ride"@ {
            } else {
                began_file_facts(old.files@, old.ride_id, next, new, a);
            }
        },
        UploadPhase::Parsing { .. } => {
            if let UploadEvent::FitDecoded(Err(_)) = event {
                began_file_facts(old.files@, old.ride_id, next, new, a);
            }
        },
        UploadPhase::Writing => {
            began_file_facts(old.files@, old.ride_id, next, new, a);
        },
        UploadPhase::Finished => {},
    }
}

proof fn upload_run_prefix(states: Seq<UploadState>, events: Seq<UploadEvent>, actions: Seq<UploadAction>, n: int)
    requires
        upload_run(states, events, actions),
        0 <= n < states.len(),
    ensures
        forall|k: int| 0 <= k <= n ==> upload_wf(#[trigger] states[k]) && states[k].files@ == states[0].files@,
        forall|j: int, k: int|
            0 <= j < k <= n ==> steps_left(#[trigger] states[k]) < steps_left(#[trigger] states[j]),
        forall|k: int|
            1 <= k <= n ==> (events[0] matches UploadEvent::RideInserted(Ok(ride)) ==> (#[trigger] states[k]).ride_id
                == ride.id),
        forall|k: int| 1 <= k <= n ==> !(#[trigger] actions[k] is InsertRide),
        forall|k: int|
            1 <= k <= n ==> (#[trigger] actions[k] matches UploadAction::InsertRecord(record) ==> {
                &&& record.rides_id == states[k - 1].ride_id
                &&& states[k].phase is Recording
                &&& states[k].current < states[0].files@.len()
            }),
        forall|k: int|
            0 <= k <= n ==> ((#[trigger] states[k]).phase is Finished <==> actions[k] is Respond),
        forall|k: int|
            0 <= k <= n ==> (#[trigger] actions[k] matches UploadAction::Respond(status) ==> status
                == ResponseStatus::Success),
    decreases n,
{
    if n > 0 {
        upload_run_prefix(states, events, actions, n - 1);
        let k = n - 1;
        assert(event_fits(states[k].phase, events[k]) && upload_step_taken(states[k], events[k], states[k + 1], actions[k + 1]));
        upload_step_facts(states[k], events[k], states[k + 1], actions[k + 1]);
        if k > 0 {
            assert(states[k].phase !is InsertingRide);
        }
    }
}

proof fn upload_run_files_saved(states: Seq<UploadState>, events: Seq<UploadEvent>, actions: Seq<UploadAction>, n: int)
    requires
        upload_run(states, events, actions),
        1 <= n < states.len(),
        events[0] is RideInserted && events[0]->RideInserted_0 is Ok,
    ensures
        forall|i: int| 0 <= i < states[n].current ==> file_saved_by(actions, i, n),
        per_file(states[n].phase) ==> file_saved_by(actions, states[n].current as int, n),
        states[n].phase is Finished ==> states[n].current == states[n].files@.len(),
        !(states[n].phase is InsertingRide),
    decreases n,
{
    upload_run_prefix(states, events, actions, n);
    let k = n - 1;
    assert(event_fits(states[k].phase, events[k]) && upload_step_taken(states[k], events[k], states[k + 1], actions[k + 1]));
    upload_step_facts(states[k], events[k], states[n], actions[n]);
    if n > 1 {
        upload_run_files_saved(states, events, actions, k);
        assert(per_file(states[k].phase));
        assert forall|i: int| 0 <= i < states[k].current implies file_saved_by(actions, i, n) by {
            file_saved_later(actions, i, k);
        }
        file_saved_later(actions, states[k].current as int, k);
    }
    if states[n].phase is Persisting && actions[n] is PersistFile && actions[n]->index == states[n].current {
        assert(file_saved_by(actions, states[n].current as int, n));
    }
}

/// The law of a whole upload request: the ride is inserted once, as the
/// first action and never again; every file row names the ride that
/// insert returned; the rows are written for files of the upload in
/// strictly increasing order, so no file gets two rows and there are at
/// most as many rows as files; the request is answered exactly once, as
/// its last action, and always with `200 OK`.
pub proof fn upload_run_law(states: Seq<UploadState>, events: Seq<UploadEvent>, actions: Seq<UploadAction>)
    requires
        upload_run(states, events, actions),
    ensures
        actions[0] is InsertRide,
        forall|k: int| 1 <= k < actions.len() ==> !(#[trigger] actions[k] is InsertRide),
        forall|k: int|
            0 <= k < actions.len() ==> (#[trigger] actions[k] matches UploadAction::InsertRecord(record) ==> {
                &&& events[0] matches UploadEvent::RideInserted(Ok(ride))
                &&& record.rides_id == ride.id
                &&& states[k].current < states[0].files@.len()
            }),
        forall|j: int, k: int|
            0 <= j < k < actions.len() && #[trigger] actions[j] is InsertRecord && #[trigger] actions[k] is InsertRecord
                ==> states[j].current < states[k].current,
        forall|k: int|
            0 <= k < actions.len() ==> (#[trigger] actions[k] matches UploadAction::Respond(status) ==> {
                &&& status == ResponseStatus::Success
                &&& k == actions.len() - 1
            }),
        forall|k: int|
            0 <= k < actions.len() ==> (#[trigger] actions[k] matches UploadAction::InsertRecord(record) ==> {
                let file = states[0].files@[states[k].current as int];
                &&& states[k].phase matches UploadPhase::Recording { stem, .. }
                &&& file_path_ok(states[0].files@, states[k].current as int, stem@, record.file_name@)
                &&& record.file_type@ == stored_file_kind(file.content_type)
            }),
        forall|k: int, i: int|
            0 <= k < actions.len() && #[trigger] actions[k] is Respond && events[0] is RideInserted
                && events[0]->RideInserted_0 is Ok && 0 <= i < states[0].files@.len() ==> #[trigger] file_saved_by(
                actions,
                i,
                k,
            ),
{
    let n = states.len() - 1;
    upload_run_prefix(states, events, actions, n);
    assert forall|k: int|
        0 <= k < actions.len() implies (#[trigger] actions[k] matches UploadAction::InsertRecord(record) ==> {
            &&& events[0] matches UploadEvent::RideInserted(Ok(ride))
            &&& record.rides_id == ride.id
            &&& states[k].current < states[0].files@.len()
        }) by {
        if actions[k] is InsertRecord {
            assert(k >= 1);
            assert(states[k].phase is Recording);
            if k >= 2 {
                assert(states[1].phase !is Finished) by {
                    if states[1].phase is Finished {
                        assert(!event_fits(states[1].phase, events[1]));
                        assert(event_fits(states[1].phase, events[1]));
                    }
                }
            }
            assert(event_fits(states[0].phase, events[0]));
            if events[0] matches UploadEvent::RideInserted(Err(_)) {
                assert(upload_step_taken(states[0], events[0], states[1], actions[1]));
                assert(states[1].phase is Finished);
                assert(k == 1);
            }
        }
    }
    assert forall|j: int, k: int|
        0 <= j < k < actions.len() && #[trigger] actions[j] is InsertRecord && #[trigger] actions[k] is InsertRecord
            implies states[j].current < states[k].current by {
        assert(steps_left(states[k]) < steps_left(states[j]));
        assert(states[j].phase is Recording && states[k].phase is Recording);
    }
    assert forall|k: int|
        0 <= k < actions.len() implies (#[trigger] actions[k] matches UploadAction::Respond(status) ==> {
            &&& status == ResponseStatus::Success
            &&& k == actions.len() - 1
        }) by {
        if actions[k] is Respond && k < actions.len() - 1 {
            assert(states[k].phase is Finished);
            assert(event_fits(states[k].phase, events[k]));
        }
    }
    assert forall|k: int|
        0 <= k < actions.len() implies (#[trigger] actions[k] matches UploadAction::InsertRecord(record) ==> {
            let file = states[0].files@[states[k].current as int];
            &&& states[k].phase matches UploadPhase::Recording { stem, .. }
            &&& file_path_ok(states[0].files@, states[k].current as int, stem@, record.file_name@)
            &&& record.file_type@ == stored_file_kind(file.content_type)
        }) by {
        if actions[k] is InsertRecord {
            assert(k >= 1);
            let j = k - 1;
            assert(event_fits(states[j].phase, events[j]) && upload_step_taken(states[j], events[j], states[j + 1], actions[j + 1]));
            upload_step_facts(states[j], events[j], states[k], actions[k]);
            assert(upload_wf(states[k]));
        }
    }
    assert forall|k: int, i: int|
        0 <= k < actions.len() && #[trigger] actions[k] is Respond && events[0] is RideInserted
            && events[0]->RideInserted_0 is Ok && 0 <= i < states[0].files@.len() implies #[trigger] file_saved_by(
            actions,
            i,
            k,
        ) by {
        assert(k >= 1);
        upload_run_files_saved(states, events, actions, k);
        assert(states[k].phase is Finished);
    }
}

} // verus!
