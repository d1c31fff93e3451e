use memecycle::models::{ContentKind, DbError, ResponseStatus, Ride, RideData, UploadedFile};
use memecycle::routes::post_ride_data;
use memecycle::upload::{
    begin_file, upload_extension, upload_file_type, upload_path, upload_step, UploadAction, UploadEvent,
    UploadPhase, UploadState,
};

fn kind(ext: Option<&str>, is_png: bool, is_jpeg: bool) -> Option<ContentKind> {
    Some(ContentKind { extension: ext.map(|e| e.to_string()), is_png, is_jpeg })
}

fn ride(id: i32) -> Ride {
    Ride { id, title: "t".to_string(), description: "d".to_string(), created_date: 0 }
}

fn is_uuid_text(s: &str) -> bool {
    let cs: Vec<char> = s.chars().collect();
    cs.len() == 36
        && cs.iter().enumerate().all(|(i, c)| {
            if i == 8 || i == 13 || i == 18 || i == 23 {
                *c == '-'
            } else {
                c.is_ascii_digit() || ('a'..='f').contains(c)
            }
        })
        && cs[14] == '4'
}

/// Builds a FIT file holding `n` `file_id` records.
fn fit_file(n: usize) -> Vec<u8> {
    const TABLE: [u16; 16] = [
        0x0000, 0xCC01, 0xD801, 0x1400, 0xF001, 0x3C00, 0x2800, 0xE401, 0xA001, 0x6C00, 0x7800, 0xB401,
        0x5000, 0x9C01, 0x8801, 0x4400,
    ];
    fn crc(data: &[u8]) -> u16 {
        let mut crc: u16 = 0;
        for byte in data {
            let mut tmp = TABLE[(crc & 0xF) as usize];
            crc = (crc >> 4) & 0x0FFF;
            crc = crc ^ tmp ^ TABLE[(byte & 0xF) as usize];
            tmp = TABLE[(crc & 0xF) as usize];
            crc = (crc >> 4) & 0x0FFF;
            crc = crc ^ tmp ^ TABLE[((byte >> 4) & 0xF) as usize];
        }
        crc
    }
    let mut records: Vec<u8> = vec![0x40, 0x00, 0x00, 0x00, 0x00, 0x01, 0x00, 0x01, 0x00];
    for _ in 0..n {
        records.extend_from_slice(&[0x00, 0x04]);
    }
    let mut file: Vec<u8> = vec![14, 0x10];
    file.extend_from_slice(&2132u16.to_le_bytes());
    file.extend_from_slice(&(records.len() as u32).to_le_bytes());
    file.extend_from_slice(b".FIT");
    file.extend_from_slice(&[0, 0]);
    file.extend_from_slice(&records);
    let sum = crc(&file);
    file.extend_from_slice(&sum.to_le_bytes());
    file
}

#[test]
fn extension_of_known_types() {
    assert_eq!(upload_extension(&kind(Some("png"), true, false)), "png");
    assert_eq!(upload_extension(&kind(Some("jpeg"), false, true)), "jpeg");
    assert_eq!(upload_extension(&kind(Some("bin"), false, false)), "fit");
    assert_eq!(upload_extension(&kind(Some("BIN"), false, false)), "fit");
    assert_eq!(upload_extension(&kind(Some("bIn"), false, false)), "fit");
    assert_eq!(upload_extension(&kind(Some("binx"), false, false)), "binx");
    assert_eq!(upload_extension(&kind(None, false, false)), "unk");
    assert_eq!(upload_extension(&None), "unk");
}

#[test]
fn kind_is_image_only_for_png_and_jpeg() {
    assert_eq!(upload_file_type(&kind(Some("png"), true, false)), "image");
    assert_eq!(upload_file_type(&kind(Some("jpeg"), false, true)), "image");
    assert_eq!(upload_file_type(&kind(Some("bin"), false, false)), "ride");
    assert_eq!(upload_file_type(&kind(None, false, false)), "ride");
    assert_eq!(upload_file_type(&None), "ride");
}

#[test]
fn stored_paths() {
    assert_eq!(upload_path("abc", Some("track"), "fit"), "storage/abc_track.fit");
    assert_eq!(upload_path("abc", None, "unk"), "storage/abc.unk");
}

#[test]
fn each_file_gets_a_fresh_uuid_stem() {
    let files = vec![
        UploadedFile { name: None, content_type: None },
        UploadedFile { name: None, content_type: None },
    ];
    let (first, action) = begin_file(files.clone(), 1, 0);
    let first_path = match action {
        UploadAction::PersistFile { index: 0, path } => path,
        _ => panic!("the first file must be saved"),
    };
    match &first.phase {
        UploadPhase::Persisting { stem, path, file_type } => {
            assert!(is_uuid_text(stem));
            assert_eq!(path, &first_path);
            assert_eq!(path, &format!("storage/{}.unk", stem));
            assert_eq!(file_type, "ride");
        },
        _ => panic!("the first file must be in progress"),
    }
    let (_, action) = begin_file(files.clone(), 1, 1);
    let second_path = match action {
        UploadAction::PersistFile { index: 1, path } => path,
        _ => panic!("the second file must be saved"),
    };
    assert_ne!(first_path, second_path);
    let (done, action) = begin_file(files, 1, 2);
    assert!(matches!(done.phase, UploadPhase::Finished));
    assert!(matches!(action, UploadAction::Respond(ResponseStatus::Success)));
}

#[test]
fn failed_ride_insert_still_answers_ok() {
    let form = RideData {
        title: "t".to_string(),
        description: "d".to_string(),
        data: Some(vec![UploadedFile { name: None, content_type: None }]),
    };
    let (state, _) = post_ride_data(form);
    let (state, action) =
        upload_step(state, UploadEvent::RideInserted(Err(DbError { message: "down".to_string() })));
    assert!(matches!(state.phase, UploadPhase::Finished));
    assert!(matches!(action, UploadAction::Respond(ResponseStatus::Success)));
}

fn two_files() -> UploadState {
    let form = RideData {
        title: "t".to_string(),
        description: "d".to_string(),
        data: Some(vec![
            UploadedFile {
                name: Some("morning".to_string()),
                content_type: Some(ContentKind { extension: Some("bin".to_string()), is_png: false, is_jpeg: false }),
            },
            UploadedFile {
                name: Some("photo".to_string()),
                content_type: Some(ContentKind { extension: Some("png".to_string()), is_png: true, is_jpeg: false }),
            },
        ]),
    };
    post_ride_data(form).0
}

#[test]
fn ride_file_goes_through_fit_decoding() {
    let (state, action) = upload_step(two_files(), UploadEvent::RideInserted(Ok(ride(11))));
    let path = match action {
        UploadAction::PersistFile { index: 0, path } => path,
        _ => panic!("the first file must be saved"),
    };
    assert!(path.ends_with("_morning.fit"));
    let (state, action) = upload_step(state, UploadEvent::FilePersisted(Ok(())));
    match action {
        UploadAction::InsertRecord(record) => {
            assert_eq!(record.file_type, "ride");
            assert_eq!(record.file_name, path);
            assert_eq!(record.rides_id, 11);
        },
        _ => panic!("the file row must be inserted"),
    }
    let (state, action) = upload_step(state, UploadEvent::RecordInserted(Ok(1)));
    match action {
        UploadAction::DecodeFitFile { path: read } => assert_eq!(read, path),
        _ => panic!("the FIT file must be decoded"),
    }
    let decoded = fitparser::from_bytes(&fit_file(2)).expect("the FIT file decodes");
    let kinds: Vec<String> = decoded.iter().map(|r| format!("{:?}", r)).collect();
    let (state, action) = upload_step(state, UploadEvent::FitDecoded(Ok(decoded)));
    match action {
        UploadAction::WriteOutput { records, file_name } => {
            assert_eq!(records.len(), 2);
            assert_eq!(records.iter().map(|r| format!("{:?}", r)).collect::<Vec<String>>(), kinds);
            assert_eq!(file_name, "output.txt");
        },
        _ => panic!("the decoded records must be written"),
    }
    let (state, action) = upload_step(state, UploadEvent::OutputWritten(Ok(())));
    match action {
        UploadAction::PersistFile { index: 1, path } => assert!(path.ends_with("_photo.png")),
        _ => panic!("the second file must be saved"),
    }
    let (state, action) = upload_step(state, UploadEvent::FilePersisted(Ok(())));
    assert!(matches!(action, UploadAction::InsertRecord(_)));
    let (state, action) = upload_step(state, UploadEvent::RecordInserted(Ok(1)));
    assert!(matches!(state.phase, UploadPhase::Finished));
    assert!(matches!(action, UploadAction::Respond(ResponseStatus::Success)));
}

#[test]
fn undecodable_fit_file_moves_on() {
    let (state, _) = upload_step(two_files(), UploadEvent::RideInserted(Ok(ride(11))));
    let (state, _) = upload_step(state, UploadEvent::FilePersisted(Ok(())));
    let (state, _) = upload_step(state, UploadEvent::RecordInserted(Ok(1)));
    let mut broken = fit_file(2);
    let last = broken.len() - 1;
    broken[last] ^= 0xFF;
    let decoded = fitparser::from_bytes(&broken).map_err(|e| e.to_string());
    assert!(decoded.is_err());
    let (state, action) = upload_step(state, UploadEvent::FitDecoded(decoded));
    assert!(matches!(action, UploadAction::PersistFile { index: 1, .. }));
    assert_eq!(state.current, 1);
}

#[test]
fn failures_skip_to_the_next_file() {
    let (state, _) = upload_step(two_files(), UploadEvent::RideInserted(Ok(ride(11))));
    let (state, action) = upload_step(state, UploadEvent::FilePersisted(Err("disk full".to_string())));
    assert!(matches!(action, UploadAction::PersistFile { index: 1, .. }));
    let (state, action) =
        upload_step(state, UploadEvent::FilePersisted(Ok(())));
    assert!(matches!(action, UploadAction::InsertRecord(_)));
    let (state, action) =
        upload_step(state, UploadEvent::RecordInserted(Err(DbError { message: "x".to_string() })));
    assert!(matches!(state.phase, UploadPhase::Finished));
    assert!(matches!(action, UploadAction::Respond(ResponseStatus::Success)));
}

#[test]
fn unreadable_fit_file_moves_on() {
    let (state, _) = upload_step(two_files(), UploadEvent::RideInserted(Ok(ride(11))));
    let (state, _) = upload_step(state, UploadEvent::FilePersisted(Ok(())));
    let (state, _) = upload_step(state, UploadEvent::RecordInserted(Ok(1)));
    let (_, action) = upload_step(state, UploadEvent::FitDecoded(Err("No such file or directory".to_string())));
    assert!(matches!(action, UploadAction::PersistFile { index: 1, .. }));
}
