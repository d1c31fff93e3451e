# memecycle

A small web service that stores bike rides and the files recorded on them
(FIT tracks, photos). This crate holds its verified core; the HTTP server
around it lives in `app/`.

`src/`:

- `models.rs` – rides, ride files, upload forms, answers and statuses.
- `routes.rs` – what each HTTP route answers, given what the database
  reported, with the laws that relate the answers.
- `upload.rs` – the upload request as a state machine: naming and
  classifying each uploaded file, saving it, recording it, and decoding
  FIT tracks; its invariant and progress measure.
- `text.rs` – decimal notation of integers, and its injectivity.
- `utils.rs`, `utils/helpers.rs` – placeholders for GeoJSON storage, and
  the FIT record type that uploads carry from decoder to writer.
- `launch.rs` – start-up settings; `schema.rs` – schema types;
  `simple.rs` – the smaller service with plain rides.

`app/` runs the Rocket server: database queries with Diesel, file
storage, reading and decoding FIT files with `fitparser`, and the loop that feeds each upload step the outcome of its
action.
