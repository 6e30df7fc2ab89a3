//! The logic behind two desktop demos: a file selection form (what kind of
//! file a path names, and whether the form can be submitted) and a biorhythm
//! chart (birth date checks, day counts and the phase of each cycle).

pub mod biorhythm;
pub mod file_form_model;
pub mod path;
pub mod text;

pub use biorhythm::{
    cycle_phase, days_between, days_between_dates, days_in_month, reference_date, sample_series,
    validate_date, validate_date_fields, CalendarDate, Cycle, DaySample, CHART_DAYS,
};
pub use file_form_model::{
    classify_database, classify_source, sheet_options, DatabaseKind, DbBackend, FileFormModel,
    LogLevel, SourceKind,
};
