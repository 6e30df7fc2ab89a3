use form_biorhythm::{sheet_options, DbBackend, FileFormModel, LogLevel};

#[test]
fn empty_record_reports_source_then_database() {
    let model = FileFormModel::default();
    let errors = model.validate_for_submit().unwrap_err();
    assert_eq!(
        errors,
        vec![
            "Source file is required.".to_string(),
            "Database file is required.".to_string()
        ]
    );
}

#[test]
fn excel_without_sheet_reports_only_the_sheet() {
    let model = FileFormModel {
        source_file: String::from("input.xlsx"),
        database_file: String::from("app.db"),
        ..FileFormModel::default()
    };
    assert_eq!(
        model.validate_for_submit().unwrap_err(),
        vec!["Sheet selection is required for Excel sources.".to_string()]
    );
    let with_sheet = FileFormModel {
        selected_sheet: Some("Sheet1".to_string()),
        ..model
    };
    assert_eq!(with_sheet.validate_for_submit(), Ok(()));
}

#[test]
fn blank_sheet_name_counts_as_missing() {
    let model = FileFormModel {
        source_file: String::from("input.xls"),
        database_file: String::from("app.db"),
        selected_sheet: Some(" \t\u{3000} ".to_string()),
        ..FileFormModel::default()
    };
    assert_eq!(
        model.validate_for_submit().unwrap_err(),
        vec!["Sheet selection is required for Excel sources.".to_string()]
    );
}

#[test]
fn csv_without_sheet_is_submittable() {
    let model = FileFormModel {
        source_file: String::from("input.csv"),
        database_file: String::from("app.db"),
        selected_sheet: None,
        ..FileFormModel::default()
    };
    assert_eq!(model.validate_for_submit(), Ok(()));
}

#[test]
fn all_three_rules_report_in_order() {
    let model = FileFormModel {
        source_file: String::from("input.xlsx"),
        ..FileFormModel::default()
    };
    assert_eq!(
        model.validate_for_submit().unwrap_err(),
        vec![
            "Database file is required.".to_string(),
            "Sheet selection is required for Excel sources.".to_string()
        ]
    );
}

#[test]
fn summary_lists_every_field() {
    let model = FileFormModel {
        source_file: String::from("data.xlsx"),
        database_file: String::from("app.db"),
        log_directory: String::from("logs"),
        db_backend: DbBackend::GoogleCloud,
        log_level: LogLevel::Trace,
        selected_sheet: None,
        log_stdout: false,
        has_headers: true,
    };
    assert_eq!(
        model.to_string(),
        "Source file:   data.xlsx\nDatabase:      app.db\nLog folder:    logs\n\
         DB Backend:    Google Cloud\nLog Level:     TRACE\nSheet:         (none)\n\
         Log to stdout: false\nHas headers:   true"
    );
}

#[test]
fn from_inputs_trims_paths_and_falls_back_to_defaults() {
    let model = FileFormModel::from_inputs(
        "  input.xlsx \n",
        "\tapp.db",
        "   ",
        Some("not-a-backend"),
        None,
        Some(" Sheet2 "),
        true,
        false,
    );
    assert_eq!(model.source_file, "input.xlsx");
    assert_eq!(model.database_file, "app.db");
    assert_eq!(model.log_directory, "");
    assert_eq!(model.db_backend, DbBackend::Sqlite);
    assert_eq!(model.log_level, LogLevel::Info);
    assert_eq!(model.selected_sheet, Some(" Sheet2 ".to_string()));
    assert!(model.log_stdout);
    assert!(!model.has_headers);
    assert_eq!(model.validate_for_submit(), Ok(()));
}

#[test]
fn from_inputs_reads_known_labels() {
    let model = FileFormModel::from_inputs(
        "a.csv",
        "b.db",
        "logs",
        Some("Postgresql"),
        Some("WARN"),
        None,
        false,
        true,
    );
    assert_eq!(model.db_backend, DbBackend::PostgreSql);
    assert_eq!(model.log_level, LogLevel::Warn);
    assert_eq!(model.log_directory, "logs");
    assert_eq!(model.selected_sheet, None);
}

#[test]
fn labels_round_trip() {
    let backends = [
        DbBackend::Sqlite,
        DbBackend::MySql,
        DbBackend::Db2,
        DbBackend::PostgreSql,
        DbBackend::MariaDb,
        DbBackend::MsSql,
        DbBackend::Redis,
        DbBackend::Aws,
        DbBackend::Azure,
        DbBackend::GoogleCloud,
        DbBackend::Apache,
    ];
    for b in backends {
        assert_eq!(DbBackend::from_label(&b.to_label()), Some(b));
    }
    let levels = [
        LogLevel::Error,
        LogLevel::Warn,
        LogLevel::Info,
        LogLevel::Debug,
        LogLevel::Trace,
    ];
    for l in levels {
        assert_eq!(LogLevel::from_label(&l.to_label()), Some(l));
    }
    assert_eq!(DbBackend::Aws.to_label(), "AWS");
    assert_eq!(LogLevel::Debug.to_label(), "DEBUG");
}

#[test]
fn labels_match_case_exactly() {
    assert_eq!(DbBackend::from_label("mysql"), None);
    assert_eq!(DbBackend::from_label("PostgreSQL"), None);
    assert_eq!(DbBackend::from_label("Google Cloud"), Some(DbBackend::GoogleCloud));
    assert_eq!(LogLevel::from_label("info"), None);
    assert_eq!(LogLevel::from_label(""), None);
}

#[test]
fn defaults_are_sqlite_and_info() {
    assert_eq!(DbBackend::default(), DbBackend::Sqlite);
    assert_eq!(LogLevel::default(), LogLevel::Info);
}

#[test]
fn sheet_options_only_for_spreadsheets() {
    assert_eq!(
        sheet_options("  book.xlsx "),
        vec!["Sheet1".to_string(), "Sheet2".to_string(), "Sheet3".to_string()]
    );
    assert!(sheet_options("data.csv").is_empty());
    assert!(sheet_options("   ").is_empty());
}
