use vstd::prelude::*;

use crate::path::{extension, extension_range};
use crate::text::{ascii_lower, lowercase_range_is, same_text, trim, trim_str};

verus! {

/// The database engines that the form offers.
#[derive(Clone, Copy, Debug, PartialEq, Eq, Structural)]
pub enum DbBackend {
    Sqlite,
    MySql,
    Db2,
    PostgreSql,
    MariaDb,
    MsSql,
    Redis,
    Aws,
    Azure,
    GoogleCloud,
    Apache,
}

impl DbBackend {
    /// The label under which the backend is shown and parsed.
    pub open spec fn label(self) -> Seq<char> {
        match self {
            DbBackend::Sqlite => "SQLite"@,
            DbBackend::MySql => "MySQL"@,
            DbBackend::Db2 => "DB2"@,
            DbBackend::PostgreSql => "Postgresql"@,
            DbBackend::MariaDb => "MariaDB"@,
            DbBackend::MsSql => "MSSQL"@,
            DbBackend::Redis => "Redis"@,
            DbBackend::Aws => "AWS"@,
            DbBackend::Azure => "Azure"@,
            DbBackend::GoogleCloud => "Google Cloud"@,
            DbBackend::Apache => "Apache"@,
        }
    }

    /// The backend whose label is exactly `s`, if any.
    pub open spec fn spec_from_label(s: Seq<char>) -> Option<DbBackend> {
        if s == "SQLite"@ {
            Some(DbBackend::Sqlite)
        } else if s == "MySQL"@ {
            Some(DbBackend::MySql)
        } else if s == "DB2"@ {
            Some(DbBackend::Db2)
        } else if s == "Postgresql"@ {
            Some(DbBackend::PostgreSql)
        } else if s == "MariaDB"@ {
            Some(DbBackend::MariaDb)
        } else if s == "MSSQL"@ {
            Some(DbBackend::MsSql)
        } else if s == "Redis"@ {
            Some(DbBackend::Redis)
        } else if s == "AWS"@ {
            Some(DbBackend::Aws)
        } else if s == "Azure"@ {
            Some(DbBackend::Azure)
        } else if s == "Google Cloud"@ {
            Some(DbBackend::GoogleCloud)
        } else if s == "Apache"@ {
            Some(DbBackend::Apache)
        } else {
            None
        }
    }

    /// Parses a label, matching case and spelling exactly.
    pub fn from_label(label: &str) -> (r: Option<DbBackend>)
        ensures
            r == DbBackend::spec_from_label(label@),
    {
        if same_text(label, "SQLite") {
            Some(DbBackend::Sqlite)
        } else if same_text(label, "MySQL") {
            Some(DbBackend::MySql)
        } else if same_text(label, "DB2") {
            Some(DbBackend::Db2)
        } else if same_text(label, "Postgresql") {
            Some(DbBackend::PostgreSql)
        } else if same_text(label, "MariaDB") {
            Some(DbBackend::MariaDb)
        } else if same_text(label, "MSSQL") {
            Some(DbBackend::MsSql)
        } else if same_text(label, "Redis") {
            Some(DbBackend::Redis)
        } else if same_text(label, "AWS") {
            Some(DbBackend::Aws)
        } else if same_text(label, "Azure") {
            Some(DbBackend::Azure)
        } else if same_text(label, "Google Cloud") {
            Some(DbBackend::GoogleCloud)
        } else if same_text(label, "Apache") {
            Some(DbBackend::Apache)
        } else {
            None
        }
    }

    /// Returns the backend's label.
    pub fn to_label(&self) -> (r: String)
        ensures
            r@ == self.label(),
    {
        let s = match self {
            DbBackend::Sqlite => "SQLite",
            DbBackend::MySql => "MySQL",
            DbBackend::Db2 => "DB2",
            DbBackend::PostgreSql => "Postgresql",
            DbBackend::MariaDb => "MariaDB",
            DbBackend::MsSql => "MSSQL",
            DbBackend::Redis => "Redis",
            DbBackend::Aws => "AWS",
            DbBackend::Azure => "Azure",
            DbBackend::GoogleCloud => "Google Cloud",
            DbBackend::Apache => "Apache",
        };
        String::from_str(s)
    }
}

impl Default for DbBackend {
    fn default() -> (r: DbBackend)
        ensures
            r == DbBackend::Sqlite,
    {
        DbBackend::Sqlite
    }
}

/// The log levels that the form offers.
#[derive(Clone, Copy, Debug, PartialEq, Eq, Structural)]
pub enum LogLevel {
    Error,
    Warn,
    Info,
    Debug,
    Trace,
}

impl LogLevel {
    /// The label under which the level is shown and parsed.
    pub open spec fn label(self) -> Seq<char> {
        match self {
            LogLevel::Error => "ERROR"@,
            LogLevel::Warn => "WARN"@,
            LogLevel::Info => "INFO"@,
            LogLevel::Debug => "DEBUG"@,
            LogLevel::Trace => "TRACE"@,
        }
    }

    /// The level whose label is exactly `s`, if any.
    pub open spec fn spec_from_label(s: Seq<char>) -> Option<LogLevel> {
        if s == "ERROR"@ {
            Some(LogLevel::Error)
        } else if s == "WARN"@ {
            Some(LogLevel::Warn)
        } else if s == "INFO"@ {
            Some(LogLevel::Info)
        } else if s == "DEBUG"@ {
            Some(LogLevel::Debug)
        } else if s == "TRACE"@ {
            Some(LogLevel::Trace)
        } else {
            None
        }
    }

    /// Parses a label, matching case and spelling exactly.
    pub fn from_label(label: &str) -> (r: Option<LogLevel>)
        ensures
            r == LogLevel::spec_from_label(label@),
    {
        if same_text(label, "ERROR") {
            Some(LogLevel::Error)
        } else if same_text(label, "WARN") {
            Some(LogLevel::Warn)
        } else if same_text(label, "INFO") {
            Some(LogLevel::Info)
        } else if same_text(label, "DEBUG") {
            Some(LogLevel::Debug)
        } else if same_text(label, "TRACE") {
            Some(LogLevel::Trace)
        } else {
            None
        }
    }

    /// Returns the level's label.
    pub fn to_label(&self) -> (r: String)
        ensures
            r@ == self.label(),
    {
        let s = match self {
            LogLevel::Error => "ERROR",
            LogLevel::Warn => "WARN",
            LogLevel::Info => "INFO",
            LogLevel::Debug => "DEBUG",
            LogLevel::Trace => "TRACE",
        };
        String::from_str(s)
    }
}

impl Default for LogLevel {
    fn default() -> (r: LogLevel)
        ensures
            r == LogLevel::Info,
    {
        LogLevel::Info
    }
}

/// Turning a backend into its label and parsing that label gives the backend back.
pub proof fn lemma_db_backend_label_round_trip(b: DbBackend)
    ensures
        DbBackend::spec_from_label(b.label()) == Some(b),
{
    reveal_strlit("SQLite");
    reveal_strlit("MySQL");
    reveal_strlit("DB2");
    reveal_strlit("Postgresql");
    reveal_strlit("MariaDB");
    reveal_strlit("MSSQL");
    reveal_strlit("Redis");
    reveal_strlit("AWS");
    reveal_strlit("Azure");
    reveal_strlit("Google Cloud");
    reveal_strlit("Apache");
    assert("SQLite"@[0] == 'S' && "MySQL"@[0] == 'M' && "DB2"@[0] == 'D' && "Postgresql"@[0] == 'P'
        && "MariaDB"@[0] == 'M' && "MSSQL"@[0] == 'M' && "Redis"@[0] == 'R' && "AWS"@[0] == 'A'
        && "Azure"@[0] == 'A' && "Google Cloud"@[0] == 'G' && "Apache"@[0] == 'A');
    assert("MySQL"@[1] == 'y' && "MSSQL"@[1] == 'S');
    assert("MySQL"@.len() == 5 && "MariaDB"@.len() == 7 && "MSSQL"@.len() == 5);
    assert("AWS"@.len() == 3 && "Azure"@.len() == 5 && "Apache"@.len() == 6);
}

/// Turning a level into its label and parsing that label gives the level back.
pub proof fn lemma_log_level_label_round_trip(l: LogLevel)
    ensures
        LogLevel::spec_from_label(l.label()) == Some(l),
{
    reveal_strlit("ERROR");
    reveal_strlit("WARN");
    reveal_strlit("INFO");
    reveal_strlit("DEBUG");
    reveal_strlit("TRACE");
    assert("ERROR"@[0] == 'E' && "WARN"@[0] == 'W' && "INFO"@[0] == 'I' && "DEBUG"@[0] == 'D'
        && "TRACE"@[0] == 'T');
}

/// What a source file holds, judged by its extension.
#[derive(Clone, Copy, Debug, PartialEq, Eq, Structural)]
pub enum SourceKind {
    Excel,
    Csv,
    Other,
}

/// What a database file is, judged by its extension.
#[derive(Clone, Copy, Debug, PartialEq, Eq, Structural)]
pub enum DatabaseKind {
    Sqlite,
    Other,
}

/// True when `e`, in ASCII lowercase, is a spreadsheet extension.
pub open spec fn is_excel_extension(e: Seq<char>) -> bool {
    let l = ascii_lower(e);
    l == "xlsx"@ || l == "xlsm"@ || l == "xlsb"@ || l == "xls"@
}

/// True when `e`, in ASCII lowercase, is the CSV extension.
pub open spec fn is_csv_extension(e: Seq<char>) -> bool {
    ascii_lower(e) == "csv"@
}

/// True when `e`, in ASCII lowercase, is a SQLite extension (`sqlite3` is not one).
pub open spec fn is_sqlite_extension(e: Seq<char>) -> bool {
    let l = ascii_lower(e);
    l == "db"@ || l == "db3"@ || l == "sqlite"@
}

/// The kind of the source file at `path`.
pub open spec fn source_kind(path: Seq<char>) -> SourceKind {
    match extension(path) {
        Some(e) => if is_excel_extension(e) {
            SourceKind::Excel
        } else if is_csv_extension(e) {
            SourceKind::Csv
        } else {
            SourceKind::Other
        },
        None => SourceKind::Other,
    }
}

/// The kind of the database file at `path`.
pub open spec fn database_kind(path: Seq<char>) -> DatabaseKind {
    match extension(path) {
        Some(e) => if is_sqlite_extension(e) {
            DatabaseKind::Sqlite
        } else {
            DatabaseKind::Other
        },
        None => DatabaseKind::Other,
    }
}

/// Classifies a source file by its extension, ignoring ASCII case.
pub fn classify_source(path: &str) -> (r: SourceKind)
    ensures
        r == source_kind(path@),
{
    match extension_range(path) {
        Some((a, b)) => {
            if lowercase_range_is(path, a, b, "xlsx") || lowercase_range_is(path, a, b, "xlsm")
                || lowercase_range_is(path, a, b, "xlsb") || lowercase_range_is(path, a, b, "xls") {
                SourceKind::Excel
            } else if lowercase_range_is(path, a, b, "csv") {
                SourceKind::Csv
            } else {
                SourceKind::Other
            }
        },
        None => SourceKind::Other,
    }
}

/// Classifies a database file by its extension, ignoring ASCII case.
pub fn classify_database(path: &str) -> (r: DatabaseKind)
    ensures
        r == database_kind(path@),
{
    match extension_range(path) {
        Some((a, b)) => {
            if lowercase_range_is(path, a, b, "db") || lowercase_range_is(path, a, b, "db3")
                || lowercase_range_is(path, a, b, "sqlite") {
                DatabaseKind::Sqlite
            } else {
                DatabaseKind::Other
            }
        },
        None => DatabaseKind::Other,
    }
}

/// The values collected from the file selection form.
#[derive(Clone, Debug)]
pub struct FileFormModel {
    pub source_file: String,
    pub database_file: String,
    pub log_directory: String,
    pub db_backend: DbBackend,
    pub log_level: LogLevel,
    pub selected_sheet: Option<String>,
    pub log_stdout: bool,
    pub has_headers: bool,
}

/// True when a sheet is chosen and its name is more than white space.
pub open spec fn sheet_chosen(sheet: Option<String>) -> bool {
    match sheet {
        Some(name) => trim(name@).len() > 0,
        None => false,
    }
}

/// The problems that keep `m` from being submitted, in the order they are reported.
pub open spec fn submit_errors(m: FileFormModel) -> Seq<Seq<char>> {
    (if m.source_file@.len() == 0 {
        seq!["Source file is required."@]
    } else {
        seq![]
    }) + (if m.database_file@.len() == 0 {
        seq!["Database file is required."@]
    } else {
        seq![]
    }) + (if source_kind(m.source_file@) == SourceKind::Excel && !sheet_chosen(m.selected_sheet) {
        seq!["Sheet selection is required for Excel sources."@]
    } else {
        seq![]
    })
}

impl FileFormModel {
    /// True when the source file has a spreadsheet extension.
    pub fn is_excel(&self) -> (r: bool)
        ensures
            r == (source_kind(self.source_file@) == SourceKind::Excel),
    {
        classify_source(self.source_file.as_str()) == SourceKind::Excel
    }

    /// True when the source file has the CSV extension.
    pub fn is_csv(&self) -> (r: bool)
        ensures
            r == (source_kind(self.source_file@) == SourceKind::Csv),
    {
        classify_source(self.source_file.as_str()) == SourceKind::Csv
    }

    /// True when the database file has a SQLite extension.
    pub fn is_sqlite(&self) -> (r: bool)
        ensures
            r == (database_kind(self.database_file@) == DatabaseKind::Sqlite),
    {
        classify_database(self.database_file.as_str()) == DatabaseKind::Sqlite
    }

    /// Checks that the model holds everything a submission needs, and
    /// reports every problem found.
    pub fn validate_for_submit(&self) -> (r: Result<(), Vec<String>>)
        ensures
            match r {
                Ok(()) => submit_errors(*self).len() == 0,
                Err(errors) => submit_errors(*self).len() > 0 && errors.deep_view()
                    == submit_errors(*self),
            },
    {
        let mut errors: Vec<String> = Vec::new();
        if self.source_file.as_str().is_empty() {
            errors.push(String::from_str("Source file is required."));
        }
        if self.database_file.as_str().is_empty() {
            errors.push(String::from_str("Database file is required."));
        }
        let sheet_given = match &self.selected_sheet {
            Some(name) => !trim_str(name.as_str()).is_empty(),
            None => false,
        };
        if self.is_excel() && !sheet_given {
            errors.push(String::from_str("Sheet selection is required for Excel sources."));
        }
        proof {
            assert(errors.deep_view() =~= submit_errors(*self));
        }
        if errors.len() == 0 {
            Ok(())
        } else {
            Err(errors)
        }
    }

    /// Builds a model from raw form values: paths are trimmed, and a label
    /// that names no backend or level falls back to the default.
    pub fn from_inputs(
        source_file: &str,
        database_file: &str,
        log_directory: &str,
        db_backend: Option<&str>,
        log_level: Option<&str>,
        selected_sheet: Option<&str>,
        log_stdout: bool,
        has_headers: bool,
    ) -> (r: FileFormModel)
        ensures
            r.source_file@ == trim(source_file@),
            r.database_file@ == trim(database_file@),
            r.log_directory@ == trim(log_directory@),
            r.db_backend == (match db_backend {
                Some(l) => match DbBackend::spec_from_label(l@) {
                    Some(b) => b,
                    None => DbBackend::Sqlite,
                },
                None => DbBackend::Sqlite,
            }),
            r.log_level == (match log_level {
                Some(l) => match LogLevel::spec_from_label(l@) {
                    Some(v) => v,
                    None => LogLevel::Info,
                },
                None => LogLevel::Info,
            }),
            match selected_sheet {
                Some(name) => r.selected_sheet is Some && r.selected_sheet->0@ == name@,
                None => r.selected_sheet is None,
            },
            r.log_stdout == log_stdout,
            r.has_headers == has_headers,
    {
        let backend = match db_backend {
            Some(l) => match DbBackend::from_label(l) {
                Some(b) => b,
                None => DbBackend::default(),
            },
            None => DbBackend::default(),
        };
        let level = match log_level {
            Some(l) => match LogLevel::from_label(l) {
                Some(v) => v,
                None => LogLevel::default(),
            },
            None => LogLevel::default(),
        };
        let sheet = match selected_sheet {
            Some(name) => Some(String::from_str(name)),
            None => None,
        };
        FileFormModel {
            source_file: String::from_str(trim_str(source_file)),
            database_file: String::from_str(trim_str(database_file)),
            log_directory: String::from_str(trim_str(log_directory)),
            db_backend: backend,
            log_level: level,
            selected_sheet: sheet,
            log_stdout,
            has_headers,
        }
    }

    /// A readable summary of the model, one field per line.
    pub fn to_string(&self) -> (r: String)
        ensures
            r@ == display_text(*self),
    {
        let mut s = String::from_str("Source file:   ");
        s.append(self.source_file.as_str());
        s.append("\n");
        s.append("Database:      ");
        s.append(self.database_file.as_str());
        s.append("\n");
        s.append("Log folder:    ");
        s.append(self.log_directory.as_str());
        s.append("\n");
        s.append("DB Backend:    ");
        let backend = self.db_backend.to_label();
        s.append(backend.as_str());
        s.append("\n");
        s.append("Log Level:     ");
        let level = self.log_level.to_label();
        s.append(level.as_str());
        s.append("\n");
        s.append("Sheet:         ");
        match &self.selected_sheet {
            Some(name) => s.append(name.as_str()),
            None => s.append("(none)"),
        }
        s.append("\n");
        s.append("Log to stdout: ");
        s.append(flag_str(self.log_stdout));
        s.append("\n");
        s.append("Has headers:   ");
        s.append(flag_str(self.has_headers));
        proof {
            assert(s@ =~= display_text(*self));
        }
        s
    }
}

impl Default for FileFormModel {
    fn default() -> (r: FileFormModel)
        ensures
            r.source_file@.len() == 0,
            r.database_file@.len() == 0,
            r.log_directory@.len() == 0,
            r.db_backend == DbBackend::Sqlite,
            r.log_level == LogLevel::Info,
            r.selected_sheet is None,
            !r.log_stdout,
            !r.has_headers,
    {
        FileFormModel {
            source_file: String::new(),
            database_file: String::new(),
            log_directory: String::new(),
            db_backend: DbBackend::default(),
            log_level: LogLevel::default(),
            selected_sheet: None,
            log_stdout: false,
            has_headers: false,
        }
    }
}

/// How a flag is written in the summary.
pub open spec fn flag_text(b: bool) -> Seq<char> {
    if b {
        "true"@
    } else {
        "false"@
    }
}

fn flag_str(b: bool) -> (r: &'static str)
    ensures
        r@ == flag_text(b),
{
    if b {
        "true"
    } else {
        "false"
    }
}

/// The summary that `FileFormModel::to_string` gives.
pub open spec fn display_text(m: FileFormModel) -> Seq<char> {
    let sheet = match m.selected_sheet {
        Some(name) => name@,
        None => "(none)"@,
    };
    "Source file:   "@ + m.source_file@ + "\n"@
        + "Database:      "@ + m.database_file@ + "\n"@
        + "Log folder:    "@ + m.log_directory@ + "\n"@
        + "DB Backend:    "@ + m.db_backend.label() + "\n"@
        + "Log Level:     "@ + m.log_level.label() + "\n"@
        + "Sheet:         "@ + sheet + "\n"@
        + "Log to stdout: "@ + flag_text(m.log_stdout) + "\n"@
        + "Has headers:   "@ + flag_text(m.has_headers)
}

/// The sheets offered for a source path: a fixed list for spreadsheets,
/// none for anything else.
pub open spec fn sheet_options_of(source: Seq<char>) -> Seq<Seq<char>> {
    if source_kind(trim(source)) == SourceKind::Excel {
        seq!["Sheet1"@, "Sheet2"@, "Sheet3"@]
    } else {
        seq![]
    }
}

/// Lists the sheets to offer for the (untrimmed) source path `source`.
pub fn sheet_options(source: &str) -> (r: Vec<String>)
    ensures
        r.deep_view() == sheet_options_of(source@),
{
    let mut options: Vec<String> = Vec::new();
    let path = trim_str(source);
    if !path.is_empty() && classify_source(path) == SourceKind::Excel {
        options.push(String::from_str("Sheet1"));
        options.push(String::from_str("Sheet2"));
        options.push(String::from_str("Sheet3"));
    }
    proof {
        if path@.len() == 0 {
            assert(extension(path@) is None) by {
                assert(crate::path::strip_trailing(path@) == path@);
            }
        }
        assert(options.deep_view() =~= sheet_options_of(source@));
    }
    options
}

/// An empty path has no extension, so it is neither a spreadsheet, a CSV
/// file nor a SQLite database.
pub proof fn lemma_empty_path_is_other()
    ensures
        source_kind(Seq::<char>::empty()) == SourceKind::Other,
        database_kind(Seq::<char>::empty()) == DatabaseKind::Other,
{
    let e = Seq::<char>::empty();
    assert(crate::path::strip_trailing(e) == e);
    assert(crate::path::file_name(e) =~= e);
}

/// A model can be submitted exactly when both paths are given and, for a
/// spreadsheet source, a sheet is chosen.
pub proof fn lemma_submittable(m: FileFormModel)
    ensures
        (submit_errors(m).len() == 0) == (m.source_file@.len() > 0 && m.database_file@.len() > 0
            && (source_kind(m.source_file@) == SourceKind::Excel ==> sheet_chosen(
            m.selected_sheet,
        ))),
{
}

} // verus!
