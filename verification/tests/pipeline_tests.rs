use gantt_diagram::database::column_text;
use gantt_diagram::database::export_row_from_cells;
use gantt_diagram::database::PostgreSQL;
use gantt_diagram::error::DatabaseError;
use gantt_diagram::export::ExportError;
use gantt_diagram::export::ExportStatus;
use gantt_diagram::export::Exporter;
use gantt_diagram::handlers::DataHandler;
use gantt_diagram::handlers::DatabasesHandler;
use gantt_diagram::handlers::StagesHandler;
use gantt_diagram::options::Options;
use gantt_diagram::spool::SpoolPhase;
use gantt_diagram::spool::TemporaryFile;
use gantt_diagram::transcode::ExportRow;

fn row(name: &str, start: &str, end: &str, group: &str, thread: &str) -> ExportRow {
    ExportRow {
        name: name.to_string(),
        start_time_text: start.to_string(),
        end_time_text: end.to_string(),
        group: group.to_string(),
        thread: thread.to_string(),
    }
}

fn good_cell(text: &str) -> Option<Result<String, String>> {
    Some(Ok(text.to_string()))
}

#[test]
fn spool_lifecycle() {
    let mut spool = TemporaryFile::new("./response-7.tmp".to_string());
    assert_eq!(spool.phase, SpoolPhase::Writing);
    spool.write_line("one\n");
    spool.write_line("two\n");
    spool.rewind();
    assert_eq!(spool.phase, SpoolPhase::Reading);
    assert_eq!(spool.read_all().as_str(), "one\ntwo\n");
    spool.release();
    assert_eq!(spool.phase, SpoolPhase::Closed);
    assert_eq!(spool.content, "");
}

#[test]
fn connection_failure_creates_no_spool() {
    let mut ex = Exporter::new("./response-0.tmp".to_string());
    assert!(ex.spool.is_none());
    ex.connection_failed("no route to host".to_string());
    assert_eq!(ex.status, ExportStatus::Failed);
    assert!(ex.spool.is_none());
    match ex.error {
        Some(ExportError::Database(DatabaseError::ConnectionError { message })) => {
            assert_eq!(message, "no route to host");
        }
        _ => panic!("wrong error class"),
    }
}

#[test]
fn export_happy_path_spools_lines_in_order() {
    let mut ex = Exporter::new("./response-1.tmp".to_string());
    ex.connection_ok();
    let rows = vec![
        row("A", "2020-01-01 00:00:00,000", "2020-01-01 00:00:01,000", "G", "T"),
        row("B;x", "2020-01-01 00:00:02,000", "2020-01-01 00:00:01,000", "H", "U"),
    ];
    assert!(ex.feed_all(&rows));
    ex.finish();
    assert_eq!(ex.status, ExportStatus::Finished);
    let spool = ex.spool.as_ref().unwrap();
    assert_eq!(spool.phase, SpoolPhase::Reading);
    assert_eq!(
        spool.read_all().as_str(),
        "A;1577836800000;1577836801000;G;T\nBx;1577836802000;1577836802001;H;U\n"
    );
}

#[test]
fn export_with_no_rows_serves_an_empty_body() {
    let mut ex = Exporter::new("./response-9.tmp".to_string());
    ex.connection_ok();
    let rows: Vec<ExportRow> = Vec::new();
    assert!(ex.feed_all(&rows));
    ex.finish();
    assert_eq!(ex.status, ExportStatus::Finished);
    assert_eq!(ex.spool.as_ref().unwrap().read_all().as_str(), "");
}

#[test]
fn midstream_parse_failure_releases_the_spool() {
    let mut ex = Exporter::new("./response-2.tmp".to_string());
    ex.connection_ok();
    let rows = vec![
        row("A", "2020-01-01 00:00:00,000", "2020-01-01 00:00:01,000", "G", "T"),
        row("B", "2020-01-01 00:00:02,000", "not-a-date", "H", "U"),
        row("C", "2020-01-01 00:00:03,000", "2020-01-01 00:00:04,000", "I", "V"),
    ];
    assert!(!ex.feed_all(&rows));
    assert_eq!(ex.status, ExportStatus::Failed);
    let spool = ex.spool.as_ref().unwrap();
    assert_eq!(spool.phase, SpoolPhase::Closed);
    assert_eq!(spool.content, "");
    assert!(matches!(
        ex.error,
        Some(ExportError::Database(DatabaseError::TimeParseError { .. }))
    ));
}

#[test]
fn store_failure_releases_the_spool() {
    let mut ex = Exporter::new("./response-3.tmp".to_string());
    ex.connection_ok();
    ex.store_failed(DatabaseError::query_execution_error("cursor gone".to_string()));
    assert_eq!(ex.status, ExportStatus::Failed);
    assert_eq!(ex.spool.as_ref().unwrap().phase, SpoolPhase::Closed);
    assert!(matches!(
        ex.error,
        Some(ExportError::Database(DatabaseError::QueryExecutionError { .. }))
    ));
}

#[test]
fn io_failure_releases_the_spool() {
    let mut ex = Exporter::new("./response-4.tmp".to_string());
    ex.connection_ok();
    ex.io_failed("disk full".to_string());
    assert_eq!(ex.status, ExportStatus::Failed);
    assert_eq!(ex.spool.as_ref().unwrap().phase, SpoolPhase::Closed);
    match ex.error {
        Some(ExportError::Io { message }) => assert_eq!(message, "disk full"),
        _ => panic!("wrong error class"),
    }
}

#[test]
fn fifty_requests_get_fifty_distinct_paths() {
    let mut handler = DataHandler::new();
    let mut paths: Vec<String> = Vec::new();
    let mut k = 0;
    while k < 50 {
        paths.push(handler.next_temporary_path());
        k += 1;
    }
    assert_eq!(paths[0], "./response-0.tmp");
    assert_eq!(paths[49], "./response-49.tmp");
    let mut a = 0;
    while a < 50 {
        let mut b = a + 1;
        while b < 50 {
            assert_ne!(paths[a], paths[b]);
            b += 1;
        }
        a += 1;
    }
    assert_eq!(handler.request_index, 50);
}

#[test]
fn listing_collects_names_in_order() {
    let pg = PostgreSQL::new("db.example", 5432, "user", "");
    let names = pg
        .database_names(vec![good_cell("alpha"), good_cell("beta")])
        .unwrap();
    assert_eq!(names, vec!["alpha".to_string(), "beta".to_string()]);
}

#[test]
fn listing_missing_column_fails() {
    let pg = PostgreSQL::new("db.example", 5432, "user", "");
    let r = pg.database_names(vec![good_cell("alpha"), None]);
    assert!(matches!(r, Err(DatabaseError::ColumnNotExists)));
}

#[test]
fn listing_conversion_failure_names_the_column() {
    let pg = PostgreSQL::new("db.example", 5432, "user", "");
    let r = pg.stage_names(vec![Some(Err("bad type".to_string()))]);
    match r {
        Err(DatabaseError::ConversionError { message, column }) => {
            assert_eq!(message, "bad type");
            assert_eq!(column, "maker name");
        }
        _ => panic!("wrong error class"),
    }
}

#[test]
fn row_cells_build_a_row() {
    let r = export_row_from_cells(
        good_cell("N"),
        good_cell("2020-01-01 00:00:00,000"),
        good_cell("2020-01-01 00:00:01,000"),
        good_cell("G"),
        good_cell("T"),
    )
    .unwrap();
    assert_eq!(r.name, "N");
    assert_eq!(r.start_time_text, "2020-01-01 00:00:00,000");
    assert_eq!(r.end_time_text, "2020-01-01 00:00:01,000");
    assert_eq!(r.group, "G");
    assert_eq!(r.thread, "T");
}

#[test]
fn row_cell_errors_carry_their_column() {
    let r = export_row_from_cells(None, good_cell("s"), good_cell("e"), good_cell("g"), good_cell("t"));
    assert!(matches!(r, Err(DatabaseError::ColumnNotExists)));

    let r = export_row_from_cells(
        good_cell("n"),
        Some(Err("oops".to_string())),
        good_cell("e"),
        good_cell("g"),
        good_cell("t"),
    );
    match r {
        Err(DatabaseError::ConversionError { column, .. }) => assert_eq!(column, "start tame"),
        _ => panic!("wrong error class"),
    }

    let r = export_row_from_cells(
        good_cell("n"),
        good_cell("s"),
        good_cell("e"),
        good_cell("g"),
        Some(Err("oops".to_string())),
    );
    match r {
        Err(DatabaseError::ConversionError { column, .. }) => assert_eq!(column, "thread name"),
        _ => panic!("wrong error class"),
    }
}

#[test]
fn single_cell_maps_to_its_error() {
    assert_eq!(column_text(good_cell("v"), "c").unwrap(), "v");
    assert!(matches!(
        column_text(None, "c"),
        Err(DatabaseError::ColumnNotExists)
    ));
}

#[test]
fn connection_parameters() {
    let pg = PostgreSQL::new("host1", 5433, "alice", "secret");
    assert_eq!(pg.server, "host1");
    assert_eq!(pg.port, 5433);
    assert_eq!(pg.user, "alice");
    assert_eq!(pg.password, "secret");
    assert_eq!(pg.auth_password(), Some("secret"));

    let open = PostgreSQL::new("host1", 5433, "alice", "");
    assert_eq!(open.auth_password(), None);

    assert_eq!(PostgreSQL::target_database(None), "postgres");
    assert_eq!(PostgreSQL::target_database(Some("mine")), "mine");
}

#[test]
fn error_constructors_pick_their_variant() {
    assert!(matches!(
        DatabaseError::connection_error("m".to_string()),
        DatabaseError::ConnectionError { .. }
    ));
    assert!(matches!(
        DatabaseError::query_execution_error("m".to_string()),
        DatabaseError::QueryExecutionError { .. }
    ));
    assert!(matches!(
        DatabaseError::prepare_query_error("m".to_string()),
        DatabaseError::PrepareQueryError { .. }
    ));
    assert!(matches!(
        DatabaseError::transaction_error("m".to_string()),
        DatabaseError::TransactionError { .. }
    ));
    assert!(matches!(
        DatabaseError::conversion_error("m".to_string(), "c".to_string()),
        DatabaseError::ConversionError { .. }
    ));
    assert!(matches!(
        DatabaseError::time_parse_error("m".to_string()),
        DatabaseError::TimeParseError { .. }
    ));
    assert!(matches!(
        DatabaseError::column_not_exists(),
        DatabaseError::ColumnNotExists
    ));
}

#[test]
fn errors_describe_themselves() {
    let e = DatabaseError::conversion_error("bad type".to_string(), "end time".to_string());
    assert_eq!(e.describe(), "Conversion error for column `end time`: bad type");
    assert_eq!(DatabaseError::column_not_exists().describe(), "Column does not exists");
    assert_eq!(
        DatabaseError::connection_error("refused".to_string()).describe(),
        "refused"
    );
    let io = ExportError::Io { message: "disk full".to_string() };
    assert_eq!(io.describe(), "disk full");
    let wrapped = ExportError::Database(DatabaseError::time_parse_error("bad".to_string()));
    assert_eq!(wrapped.describe(), "bad");
}

#[test]
fn handlers_and_options() {
    let _databases = DatabasesHandler::new();
    let _stages = StagesHandler::new();
    let handler = DataHandler::new();
    assert_eq!(handler.temp_dir, ".");
    assert_eq!(handler.request_index, 0);

    let options = Options::new("localhost".to_string(), 8080, "/tmp".to_string());
    assert_eq!(options.address(), "localhost");
    assert_eq!(options.port(), 8080);
    assert_eq!(options.temp_dir(), "/tmp");
}
