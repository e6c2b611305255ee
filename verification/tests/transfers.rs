use exarrow_rs::connection::Connection;
use exarrow_rs::duration::Duration;
use exarrow_rs::params::ConnectionParams;
use exarrow_rs::session::ServerInfo;
use exarrow_rs::transfer::{
    ExportRoutine, FilesImport, ImportError, ImportJob, ImportRoutine, TransferOptions,
};

fn connection() -> Connection {
    let params = ConnectionParams {
        host: "db.example".to_string(),
        port: 8563,
        username: "sys".to_string(),
        password: "secret".to_string(),
        schema: None,
        use_tls: true,
        validate_server_certificate: true,
        certificate_fingerprint: None,
        connection_timeout: Duration { secs: 30, nanos: 0 },
        query_timeout: Duration { secs: 2, nanos: 0 },
        idle_timeout: Duration { secs: 600, nanos: 0 },
    };
    let server = ServerInfo {
        session_id: "17".to_string(),
        protocol_version: 3,
        release_version: "8.0".to_string(),
        database_name: "DB1".to_string(),
        product_name: "EXASolution".to_string(),
        max_data_message_size: 4_194_304,
        time_zone: None,
    };
    Connection::from_params(params)
        .connected(Ok(()))
        .ok()
        .unwrap()
        .authenticated(Ok(server))
        .ok()
        .unwrap()
}

fn options() -> TransferOptions<&'static str> {
    TransferOptions { exasol_host: "elsewhere".to_string(), exasol_port: 1, settings: "settings" }
}

fn check(options: &TransferOptions<&'static str>) {
    assert_eq!(options.exasol_host, "db.example");
    assert_eq!(options.exasol_port, 8563);
    assert_eq!(options.settings, "settings");
}

fn check_import(job: ImportJob<i32, &'static str>, routine: ImportRoutine) {
    assert_eq!(job.routine, routine);
    assert_eq!(job.table, "T");
    assert_eq!(job.source, 9);
    check(&job.options);
}

#[test]
fn imports_go_to_the_server_of_the_connection() {
    let connection = connection();
    check_import(connection.import_csv_from_file("T", 9, options()), ImportRoutine::CsvFile);
    check_import(connection.import_csv_from_stream("T", 9, options()), ImportRoutine::CsvStream);
    check_import(connection.import_csv_from_iter("T", 9, options()), ImportRoutine::CsvRows);
    check_import(connection.import_from_parquet("T", 9, options()), ImportRoutine::ParquetFile);
    check_import(
        connection.import_from_record_batch("T", 9, options()),
        ImportRoutine::RecordBatch,
    );
    check_import(
        connection.import_from_record_batches("T", 9, options()),
        ImportRoutine::RecordBatches,
    );
    check_import(connection.import_from_arrow_ipc("T", 9, options()), ImportRoutine::ArrowIpc);
}

#[test]
fn single_file_is_imported_as_such() {
    let connection = connection();
    match connection.import_csv_from_files("T", vec![9], options()) {
        FilesImport::Single(job) => check_import(job, ImportRoutine::CsvFile),
        FilesImport::Parallel(_) => panic!("one file needs no parallel import"),
    }
    match connection.import_parquet_from_files("T", vec![9], options()) {
        FilesImport::Single(job) => check_import(job, ImportRoutine::ParquetFile),
        FilesImport::Parallel(_) => panic!("one file needs no parallel import"),
    }
}

#[test]
fn files_are_imported_in_parallel() {
    let connection = connection();
    match connection.import_csv_from_files("T", vec![9, 10], options()) {
        FilesImport::Parallel(job) => {
            assert_eq!(job.routine, ImportRoutine::CsvFiles);
            assert_eq!(job.table, "T");
            assert_eq!(job.source, vec![9, 10]);
            check(&job.options);
        }
        FilesImport::Single(_) => panic!("two files are imported in parallel"),
    }
    match connection.import_parquet_from_files("T", Vec::<i32>::new(), options()) {
        FilesImport::Parallel(job) => {
            assert_eq!(job.routine, ImportRoutine::ParquetFiles);
            assert!(job.source.is_empty());
            check(&job.options);
        }
        FilesImport::Single(_) => panic!("there is no file"),
    }
}

#[test]
fn exports_come_from_the_server_of_the_connection() {
    let connection = connection();
    let job = connection.export_csv_to_file("S", 9, options());
    assert_eq!((job.routine, job.source, job.target), (ExportRoutine::CsvFile, "S", 9));
    check(&job.options);
    let job = connection.export_csv_to_stream("S", 9, options());
    assert_eq!((job.routine, job.source, job.target), (ExportRoutine::CsvStream, "S", 9));
    check(&job.options);
    let job = connection.export_csv_to_list("S", options());
    assert_eq!((job.routine, job.source), (ExportRoutine::CsvList, "S"));
    check(&job.options);
    let job = connection.export_to_parquet("S", 9, options());
    assert_eq!((job.routine, job.source, job.target), (ExportRoutine::Parquet, "S", 9));
    check(&job.options);
    let job = connection.export_to_record_batches("S", options());
    assert_eq!((job.routine, job.source), (ExportRoutine::RecordBatches, "S"));
    check(&job.options);
    let job = connection.export_to_arrow_ipc("S", 9, options());
    assert_eq!((job.routine, job.source, job.target), (ExportRoutine::ArrowIpc, "S", 9));
    check(&job.options);
}

#[test]
fn test_connection_has_blocking_import_arrow_ipc() {
    let connection = connection();
    let data: Result<Vec<u8>, &str> = Ok(vec![9, 8, 7]);
    let job = connection.blocking_import_from_arrow_ipc("T", data, options()).ok().unwrap();
    assert_eq!(job.routine, ImportRoutine::ArrowIpc);
    assert_eq!(job.table, "T");
    assert_eq!(job.source, vec![9, 8, 7]);
    check(&job.options);

    let missing: Result<Vec<u8>, &str> = Err("not found");
    let job = connection.blocking_import_from_arrow_ipc("T", missing, options());
    assert_eq!(job.err(), Some(ImportError::IoError("not found")));
}

#[test]
fn record_batch_passes_through_an_import() {
    let schema = arrow::datatypes::Schema::empty();
    let batch = arrow::array::RecordBatch::new_empty(std::sync::Arc::new(schema));
    let job = connection().import_from_record_batch("T", &batch, options());
    assert_eq!(job.source, &batch);
    check(&job.options);
}
