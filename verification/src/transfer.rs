//! Imports and exports: what is handed to the routine that moves the data.

use vstd::prelude::*;
use crate::connection::Connection;

verus! {

/// The options of an import or an export: the server to reach, and what the
/// routine alone looks at.
pub struct TransferOptions<R> {
    pub exasol_host: String,
    pub exasol_port: u16,
    pub settings: R,
}

/// The routine that performs an import.
#[derive(Clone, Copy, Debug, PartialEq, Eq, Structural)]
pub enum ImportRoutine {
    CsvFile,
    CsvFiles,
    CsvStream,
    CsvRows,
    ParquetFile,
    ParquetFiles,
    RecordBatch,
    RecordBatches,
    ArrowIpc,
}

/// The routine that performs an export.
#[derive(Clone, Copy, Debug, PartialEq, Eq, Structural)]
pub enum ExportRoutine {
    CsvFile,
    CsvStream,
    CsvList,
    Parquet,
    RecordBatches,
    ArrowIpc,
}

/// An import of `source` into a table.
pub struct ImportJob<S, R> {
    pub routine: ImportRoutine,
    pub table: String,
    pub source: S,
    pub options: TransferOptions<R>,
}

/// An import of several sources into a table.
pub enum FilesImport<S, R> {
    /// There is one source: it is imported by itself.
    Single(ImportJob<S, R>),
    /// The sources are imported in parallel.
    Parallel(ImportJob<Vec<S>, R>),
}

/// An export of `source` to `target`.
pub struct ExportJob<S, T, R> {
    pub routine: ExportRoutine,
    pub source: S,
    pub target: T,
    pub options: TransferOptions<R>,
}

/// Why an import did not start.
#[derive(Debug, PartialEq, Eq)]
pub enum ImportError<E> {
    /// The source could not be read.
    IoError(E),
}

impl<R> TransferOptions<R> {
    /// These options with another host.
    pub fn exasol_host(self, host: &str) -> (options: TransferOptions<R>)
        ensures
            options.exasol_host@ == host@,
            options.exasol_port == self.exasol_port,
            options.settings == self.settings,
    {
        TransferOptions { exasol_host: host.to_string(), ..self }
    }

    /// These options with another port.
    pub fn exasol_port(self, port: u16) -> (options: TransferOptions<R>)
        ensures
            options == (TransferOptions { exasol_port: port, ..self }),
    {
        TransferOptions { exasol_port: port, ..self }
    }
}

impl Connection {
    /// The options with this connection's server in them, and nothing else
    /// changed.
    pub open spec fn routes<R>(
        self,
        options: TransferOptions<R>,
        routed: TransferOptions<R>,
    ) -> bool {
        &&& routed.exasol_host@ == self.opened_with().host@
        &&& routed.exasol_port == self.opened_with().port
        &&& routed.settings == options.settings
    }

    /// An import that this connection asks of a routine.
    pub open spec fn imports<S, R>(
        self,
        routine: ImportRoutine,
        table: Seq<char>,
        source: S,
        options: TransferOptions<R>,
        job: ImportJob<S, R>,
    ) -> bool {
        &&& job.routine == routine
        &&& job.table@ == table
        &&& job.source == source
        &&& self.routes(options, job.options)
    }

    /// An export that this connection asks of a routine.
    pub open spec fn exports<S, T, R>(
        self,
        routine: ExportRoutine,
        source: S,
        target: T,
        options: TransferOptions<R>,
        job: ExportJob<S, T, R>,
    ) -> bool {
        &&& job.routine == routine
        &&& job.source == source
        &&& job.target == target
        &&& self.routes(options, job.options)
    }

    /// An import of several sources: one source is imported as by itself.
    pub open spec fn imports_files<S, R>(
        self,
        single: ImportRoutine,
        parallel: ImportRoutine,
        table: Seq<char>,
        sources: Vec<S>,
        options: TransferOptions<R>,
        job: FilesImport<S, R>,
    ) -> bool {
        if sources@.len() == 1 {
            job matches FilesImport::Single(one) && self.imports(
                single,
                table,
                sources@[0],
                options,
                one,
            )
        } else {
            job matches FilesImport::Parallel(all) && self.imports(
                parallel,
                table,
                sources,
                options,
                all,
            )
        }
    }

    fn route<R>(&self, options: TransferOptions<R>) -> (routed: TransferOptions<R>)
        ensures
            self.routes(options, routed),
    {
        let params = self.params();
        options.exasol_host(params.host.as_str()).exasol_port(params.port)
    }

    fn import<S, R>(
        &self,
        routine: ImportRoutine,
        table: &str,
        source: S,
        options: TransferOptions<R>,
    ) -> (job: ImportJob<S, R>)
        ensures
            self.imports(routine, table@, source, options, job),
    {
        ImportJob { routine, table: table.to_string(), source, options: self.route(options) }
    }

    fn import_files<S, R>(
        &self,
        single: ImportRoutine,
        parallel: ImportRoutine,
        table: &str,
        sources: Vec<S>,
        options: TransferOptions<R>,
    ) -> (job: FilesImport<S, R>)
        ensures
            self.imports_files(single, parallel, table@, sources, options, job),
    {
        if sources.len() == 1 {
            let mut sources = sources;
            let source = sources.remove(0);
            FilesImport::Single(self.import(single, table, source, options))
        } else {
            FilesImport::Parallel(self.import(parallel, table, sources, options))
        }
    }

    fn export<S, T, R>(
        &self,
        routine: ExportRoutine,
        source: S,
        target: T,
        options: TransferOptions<R>,
    ) -> (job: ExportJob<S, T, R>)
        ensures
            self.exports(routine, source, target, options, job),
    {
        ExportJob { routine, source, target, options: self.route(options) }
    }

    /// Imports a CSV file.
    pub fn import_csv_from_file<P, R>(
        &self,
        table: &str,
        file_path: P,
        options: TransferOptions<R>,
    ) -> (job: ImportJob<P, R>)
        ensures
            self.imports(ImportRoutine::CsvFile, table@, file_path, options, job),
            job.routine == ImportRoutine::CsvFile,
            job.table@ == table@,
            job.source == file_path,
            job.options.exasol_host@ == self.opened_with().host@,
            job.options.exasol_port == self.opened_with().port,
            job.options.settings == options.settings,
    {
        self.import(ImportRoutine::CsvFile, table, file_path, options)
    }

    /// Imports CSV data from a stream.
    pub fn import_csv_from_stream<S, R>(
        &self,
        table: &str,
        reader: S,
        options: TransferOptions<R>,
    ) -> (job: ImportJob<S, R>)
        ensures
            self.imports(ImportRoutine::CsvStream, table@, reader, options, job),
            job.routine == ImportRoutine::CsvStream,
            job.table@ == table@,
            job.source == reader,
            job.options.exasol_host@ == self.opened_with().host@,
            job.options.exasol_port == self.opened_with().port,
            job.options.settings == options.settings,
    {
        self.import(ImportRoutine::CsvStream, table, reader, options)
    }

    /// Imports rows of field values.
    pub fn import_csv_from_iter<I, R>(
        &self,
        table: &str,
        rows: I,
        options: TransferOptions<R>,
    ) -> (job: ImportJob<I, R>)
        ensures
            self.imports(ImportRoutine::CsvRows, table@, rows, options, job),
            job.routine == ImportRoutine::CsvRows,
            job.table@ == table@,
            job.source == rows,
            job.options.exasol_host@ == self.opened_with().host@,
            job.options.exasol_port == self.opened_with().port,
            job.options.settings == options.settings,
    {
        self.import(ImportRoutine::CsvRows, table, rows, options)
    }

    /// Exports to a CSV file.
    pub fn export_csv_to_file<S, P, R>(
        &self,
        source: S,
        file_path: P,
        options: TransferOptions<R>,
    ) -> (job: ExportJob<S, P, R>)
        ensures
            self.exports(ExportRoutine::CsvFile, source, file_path, options, job),
            job.routine == ExportRoutine::CsvFile,
            job.source == source,
            job.target == file_path,
            job.options.exasol_host@ == self.opened_with().host@,
            job.options.exasol_port == self.opened_with().port,
            job.options.settings == options.settings,
    {
        self.export(ExportRoutine::CsvFile, source, file_path, options)
    }

    /// Exports to a stream, as CSV.
    pub fn export_csv_to_stream<S, W, R>(
        &self,
        source: S,
        writer: W,
        options: TransferOptions<R>,
    ) -> (job: ExportJob<S, W, R>)
        ensures
            self.exports(ExportRoutine::CsvStream, source, writer, options, job),
            job.routine == ExportRoutine::CsvStream,
            job.source == source,
            job.target == writer,
            job.options.exasol_host@ == self.opened_with().host@,
            job.options.exasol_port == self.opened_with().port,
            job.options.settings == options.settings,
    {
        self.export(ExportRoutine::CsvStream, source, writer, options)
    }

    /// Exports to a list of rows.
    pub fn export_csv_to_list<S, R>(&self, source: S, options: TransferOptions<R>) -> (job:
        ExportJob<S, (), R>)
        ensures
            self.exports(ExportRoutine::CsvList, source, (), options, job),
            job.routine == ExportRoutine::CsvList,
            job.source == source,
            job.options.exasol_host@ == self.opened_with().host@,
            job.options.exasol_port == self.opened_with().port,
            job.options.settings == options.settings,
    {
        self.export(ExportRoutine::CsvList, source, (), options)
    }

    /// Imports CSV files in parallel, and one alone as a single file.
    pub fn import_csv_from_files<P, R>(
        &self,
        table: &str,
        paths: Vec<P>,
        options: TransferOptions<R>,
    ) -> (job: FilesImport<P, R>)
        ensures
            self.imports_files(
                ImportRoutine::CsvFile,
                ImportRoutine::CsvFiles,
                table@,
                paths,
                options,
                job,
            ),
            paths@.len() == 1 ==> (job matches FilesImport::Single(one) && one.source == paths@[0]
                && one.routine == ImportRoutine::CsvFile && one.table@ == table@),
            paths@.len() != 1 ==> (job matches FilesImport::Parallel(all) && all.source@.len()
                == paths@.len() && (forall|i: int|
                0 <= i < paths@.len() ==> #[trigger] all.source@[i] == paths@[i]) && all.routine
                == ImportRoutine::CsvFiles && all.table@ == table@),
    {
        self.import_files(ImportRoutine::CsvFile, ImportRoutine::CsvFiles, table, paths, options)
    }

    /// Imports a Parquet file.
    pub fn import_from_parquet<P, R>(
        &self,
        table: &str,
        file_path: P,
        options: TransferOptions<R>,
    ) -> (job: ImportJob<P, R>)
        ensures
            self.imports(ImportRoutine::ParquetFile, table@, file_path, options, job),
            job.routine == ImportRoutine::ParquetFile,
            job.table@ == table@,
            job.source == file_path,
            job.options.exasol_host@ == self.opened_with().host@,
            job.options.exasol_port == self.opened_with().port,
            job.options.settings == options.settings,
    {
        self.import(ImportRoutine::ParquetFile, table, file_path, options)
    }

    /// Imports Parquet files in parallel, and one alone as a single file.
    pub fn import_parquet_from_files<P, R>(
        &self,
        table: &str,
        paths: Vec<P>,
        options: TransferOptions<R>,
    ) -> (job: FilesImport<P, R>)
        ensures
            self.imports_files(
                ImportRoutine::ParquetFile,
                ImportRoutine::ParquetFiles,
                table@,
                paths,
                options,
                job,
            ),
            paths@.len() == 1 ==> (job matches FilesImport::Single(one) && one.source == paths@[0]
                && one.routine == ImportRoutine::ParquetFile && one.table@ == table@),
            paths@.len() != 1 ==> (job matches FilesImport::Parallel(all) && all.source@.len()
                == paths@.len() && (forall|i: int|
                0 <= i < paths@.len() ==> #[trigger] all.source@[i] == paths@[i]) && all.routine
                == ImportRoutine::ParquetFiles && all.table@ == table@),
    {
        self.import_files(
            ImportRoutine::ParquetFile,
            ImportRoutine::ParquetFiles,
            table,
            paths,
            options,
        )
    }

    /// Exports to a Parquet file.
    pub fn export_to_parquet<S, P, R>(
        &self,
        source: S,
        file_path: P,
        options: TransferOptions<R>,
    ) -> (job: ExportJob<S, P, R>)
        ensures
            self.exports(ExportRoutine::Parquet, source, file_path, options, job),
            job.routine == ExportRoutine::Parquet,
            job.source == source,
            job.target == file_path,
            job.options.exasol_host@ == self.opened_with().host@,
            job.options.exasol_port == self.opened_with().port,
            job.options.settings == options.settings,
    {
        self.export(ExportRoutine::Parquet, source, file_path, options)
    }

    /// Imports a record batch.
    pub fn import_from_record_batch<D, R>(
        &self,
        table: &str,
        batch: D,
        options: TransferOptions<R>,
    ) -> (job: ImportJob<D, R>)
        ensures
            self.imports(ImportRoutine::RecordBatch, table@, batch, options, job),
            job.routine == ImportRoutine::RecordBatch,
            job.table@ == table@,
            job.source == batch,
            job.options.exasol_host@ == self.opened_with().host@,
            job.options.exasol_port == self.opened_with().port,
            job.options.settings == options.settings,
    {
        self.import(ImportRoutine::RecordBatch, table, batch, options)
    }

    /// Imports record batches.
    pub fn import_from_record_batches<I, R>(
        &self,
        table: &str,
        batches: I,
        options: TransferOptions<R>,
    ) -> (job: ImportJob<I, R>)
        ensures
            self.imports(ImportRoutine::RecordBatches, table@, batches, options, job),
            job.routine == ImportRoutine::RecordBatches,
            job.table@ == table@,
            job.source == batches,
            job.options.exasol_host@ == self.opened_with().host@,
            job.options.exasol_port == self.opened_with().port,
            job.options.settings == options.settings,
    {
        self.import(ImportRoutine::RecordBatches, table, batches, options)
    }

    /// Imports Arrow IPC data from a stream.
    pub fn import_from_arrow_ipc<S, R>(
        &self,
        table: &str,
        reader: S,
        options: TransferOptions<R>,
    ) -> (job: ImportJob<S, R>)
        ensures
            self.imports(ImportRoutine::ArrowIpc, table@, reader, options, job),
            job.routine == ImportRoutine::ArrowIpc,
            job.table@ == table@,
            job.source == reader,
            job.options.exasol_host@ == self.opened_with().host@,
            job.options.exasol_port == self.opened_with().port,
            job.options.settings == options.settings,
    {
        self.import(ImportRoutine::ArrowIpc, table, reader, options)
    }

    /// Imports the data of an Arrow IPC file, once it has been read into memory
    /// or could not be.
    pub fn blocking_import_from_arrow_ipc<E, R>(
        &self,
        table: &str,
        data: Result<Vec<u8>, E>,
        options: TransferOptions<R>,
    ) -> (job: Result<ImportJob<Vec<u8>, R>, ImportError<E>>)
        ensures
            match data {
                Ok(bytes) => job matches Ok(import) && self.imports(
                    ImportRoutine::ArrowIpc,
                    table@,
                    bytes,
                    options,
                    import,
                ),
                Err(error) => job == Err::<ImportJob<Vec<u8>, R>, ImportError<E>>(
                    ImportError::IoError(error),
                ),
            },
            data matches Ok(bytes) ==> (job matches Ok(import) && import.source@.len()
                == bytes@.len() && (forall|i: int|
                0 <= i < bytes@.len() ==> #[trigger] import.source@[i] == bytes@[i])
                && import.table@ == table@ && import.routine == ImportRoutine::ArrowIpc),
    {
        match data {
            Ok(bytes) => Ok(self.import_from_arrow_ipc(table, bytes, options)),
            Err(error) => Err(ImportError::IoError(error)),
        }
    }

    /// Exports to record batches.
    pub fn export_to_record_batches<S, R>(&self, source: S, options: TransferOptions<R>) -> (job:
        ExportJob<S, (), R>)
        ensures
            self.exports(ExportRoutine::RecordBatches, source, (), options, job),
            job.routine == ExportRoutine::RecordBatches,
            job.source == source,
            job.options.exasol_host@ == self.opened_with().host@,
            job.options.exasol_port == self.opened_with().port,
            job.options.settings == options.settings,
    {
        self.export(ExportRoutine::RecordBatches, source, (), options)
    }

    /// Exports to an Arrow IPC file.
    pub fn export_to_arrow_ipc<S, P, R>(
        &self,
        source: S,
        file_path: P,
        options: TransferOptions<R>,
    ) -> (job: ExportJob<S, P, R>)
        ensures
            self.exports(ExportRoutine::ArrowIpc, source, file_path, options, job),
            job.routine == ExportRoutine::ArrowIpc,
            job.source == source,
            job.target == file_path,
            job.options.exasol_host@ == self.opened_with().host@,
            job.options.exasol_port == self.opened_with().port,
            job.options.settings == options.settings,
    {
        self.export(ExportRoutine::ArrowIpc, source, file_path, options)
    }
}

/// An import goes to the server of the connection and to the table that was
/// named, with the source and the settings that were given.
pub proof fn import_keeps_what_was_given<S, R>(
    connection: Connection,
    routine: ImportRoutine,
    table: Seq<char>,
    source: S,
    options: TransferOptions<R>,
    job: ImportJob<S, R>,
)
    requires
        connection.imports(routine, table, source, options, job),
    ensures
        job.routine == routine,
        job.table@.len() == table.len(),
        forall|i: int| 0 <= i < table.len() ==> #[trigger] job.table@[i] == table[i],
        job.source == source,
        job.options.exasol_host@ == connection.opened_with().host@,
        job.options.exasol_port == connection.opened_with().port,
        job.options.settings == options.settings,
{
}

/// An export comes from the server of the connection, with the source, the
/// target and the settings that were given.
pub proof fn export_keeps_what_was_given<S, T, R>(
    connection: Connection,
    routine: ExportRoutine,
    source: S,
    target: T,
    options: TransferOptions<R>,
    job: ExportJob<S, T, R>,
)
    requires
        connection.exports(routine, source, target, options, job),
    ensures
        job.routine == routine,
        job.source == source,
        job.target == target,
        job.options.exasol_host@ == connection.opened_with().host@,
        job.options.exasol_port == connection.opened_with().port,
        job.options.settings == options.settings,
{
}

/// An import of several files imports every one of them, in their order, and
/// no other: one alone as a single file, and any other number in parallel.
pub proof fn files_import_leaves_no_file_out<S, R>(
    connection: Connection,
    single: ImportRoutine,
    parallel: ImportRoutine,
    table: Seq<char>,
    sources: Vec<S>,
    options: TransferOptions<R>,
    job: FilesImport<S, R>,
)
    requires
        connection.imports_files(single, parallel, table, sources, options, job),
    ensures
        sources@.len() == 1 <==> job is Single,
        job matches FilesImport::Single(one) ==> {
            &&& one.source == sources@[0]
            &&& one.routine == single
            &&& one.table@ == table
            &&& one.options.exasol_host@ == connection.opened_with().host@
            &&& one.options.exasol_port == connection.opened_with().port
            &&& one.options.settings == options.settings
        },
        job matches FilesImport::Parallel(all) ==> {
            &&& all.source@.len() == sources@.len()
            &&& forall|i: int| 0 <= i < sources@.len() ==> #[trigger] all.source@[i] == sources@[i]
            &&& all.routine == parallel
            &&& all.table@ == table
            &&& all.options.exasol_host@ == connection.opened_with().host@
            &&& all.options.exasol_port == connection.opened_with().port
            &&& all.options.settings == options.settings
        },
{
}

} // verus!
