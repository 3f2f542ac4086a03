//! The options of reading and writing a file of the columnar format.
//!
//! The engine reads and writes the file; what is decided here is what it is
//! asked to do.

use crate::engine::{frame_columns, frame_height, head_of};
use crate::schema::is_head_of;
use crate::text::texts;
use polars::prelude::DataFrame;
use vstd::prelude::*;
use vstd::string::StringExecFns;

verus! {

/// The unit over which a read is parallelized.
#[derive(Clone, Copy, Debug, PartialEq, Eq, Structural)]
pub enum ParallelStrategy {
    /// Nothing is read in parallel.
    Sequential,
    /// One task for each column.
    Columns,
    /// One task for each row group.
    RowGroups,
    /// The predicates are evaluated first, then columns and row groups are
    /// read in parallel without the rows that fail them.
    Prefiltered,
    /// The engine chooses.
    Auto,
}

/// The compression of a written file, with the level where the algorithm has
/// levels; `None` stands for the algorithm's usual level.
#[derive(Clone, Copy, Debug, PartialEq, Eq, Structural)]
pub enum ParquetCompression {
    Uncompressed,
    Snappy,
    Gzip(Option<u8>),
    Lzo,
    Brotli(Option<u32>),
    Zstd(Option<i32>),
    Lz4Raw,
}

/// Which statistics are written with each column.
#[derive(Clone, Copy, Debug, PartialEq, Eq, Structural)]
pub struct StatisticsOptions {
    pub min_value: bool,
    pub max_value: bool,
    pub distinct_count: bool,
    pub null_count: bool,
}

impl Default for StatisticsOptions {
    /// Smallest and largest value and the number of absent values are
    /// written, the number of distinct values is not.
    fn default() -> (options: StatisticsOptions)
        ensures
            options == (StatisticsOptions {
                min_value: true,
                max_value: true,
                distinct_count: false,
                null_count: true,
            }),
    {
        StatisticsOptions {
            min_value: true,
            max_value: true,
            distinct_count: false,
            null_count: true,
        }
    }
}

/// What to read of a file: which columns, how many rows, and how.
pub struct ParquetReader {
    path: String,
    columns: Option<Vec<String>>,
    n_rows: Option<usize>,
    parallel: ParallelStrategy,
}

impl ParquetReader {
    /// The path of the file.
    pub closed spec fn path(&self) -> Seq<char> {
        self.path@
    }

    /// The names of the columns to read, in order; `None` stands for all.
    pub closed spec fn projection(&self) -> Option<Seq<Seq<char>>> {
        match self.columns {
            Some(columns) => Some(texts(columns@)),
            None => None,
        }
    }

    /// The largest number of rows to read; `None` stands for no limit.
    pub closed spec fn row_limit(&self) -> Option<usize> {
        self.n_rows
    }

    /// The unit over which the read is parallelized.
    pub closed spec fn parallel(&self) -> ParallelStrategy {
        self.parallel
    }

    /// Reads all columns and all rows of the file at `path`, and lets the
    /// engine choose how to parallelize.
    pub fn new(path: &str) -> (reader: ParquetReader)
        ensures
            reader.path() == path@,
            reader.projection() is None,
            reader.row_limit() is None,
            reader.parallel() == ParallelStrategy::Auto,
    {
        ParquetReader {
            path: String::from_str(path),
            columns: None,
            n_rows: None,
            parallel: ParallelStrategy::Auto,
        }
    }

    /// Reads only the columns called `columns`, in that order.
    pub fn with_columns(self, columns: Vec<String>) -> (reader: ParquetReader)
        ensures
            reader.projection() == Some(texts(columns@)),
            reader.path() == self.path(),
            reader.row_limit() == self.row_limit(),
            reader.parallel() == self.parallel(),
    {
        ParquetReader {
            path: self.path,
            columns: Some(columns),
            n_rows: self.n_rows,
            parallel: self.parallel,
        }
    }

    /// Reads at most `n` rows.
    pub fn with_n_rows(self, n: usize) -> (reader: ParquetReader)
        ensures
            reader.row_limit() == Some(n),
            reader.path() == self.path(),
            reader.projection() == self.projection(),
            reader.parallel() == self.parallel(),
    {
        ParquetReader {
            path: self.path,
            columns: self.columns,
            n_rows: Some(n),
            parallel: self.parallel,
        }
    }

    /// Parallelizes the read over `strategy`.
    pub fn with_parallel(self, strategy: ParallelStrategy) -> (reader: ParquetReader)
        ensures
            reader.parallel() == strategy,
            reader.path() == self.path(),
            reader.projection() == self.projection(),
            reader.row_limit() == self.row_limit(),
    {
        ParquetReader {
            path: self.path,
            columns: self.columns,
            n_rows: self.n_rows,
            parallel: strategy,
        }
    }
}

impl ParquetReader {
    /// The path of the file.
    pub fn get_path(&self) -> (path: &String)
        ensures
            path@ == self.path(),
    {
        &self.path
    }

    /// The names of the columns to read, in order; `None` stands for all.
    pub fn get_columns(&self) -> (columns: Option<&Vec<String>>)
        ensures
            columns is Some <==> self.projection() is Some,
            columns matches Some(names) ==> Some(texts(names@)) == self.projection(),
    {
        self.columns.as_ref()
    }

    /// The largest number of rows to read; `None` stands for no limit.
    pub fn get_n_rows(&self) -> (n: Option<usize>)
        ensures
            n == self.row_limit(),
    {
        self.n_rows
    }

    /// The unit over which the read is parallelized.
    pub fn get_parallel(&self) -> (strategy: ParallelStrategy)
        ensures
            strategy == self.parallel(),
    {
        self.parallel
    }

    /// Cuts a table that was read for this reader down to the reader's
    /// largest number of rows. Without a limit, and where the table has no
    /// more rows than the limit allows, every row stays.
    pub fn limit_rows(&self, df: DataFrame) -> (out: DataFrame)
        ensures
            self.row_limit() is None ==> out == df,
            self.row_limit() matches Some(n) ==> is_limited(out, df, n as nat),
    {
        match self.n_rows {
            Some(n) => head_of(&df, n),
            None => df,
        }
    }
}

/// What to read when the file at `path` is opened with the projection
/// `columns`: those columns in that order, and all columns where `columns` is
/// empty. Every row is read.
pub fn open_request(path: &str, columns: Vec<String>) -> (reader: ParquetReader)
    ensures
        reader.path() == path@,
        reader.projection() == if columns@.len() == 0 {
            None
        } else {
            Some(texts(columns@))
        },
        reader.row_limit() is None,
        reader.parallel() == ParallelStrategy::Auto,
{
    if columns.len() == 0 {
        ParquetReader::new(path)
    } else {
        ParquetReader::new(path).with_columns(columns)
    }
}

/// `out` holds the first `n` rows of `df`, or all of them where there are
/// fewer, under the same names and element types.
pub open spec fn is_limited(out: DataFrame, df: DataFrame, n: nat) -> bool {
    &&& frame_height(out) == vstd::math::min(n as int, frame_height(df) as int)
    &&& frame_columns(out).len() == frame_columns(df).len()
    &&& forall|i: int|
        0 <= i < frame_columns(out).len() ==> is_head_of(
            #[trigger] frame_columns(out)[i],
            frame_columns(df)[i],
            n,
        )
}

/// How to write a file: compression, row groups, statistics and pages. All
/// of it is handed to the engine as it is.
pub struct ParquetWriter {
    path: String,
    compression: ParquetCompression,
    row_group_size: Option<usize>,
    statistics: StatisticsOptions,
    data_page_size: Option<usize>,
}

impl ParquetWriter {
    /// The path of the file.
    pub closed spec fn path(&self) -> Seq<char> {
        self.path@
    }

    /// The compression.
    pub closed spec fn compression(&self) -> ParquetCompression {
        self.compression
    }

    /// The number of rows of a row group; `None` stands for the engine's.
    pub closed spec fn row_group_size(&self) -> Option<usize> {
        self.row_group_size
    }

    /// The statistics that are written.
    pub closed spec fn statistics(&self) -> StatisticsOptions {
        self.statistics
    }

    /// The size of a data page in bytes; `None` stands for the engine's.
    pub closed spec fn data_page_size(&self) -> Option<usize> {
        self.data_page_size
    }

    /// Writes the file at `path` with Zstandard at its usual level, the usual
    /// statistics, and the engine's sizes of row groups and pages.
    pub fn new(path: &str) -> (writer: ParquetWriter)
        ensures
            writer.path() == path@,
            writer.compression() == ParquetCompression::Zstd(None),
            writer.row_group_size() is None,
            writer.statistics() == (StatisticsOptions {
                min_value: true,
                max_value: true,
                distinct_count: false,
                null_count: true,
            }),
            writer.data_page_size() is None,
    {
        ParquetWriter {
            path: String::from_str(path),
            compression: ParquetCompression::Zstd(None),
            row_group_size: None,
            statistics: StatisticsOptions::default(),
            data_page_size: None,
        }
    }

    /// Compresses with `compression`.
    pub fn with_compression(self, compression: ParquetCompression) -> (writer: ParquetWriter)
        ensures
            writer.compression() == compression,
            writer.path() == self.path(),
            writer.row_group_size() == self.row_group_size(),
            writer.statistics() == self.statistics(),
            writer.data_page_size() == self.data_page_size(),
    {
        ParquetWriter {
            path: self.path,
            compression,
            row_group_size: self.row_group_size,
            statistics: self.statistics,
            data_page_size: self.data_page_size,
        }
    }

    /// Writes row groups of `size` rows.
    pub fn with_row_group_size(self, size: usize) -> (writer: ParquetWriter)
        ensures
            writer.row_group_size() == Some(size),
            writer.path() == self.path(),
            writer.compression() == self.compression(),
            writer.statistics() == self.statistics(),
            writer.data_page_size() == self.data_page_size(),
    {
        ParquetWriter {
            path: self.path,
            compression: self.compression,
            row_group_size: Some(size),
            statistics: self.statistics,
            data_page_size: self.data_page_size,
        }
    }

    /// Writes the statistics that `options` names.
    pub fn with_statistics(self, options: StatisticsOptions) -> (writer: ParquetWriter)
        ensures
            writer.statistics() == options,
            writer.path() == self.path(),
            writer.compression() == self.compression(),
            writer.row_group_size() == self.row_group_size(),
            writer.data_page_size() == self.data_page_size(),
    {
        ParquetWriter {
            path: self.path,
            compression: self.compression,
            row_group_size: self.row_group_size,
            statistics: options,
            data_page_size: self.data_page_size,
        }
    }

    /// Writes data pages of `size` bytes.
    pub fn with_data_page_size(self, size: usize) -> (writer: ParquetWriter)
        ensures
            writer.data_page_size() == Some(size),
            writer.path() == self.path(),
            writer.compression() == self.compression(),
            writer.row_group_size() == self.row_group_size(),
            writer.statistics() == self.statistics(),
    {
        ParquetWriter {
            path: self.path,
            compression: self.compression,
            row_group_size: self.row_group_size,
            statistics: self.statistics,
            data_page_size: Some(size),
        }
    }

    /// The path of the file.
    pub fn get_path(&self) -> (path: &String)
        ensures
            path@ == self.path(),
    {
        &self.path
    }

    /// The compression.
    pub fn get_compression(&self) -> (compression: ParquetCompression)
        ensures
            compression == self.compression(),
    {
        self.compression
    }

    /// The number of rows of a row group; `None` stands for the engine's.
    pub fn get_row_group_size(&self) -> (size: Option<usize>)
        ensures
            size == self.row_group_size(),
    {
        self.row_group_size
    }

    /// The statistics that are written.
    pub fn get_statistics(&self) -> (options: StatisticsOptions)
        ensures
            options == self.statistics(),
    {
        self.statistics
    }

    /// The size of a data page in bytes; `None` stands for the engine's.
    pub fn get_data_page_size(&self) -> (size: Option<usize>)
        ensures
            size == self.data_page_size(),
    {
        self.data_page_size
    }
}

} // verus!
