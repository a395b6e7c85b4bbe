//! Row-oriented, textual views of column-major batches decoded from ORC files:
//! per-cell rendering by logical type, transposition into rows, paginated reading
//! and CSV serialisation.

pub mod batch;
pub mod calendar;
pub mod csv;
pub mod export;
pub mod format;
pub mod laws;
pub mod reader;
pub mod result;
pub mod row;
pub mod text;
pub mod transpose;

pub use crate::batch::{Batch, CellValue, Column, ColumnField, KeyWidth, TimeUnit, TypeTag};
pub use crate::export::{export_orc_file_csv, ExportAction, ExportEvent, ExportSession};
pub use crate::reader::{
    read_orc_file, read_orc_file_by_page, ReadAction, ReadEvent, ReadRequest, ReadSession,
};
pub use crate::result::{FileMetadata, ReadOrcResult, ReadOrcResultColumn};
pub use crate::row::Row;
