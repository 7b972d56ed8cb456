//! Planning the read of a parquet table.
use vstd::prelude::*;

verus! {

/// A partition of a parquet table read.
#[derive(Debug, Clone)]
pub enum ParquetPart {
    /// Whole files, by location and size; their row groups are not known
    /// yet and are pruned while reading.
    ParquetFiles(Vec<(String, u64)>),
    /// Small files read together, by location and size.
    SmallFiles(Vec<(String, u64)>),
    /// One row group of a file, by location and row group index.
    RowGroup(String, usize),
}

/// Whether the read needs a pruner: when it has a part of whole files.
/// Parts of whole files always stay at the end of the parts.
pub fn need_pruner(parts: &Vec<ParquetPart>) -> (r: bool)
    ensures
        r == (parts@.len() > 0 && parts@.last() is ParquetFiles),
{
    if parts.len() == 0 {
        return false;
    }
    match &parts[parts.len() - 1] {
        ParquetPart::ParquetFiles(_) => true,
        _ => false,
    }
}

} // verus!
