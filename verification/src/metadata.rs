//! The read-only metadata queries' structured record: which ephemeris data
//! file is loaded, valid for which day-count interval, of which edition.
//!
//! The foreign surface answers the query with two doubles, an edition
//! number and a borrowed, zero-terminated path buffer. The caller copies
//! the path bytes out — it must not free or outlive the foreign buffer —
//! and this module assembles and validates the record.

use vstd::prelude::*;
use vstd::utf8::{decode_utf8, valid_utf8};

use crate::text::{decode_c_string, nul_prefix};

verus! {

/// One loaded ephemeris data file. `start_date` and `end_date` hold the
/// bit patterns of the foreign surface's double-precision day-counts;
/// the record is meaningful only while the guard is `Ready`.
pub struct FileData {
    pub filepath: String,
    pub start_date: u64,
    pub end_date: u64,
    pub ephemeris_num: i32,
}

/// Assemble the file-metadata record from a completed foreign query:
/// decode the copied path bytes — stopping at the terminator, validating
/// the text — and carry the validity interval and edition number over.
/// `None` reports a path that is not legal text.
pub fn build_file_data(path_bytes: &[u8], start_date: u64, end_date: u64, ephemeris_num: i32) -> (r:
    Option<FileData>)
    ensures
        r is Some <==> valid_utf8(nul_prefix(path_bytes@)),
        r matches Some(fd) ==> fd.filepath@ == decode_utf8(nul_prefix(path_bytes@)) && fd.start_date
            == start_date && fd.end_date == end_date && fd.ephemeris_num == ephemeris_num,
{
    match decode_c_string(path_bytes) {
        Some(filepath) => Some(FileData { filepath, start_date, end_date, ephemeris_num }),
        None => None,
    }
}

} // verus!
