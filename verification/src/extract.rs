use vstd::prelude::*;

use crate::record::{opt_str_view, FileRecord, RawMeta};
use crate::timefmt::{format_timestamp_opt, iso_of_opt};

verus! {

/// The base name component of a path string, as std's `Path::file_name`
/// computes it: a function of the path alone, absent for roots and paths
/// that end in a parent-directory component.
pub uninterp spec fn file_name_of(path: Seq<char>) -> Option<Seq<char>>;

/// The containing directory of a path string, as std's `Path::parent`
/// computes it: a function of the path alone, absent for roots and empty
/// paths.
pub uninterp spec fn parent_of(path: Seq<char>) -> Option<Seq<char>>;

/// Relies on std's `Path::file_name`: the base name is determined by the
/// path string alone.
#[verifier::external_body]
fn path_file_name(path: &str) -> (r: Option<String>)
    ensures
        opt_str_view(r) == file_name_of(path@),
{
    std::path::Path::new(path).file_name().map(|n| n.to_string_lossy().to_string())
}

/// Relies on std's `Path::parent`: the containing directory is determined
/// by the path string alone.
#[verifier::external_body]
fn path_parent(path: &str) -> (r: Option<String>)
    ensures
        opt_str_view(r) == parent_of(path@),
{
    std::path::Path::new(path).parent().map(|p| p.to_string_lossy().to_string())
}

/// A path yields a record exactly when its metadata could be read and the
/// path has both a base name and a containing directory.
pub open spec fn extractable(path: Seq<char>, meta: Option<RawMeta>) -> bool {
    &&& meta is Some
    &&& file_name_of(path) is Some
    &&& parent_of(path) is Some
}

/// Builds the record for one scanned path, or nothing. Extraction fails
/// soft: an unreadable path (absent metadata) or a path without a name or
/// parent component yields `None`, never an error. Each timestamp is
/// rendered independently; an absent timestamp leaves its field absent
/// while the rest of the record is still produced.
pub fn scan_file(path: &str, meta: &Option<RawMeta>) -> (r: Option<FileRecord>)
    requires
        meta matches Some(m) ==> m.wf(),
    ensures
        r is Some <==> extractable(path@, *meta),
        r matches Some(rec) ==> {
            let m = meta->0;
            &&& Some(rec.file_name@) == file_name_of(path@)
            &&& Some(rec.file_path@) == parent_of(path@)
            &&& rec.full_path@ == path@
            &&& opt_str_view(rec.last_access_date) == iso_of_opt(m.accessed)
            &&& opt_str_view(rec.creation_date) == iso_of_opt(m.created)
            &&& opt_str_view(rec.update_date) == iso_of_opt(m.modified)
        },
{
    let m = match meta {
        Some(m) => m,
        None => {
            return None;
        },
    };
    let file_name = match path_file_name(path) {
        Some(n) => n,
        None => {
            return None;
        },
    };
    let file_path = match path_parent(path) {
        Some(p) => p,
        None => {
            return None;
        },
    };
    let last_access_date = format_timestamp_opt(&m.accessed);
    let creation_date = format_timestamp_opt(&m.created);
    let update_date = format_timestamp_opt(&m.modified);
    Some(
        FileRecord {
            file_name,
            file_path,
            last_access_date,
            creation_date,
            update_date,
            full_path: path.to_owned(),
        },
    )
}

} // verus!
