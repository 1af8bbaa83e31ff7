use vstd::prelude::*;

verus! {

/// A point in time: non-leap seconds since the Unix epoch, plus the
/// nanoseconds within that second.
#[derive(Clone, Copy, PartialEq, Eq, Structural, Debug)]
pub struct Timestamp {
    pub secs: i64,
    pub nanos: u32,
}

impl Timestamp {
    /// A timestamp that can be rendered as an RFC 3339 string: a valid
    /// nanosecond count, and seconds comfortably inside the range of
    /// representable dates (about 253,000 years either side of the epoch).
    pub open spec fn wf(self) -> bool {
        &&& -8_000_000_000_000 <= self.secs <= 8_000_000_000_000
        &&& self.nanos < 1_000_000_000
    }
}

/// The attributes read for one path. Each timestamp is independently absent
/// when the filesystem does not report that attribute.
#[derive(Clone, Copy, Debug)]
pub struct RawMeta {
    pub accessed: Option<Timestamp>,
    pub created: Option<Timestamp>,
    pub modified: Option<Timestamp>,
}

impl RawMeta {
    pub open spec fn wf(self) -> bool {
        &&& (self.accessed matches Some(t) ==> t.wf())
        &&& (self.created matches Some(t) ==> t.wf())
        &&& (self.modified matches Some(t) ==> t.wf())
    }
}

/// One candidate path together with the attributes read for it, `None` when
/// the metadata could not be read at all.
#[derive(Debug)]
pub struct ScanEntry {
    pub path: String,
    pub meta: Option<RawMeta>,
}

impl ScanEntry {
    pub open spec fn wf(self) -> bool {
        self.meta matches Some(m) ==> m.wf()
    }
}

/// One row of the snapshot: the indexed file's name, containing directory,
/// full path, and its timestamps rendered as RFC 3339 strings where the
/// filesystem reported them.
#[derive(Debug)]
pub struct FileRecord {
    pub file_name: String,
    pub file_path: String,
    pub last_access_date: Option<String>,
    pub creation_date: Option<String>,
    pub update_date: Option<String>,
    pub full_path: String,
}

/// The view of an optional string, for contracts over optional fields.
pub open spec fn opt_str_view(o: Option<String>) -> Option<Seq<char>> {
    match o {
        Some(s) => Some(s@),
        None => None,
    }
}

fn clone_opt_string(o: &Option<String>) -> (r: Option<String>)
    ensures
        r == *o,
{
    match o {
        Some(s) => Some(s.clone()),
        None => None,
    }
}

impl Clone for FileRecord {
    fn clone(&self) -> (r: Self)
        ensures
            r == *self,
    {
        FileRecord {
            file_name: self.file_name.clone(),
            file_path: self.file_path.clone(),
            last_access_date: clone_opt_string(&self.last_access_date),
            creation_date: clone_opt_string(&self.creation_date),
            update_date: clone_opt_string(&self.update_date),
            full_path: self.full_path.clone(),
        }
    }
}

} // verus!
