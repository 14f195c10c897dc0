//! Where the scan results are stored.
use vstd::prelude::*;
use vstd::string::*;

verus! {

/// The file the results are stored in, in the working directory.
pub open spec fn saved_db_file() -> Seq<char> {
    ".renmap.db"@
}

/// Where the database is opened.
#[derive(Debug)]
pub enum DbLocation {
    /// A database that lives only as long as the process.
    InMemory,
    /// A database file at this path.
    File(String),
}

/// The path of the file the results are stored in.
pub fn saved_db_path() -> (r: String)
    ensures
        r@ == saved_db_file(),
{
    String::from_str(".renmap.db")
}

/// Where the database is opened: in memory when `memory` holds, else in the
/// results file.
pub fn db_location(memory: bool) -> (r: DbLocation)
    ensures
        memory ==> r is InMemory,
        !memory ==> (r matches DbLocation::File(p) && p@ == saved_db_file()),
{
    if memory {
        DbLocation::InMemory
    } else {
        DbLocation::File(saved_db_path())
    }
}

} // verus!
