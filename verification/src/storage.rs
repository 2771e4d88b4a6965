//! Where the client keeps its data.

use vstd::prelude::*;
use vstd::string::StringExecFns;

verus! {

/// The directory under which the client's own directory lies: the platform's
/// application data directory where one is set, else `.config` under the home
/// directory, else the working directory.
pub open spec fn data_root(appdata: Option<Seq<char>>, home: Option<Seq<char>>) -> Seq<char> {
    match appdata {
        Some(dir) => dir,
        None => match home {
            Some(dir) => dir + "/.config"@,
            None => "."@,
        },
    }
}

/// The text of an optional string.
pub open spec fn text_of(value: Option<String>) -> Option<Seq<char>> {
    match value {
        Some(s) => Some(s@),
        None => None,
    }
}

/// The name of the client's own directory.
pub open spec fn data_directory() -> Seq<char> {
    "foodsave-ai"@
}

/// The name of the client's own directory under the data root.
pub fn data_directory_name() -> (name: String)
    ensures
        name@ == data_directory(),
{
    String::from_str("foodsave-ai")
}

/// Chooses the directory under which the client's own directory lies.
pub fn resolve_data_root(appdata: Option<String>, home: Option<String>) -> (root: String)
    ensures
        root@ == data_root(text_of(appdata), text_of(home)),
{
    match appdata {
        Some(dir) => dir,
        None => match home {
            Some(dir) => dir.concat("/.config"),
            None => String::from_str("."),
        },
    }
}

} // verus!
