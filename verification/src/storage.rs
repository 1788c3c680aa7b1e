//! Where the application's database file lives.

use vstd::prelude::*;

verus! {

use vstd::string::StrSliceExecFns;
use vstd::string::StringExecFns;

/// The path of the database file inside the application data directory:
/// the directory joined with `app_data.db`, as a path join leaves it. An
/// empty directory gives the bare file name; otherwise a separator is
/// added only when the directory does not already end with one. The
/// separator is a fixed forward slash.
pub fn get_or_set_db_path(app_data_dir: String) -> (r: String)
    ensures
        app_data_dir@.len() == 0 ==> r@ == "app_data.db"@,
        app_data_dir@.len() > 0 && app_data_dir@.last() == '/' ==> r@ == app_data_dir@
            + "app_data.db"@,
        app_data_dir@.len() > 0 && app_data_dir@.last() != '/' ==> r@ == app_data_dir@
            + "/app_data.db"@,
{
    let n = app_data_dir.as_str().unicode_len();
    let needs_sep = n > 0 && app_data_dir.as_str().get_char(n - 1) != '/';
    proof {
        if app_data_dir@.len() == 0 {
            assert(app_data_dir@ + "app_data.db"@ =~= "app_data.db"@);
        }
    }
    let mut p = app_data_dir;
    if needs_sep {
        p.append("/app_data.db");
    } else {
        p.append("app_data.db");
    }
    p
}

} // verus!
