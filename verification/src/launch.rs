use vstd::prelude::*;
use vstd::string::{StrSliceExecFns, StringExecFns};

use crate::platform::Os;

verus! {

/// The name of the server executable on an operating system: the bare name,
/// with the platform suffix on windows only.
pub open spec fn spec_server_executable(o: Os) -> Seq<char> {
    if o == Os::Windows {
        "serve-d.exe"@
    } else {
        "serve-d"@
    }
}

/// The server executable name as text.
pub fn server_executable(o: Os) -> (r: String)
    ensures
        r@ == spec_server_executable(o),
{
    match o {
        Os::Windows => "serve-d.exe".to_owned(),
        _ => "serve-d".to_owned(),
    }
}

/// A name joined onto a directory: a single separator stands between the
/// two, whether or not the directory already ends with one.
pub open spec fn spec_join_path(dir: Seq<char>, name: Seq<char>) -> Seq<char> {
    if dir.len() > 0 && dir[dir.len() - 1] == '/' {
        dir + name
    } else {
        dir + "/"@ + name
    }
}

/// Join a file name onto a directory locator.
pub fn join_path(dir: &str, name: &str) -> (r: String)
    ensures
        r@ == spec_join_path(dir@, name@),
{
    let n = dir.unicode_len();
    let mut out = dir.to_owned();
    if n == 0 || dir.get_char(n - 1) != '/' {
        out.append("/");
    }
    out.append(name);
    proof {
        assert(out@ =~= spec_join_path(dir@, name@));
    }
    out
}

/// The identifier of the language the server handles.
pub open spec fn spec_language_id() -> Seq<char> {
    "d"@
}

/// The language identifier as text.
pub fn language_id() -> (r: String)
    ensures
        r@ == spec_language_id(),
{
    "d".to_owned()
}

/// The marker file inside the working directory that records the installed
/// version.
pub open spec fn spec_marker_file_name() -> Seq<char> {
    "version.txt"@
}

/// The marker file name as text.
pub fn marker_file_name() -> (r: String)
    ensures
        r@ == spec_marker_file_name(),
{
    "version.txt".to_owned()
}

/// Whether an argument vector is the fixed base arguments followed by the
/// user's extra arguments.
pub open spec fn launch_args_ok(args: Seq<String>, user: Seq<String>) -> bool {
    &&& args.len() == user.len() + 2
    &&& args[0]@ == "--require"@
    &&& args[1]@ == "d"@
    &&& forall|i: int| 0 <= i < user.len() ==> args[i + 2] == user[i]
}

/// The fixed base argument list handed to the server.
pub fn base_args() -> (r: Vec<String>)
    ensures
        launch_args_ok(r@, Seq::<String>::empty()),
{
    let mut v: Vec<String> = Vec::new();
    v.push("--require".to_owned());
    v.push("d".to_owned());
    v
}

/// The base arguments followed by the user's extra arguments, which are
/// taken out of `user`.
pub fn build_args(user: &mut Vec<String>) -> (r: Vec<String>)
    ensures
        launch_args_ok(r@, old(user)@),
        final(user)@.len() == 0,
{
    let mut v = base_args();
    v.append(user);
    v
}

} // verus!
