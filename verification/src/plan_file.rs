//! Where the plan of a session is kept on disk.

use std::path::PathBuf;
use vstd::prelude::*;
use vstd::string::StringExecFns;

verus! {

/// A path of the file system.
#[verifier::external_type_specification]
#[verifier::external_body]
pub struct ExPathBuf(std::path::PathBuf);

/// The bytes that a path holds, in the platform's encoding.
pub uninterp spec fn path_bytes(path: PathBuf) -> Seq<u8>;

/// What `Path::join` makes of a path and a component, on the platform that
/// the crate is built for: the path with the component adjoined.
pub uninterp spec fn joined(base: Seq<u8>, component: Seq<char>) -> Seq<u8>;

/// `Path::join`: adjoins a component to a path. The result depends on the
/// two alone and is named by [`joined`].
#[verifier::external_body]
fn join(base: &PathBuf, component: &str) -> (path: PathBuf)
    ensures
        path_bytes(path) == joined(path_bytes(*base), component@),
{
    base.join(component)
}

/// The directory of the plans: `plans` below the application's data
/// directory.
pub fn get_plans_dir(app_data_dir: &PathBuf) -> (dir: PathBuf)
    ensures
        path_bytes(dir) == joined(path_bytes(*app_data_dir), "plans"@),
{
    join(app_data_dir, "plans")
}

/// The file of the plan of a session: the session's id with the extension
/// `.md`, in the directory of the plans.
pub fn get_plan_path(app_data_dir: &PathBuf, session_id: &str) -> (path: PathBuf)
    ensures
        path_bytes(path) == joined(
            joined(path_bytes(*app_data_dir), "plans"@),
            session_id@ + ".md"@,
        ),
{
    let mut name = String::from_str(session_id);
    name.append(".md");
    join(&get_plans_dir(app_data_dir), name.as_str())
}

} // verus!
