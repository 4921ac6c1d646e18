//! What Git says of a path.

use vstd::prelude::*;
use crate::path::{parent_of, path_parent, HostPlatform};
use crate::text::{push_text, texts};

verus! {

/// Arguments of the question whether a path is ignored, asked in the directory it stands in.
pub open spec fn check_ignore_args(path: Seq<char>, host: HostPlatform) -> Seq<Seq<char>> {
    let workdir = match parent_of(host, path) {
        Some(parent) => parent,
        None => "."@,
    };
    seq!["-C"@, workdir, "check-ignore"@, "--quiet"@, "--"@, path]
}

/// What the exit code of the question says: the path is ignored or not, or nothing is known.
pub open spec fn ignored_by(exit_code: Option<i32>) -> Option<bool> {
    match exit_code {
        Some(0) => Some(true),
        Some(1) => Some(false),
        _ => None,
    }
}

/// Arguments of the question whether a path is ignored.
pub fn check_ignored_args(path: &str, host: HostPlatform) -> (r: Vec<String>)
    ensures
        texts(r@) == check_ignore_args(path@, host),
{
    let workdir = match path_parent(host, path) {
        Some(parent) => parent,
        None => ".".to_owned(),
    };
    let mut args: Vec<String> = Vec::new();
    push_text(&mut args, "-C");
    push_text(&mut args, workdir.as_str());
    push_text(&mut args, "check-ignore");
    push_text(&mut args, "--quiet");
    push_text(&mut args, "--");
    push_text(&mut args, path);
    assert(texts(args@) =~= check_ignore_args(path@, host));
    args
}

/// Git's answer, by its exit code; anything but yes and no is no answer.
pub fn check_ignored(exit_code: Option<i32>) -> (r: Option<bool>)
    ensures
        r == ignored_by(exit_code),
{
    match exit_code {
        Some(0) => Some(true),
        Some(1) => Some(false),
        _ => None,
    }
}

} // verus!
