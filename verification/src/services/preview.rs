//! Capturing a screenshot of `kvantumpreview`: the tools it needs, where
//! the picture goes, how `spectacle` is called and what its exit means.

use vstd::prelude::*;
use crate::num::{i64_to_string, int_to_decimal};
use crate::paths::{join_path, join_path_text};
use crate::text::{texts, trim, trim_str};

verus! {

broadcast use vstd::string::group_string_axioms;

/// How long to wait, in milliseconds, for `kvantumpreview` to open its
/// window and finish rendering before the screenshot.
pub const RENDER_WAIT_MS: u64 = 1500;

/// Name of the captured PNG inside the cache directory.
pub const PREVIEW_FILE: &'static str = "kvantumpreview.png";

/// The tools that must be on the `PATH`, checked in this order.
pub open spec fn capture_tools() -> Seq<Seq<char>> {
    seq!["kvantumpreview"@, "spectacle"@]
}

/// The tools that must be on the `PATH`, checked in this order.
pub fn capture_tool_list() -> (r: Vec<&'static str>)
    ensures
        r@.map_values(|s: &str| s@) == capture_tools(),
{
    let mut r: Vec<&'static str> = Vec::new();
    r.push("kvantumpreview");
    r.push("spectacle");
    assert(r@.map_values(|s: &str| s@) =~= capture_tools());
    r
}

/// The error reported when a tool is missing.
pub fn missing_tool_error(cmd: &str) -> (r: String)
    ensures
        r@ == cmd@ + " not found on PATH"@,
{
    let mut r = cmd.to_string();
    r.append(" not found on PATH");
    r
}

/// Where the captured picture is written inside the cache directory.
pub fn preview_png_path(cache_dir: &str) -> (r: String)
    ensures
        r@ == join_path(cache_dir@, "kvantumpreview.png"@),
{
    join_path_text(cache_dir, "kvantumpreview.png")
}

/// The arguments of `spectacle`: the active window, in the background,
/// without notification, into `png_path`.
pub fn spectacle_args(png_path: &str) -> (r: Vec<String>)
    ensures
        texts(r@) == seq!["-a"@, "-b"@, "-n"@, "-o"@, png_path@],
{
    let mut r: Vec<String> = Vec::new();
    r.push("-a".to_string());
    r.push("-b".to_string());
    r.push("-n".to_string());
    r.push("-o".to_string());
    r.push(png_path.to_string());
    assert(texts(r@) =~= seq!["-a"@, "-b"@, "-n"@, "-o"@, png_path@]);
    r
}

/// The `{:?}` text of an optional exit code.
pub open spec fn code_text(code: Option<i32>) -> Seq<char> {
    match code {
        Some(c) => "Some("@ + int_to_decimal(c as int) + ")"@,
        None => "None"@,
    }
}

/// What a finished `spectacle` run means: success, or the error naming its
/// exit code and its trimmed error output.
pub fn spectacle_outcome(success: bool, code: Option<i32>, stderr: &str) -> (r: Result<(), String>)
    ensures
        success ==> r is Ok,
        !success ==> (r matches Err(e) && e@ == "spectacle exited with code "@ + code_text(code) + ": "@
            + trim(stderr@)),
{
    if success {
        return Ok(());
    }
    let mut e = "spectacle exited with code ".to_string();
    match code {
        Some(c) => {
            e.append("Some(");
            let t = i64_to_string(c as i64);
            e.append(t.as_str());
            e.append(")");
        },
        None => {
            e.append("None");
        },
    }
    e.append(": ");
    let t = trim_str(stderr);
    e.append(t.as_str());
    Err(e)
}

/// The outcome of one capture: where the picture was written, and its
/// bytes.
#[derive(Debug, Clone)]
pub struct KvantumPreviewCapture {
    /// Path of the captured PNG.
    pub png_path: String,
    /// Raw PNG bytes.
    pub png_bytes: Vec<u8>,
}

/// The error when `spectacle` reported success but wrote no file.
pub fn no_file_written_error() -> (r: String)
    ensures
        r@ == "spectacle returned OK but no file was written"@,
{
    "spectacle returned OK but no file was written".to_string()
}

} // verus!
