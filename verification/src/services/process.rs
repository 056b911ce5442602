//! External commands: what to run to apply themes, and what a finished
//! run reported.

use vstd::prelude::*;
use crate::num::{int_to_decimal, i64_to_string, push_nat_decimal};
use crate::text::{str_eq, texts};

verus! {

broadcast use vstd::string::group_string_axioms;

/// The length in bytes of a text in UTF-8, as `str::len` reports it.
pub open spec fn byte_len(s: Seq<char>) -> usize {
    vstd::utf8::encode_utf8(s).len() as usize
}

/// The result of running an external process.
#[derive(Clone, Debug)]
pub struct ProcessResult {
    /// The exit code returned by the process.
    pub exit_code: i32,
    /// The standard output captured from the process.
    pub stdout: String,
    /// The standard error captured from the process.
    pub stderr: String,
}

impl ProcessResult {
    /// Whether the process exited successfully (exit code 0).
    pub fn is_success(&self) -> (r: bool)
        ensures
            r == (self.exit_code == 0),
    {
        self.exit_code == 0
    }

    /// A one-line summary: the exit code and the sizes of both outputs in
    /// bytes.
    pub fn describe(&self) -> (s: String)
        ensures
            s@ == "ProcessResult(exitCode="@ + int_to_decimal(self.exit_code as int) + ", stdout="@
                + crate::num::nat_to_decimal(byte_len(self.stdout@) as nat)
                + " chars, stderr="@ + crate::num::nat_to_decimal(byte_len(self.stderr@) as nat) + " chars)"@,
    {
        let mut out = String::new();
        out.append("ProcessResult(exitCode=");
        let code = i64_to_string(self.exit_code as i64);
        out.append(code.as_str());
        out.append(", stdout=");
        let a = self.stdout.as_str().len();
        push_nat_decimal(&mut out, a as u64);
        out.append(" chars, stderr=");
        let b = self.stderr.as_str().len();
        push_nat_decimal(&mut out, b as u64);
        out.append(" chars)");
        out
    }
}

/// A program to run and its arguments.
#[derive(Clone, Debug)]
pub struct CommandLine {
    pub program: String,
    pub args: Vec<String>,
}

/// The texts of a command line.
pub open spec fn command_view(c: CommandLine) -> (Seq<char>, Seq<Seq<char>>) {
    (c.program@, texts(c.args@))
}

fn command(program: &str, args: Vec<String>) -> (c: CommandLine)
    ensures
        c.program@ == program@,
        c.args@ == args@,
{
    CommandLine { program: program.to_string(), args }
}

/// `klassy-settings --preset <name>`.
pub fn apply_klassy_preset_command(preset_name: &str) -> (c: CommandLine)
    ensures
        command_view(c) == ("klassy-settings"@, seq!["--preset"@, preset_name@]),
{
    let mut args: Vec<String> = Vec::new();
    args.push("--preset".to_string());
    args.push(preset_name.to_string());
    let c = command("klassy-settings", args);
    assert(texts(c.args@) =~= seq!["--preset"@, preset_name@]);
    c
}

/// `kvantummanager --set <name>`.
pub fn apply_kvantum_theme_command(theme_name: &str) -> (c: CommandLine)
    ensures
        command_view(c) == ("kvantummanager"@, seq!["--set"@, theme_name@]),
{
    let mut args: Vec<String> = Vec::new();
    args.push("--set".to_string());
    args.push(theme_name.to_string());
    let c = command("kvantummanager", args);
    assert(texts(c.args@) =~= seq!["--set"@, theme_name@]);
    c
}

/// `plasma-apply-colorscheme <name>`.
pub fn apply_colorscheme_command(scheme_name: &str) -> (c: CommandLine)
    ensures
        command_view(c) == ("plasma-apply-colorscheme"@, seq![scheme_name@]),
{
    let mut args: Vec<String> = Vec::new();
    args.push(scheme_name.to_string());
    let c = command("plasma-apply-colorscheme", args);
    assert(texts(c.args@) =~= seq![scheme_name@]);
    c
}

/// `kwriteconfig6` writing `[General] ColorSchemeHash=<hash>` into
/// `kdeglobals`.
pub fn colorscheme_hash_command(hash: &str) -> (c: CommandLine)
    ensures
        command_view(c) == ("kwriteconfig6"@, seq![
            "--file"@,
            "kdeglobals"@,
            "--group"@,
            "General"@,
            "--key"@,
            "ColorSchemeHash"@,
            hash@,
        ]),
{
    let mut args: Vec<String> = Vec::new();
    args.push("--file".to_string());
    args.push("kdeglobals".to_string());
    args.push("--group".to_string());
    args.push("General".to_string());
    args.push("--key".to_string());
    args.push("ColorSchemeHash".to_string());
    args.push(hash.to_string());
    let c = command("kwriteconfig6", args);
    assert(texts(c.args@) =~= seq![
        "--file"@,
        "kdeglobals"@,
        "--group"@,
        "General"@,
        "--key"@,
        "ColorSchemeHash"@,
        hash@,
    ]);
    c
}

/// The D-Bus call that makes KWin reload its configuration, through
/// `program` (`qdbus6` first, then `qdbus`).
pub fn reconfigure_kwin_command(program: &str) -> (c: CommandLine)
    ensures
        command_view(c) == (program@, seq!["org.kde.KWin"@, "/KWin"@, "reconfigure"@]),
{
    let mut args: Vec<String> = Vec::new();
    args.push("org.kde.KWin".to_string());
    args.push("/KWin".to_string());
    args.push("reconfigure".to_string());
    let c = command(program, args);
    assert(texts(c.args@) =~= seq!["org.kde.KWin"@, "/KWin"@, "reconfigure"@]);
    c
}

/// After trying `qdbus6`: whether to try `qdbus` as well, which is so
/// unless `qdbus6` ran and succeeded (it may also not have started at all).
pub fn kwin_needs_fallback(first: &Result<ProcessResult, String>) -> (r: bool)
    ensures
        r == !(first is Ok && first->Ok_0.exit_code == 0),
{
    match first {
        Ok(p) => !p.is_success(),
        Err(_) => true,
    }
}

/// The schemes tried, in order, as the intermediate when force-applying.
pub open spec fn colorscheme_fallbacks() -> Seq<Seq<char>> {
    seq!["BreezeLight"@, "BreezeDark"@, "Breeze"@]
}

/// The next thing to do when force-applying a colour scheme.
#[derive(Clone, Debug, PartialEq, Eq, Structural)]
pub enum ColorSchemeStep {
    /// Apply the fallback at this position as the intermediate scheme.
    Intermediate(usize),
    /// Apply the target scheme itself.
    Target,
}

/// The first fallback at or after `from` that differs from the target,
/// or the target itself when none is left.
pub open spec fn next_step_spec(scheme_name: Seq<char>, from: int) -> ColorSchemeStep
    decreases 3 - from,
{
    if from >= 3 || from < 0 {
        ColorSchemeStep::Target
    } else if colorscheme_fallbacks()[from] != scheme_name {
        ColorSchemeStep::Intermediate(from as usize)
    } else {
        next_step_spec(scheme_name, from + 1)
    }
}

/// The fallback scheme at position `i`.
pub fn colorscheme_fallback(i: usize) -> (r: &'static str)
    requires
        i < 3,
    ensures
        r@ == colorscheme_fallbacks()[i as int],
{
    if i == 0 {
        "BreezeLight"
    } else if i == 1 {
        "BreezeDark"
    } else {
        "Breeze"
    }
}

/// What to apply next when force-applying `scheme_name`, having tried the
/// fallbacks before position `from`.  The caller applies the intermediate;
/// when that succeeds it applies the target, otherwise it asks again from
/// the next position.
pub fn next_colorscheme_step(scheme_name: &str, from: usize) -> (r: ColorSchemeStep)
    ensures
        r == next_step_spec(scheme_name@, from as int),
        r matches ColorSchemeStep::Intermediate(i) ==> from <= i < 3,
    decreases 3 - from,
{
    if from >= 3 {
        ColorSchemeStep::Target
    } else if !str_eq(colorscheme_fallback(from), scheme_name) {
        ColorSchemeStep::Intermediate(from)
    } else {
        next_colorscheme_step(scheme_name, from + 1)
    }
}

/// What to apply next when force-applying `scheme_name`, after applying
/// the intermediate at position `tried`: the target once an intermediate
/// succeeded, otherwise the next fallback that differs from the target
/// (or the target when none is left).
pub fn colorscheme_step_after(scheme_name: &str, tried: usize, succeeded: bool) -> (r: ColorSchemeStep)
    requires
        tried < 3,
    ensures
        r == (if succeeded {
            ColorSchemeStep::Target
        } else {
            next_step_spec(scheme_name@, tried + 1)
        }),
        r matches ColorSchemeStep::Intermediate(i) ==> tried < i < 3,
{
    if succeeded {
        ColorSchemeStep::Target
    } else {
        next_colorscheme_step(scheme_name, tried + 1)
    }
}

} // verus!
