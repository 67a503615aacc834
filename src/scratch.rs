//! Staging exported HTML in a scratch file for the system's browser: the
//! size cap, the file's name, and the command that opens it.
use vstd::prelude::*;
use crate::limits::{check_html_size, MAX_HTML_SIZE};
use crate::text::{decimal, push_decimal};

verus! {

/// Seconds a staged file is left for the browser before it is deleted.
pub const CLEANUP_DELAY_SECS: u64 = 2;

/// The desktop systems whose default opener is known.
#[derive(Clone, Copy, Debug, PartialEq, Eq, Structural)]
pub enum DesktopOs {
    MacOs,
    Windows,
    Linux,
}

/// The scratch file's name: the time in nanoseconds, the thread's and the
/// process's identifiers, so that it can be neither guessed nor collide.
pub open spec fn scratch_name(nanos: nat, thread: Seq<char>, pid: nat) -> Seq<char> {
    "md_"@ + decimal(nanos) + "_"@ + thread + "_"@ + decimal(pid) + ".html"@
}

/// The name of the scratch file for a document staged at `nanos` (since
/// the epoch) by thread `thread` of process `pid`.
pub fn scratch_file_name(nanos: u128, thread: &str, pid: u32) -> (r: String)
    ensures
        r@ == scratch_name(nanos as nat, thread@, pid as nat),
{
    let mut out = String::from_str("md_");
    push_decimal(&mut out, nanos);
    out.append("_");
    out.append(thread);
    out.append("_");
    push_decimal(&mut out, pid as u128);
    out.append(".html");
    out
}

/// Decides on staging `html`: rejected over the cap, else named.
pub fn plan_scratch_file(html: &str, nanos: u128, thread: &str, pid: u32) -> (r: Result<
    String,
    String,
>)
    ensures
        r is Err <==> html.len() > MAX_HTML_SIZE,
        r matches Err(m) ==> m@ == "Content too large"@,
        r matches Ok(name) ==> name@ == scratch_name(nanos as nat, thread@, pid as nat),
{
    match check_html_size(html) {
        Err(m) => Err(m),
        Ok(()) => Ok(scratch_file_name(nanos, thread, pid)),
    }
}

pub open spec fn opener_spec(os: DesktopOs) -> (Seq<char>, Seq<Seq<char>>) {
    match os {
        DesktopOs::MacOs => ("open"@, Seq::empty()),
        DesktopOs::Windows => ("cmd"@, seq!["/C"@, "start"@, ""@]),
        DesktopOs::Linux => ("xdg-open"@, Seq::empty()),
    }
}

/// The program that opens a file with its default application, and the
/// arguments that precede the file's path.
pub fn opener_command(os: DesktopOs) -> (r: (String, Vec<String>))
    ensures
        r.0@ == opener_spec(os).0,
        r.1@.map_values(|s: String| s@) == opener_spec(os).1,
{
    let r = match os {
        DesktopOs::MacOs => (String::from_str("open"), Vec::new()),
        DesktopOs::Windows => (
            String::from_str("cmd"),
            vec![String::from_str("/C"), String::from_str("start"), String::from_str("")],
        ),
        DesktopOs::Linux => (String::from_str("xdg-open"), Vec::new()),
    };
    assert(r.1@.map_values(|s: String| s@) =~= opener_spec(os).1);
    r
}

} // verus!
