//! Size caps on the files read and on the HTML staged for a browser.
use vstd::prelude::*;
use crate::text::{decimal, digit_char, digit_exec, push_decimal};

verus! {

/// The largest markdown file that is read, in bytes (50 MiB).
pub const MAX_FILE_SIZE: u64 = 50 * 1024 * 1024;

/// The largest HTML document that is staged for a browser, in bytes
/// (100 MiB).
pub const MAX_HTML_SIZE: usize = 100 * 1024 * 1024;

/// Bytes in a mebibyte.
pub const MIB: u128 = 1024 * 1024;

/// A file over the size cap: its size and the cap, in bytes.
#[derive(Clone, Copy, Debug, PartialEq, Eq, Structural)]
pub struct SizeExceeded {
    pub actual: u64,
    pub allowed: u64,
}

/// `n` bytes in tenths of a mebibyte, rounded to nearest, ties to even.
pub open spec fn mib_tenths(n: nat) -> nat {
    let q = (n * 10) / (MIB as nat);
    let r = (n * 10) % (MIB as nat);
    if 2 * r > MIB || (2 * r == MIB && q % 2 == 1) {
        q + 1
    } else {
        q
    }
}

/// `n` bytes in mebibytes, with one decimal.
pub open spec fn mib_text(n: nat) -> Seq<char> {
    let t = mib_tenths(n);
    decimal(t / 10) + "."@ + seq![digit_char(t % 10)]
}

pub open spec fn size_message(actual: nat, allowed: nat) -> Seq<char> {
    "File too large: "@ + mib_text(actual) + " MB (maximum allowed: "@ + mib_text(allowed)
        + " MB)"@
}

/// Rejects a file whose reported size exceeds the cap, before anything of
/// it is read.
pub fn check_file_size(len: u64, max: u64) -> (r: Result<(), SizeExceeded>)
    ensures
        r is Err <==> len > max,
        r matches Err(e) ==> e.actual == len && e.allowed == max,
{
    if len > max {
        Err(SizeExceeded { actual: len, allowed: max })
    } else {
        Ok(())
    }
}

fn push_mib(out: &mut String, n: u64)
    ensures
        final(out)@ == old(out)@ + mib_text(n as nat),
{
    let x: u128 = n as u128 * 10;
    let q = x / MIB;
    let r = x % MIB;
    let t: u128 = if 2 * r > MIB || (2 * r == MIB && q % 2 == 1) {
        q + 1
    } else {
        q
    };
    assert(t == mib_tenths(n as nat));
    let ghost before = out@;
    push_decimal(out, t / 10);
    out.append(".");
    out.push(digit_exec(t % 10));
    assert(out@ =~= before + mib_text(n as nat));
}

impl SizeExceeded {
    /// The message, naming both sizes in mebibytes.
    pub fn message(&self) -> (r: String)
        ensures
            r@ == size_message(self.actual as nat, self.allowed as nat),
    {
        let mut out = String::from_str("File too large: ");
        push_mib(&mut out, self.actual);
        out.append(" MB (maximum allowed: ");
        push_mib(&mut out, self.allowed);
        out.append(" MB)");
        out
    }
}

/// Rejects HTML over the cap for staged documents.
pub fn check_html_size(html: &str) -> (r: Result<(), String>)
    ensures
        r is Err <==> html.len() > MAX_HTML_SIZE,
        r matches Err(m) ==> m@ == "Content too large"@,
{
    if html.len() > MAX_HTML_SIZE {
        Err(String::from_str("Content too large"))
    } else {
        Ok(())
    }
}

} // verus!
