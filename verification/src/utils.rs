//! Helpers shared by the workflows: the digest of a whole artifact, the
//! console form of a command line, and the verdict on a finished command.

use crate::digest::{digest_of, Digest};
use crate::text::{
    decimal, decimal_string, find_char, itertools_join, join_with, lemma_first_index, push_str,
    push_string, split, split_on, strings_view,
};
use crate::workflow::Error;
use vstd::prelude::*;
use vstd::string::StringExecFns;
use vstd::utf8::{decode_utf8, valid_utf8};

verus! {

/// The size of `bytes` and their SHA-256 checksum in lower-case
/// hexadecimal, which has 64 digits.
pub fn sha256_digest(bytes: &[u8]) -> (r: (u64, String))
    ensures
        (r.0 as int, r.1@) == digest_of(bytes@),
        r.1@.len() == 64,
{
    let mut digest = Digest::new();
    let len: usize = bytes.len();
    digest.update(bytes);
    digest.finalize()
}

/// `s` without its first and its last character.
pub open spec fn without_ends(s: Seq<char>) -> Seq<char> {
    if s.len() < 2 {
        Seq::empty()
    } else {
        s.subrange(1, s.len() - 1)
    }
}

/// `s` with a backslash put before each single quote.
pub open spec fn escape_quotes(s: Seq<char>) -> Seq<char>
    decreases s.len(),
{
    if s.len() == 0 {
        Seq::empty()
    } else if s.last() == '\'' {
        escape_quotes(s.drop_last()) + seq!['\\', '\'']
    } else {
        escape_quotes(s.drop_last()).push(s.last())
    }
}

/// An argument as it is shown: one that holds `?` or `!` stands between
/// single quotes, with its own single quotes escaped.
pub open spec fn shown_argument(s: Seq<char>) -> Seq<char> {
    if s.contains('?') || s.contains('!') {
        seq!['\''] + escape_quotes(s) + seq!['\'']
    } else {
        s
    }
}

/// The console form of a command, made from its debug form, in which
/// the program and each argument stand between double quotes with a
/// space between each two: the outermost quotes go, and so do those
/// between the arguments.
pub open spec fn shown_command(debug: Seq<char>) -> Seq<char> {
    join_with(
        split_on(without_ends(debug), "\" \""@).map_values(|s: Seq<char>| shown_argument(s)),
        " "@,
    )
}

/// Removes the first and the last character of `value`.
pub fn rem_first_and_last(value: &str) -> (r: &str)
    ensures
        r@ == without_ends(value@),
{
    let n: usize = value.unicode_len();
    if n < 2 {
        let r = value.substring_char(0, 0);
        r
    } else {
        value.substring_char(1, n - 1)
    }
}

/// Puts a backslash before each single quote of `s`.
pub fn escape_single_quotes(s: &str) -> (r: String)
    ensures
        r@ == escape_quotes(s@),
{
    let n: usize = s.unicode_len();
    let mut r = String::new();
    let mut i: usize = 0;
    while i < n
        invariant
            i <= n,
            n == s@.len(),
            r@ == escape_quotes(s@.subrange(0, i as int)),
        decreases n - i,
    {
        proof {
            reveal_strlit("\\'");
            let next = s@.subrange(0, i + 1);
            assert(next.drop_last() =~= s@.subrange(0, i as int));
        }
        if s.get_char(i) == '\'' {
            r.append("\\'");
        } else {
            r.append(s.substring_char(i, i + 1));
        }
        i += 1;
    }
    assert(s@.subrange(0, n as int) =~= s@);
    r
}

/// Tells whether `s` holds `c`.
pub fn contains_char(s: &str, c: char) -> (r: bool)
    ensures
        r == s@.contains(c),
{
    proof {
        lemma_first_index(s@, c);
    }
    match find_char(s, c) {
        Some(i) => {
            true
        },
        None => false,
    }
}

/// Shows one argument, as in `shown_argument`.
pub fn show_argument(s: &str) -> (r: String)
    ensures
        r@ == shown_argument(s@),
{
    if contains_char(s, '?') || contains_char(s, '!') {
        proof {
            reveal_strlit("'");
        }
        let mut r = String::from_str("'");
        r.append(escape_single_quotes(s).as_str());
        r.append("'");
        r
    } else {
        String::from_str(s)
    }
}

/// The command in the form in which it is echoed before it runs, made
/// from its debug form.
pub fn fmt_command(debug: &str) -> (r: String)
    ensures
        r@ == shown_command(debug@),
{
    proof {
        reveal_strlit("\" \"");
    }
    let pieces = split(rem_first_and_last(debug), "\" \"");
    let ghost wanted = split_on(without_ends(debug@), "\" \""@).map_values(
        |s: Seq<char>| shown_argument(s),
    );
    let mut shown: Vec<String> = Vec::new();
    let mut i: usize = 0;
    while i < pieces.len()
        invariant
            i <= pieces@.len(),
            strings_view(pieces@) == split_on(without_ends(debug@), "\" \""@),
            wanted == strings_view(pieces@).map_values(|s: Seq<char>| shown_argument(s)),
            strings_view(shown@) == wanted.subrange(0, i as int),
        decreases pieces@.len() - i,
    {
        push_string(&mut shown, show_argument(pieces[i].as_str()));
        i += 1;
    }
    assert(wanted.subrange(0, i as int) =~= wanted);
    itertools_join(&shown, " ")
}

/// The line that echoes a command before it runs.
pub fn print_command(debug: &str) -> (r: String)
    ensures
        r@ == "=> Running command: "@ + shown_command(debug@),
{
    let mut line = String::from_str("=> Running command: ");
    line.append(fmt_command(debug).as_str());
    line
}

/// The lines of a heading: the text between two rules, with blank lines
/// around each.
pub open spec fn header_lines(header: Seq<char>) -> Seq<Seq<char>> {
    seq![
        ""@,
        "==================================="@,
        ""@,
        "    "@ + header,
        ""@,
        "==================================="@,
        ""@,
    ]
}

/// The lines that announce a phase of the work.
pub fn print_header(header: &str) -> (lines: Vec<String>)
    ensures
        strings_view(lines@) == header_lines(header@),
{
    let mut title = String::from_str("    ");
    title.append(header);
    let mut lines: Vec<String> = Vec::new();
    push_str(&mut lines, "");
    push_str(&mut lines, "===================================");
    push_str(&mut lines, "");
    push_string(&mut lines, title);
    push_str(&mut lines, "");
    push_str(&mut lines, "===================================");
    push_str(&mut lines, "");
    lines
}

/// The lines that report an artifact that has arrived: where it was put,
/// if it was kept, then its size and its checksum.
pub open spec fn digest_lines(out: Option<Seq<char>>, size: u64, checksum: Seq<char>) -> Seq<
    Seq<char>,
> {
    seq![
        match out {
            Some(path) => "Program buffer downloaded to "@ + path + "."@,
            None => "Program buffer downloaded."@,
        },
        "Size (bytes): "@ + decimal(size as nat),
        "SHA256: "@ + checksum,
    ]
}

/// Reports an artifact that has arrived.
pub fn digest_report(out: &Option<String>, size: u64, checksum: &str) -> (lines: Vec<String>)
    ensures
        strings_view(lines@) == digest_lines(crate::config::optional_view(*out), size, checksum@),
{
    let first = match out {
        Some(path) => {
            let mut line = String::from_str("Program buffer downloaded to ");
            line.append(path.as_str());
            line.append(".");
            line
        },
        None => String::from_str("Program buffer downloaded."),
    };
    let mut second = String::from_str("Size (bytes): ");
    second.append(decimal_string(size).as_str());
    let mut third = String::from_str("SHA256: ");
    third.append(checksum);
    let mut lines: Vec<String> = Vec::new();
    push_string(&mut lines, first);
    push_string(&mut lines, second);
    push_string(&mut lines, third);
    lines
}

/// How a process ended.
#[derive(Clone, Copy, Debug, PartialEq, Eq)]
pub struct ExitStatus {
    /// It ended with exit code 0.
    pub success: bool,
    /// Its exit code, unless a signal ended it.
    pub code: Option<i32>,
}

/// The exit code to pass on for a process that failed: its own, or 1
/// where it has none.
pub open spec fn failure_code(status: ExitStatus) -> i32 {
    match status.code {
        Some(code) => code,
        None => 1,
    }
}

/// The verdict on a finished command: a failure of the tool is fatal and
/// carries the tool's own exit code.
pub open spec fn verdict(status: ExitStatus) -> Result<(), Error> {
    if status.success {
        Ok(())
    } else {
        Err(Error::ExternalToolFailure(failure_code(status)))
    }
}

/// The verdict on a finished command whose output was captured: the
/// output as text, where the tool succeeded and wrote UTF-8.
pub open spec fn captured(status: ExitStatus, stdout: Seq<u8>) -> Result<Seq<char>, Error> {
    if !status.success {
        Err(Error::ExternalToolFailure(failure_code(status)))
    } else if valid_utf8(stdout) {
        Ok(decode_utf8(stdout))
    } else {
        Err(Error::MalformedOutput)
    }
}

/// Calls `String::from_utf8` of std: it gives the text that the bytes
/// encode where they are UTF-8, and fails where they are not.
#[verifier::external_body]
fn string_from_utf8(bytes: Vec<u8>) -> (r: Option<String>)
    ensures
        match r {
            Some(text) => valid_utf8(bytes@) && text@ == decode_utf8(bytes@),
            None => !valid_utf8(bytes@),
        },
{
    String::from_utf8(bytes).ok()
}

/// Judges a finished command.
pub fn exec_command(status: ExitStatus) -> (r: Result<(), Error>)
    ensures
        r == verdict(status),
{
    if status.success {
        Ok(())
    } else {
        let code = match status.code {
            Some(code) => code,
            None => 1,
        };
        Err(Error::ExternalToolFailure(code))
    }
}

/// Judges a finished command and hands out what it wrote, as text.
pub fn exec_command_with_output(status: ExitStatus, stdout: Vec<u8>) -> (r: Result<String, Error>)
    ensures
        match r {
            Ok(text) => captured(status, stdout@) == Ok::<Seq<char>, Error>(text@),
            Err(e) => captured(status, stdout@) == Err::<Seq<char>, Error>(e),
        },
{
    match exec_command(status) {
        Err(e) => Err(e),
        Ok(_) => match string_from_utf8(stdout) {
            Some(text) => Ok(text),
            None => Err(Error::MalformedOutput),
        },
    }
}

} // verus!
