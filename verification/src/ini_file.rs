//! Configuration text in the syntax of ini files, read by `configparser`.

use ini::configparser::ini::Ini;
use vstd::prelude::*;
use crate::text::{fields, first_index, lemma_first_index, split_fields, str_chars, views};

verus! {

/// The parser of ini files, with what it has read; opaque here.
#[verifier::external_type_specification]
#[verifier::external_body]
pub struct ExIni(Ini);

/// What a parser holds after reading: for a section and a key, as
/// `Ini::get` takes them, the value that `get` gives. The map has no entry
/// where `get` gives none.
pub uninterp spec fn ini_values(ini: Ini) -> Map<(Seq<char>, Seq<char>), Seq<char>>;

/// What a fresh parser holds after `Ini::read` of a text, or `None` where
/// `read` reports an error.
pub uninterp spec fn ini_parse(text: Seq<char>) -> Option<Map<(Seq<char>, Seq<char>), Seq<char>>>;

/// True for the two characters that begin a comment.
pub open spec fn is_comment_mark(c: char) -> bool {
    c == ';' || c == '#'
}

/// Number of characters of a line that stand before its comment.
pub open spec fn code_length(line: Seq<char>) -> int
    decreases line.len(),
{
    if line.len() == 0 || is_comment_mark(line[0]) {
        0
    } else {
        1 + code_length(line.skip(1))
    }
}

/// A line without its comment.
pub open spec fn code_of(line: Seq<char>) -> Seq<char> {
    line.take(code_length(line))
}

/// The brackets of a line are in order unless a `]` stands before the first
/// `[` and none after it.
pub open spec fn brackets_in_order(code: Seq<char>) -> bool {
    let open = first_index(code, '[');
    (0 <= open < code.len() && exists|i: int| 0 <= i < open && code[i] == ']') ==> exists|j: int|
        open < j < code.len() && code[j] == ']'
}

/// A text is readable when the brackets of each of its lines are in order.
/// The parser cannot cope with other texts.
pub open spec fn readable(text: Seq<char>) -> bool {
    forall|i: int|
        0 <= i < fields(text, '\n').len() ==> brackets_in_order(
            code_of(#[trigger] fields(text, '\n')[i]),
        )
}

/// `code_length` is the one position before which no comment mark occurs and
/// at which either the line ends or a comment mark stands.
pub proof fn lemma_code_length(line: Seq<char>, k: int)
    requires
        0 <= k <= line.len(),
        forall|j: int| 0 <= j < k ==> !is_comment_mark(line[j]),
        k == line.len() || is_comment_mark(line[k]),
    ensures
        code_length(line) == k,
    decreases line.len(),
{
    if line.len() > 0 && !is_comment_mark(line[0]) {
        lemma_code_length(line.skip(1), k - 1);
    }
}

fn code_len(line: &Vec<char>) -> (n: usize)
    ensures
        n == code_length(line@),
        n <= line@.len(),
{
    let mut i: usize = 0;
    while i < line.len()
        invariant
            i <= line.len(),
            forall|j: int| 0 <= j < i ==> !is_comment_mark(line@[j]),
        decreases line.len() - i,
    {
        if line[i] == ';' || line[i] == '#' {
            proof {
                lemma_code_length(line@, i as int);
            }
            return i;
        }
        i += 1;
    }
    proof {
        lemma_code_length(line@, i as int);
    }
    i
}

fn line_in_order(line: &Vec<char>) -> (ok: bool)
    ensures
        ok == brackets_in_order(code_of(line@)),
{
    let n: usize = code_len(line);
    let ghost code = line@.take(n as int);
    let mut open_seen: bool = false;
    let mut close_before: bool = false;
    let mut close_after: bool = false;
    let ghost mut open_at: int = 0;
    let mut i: usize = 0;
    while i < n
        invariant
            i <= n <= line.len(),
            code == line@.take(n as int),
            !open_seen ==> forall|j: int| 0 <= j < i ==> code[j] != '[',
            !open_seen ==> (close_before <==> exists|j: int| 0 <= j < i && code[j] == ']'),
            !open_seen ==> !close_after,
            open_seen ==> 0 <= open_at < i && code[open_at] == '[' && forall|j: int|
                0 <= j < open_at ==> code[j] != '[',
            open_seen ==> (close_before <==> exists|j: int| 0 <= j < open_at && code[j] == ']'),
            open_seen ==> (close_after <==> exists|j: int| open_at < j < i && code[j] == ']'),
        decreases n - i,
    {
        let c: char = line[i];
        assert(code[i as int] == c);
        if c == '[' {
            if !open_seen {
                open_seen = true;
                proof {
                    open_at = i as int;
                }
            }
        } else if c == ']' {
            if open_seen {
                close_after = true;
            } else {
                close_before = true;
            }
        }
        i += 1;
    }
    proof {
        if open_seen {
            lemma_first_index(code, '[', open_at);
        } else {
            lemma_first_index(code, '[', code.len() as int);
        }
    }
    !(open_seen && close_before && !close_after)
}

/// True when the parser can cope with the text.
pub fn is_readable(text: &str) -> (ok: bool)
    ensures
        ok == readable(text@),
{
    let chars = str_chars(text);
    let lines = split_fields(&chars, '\n');
    let mut i: usize = 0;
    while i < lines.len()
        invariant
            i <= lines.len(),
            views(lines@) == fields(text@, '\n'),
            forall|j: int|
                0 <= j < i ==> brackets_in_order(code_of(#[trigger] fields(text@, '\n')[j])),
        decreases lines.len() - i,
    {
        assert(views(lines@)[i as int] == lines@[i as int]@);
        if !line_in_order(&lines[i]) {
            return false;
        }
        i += 1;
    }
    true
}

/// `Ini::new` and `Ini::read`: a fresh parser reads the text. The parser
/// panics on a line whose only `]` stand before its first `[`, which the
/// precondition leaves out.
#[verifier::external_body]
pub(crate) fn ini_read(text: &str) -> (read: Result<Ini, String>)
    requires
        readable(text@),
    ensures
        match read {
            Ok(ini) => ini_parse(text@) == Some(ini_values(ini)),
            Err(_) => ini_parse(text@) is None,
        },
{
    let mut ini = Ini::new();
    match ini.read(text.to_owned()) {
        Ok(_) => Ok(ini),
        Err(why) => Err(why),
    }
}

/// `Ini::get`: the value stored for a key of a section, if there is one.
#[verifier::external_body]
pub(crate) fn ini_get(ini: &Ini, section: &str, key: &str) -> (value: Option<String>)
    ensures
        match value {
            Some(text) => ini_values(*ini).contains_key((section@, key@)) && ini_values(
                *ini,
            )[(section@, key@)] == text@,
            None => !ini_values(*ini).contains_key((section@, key@)),
        },
{
    ini.get(section, key)
}

} // verus!
