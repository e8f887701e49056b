use vstd::prelude::*;
use vstd::utf8::{decode_utf8, valid_utf8};
use crate::error::{Error, ErrorView};
use crate::text::strings;

verus! {

/// The name of the program that searches the source files.
pub const SEARCH_BIN: &'static str = "rg";

/// How the pattern of a copyright header begins, up to the name of the project.
pub const HEADER_HEAD: &'static str = r#"^// Copyright (19|20)[\d]{2} (.+ and )?the "#;

/// What stands in the pattern of a copyright header between the name of the project and
/// the license.
pub const HEADER_MIDDLE: &'static str = r#" Authors( and .+)?$\n^// SPDX-License-Identifier: "#;

/// How the pattern of a copyright header ends, after the license.
pub const HEADER_TAIL: &'static str = r#"$\n\n"#;

/// Whether the character has a meaning of its own in a regular expression.
pub open spec fn is_meta_character(c: char) -> bool {
    c == '\\' || c == '.' || c == '+' || c == '*' || c == '?' || c == '(' || c == ')' || c == '|'
        || c == '[' || c == ']' || c == '{' || c == '}' || c == '^' || c == '$' || c == '#' || c
        == '&' || c == '-' || c == '~'
}

/// The pattern that matches `text` literally: `text` with a backslash before each
/// character that has a meaning of its own in a regular expression.
pub open spec fn escaped(text: Seq<char>) -> Seq<char>
    decreases text.len(),
{
    if text.len() == 0 {
        Seq::empty()
    } else if is_meta_character(text.last()) {
        escaped(text.drop_last()).push('\\').push(text.last())
    } else {
        escaped(text.drop_last()).push(text.last())
    }
}

/// Calls `regex::escape`, which goes through the characters of the text and puts a
/// backslash before each of a fixed list of characters. The contract says so.
#[verifier::external_body]
fn escape_outside(text: &str) -> (r: String)
    ensures
        r@ == escaped(text@),
{
    regex::escape(text)
}

/// A text without a character that has a meaning of its own in a regular expression is its
/// own pattern.
pub proof fn lemma_plain_text_is_kept(text: Seq<char>)
    requires
        forall|i: int| 0 <= i < text.len() ==> !is_meta_character(#[trigger] text[i]),
    ensures
        escaped(text) == text,
    decreases text.len(),
{
    if text.len() > 0 {
        lemma_plain_text_is_kept(text.drop_last());
        assert(text.drop_last().push(text.last()) =~= text);
    }
}

/// The pattern that the copyright header of a source file of the project matches.
pub open spec fn header_pattern(name: Seq<char>, license: Seq<char>) -> Seq<char> {
    HEADER_HEAD@ + escaped(name) + HEADER_MIDDLE@ + escaped(license) + HEADER_TAIL@
}

/// The arguments that make the search list the Rust source files without the header.
pub open spec fn arguments_of(pattern: Seq<char>) -> Seq<Seq<char>> {
    seq![pattern, "--files-without-match"@, "--multiline"@, "-g"@, "*.rs"@, "."@]
}

/// What the run of the search says: the list of the files without the header, `None`
/// where every file has it, or an error where the search failed. The search ends with the
/// exit code 1 where no file matches.
pub open spec fn missing_of(code: Option<i32>, stdout: Seq<u8>) -> Result<
    Option<Seq<char>>,
    ErrorView,
> {
    if code != Some(0i32) && code != Some(1i32) {
        Err(ErrorView::ExitFailure { program: SEARCH_BIN@, code })
    } else if stdout.len() == 0 {
        Ok(None)
    } else if !valid_utf8(stdout) {
        Err(ErrorView::InvalidUtf8 { program: SEARCH_BIN@ })
    } else {
        Ok(Some(decode_utf8(stdout)))
    }
}

/// The value of the result of [`missing`].
pub open spec fn missing_view(r: Result<Option<String>, Error>) -> Result<
    Option<Seq<char>>,
    ErrorView,
> {
    match r {
        Ok(Some(files)) => Ok(Some(files@)),
        Ok(None) => Ok(None),
        Err(e) => Err(e@),
    }
}

/// Returns the regular expression that the copyright header of a source file matches, for
/// a project of the given name and license.
pub fn header_regex(name: &str, license: &str) -> (r: String)
    ensures
        r@ == header_pattern(name@, license@),
{
    let escaped_name = escape_outside(name);
    let escaped_license = escape_outside(license);
    let mut re = String::new();
    re.append(HEADER_HEAD);
    re.append(escaped_name.as_str());
    re.append(HEADER_MIDDLE);
    re.append(escaped_license.as_str());
    re.append(HEADER_TAIL);
    assert(re@ =~= header_pattern(name@, license@));
    re
}

/// Returns the arguments of the search for the source files without the header.
pub fn arguments(header_regex: &str) -> (r: Vec<String>)
    ensures
        strings(r@) == arguments_of(header_regex@),
{
    let mut args: Vec<String> = Vec::new();
    args.push(String::from_str(header_regex));
    args.push(String::from_str("--files-without-match"));
    args.push(String::from_str("--multiline"));
    args.push(String::from_str("-g"));
    args.push(String::from_str("*.rs"));
    args.push(String::from_str("."));
    assert(strings(args@) =~= arguments_of(header_regex@));
    args
}

/// Says what the run of the search found: the list of the files that lack the header, or
/// `None` where every file has it.
pub fn missing(code: Option<i32>, stdout: &Vec<u8>) -> (r: Result<Option<String>, Error>)
    ensures
        missing_view(r) == missing_of(code, stdout@),
{
    let ended_well = match code {
        Some(code) => code == 0 || code == 1,
        None => false,
    };
    if !ended_well {
        return Err(Error::ExitFailure { program: String::from_str(SEARCH_BIN), code });
    }
    if stdout.len() == 0 {
        return Ok(None);
    }
    match crate::text::decode(stdout) {
        Some(files) => Ok(Some(files)),
        None => Err(Error::InvalidUtf8 { program: String::from_str(SEARCH_BIN) }),
    }
}

} // verus!
