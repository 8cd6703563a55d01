//! The rules of the checks that compare one observation with one wanted
//! state.

use crate::reconcile::{account_listed, administrator_outcome, administrator_passes, user_listed,
    user_outcome, user_passes};
use crate::text::{chars_of, contains, is_substring, lemma_strip_spaces_drops_a_space, line_span,
    slice_contains, split_lines, strip_spaces, without_spaces};
use vstd::prelude::*;
use vstd::slice::slice_subrange;

verus! {

/// The text that stands for a file's content: what was read, or the empty
/// text where the file is missing or cannot be read.
pub open spec fn text_read(content: Option<Seq<char>>) -> Seq<char> {
    match content {
        Some(text) => text,
        None => Seq::<char>::empty(),
    }
}

/// A file is there exactly when it should be.
pub open spec fn presence_holds(present: bool, should_exist: bool) -> bool {
    present == should_exist
}

/// The line with number `line`, counted from 1, holds `line_content` exactly
/// when it should. A text that has no line of that number fails the rule,
/// whatever the rest asks for.
pub open spec fn line_holds(
    text: Seq<char>,
    line: int,
    line_content: Seq<char>,
    should_contain: bool,
) -> bool {
    &&& 1 <= line <= split_lines(text).len()
    &&& is_substring(split_lines(text)[line - 1], line_content) == should_contain
}

/// A text holds `content` exactly when it should. Where white space does not
/// matter, both are compared without their space characters.
pub open spec fn content_holds(
    text: Seq<char>,
    content: Seq<char>,
    whitespace_matters: bool,
    should_contain: bool,
) -> bool {
    if whitespace_matters {
        is_substring(text, content) == should_contain
    } else {
        is_substring(strip_spaces(text), strip_spaces(content)) == should_contain
    }
}

/// A service counts as up unless the service manager's answer holds the word
/// `inactive`; it is up exactly when it should be.
pub open spec fn service_holds(output: Seq<char>, should_be_up: bool) -> bool {
    is_substring(output, "inactive"@) != should_be_up
}

/// A binary counts as installed where the search tool's answer holds its
/// name; it is installed exactly when it should be.
pub open spec fn binary_holds(output: Seq<char>, binary_name: Seq<char>, should_exist: bool) -> bool {
    is_substring(output, binary_name) == should_exist
}

/// A user counts as a member where the identity tool's answer holds the
/// group's name anywhere, be it inside a longer name; the user is a member
/// exactly when it should be.
pub open spec fn group_holds(output: Seq<char>, group: Seq<char>, should_be: bool) -> bool {
    is_substring(output, group) == should_be
}

/// A user counts as an administrator where the identity tool's answer holds
/// the word `sudo`; the check then weighs that against what is wanted and
/// what was witnessed.
pub open spec fn administrator_holds(output: Seq<char>, should_be: bool, initial_admin: bool) -> bool {
    administrator_passes(should_be, initial_admin, is_substring(output, "sudo"@))
}

/// An account exists where the user directory lists its exact name; the check
/// then weighs that against what is wanted and what was witnessed.
pub open spec fn user_holds(
    accounts: Seq<Option<Seq<char>>>,
    user: Seq<char>,
    should_exist: bool,
    does_exist: bool,
    is_primary_user: bool,
) -> bool {
    user_passes(should_exist, is_primary_user, does_exist, account_listed(accounts, user))
}

/// The text to work on for a file's content: what was read, or the empty
/// text where nothing could be read.
pub fn readable(content: &Option<String>) -> (text: &str)
    ensures
        text@ == text_read(content.deep_view()),
{
    match content {
        Some(read) => read.as_str(),
        None => {
            proof {
                reveal_strlit("");
            }
            assert(""@ =~= Seq::<char>::empty());
            ""
        },
    }
}

/// Decides a check on a file's presence.
pub fn file_exists(present: bool, should_exist: bool) -> (holds: bool)
    ensures
        holds == presence_holds(present, should_exist),
{
    present == should_exist
}

/// Decides a check on one line of a file.
pub fn file_line_contains(text: &str, line: i32, line_content: &str, should_contain: bool) -> (holds:
    bool)
    ensures
        holds == line_holds(text@, line as int, line_content@, should_contain),
{
    if line < 1 {
        return false;
    }
    let index: usize = (line - 1) as usize;
    let text_chars = chars_of(text);
    match line_span(text_chars.as_slice(), index) {
        Some((from, to)) => {
            let needle = chars_of(line_content);
            let target = slice_subrange(text_chars.as_slice(), from, to);
            slice_contains(target, needle.as_slice()) == should_contain
        },
        None => false,
    }
}

/// Decides a check on a file's content.
pub fn file_contains_content(
    text: &str,
    content: &str,
    whitespace_matters: bool,
    should_contain: bool,
) -> (holds: bool)
    ensures
        holds == content_holds(text@, content@, whitespace_matters, should_contain),
{
    if whitespace_matters {
        contains(text, content) == should_contain
    } else {
        let text_chars = chars_of(text);
        let content_chars = chars_of(content);
        let bare_text = without_spaces(text_chars.as_slice());
        let bare_content = without_spaces(content_chars.as_slice());
        slice_contains(bare_text.as_slice(), bare_content.as_slice()) == should_contain
    }
}

/// Decides a check on a service from the service manager's answer.
pub fn service_up(output: &str, should_be_up: bool) -> (holds: bool)
    ensures
        holds == service_holds(output@, should_be_up),
{
    contains(output, "inactive") != should_be_up
}

/// Decides a check on a binary from the search tool's answer.
pub fn binary_exists(output: &str, binary_name: &str, should_exist: bool) -> (holds: bool)
    ensures
        holds == binary_holds(output@, binary_name@, should_exist),
{
    contains(output, binary_name) == should_exist
}

/// Decides a check on group membership from the identity tool's answer.
pub fn user_in_group(output: &str, group: &str, should_be: bool) -> (holds: bool)
    ensures
        holds == group_holds(output@, group@, should_be),
{
    contains(output, group) == should_be
}

/// Decides a check on administrator status from the identity tool's answer.
pub fn user_is_administrator(output: &str, should_be: bool, initial_admin: bool) -> (holds: bool)
    ensures
        holds == administrator_holds(output@, should_be, initial_admin),
{
    let is_admin = contains(output, "sudo");
    administrator_outcome(should_be, initial_admin, is_admin)
}

/// Decides a check on a user account from the entries of the user directory.
pub fn user_exists(
    accounts: &Vec<Option<String>>,
    user: &String,
    should_exist: bool,
    does_exist: bool,
    is_primary_user: bool,
) -> (holds: bool)
    ensures
        holds == user_holds(
            accounts.deep_view(),
            user@,
            should_exist,
            does_exist,
            is_primary_user,
        ),
{
    let exists_now = user_listed(accounts, user);
    user_outcome(should_exist, is_primary_user, does_exist, exists_now)
}

/// Where white space does not matter, a space more or less changes nothing:
/// neither in the file nor in the content that is looked for.
pub proof fn lemma_spaces_do_not_matter(
    before: Seq<char>,
    after: Seq<char>,
    other: Seq<char>,
    should_contain: bool,
)
    ensures
        content_holds(before + seq![' '] + after, other, false, should_contain) == content_holds(
            before + after,
            other,
            false,
            should_contain,
        ),
        content_holds(other, before + seq![' '] + after, false, should_contain) == content_holds(
            other,
            before + after,
            false,
            should_contain,
        ),
{
    lemma_strip_spaces_drops_a_space(before, after);
}

} // verus!
