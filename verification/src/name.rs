//! Syntax of package names.
//!
//! A name has the form `scope/package`. Both pieces follow the same rules,
//! and the first rule a name breaks decides the message.

use vstd::prelude::*;
use vstd::string::group_string_axioms;
use crate::text::joined;
use crate::validate::ValidationError;

verus! {

/// Shortest piece, in characters.
pub const PIECE_MIN_LENGTH: usize = 2;

/// Longest piece, in characters.
pub const PIECE_MAX_LENGTH: usize = 32;

/// An ASCII letter, an ASCII digit or a dash.
pub open spec fn is_name_char(c: char) -> bool {
    ('a' <= c && c <= 'z') || ('A' <= c && c <= 'Z') || ('0' <= c && c <= '9') || c == '-'
}

/// Every character of `s` may stand in a piece.
pub open spec fn only_name_chars(s: Seq<char>) -> bool {
    forall|i: int| 0 <= i < s.len() ==> is_name_char(#[trigger] s[i])
}

/// Two dashes stand side by side somewhere in `s`.
pub open spec fn has_double_dash(s: Seq<char>) -> bool {
    exists|i: int| 0 <= i && i + 1 < s.len() && #[trigger] s[i] == '-' && s[i + 1] == '-'
}

/// The message for the first rule that the piece `name` breaks, if it breaks
/// one. `piece` says which piece it is and starts the message.
pub open spec fn piece_fault(name: Seq<char>, piece: Seq<char>) -> Option<Seq<char>> {
    if name.len() == 0 {
        Some(piece + " cannot be empty"@)
    } else if !only_name_chars(name) {
        Some(piece + " can only contain alphanumeric characters and dashes"@)
    } else if name.first() == '-' || name.last() == '-' {
        Some(piece + " cannot start or end with a dash"@)
    } else if has_double_dash(name) {
        Some(piece + " cannot contain consecutive dashes"@)
    } else if name.len() < PIECE_MIN_LENGTH || name.len() > PIECE_MAX_LENGTH {
        Some(piece + " must be between 2 and 32 characters long"@)
    } else {
        None
    }
}

/// How many `/` stand in `s`.
pub open spec fn separators(s: Seq<char>) -> nat
    decreases s.len(),
{
    if s.len() == 0 {
        0
    } else {
        separators(s.drop_last()) + if s.last() == '/' { 1nat } else { 0nat }
    }
}

/// Where the first `/` of `s` stands; the length of `s` if it has none.
pub open spec fn separator_position(s: Seq<char>) -> int
    decreases s.len(),
{
    if s.len() == 0 {
        0
    } else if s.first() == '/' {
        0
    } else {
        1 + separator_position(s.drop_first())
    }
}

/// What stands before the first `/`.
pub open spec fn scope_of(name: Seq<char>) -> Seq<char> {
    name.subrange(0, separator_position(name))
}

/// What stands behind the first `/`; nothing where there is no `/`.
pub open spec fn package_of(name: Seq<char>) -> Seq<char> {
    if separator_position(name) < name.len() {
        name.subrange(separator_position(name) + 1, name.len() as int)
    } else {
        Seq::empty()
    }
}

/// The message for the first rule that `name` breaks, if it breaks one.
pub open spec fn name_fault(name: Seq<char>) -> Option<Seq<char>> {
    if name.len() == 0 {
        Some("package name cannot be empty"@)
    } else if separators(name) != 1 {
        Some("package name must contain exactly one '/'"@)
    } else if piece_fault(scope_of(name), "scope name"@) is Some {
        piece_fault(scope_of(name), "scope name"@)
    } else {
        piece_fault(package_of(name), "package name"@)
    }
}

/// `name` is an acceptable package name.
pub open spec fn valid_name(name: Seq<char>) -> bool {
    name_fault(name) is None
}

fn name_char(c: char) -> (ok: bool)
    ensures
        ok == is_name_char(c),
{
    ('a' <= c && c <= 'z') || ('A' <= c && c <= 'Z') || ('0' <= c && c <= '9') || c == '-'
}

/// Checks one piece of a name against the rules, in their order.
pub fn validate_package_name_piece(name: &str, piece: &str) -> (checked: Result<(), ValidationError>)
    ensures
        match checked {
            Ok(_) => piece_fault(name@, piece@) is None,
            Err(error) => piece_fault(name@, piece@) == Some(error@),
        },
{
    broadcast use group_string_axioms;

    let length = name.unicode_len();
    if length == 0 {
        return Err(ValidationError::new(joined(piece, " cannot be empty")));
    }
    let mut clean = true;
    let mut leading_dash = false;
    let mut trailing_dash = false;
    let mut doubled = false;
    let mut at_start = true;
    for c in it: name.chars()
        invariant
            it.seq() == name@,
            at_start == (it.index() == 0),
            clean == only_name_chars(name@.take(it.index())),
            leading_dash == (it.index() > 0 && name@[0] == '-'),
            trailing_dash == (it.index() > 0 && name@[it.index() - 1] == '-'),
            doubled == has_double_dash(name@.take(it.index())),
    {
        let ghost next = name@.take(it.index() + 1);
        let dash = c == '-';
        proof {
            assert(next[it.index()] == c);
            if trailing_dash && dash {
                assert(next[it.index() - 1] == '-' && next[it.index()] == '-');
            }
        }
        if !name_char(c) {
            clean = false;
        }
        if at_start {
            leading_dash = dash;
            at_start = false;
        }
        if trailing_dash && dash {
            doubled = true;
        }
        trailing_dash = dash;
    }
    assert(name@.take(name@.len() as int) == name@);
    if !clean {
        return Err(
            ValidationError::new(
                joined(piece, " can only contain alphanumeric characters and dashes"),
            ),
        );
    }
    if leading_dash || trailing_dash {
        return Err(ValidationError::new(joined(piece, " cannot start or end with a dash")));
    }
    if doubled {
        return Err(ValidationError::new(joined(piece, " cannot contain consecutive dashes")));
    }
    if length < PIECE_MIN_LENGTH || length > PIECE_MAX_LENGTH {
        return Err(
            ValidationError::new(joined(piece, " must be between 2 and 32 characters long")),
        );
    }
    Ok(())
}

} // verus!

verus! {

proof fn lemma_separator_position_push(s: Seq<char>, c: char)
    ensures
        0 <= separator_position(s) <= s.len(),
        separator_position(s.push(c)) == if separator_position(s) < s.len() {
            separator_position(s)
        } else if c == '/' {
            s.len() as int
        } else {
            s.len() as int + 1
        },
    decreases s.len(),
{
    let longer = s.push(c);
    if s.len() == 0 {
        assert(separator_position(longer.drop_first()) == 0);
    } else {
        lemma_separator_position_push(s.drop_first(), c);
        assert(longer.drop_first() =~= s.drop_first().push(c));
    }
}

/// Counts the `/` of `text` and finds the first one.
fn scan_separators(text: &str) -> (found: (usize, usize))
    ensures
        found.0 == separators(text@),
        found.1 == separator_position(text@),
        found.1 <= text@.len(),
        (found.0 == 0) == (found.1 == text@.len()),
{
    broadcast use group_string_axioms;

    let mut count: usize = 0;
    let mut first: usize = 0;
    let mut position: usize = 0;
    let length = text.unicode_len();
    for c in it: text.chars()
        invariant
            it.seq() == text@,
            length == text@.len(),
            position == it.index(),
            count <= position,
            count == separators(text@.take(position as int)),
            first == separator_position(text@.take(position as int)),
            (count == 0) == (first == position),
            first <= position,
    {
        proof {
            let seen = text@.take(position as int);
            assert(text@.take(position + 1) =~= seen.push(c));
            assert(seen.push(c).drop_last() =~= seen);
            lemma_separator_position_push(seen, c);
        }
        if c == '/' {
            if count == 0 {
                first = position;
            }
            count = count + 1;
        } else if count == 0 {
            first = position + 1;
        }
        position = position + 1;
    }
    assert(text@.take(length as int) == text@);
    (count, first)
}

/// Splits a name at its first `/` into scope and package. A name without a
/// `/` is all scope.
pub fn split_name(name: &str) -> (pieces: (String, String))
    ensures
        pieces.0@ == scope_of(name@),
        pieces.1@ == package_of(name@),
{
    let (_, first) = scan_separators(name);
    let length = name.unicode_len();
    let scope = String::from_str(name.substring_char(0, first));
    let package = if first < length {
        String::from_str(name.substring_char(first + 1, length))
    } else {
        String::new()
    };
    (scope, package)
}

/// Checks a package name against the rules, in their order, and hands the
/// name back when it breaks none.
pub fn validate_package_name(name: &String) -> (checked: Result<String, ValidationError>)
    ensures
        match checked {
            Ok(accepted) => name_fault(name@) is None && accepted@ == name@,
            Err(error) => name_fault(name@) == Some(error@),
        },
{
    let text = name.as_str();
    let length = text.unicode_len();
    if length == 0 {
        return Err(ValidationError::new(String::from_str("package name cannot be empty")));
    }
    let (count, first) = scan_separators(text);
    if count != 1 {
        return Err(
            ValidationError::new(String::from_str("package name must contain exactly one '/'")),
        );
    }
    let scope = text.substring_char(0, first);
    let package = text.substring_char(first + 1, length);
    match validate_package_name_piece(scope, "scope name") {
        Err(error) => {
            return Err(error);
        },
        Ok(_) => {},
    }
    match validate_package_name_piece(package, "package name") {
        Err(error) => {
            return Err(error);
        },
        Ok(_) => {},
    }
    Ok(name.clone())
}

proof fn lemma_no_separator(name: Seq<char>)
    requires
        forall|i: int| 0 <= i < name.len() ==> name[i] != '/',
    ensures
        separators(name) == 0,
    decreases name.len(),
{
    if name.len() > 0 {
        lemma_no_separator(name.drop_last());
    }
}

/// A name without a `/` breaks the rule of the one separator, unless it is
/// empty: an empty name is told that it is empty.
pub proof fn lemma_missing_separator(name: Seq<char>)
    requires
        name.len() > 0,
        forall|i: int| 0 <= i < name.len() ==> name[i] != '/',
    ensures
        name_fault(name) == Some("package name must contain exactly one '/'"@),
{
    lemma_no_separator(name);
}

/// A piece with two dashes side by side is told so, unless it breaks an
/// earlier rule: it holds a character that no piece may hold, or it starts
/// or ends with a dash.
pub proof fn lemma_consecutive_dashes(name: Seq<char>, piece: Seq<char>)
    requires
        has_double_dash(name),
        only_name_chars(name),
        name.first() != '-',
        name.last() != '-',
    ensures
        piece_fault(name, piece) == Some(piece + " cannot contain consecutive dashes"@),
{
}

/// A name whose scope has two dashes side by side and breaks no earlier
/// rule is told so of its scope; with a faultless scope, the same holds of
/// its package.
pub proof fn lemma_consecutive_dashes_in_name(name: Seq<char>)
    requires
        separators(name) == 1,
    ensures
        has_double_dash(scope_of(name)) && only_name_chars(scope_of(name)) && scope_of(
            name,
        ).first() != '-' && scope_of(name).last() != '-' ==> name_fault(name) == Some(
            "scope name"@ + " cannot contain consecutive dashes"@,
        ),
        piece_fault(scope_of(name), "scope name"@) is None && has_double_dash(package_of(name))
            && only_name_chars(package_of(name)) && package_of(name).first() != '-'
            && package_of(name).last() != '-' ==> name_fault(name) == Some(
            "package name"@ + " cannot contain consecutive dashes"@,
        ),
{
}

} // verus!
