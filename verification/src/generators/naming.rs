use vstd::prelude::*;
use crate::text::{
    ascii_lower, ascii_lower_char, is_ascii_text, lowercase_of, owned, replace_chars, replace_two,
    str_eq, to_lowercase,
};

verus! {

/// Resource-name conventions used for Terraform identifiers.
pub struct NamingGenerator;

/// Lowercasing as `str::to_lowercase` does it: on ASCII text `A`..`Z`
/// become `a`..`z`; beyond ASCII the Unicode mapping, named `lowercase_of`.
pub open spec fn lowercased(s: Seq<char>) -> Seq<char> {
    if is_ascii_text(s) {
        ascii_lower(s)
    } else {
        lowercase_of(s)
    }
}

/// `snake_case` form: `-` and `.` become `_`, then the text is lowercased.
pub open spec fn snake_spec(s: Seq<char>) -> Seq<char> {
    lowercased(replace_two(s, '-', '.', '_'))
}

/// `kebab-case` form: `_` and `.` become `-`, then the text is lowercased.
pub open spec fn kebab_spec(s: Seq<char>) -> Seq<char> {
    lowercased(replace_two(s, '_', '.', '-'))
}

/// The name that a convention gives: `"snake_case"` and `"kebab-case"`
/// convert, any other convention (`"original"` among them) keeps the text.
pub open spec fn convention_spec(s: Seq<char>, convention: Seq<char>) -> Seq<char> {
    if convention == "snake_case"@ {
        snake_spec(s)
    } else if convention == "kebab-case"@ {
        kebab_spec(s)
    } else {
        s
    }
}

/// On ASCII text the snake form, character by character.
pub open spec fn ascii_snake_char(c: char) -> char {
    if c == '-' || c == '.' || c == '_' {
        '_'
    } else {
        ascii_lower_char(c)
    }
}

/// On ASCII text the kebab form, character by character.
pub open spec fn ascii_kebab_char(c: char) -> char {
    if c == '-' || c == '.' || c == '_' {
        '-'
    } else {
        ascii_lower_char(c)
    }
}

proof fn lemma_replace_keeps_ascii(s: Seq<char>, a: char, b: char, to: char)
    requires
        is_ascii_text(s),
        (to as u32) < 128,
    ensures
        is_ascii_text(replace_two(s, a, b, to)),
{
}

proof fn lemma_ascii_lower_keeps_ascii(s: Seq<char>)
    requires
        is_ascii_text(s),
    ensures
        is_ascii_text(ascii_lower(s)),
{
    assert forall|i: int| 0 <= i < s.len() implies (ascii_lower(s)[i] as u32) < 128 by {
        let c = s[i];
        if 'A' <= c && c <= 'Z' {
            assert((c as u32) + 32 < 128);
        }
    }
}

/// The snake form of ASCII text, stated character by character.
pub proof fn lemma_snake_ascii(s: Seq<char>)
    requires
        is_ascii_text(s),
    ensures
        is_ascii_text(snake_spec(s)),
        snake_spec(s) == Seq::new(s.len(), |i: int| ascii_snake_char(s[i])),
{
    lemma_replace_keeps_ascii(s, '-', '.', '_');
    lemma_ascii_lower_keeps_ascii(replace_two(s, '-', '.', '_'));
    assert(snake_spec(s) =~= Seq::new(s.len(), |i: int| ascii_snake_char(s[i])));
}

/// The kebab form of ASCII text, stated character by character.
pub proof fn lemma_kebab_ascii(s: Seq<char>)
    requires
        is_ascii_text(s),
    ensures
        is_ascii_text(kebab_spec(s)),
        kebab_spec(s) == Seq::new(s.len(), |i: int| ascii_kebab_char(s[i])),
{
    lemma_replace_keeps_ascii(s, '_', '.', '-');
    lemma_ascii_lower_keeps_ascii(replace_two(s, '_', '.', '-'));
    assert(kebab_spec(s) =~= Seq::new(s.len(), |i: int| ascii_kebab_char(s[i])));
}

/// The text lowercased as `str::to_lowercase` does it.
pub fn lowercase_text(s: &str) -> (r: String)
    ensures
        r@ == lowercased(s@),
{
    to_lowercase(s)
}

impl NamingGenerator {
    /// `-` and `.` become `_`, and the result is lowercased.
    pub fn to_snake_case(s: &str) -> (r: String)
        ensures
            r@ == snake_spec(s@),
    {
        let replaced = replace_chars(s, '-', '.', '_');
        proof {
            if is_ascii_text(s@) {
                lemma_replace_keeps_ascii(s@, '-', '.', '_');
            }
        }
        to_lowercase(replaced.as_str())
    }

    /// `_` and `.` become `-`, and the result is lowercased.
    pub fn to_kebab_case(s: &str) -> (r: String)
        ensures
            r@ == kebab_spec(s@),
    {
        let replaced = replace_chars(s, '_', '.', '-');
        proof {
            if is_ascii_text(s@) {
                lemma_replace_keeps_ascii(s@, '_', '.', '-');
            }
        }
        to_lowercase(replaced.as_str())
    }

    /// Applies the named convention; an unknown one keeps the name as it is.
    pub fn apply_naming_convention(s: &str, convention: &str) -> (r: String)
        ensures
            r@ == convention_spec(s@, convention@),
    {
        if str_eq(convention, "snake_case") {
            Self::to_snake_case(s)
        } else if str_eq(convention, "kebab-case") {
            Self::to_kebab_case(s)
        } else {
            owned(s)
        }
    }
}

/// Converting ASCII text to snake case twice gives what converting it once
/// gives.
pub proof fn law_snake_idempotent(s: Seq<char>)
    requires
        is_ascii_text(s),
    ensures
        snake_spec(snake_spec(s)) == snake_spec(s),
{
    lemma_snake_ascii(s);
    lemma_snake_ascii(snake_spec(s));
    assert(snake_spec(snake_spec(s)) =~= snake_spec(s));
}

/// Converting ASCII text to kebab case twice gives what converting it once
/// gives.
pub proof fn law_kebab_idempotent(s: Seq<char>)
    requires
        is_ascii_text(s),
    ensures
        kebab_spec(kebab_spec(s)) == kebab_spec(s),
{
    lemma_kebab_ascii(s);
    lemma_kebab_ascii(kebab_spec(s));
    assert(kebab_spec(kebab_spec(s)) =~= kebab_spec(s));
}

/// On ASCII text the snake form of the kebab form is the snake form, and the
/// kebab form of the snake form is the kebab form: the two conventions
/// differ only in the separator.
pub proof fn law_snake_kebab_interchange(s: Seq<char>)
    requires
        is_ascii_text(s),
    ensures
        snake_spec(kebab_spec(s)) == snake_spec(s),
        kebab_spec(snake_spec(s)) == kebab_spec(s),
{
    lemma_snake_ascii(s);
    lemma_kebab_ascii(s);
    lemma_snake_ascii(kebab_spec(s));
    lemma_kebab_ascii(snake_spec(s));
    assert(snake_spec(kebab_spec(s)) =~= snake_spec(s));
    assert(kebab_spec(snake_spec(s)) =~= kebab_spec(s));
}

/// On ASCII text the snake form holds no `-` and no `.`, and has as many
/// characters as the text.
pub proof fn law_snake_has_no_separators(s: Seq<char>)
    requires
        is_ascii_text(s),
    ensures
        snake_spec(s).len() == s.len(),
        forall|i: int| 0 <= i < s.len() ==> snake_spec(s)[i] != '-' && snake_spec(s)[i] != '.',
{
    lemma_snake_ascii(s);
}

} // verus!
