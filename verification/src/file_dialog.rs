use vstd::prelude::*;
use crate::numbers::{nat_text, push_nat_text};
use crate::text::{append_str, chars_of, push_char};

verus! {

// ---------------------------------------------------------------------------
// Markdown import and export
// ---------------------------------------------------------------------------

/// A markdown document: its title (the file's name without extension) and text.
#[derive(Debug, Clone, PartialEq)]
pub struct MarkdownFile {
    pub title: String,
    pub content: String,
}

/// Whether `char::is_alphanumeric` holds of a character: it is Unicode
/// alphabetic or numeric.
pub uninterp spec fn is_alphanumeric(c: char) -> bool;

/// `char::is_alphanumeric`. Claims only that the result is the named
/// property of the character.
#[verifier::external_body]
fn alphanumeric(c: char) -> (b: bool)
    ensures
        b == is_alphanumeric(c),
{
    c.is_alphanumeric()
}

/// A character kept in a file name.
pub open spec fn name_safe(c: char) -> bool {
    is_alphanumeric(c) || c == ' ' || c == '_' || c == '-'
}

/// The file-name form of a title: every character that is not kept becomes `_`.
pub open spec fn sanitized(title: Seq<char>) -> Seq<char> {
    title.map_values(
        |c: char|
            if name_safe(c) {
                c
            } else {
                '_'
            },
    )
}

pub fn sanitize_title(title: &str) -> (r: String)
    ensures
        r@ == sanitized(title@),
{
    let cs = chars_of(title);
    let mut out = String::new();
    let mut i: usize = 0;
    while i < cs.len()
        invariant
            i <= cs@.len(),
            cs@ == title@,
            out@ == sanitized(title@.take(i as int)),
        decreases cs.len() - i,
    {
        let c = cs[i];
        if alphanumeric(c) || c == ' ' || c == '_' || c == '-' {
            push_char(&mut out, c);
        } else {
            push_char(&mut out, '_');
        }
        i = i + 1;
        assert(out@ =~= sanitized(title@.take(i as int)));
    }
    assert(title@.take(cs@.len() as int) =~= title@);
    out
}

/// The file name tried for a title on the `attempt`-th try: `<title>.md`
/// first, then `<title>_1.md`, `<title>_2.md` and so on.
pub open spec fn candidate_name(title: Seq<char>, attempt: nat) -> Seq<char> {
    if attempt == 0 {
        title + ".md"@
    } else {
        title + seq!['_'] + nat_text(attempt) + ".md"@
    }
}

pub fn candidate_file_name(title: &str, attempt: u64) -> (r: String)
    ensures
        r@ == candidate_name(title@, attempt as nat),
{
    let mut s = String::new();
    append_str(&mut s, title);
    if attempt > 0 {
        push_char(&mut s, '_');
        push_nat_text(&mut s, attempt);
    }
    append_str(&mut s, ".md");
    s
}

/// A sanitized title holds only characters kept in file names.
pub proof fn law_sanitized_is_safe(title: Seq<char>)
    ensures
        sanitized(title).len() == title.len(),
        forall|i: int| 0 <= i < title.len() ==> name_safe(#[trigger] sanitized(title)[i]),
        forall|i: int|
            0 <= i < title.len() && name_safe(title[i]) ==> #[trigger] sanitized(title)[i]
                == title[i],
{
}

/// Different attempts try different names, so trying on until a name is free
/// never overwrites an existing file with a name already tried.
pub proof fn law_candidates_differ(title: Seq<char>, a: nat, b: nat)
    requires
        a != b,
    ensures
        candidate_name(title, a) != candidate_name(title, b),
{
    reveal_strlit(".md");
    crate::numbers::lemma_nat_text_digits(a);
    crate::numbers::lemma_nat_text_digits(b);
    let x = candidate_name(title, a);
    let y = candidate_name(title, b);
    if a == 0 || b == 0 {
        assert(x.len() != y.len());
    } else if x == y {
        let ta = nat_text(a);
        let tb = nat_text(b);
        assert(x.len() == y.len());
        assert(ta.len() == tb.len());
        assert(ta =~= x.subrange(title.len() + 1 as int, title.len() + 1 + ta.len() as int));
        assert(tb =~= y.subrange(title.len() + 1 as int, title.len() + 1 + tb.len() as int));
        assert(crate::numbers::digits_value(ta) == crate::numbers::digits_value(tb));
    }
}

} // verus!
