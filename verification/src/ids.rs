use vstd::prelude::*;
use crate::text::chars_of;

verus! {

/// A lowercase hexadecimal digit.
pub open spec fn is_lower_hex(c: char) -> bool {
    ('0' <= c <= '9') || ('a' <= c <= 'f')
}

/// The shape of a fresh UUID's text: 36 characters, eight lowercase hex
/// digits, then a hyphen.
pub open spec fn uuid_shaped(s: Seq<char>) -> bool {
    &&& s.len() == 36
    &&& s[8] == '-'
    &&& forall|i: int| 0 <= i < 8 ==> is_lower_hex(#[trigger] s[i])
}

/// A fresh random UUID in its hyphenated text form: `uuid::Uuid::new_v4()`
/// then `to_string()`. Claims the shape uuid's formatter writes: 36
/// characters, eight lowercase hex digits, then a hyphen. What is random is
/// not stated.
#[verifier::external_body]
pub(crate) fn uuid_v4_text() -> (s: String)
    ensures
        s@.len() == 36,
        s@[8] == '-',
        forall|i: int| 0 <= i < 8 ==> is_lower_hex(#[trigger] s@[i]),
{
    uuid::Uuid::new_v4().to_string()
}

/// The part of `s` before its first `-` (`s.split('-').next()`).
pub open spec fn first_segment(s: Seq<char>) -> Seq<char>
    decreases s.len(),
{
    if s.len() == 0 {
        s
    } else if s[0] == '-' {
        Seq::empty()
    } else {
        seq![s[0]] + first_segment(s.drop_first())
    }
}

proof fn lemma_first_segment_prefix(s: Seq<char>, i: int)
    requires
        0 <= i <= s.len(),
        forall|j: int| 0 <= j < i ==> s[j] != '-',
    ensures
        first_segment(s) == s.take(i) + first_segment(s.skip(i)),
    decreases i,
{
    if i > 0 {
        lemma_first_segment_prefix(s.drop_first(), i - 1);
        assert(s.drop_first().take(i - 1) =~= s.take(i).drop_first());
        assert(s.drop_first().skip(i - 1) =~= s.skip(i));
        assert(seq![s[0]] + s.take(i).drop_first() =~= s.take(i));
    } else {
        assert(s.skip(0) =~= s);
        assert(s.take(0) + first_segment(s) =~= first_segment(s));
    }
}

/// `s.split('-').next()`: the characters of `s` before its first `-`.
pub fn first_segment_of(s: &str) -> (r: Vec<char>)
    ensures
        r@ == first_segment(s@),
{
    let cs = chars_of(s);
    let mut i: usize = 0;
    while i < cs.len() && cs[i] != '-'
        invariant
            i <= cs@.len(),
            cs@ == s@,
            forall|j: int| 0 <= j < i ==> cs@[j] != '-',
        decreases cs.len() - i,
    {
        i = i + 1;
    }
    proof {
        lemma_first_segment_prefix(cs@, i as int);
        if i < cs.len() {
            assert(cs@.skip(i as int)[0] == '-');
        } else {
            assert(cs@.skip(i as int).len() == 0);
        }
        assert(cs@.take(i as int) + first_segment(cs@.skip(i as int)) =~= cs@.take(i as int));
    }
    let mut r: Vec<char> = Vec::new();
    let mut k: usize = 0;
    while k < i
        invariant
            k <= i <= cs@.len(),
            r@ == cs@.take(k as int),
        decreases i - k,
    {
        r.push(cs[k]);
        k = k + 1;
        assert(r@ =~= cs@.take(k as int));
    }
    r
}

/// The short random token new record ids carry: the first group of a fresh
/// UUID, eight lowercase hex digits.
pub fn fresh_id_token() -> (t: Vec<char>)
    ensures
        t@.len() == 8,
        forall|i: int| 0 <= i < 8 ==> is_lower_hex(#[trigger] t@[i]),
{
    let u = uuid_v4_text();
    let t = first_segment_of(u.as_str());
    proof {
        lemma_first_segment_prefix(u@, 8);
        assert(u@.skip(8)[0] == '-');
        assert(u@.take(8) + first_segment(u@.skip(8)) =~= u@.take(8));
    }
    t
}

} // verus!
