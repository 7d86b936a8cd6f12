//! The corporate e-mail address generator.
//!
//! An address is derived from a first and a last name: the lowercased first
//! letter of the first name, a dot, the lowercased last name with every space
//! replaced by a hyphen, an `@` sign, and a fixed domain.  Only ASCII case
//! folding is performed; every other character passes through unchanged.

use vstd::prelude::*;

verus! {

/// The fixed domain appended after the `@` sign.
pub const DOMAIN_NAME: &'static str = "mycompany.com";

/// Reported when `first_name` holds no character, so no initial can be taken.
#[derive(Clone, Copy, Debug, PartialEq, Eq)]
pub struct InputError;

/// ASCII-only case folding of one character: `'A'..='Z'` map to `'a'..='z'`,
/// every other character is kept as it is.
pub open spec fn lower_char(c: char) -> char {
    if 'A' as int <= c as int && c as int <= 'Z' as int {
        (c as int + 32) as char
    } else {
        c
    }
}

/// One character of the last-name slug: a space becomes a hyphen, every
/// other character is kept as it is.
pub open spec fn slug_char(c: char) -> char {
    if c == ' ' {
        '-'
    } else {
        c
    }
}

/// ASCII-only case folding of a whole string.
pub open spec fn lower_seq(s: Seq<char>) -> Seq<char> {
    s.map_values(|c: char| lower_char(c))
}

/// The slug of a whole string: every space replaced by a hyphen.
pub open spec fn slug_seq(s: Seq<char>) -> Seq<char> {
    s.map_values(|c: char| slug_char(c))
}

/// The address derived from a non-empty first name and a last name.
pub open spec fn email_spec(first: Seq<char>, last: Seq<char>) -> Seq<char>
    recommends
        first.len() > 0,
{
    seq![lower_char(first[0]), '.'] + slug_seq(lower_seq(last)) + seq!['@'] + DOMAIN_NAME@
}

/// ASCII-only upper casing of one character: `'a'..='z'` map to `'A'..='Z'`,
/// every other character is kept as it is.
pub open spec fn upper_char(c: char) -> char {
    if 'a' as int <= c as int && c as int <= 'z' as int {
        (c as int - 32) as char
    } else {
        c
    }
}

/// ASCII-only upper casing of a whole string.
pub open spec fn upper_seq(s: Seq<char>) -> Seq<char> {
    s.map_values(|c: char| upper_char(c))
}

/// True when `c` is an ASCII letter.
pub open spec fn is_ascii_letter(c: char) -> bool {
    ('A' as int <= c as int && c as int <= 'Z' as int) || ('a' as int <= c as int && c as int
        <= 'z' as int)
}

/// True when every character of `s` is an ASCII letter.
pub open spec fn all_ascii_letters(s: Seq<char>) -> bool {
    forall|i: int| 0 <= i < s.len() ==> is_ascii_letter(#[trigger] s[i])
}

/// The generated address is a function of the two names alone: identical
/// (non-empty) names always give the identical address.
pub proof fn lemma_generate_deterministic(
    first1: Seq<char>,
    last1: Seq<char>,
    first2: Seq<char>,
    last2: Seq<char>,
)
    requires
        first1.len() > 0,
        last1.len() > 0,
        first1 == first2,
        last1 == last2,
    ensures
        email_spec(first1, last1) == email_spec(first2, last2),
{
}

/// Folding the case of an ASCII letter downward gives the same character
/// whether the letter was first raised or first lowered.
proof fn lemma_fold_letter(c: char)
    requires
        is_ascii_letter(c),
    ensures
        lower_char(upper_char(c)) == lower_char(lower_char(c)),
{
}

/// Case invariance: for names made of ASCII letters, the upper-cased names
/// generate the same address as the lower-cased names.
pub proof fn lemma_case_invariance(first: Seq<char>, last: Seq<char>)
    requires
        first.len() > 0,
        all_ascii_letters(first),
        all_ascii_letters(last),
    ensures
        email_spec(upper_seq(first), upper_seq(last)) == email_spec(
            lower_seq(first),
            lower_seq(last),
        ),
{
    lemma_fold_letter(first[0]);
    assert(lower_seq(upper_seq(last)) =~= lower_seq(lower_seq(last))) by {
        assert forall|i: int| 0 <= i < last.len() implies lower_char(upper_seq(last)[i])
            == lower_char(lower_seq(last)[i]) by {
            lemma_fold_letter(last[i]);
        }
    }
}

/// Idempotence of the slug rule: replacing every space with a hyphen a
/// second time changes nothing.
pub proof fn lemma_slug_idempotent(s: Seq<char>)
    ensures
        slug_seq(slug_seq(s)) == slug_seq(s),
{
    assert(slug_seq(slug_seq(s)) =~= slug_seq(s));
}

/// Relies on `String::push`: appends the given character to the end of the
/// string.
#[verifier::external_body]
fn push_char(s: &mut String, c: char)
    ensures
        final(s)@ == old(s)@ + seq![c],
{
    s.push(c)
}

/// Lowercases one character, folding only the ASCII uppercase range.
fn to_lower_char(c: char) -> (r: char)
    ensures
        r == lower_char(c),
{
    let u: u32 = c as u32;
    if 65 <= u && u <= 90 {
        ((u + 32) as u8) as char
    } else {
        c
    }
}

/// Derives the address for the two names, or reports that the first name is
/// empty and so has no first letter to take as the initial.
pub fn generate_email_address(first_name: &str, last_name: &str) -> (r: Result<
    String,
    InputError,
>)
    ensures
        first_name@.len() > 0 ==> (r matches Ok(address) && address@ == email_spec(
            first_name@,
            last_name@,
        )),
        first_name@.len() == 0 ==> r == Err::<String, InputError>(InputError),
{
    let first_len: usize = first_name.unicode_len();
    if first_len == 0 {
        return Err(InputError);
    }
    let initial = to_lower_char(first_name.get_char(0));
    let mut out = String::new();
    push_char(&mut out, initial);
    push_char(&mut out, '.');
    let last_len: usize = last_name.unicode_len();
    let mut i: usize = 0;
    proof {
        assert(out@ =~= seq![initial, '.'] + slug_seq(lower_seq(last_name@.subrange(0, 0))));
    }
    while i < last_len
        invariant
            i <= last_len,
            last_len == last_name@.len(),
            initial == lower_char(first_name@[0]),
            out@ == seq![initial, '.'] + slug_seq(lower_seq(last_name@.subrange(0, i as int))),
        decreases last_len - i,
    {
        let c = last_name.get_char(i);
        let lc = to_lower_char(c);
        let d = if lc == ' ' {
            '-'
        } else {
            lc
        };
        push_char(&mut out, d);
        proof {
            assert(slug_seq(lower_seq(last_name@.subrange(0, i + 1))) =~= slug_seq(
                lower_seq(last_name@.subrange(0, i as int)),
            ).push(d));
            assert(out@ =~= seq![initial, '.'] + slug_seq(
                lower_seq(last_name@.subrange(0, i + 1)),
            ));
        }
        i = i + 1;
    }
    push_char(&mut out, '@');
    out.append(DOMAIN_NAME);
    proof {
        assert(last_name@.subrange(0, last_len as int) =~= last_name@);
        assert(out@ =~= email_spec(first_name@, last_name@));
    }
    Ok(out)
}

} // verus!
