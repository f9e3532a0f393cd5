use vstd::prelude::*;
use vstd::string::*;


verus! {

/// The characters that `ammonia::clean_text` writes for one input character:
/// HTML-special characters become character references, every other
/// character passes through unchanged.
pub open spec fn html_escape_char(c: char) -> Seq<char> {
    if c == '<' {
        seq!['&', 'l', 't', ';']
    } else if c == '>' {
        seq!['&', 'g', 't', ';']
    } else if c == '"' {
        seq!['&', 'q', 'u', 'o', 't', ';']
    } else if c == '\'' {
        seq!['&', 'a', 'p', 'o', 's', ';']
    } else if c == '`' {
        seq!['&', 'g', 'r', 'a', 'v', 'e', ';']
    } else if c == '/' {
        seq!['&', '#', '4', '7', ';']
    } else if c == '&' {
        seq!['&', 'a', 'm', 'p', ';']
    } else if c == '=' {
        seq!['&', '#', '6', '1', ';']
    } else if c == ' ' {
        seq!['&', '#', '3', '2', ';']
    } else if c == '\t' {
        seq!['&', '#', '9', ';']
    } else if c == '\n' {
        seq!['&', '#', '1', '0', ';']
    } else if c == '\x0c' {
        seq!['&', '#', '1', '2', ';']
    } else if c == '\r' {
        seq!['&', '#', '1', '3', ';']
    } else if c == '\0' {
        seq!['&', '#', '6', '5', '5', '3', '3', ';']
    } else {
        seq![c]
    }
}

/// Plain text made safe to embed in HTML: each character replaced by
/// `html_escape_char`, in order.
pub open spec fn clean_text_spec(s: Seq<char>) -> Seq<char>
    decreases s.len(),
{
    if s.len() == 0 {
        Seq::empty()
    } else {
        clean_text_spec(s.drop_last()) + html_escape_char(s.last())
    }
}

/// Sanitizes free text with `ammonia::clean_text`, which escapes every
/// character that is special to an HTML parser (`<`, `>`, quotes, `&`, ...)
/// and passes all others through; its source is exactly that character map.
#[verifier::external_body]
pub fn sanitize(s: &str) -> (r: String)
    ensures
        r@ == clean_text_spec(s@),
{
    ammonia::clean_text(s)
}

/// No escaped character is an angle bracket.
proof fn lemma_escape_char_no_angle(c: char)
    ensures
        forall|i: int|
            0 <= i < html_escape_char(c).len() ==> html_escape_char(c)[i] != '<'
                && html_escape_char(c)[i] != '>',
{
}

/// Sanitized text never contains an HTML tag delimiter: no `<` and no `>`
/// survives `clean_text`.
pub proof fn lemma_sanitized_has_no_tags(s: Seq<char>)
    ensures
        !clean_text_spec(s).contains('<'),
        !clean_text_spec(s).contains('>'),
    decreases s.len(),
{
    if s.len() > 0 {
        lemma_sanitized_has_no_tags(s.drop_last());
        lemma_escape_char_no_angle(s.last());
        let a = clean_text_spec(s.drop_last());
        let b = html_escape_char(s.last());
        assert forall|i: int| 0 <= i < (a + b).len() implies (a + b)[i] != '<' && (a + b)[i]
            != '>' by {
            if i < a.len() {
                assert((a + b)[i] == a[i]);
            } else {
                assert((a + b)[i] == b[i - a.len()]);
            }
        }
    }
}

/// Appends one character.
pub fn push_char_checked(s: &mut String, c: char)
    ensures
        final(s)@ == old(s)@.push(c),
{
    crate::wrap::push_char(s, c);
}

/// Equality of two string slices, character by character.
pub fn str_eq(a: &str, b: &str) -> (r: bool)
    ensures
        r == (a@ == b@),
{
    let n = a.unicode_len();
    let m = b.unicode_len();
    if n != m {
        return false;
    }
    let mut i: usize = 0;
    while i < n
        invariant
            n == a@.len(),
            m == b@.len(),
            n == m,
            i <= n,
            forall|j: int| 0 <= j < i ==> a@[j] == b@[j],
        decreases n - i,
    {
        if a.get_char(i) != b.get_char(i) {
            return false;
        }
        i = i + 1;
    }
    assert(a@ =~= b@);
    true
}

} // verus!
