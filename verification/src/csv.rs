use vstd::prelude::*;

use crate::moderation::opt_view;
use crate::text::push_char_checked;

verus! {

/// A field needs quoting when it holds a comma, a quote or a newline.
pub open spec fn needs_quote(s: Seq<char>) -> bool {
    s.contains(',') || s.contains('"') || s.contains('\n')
}

/// Every quote doubled.
pub open spec fn double_quotes(s: Seq<char>) -> Seq<char>
    decreases s.len(),
{
    if s.len() == 0 {
        Seq::empty()
    } else {
        double_quotes(s.drop_last()) + if s.last() == '"' {
            seq!['"', '"']
        } else {
            seq![s.last()]
        }
    }
}

/// A CSV field: quoted, with quotes doubled, when it needs quoting; as is
/// otherwise.
pub open spec fn escape_csv_spec(s: Seq<char>) -> Seq<char> {
    if needs_quote(s) {
        seq!['"'] + double_quotes(s) + seq!['"']
    } else {
        s
    }
}

/// Escapes one CSV field.
pub fn escape_csv(s: &str) -> (r: String)
    ensures
        r@ == escape_csv_spec(s@),
{
    let n = s.unicode_len();
    let mut quote = false;
    let mut i: usize = 0;
    while i < n
        invariant
            n == s@.len(),
            i <= n,
            quote == exists|j: int| 0 <= j < i && (s@[j] == ',' || s@[j] == '"' || s@[j] == '\n'),
        decreases n - i,
    {
        let c = s.get_char(i);
        if c == ',' || c == '"' || c == '\n' {
            quote = true;
        }
        i = i + 1;
    }
    proof {
        if quote {
            let j = choose|j: int| 0 <= j < n && (s@[j] == ',' || s@[j] == '"' || s@[j] == '\n');
            if s@[j] == ',' {
                assert(s@.contains(','));
            } else if s@[j] == '"' {
                assert(s@.contains('"'));
            } else {
                assert(s@.contains('\n'));
            }
        }
        if s@.contains(',') {
            let j = choose|j: int| 0 <= j < s@.len() && s@[j] == ',';
            assert(s@[j] == ',');
        }
        if s@.contains('"') {
            let j = choose|j: int| 0 <= j < s@.len() && s@[j] == '"';
            assert(s@[j] == '"');
        }
        if s@.contains('\n') {
            let j = choose|j: int| 0 <= j < s@.len() && s@[j] == '\n';
            assert(s@[j] == '\n');
        }
        assert(quote == needs_quote(s@));
    }
    if !quote {
        let r = s.to_owned();
        return r;
    }
    let mut r = String::new();
    push_char_checked(&mut r, '"');
    let mut i: usize = 0;
    while i < n
        invariant
            n == s@.len(),
            i <= n,
            r@ == seq!['"'] + double_quotes(s@.take(i as int)),
        decreases n - i,
    {
        let c = s.get_char(i);
        proof {
            assert(s@.take(i + 1).drop_last() =~= s@.take(i as int));
            assert(s@.take(i + 1).last() == c);
        }
        if c == '"' {
            push_char_checked(&mut r, '"');
            push_char_checked(&mut r, '"');
        } else {
            push_char_checked(&mut r, c);
        }
        proof {
            assert(r@ =~= seq!['"'] + double_quotes(s@.take(i + 1)));
        }
        i = i + 1;
    }
    push_char_checked(&mut r, '"');
    proof {
        assert(s@.take(n as int) =~= s@);
    }
    r
}

/// The decimal digits of a natural number.
pub open spec fn digits(n: nat) -> Seq<char>
    decreases n,
{
    if n < 10 {
        seq![digit_char(n)]
    } else {
        digits(n / 10) + seq![digit_char(n % 10)]
    }
}

pub open spec fn digit_char(d: nat) -> char {
    if d == 0 { '0' } else if d == 1 { '1' } else if d == 2 { '2' } else if d == 3 { '3' } else if d == 4 { '4' }
    else if d == 5 { '5' } else if d == 6 { '6' } else if d == 7 { '7' } else if d == 8 { '8' } else { '9' }
}

/// An integer in decimal, with a minus sign when negative.
pub open spec fn decimal(n: int) -> Seq<char> {
    if n < 0 {
        seq!['-'] + digits((-n) as nat)
    } else {
        digits(n as nat)
    }
}

fn digit_of(d: u64) -> (c: char)
    requires
        d < 10,
    ensures
        c == digit_char(d as nat),
{
    if d == 0 { '0' } else if d == 1 { '1' } else if d == 2 { '2' } else if d == 3 { '3' } else if d == 4 { '4' }
    else if d == 5 { '5' } else if d == 6 { '6' } else if d == 7 { '7' } else if d == 8 { '8' } else { '9' }
}

fn digits_of(n: u64) -> (r: Vec<char>)
    ensures
        r@ == digits(n as nat),
    decreases n,
{
    if n < 10 {
        let mut r: Vec<char> = Vec::new();
        r.push(digit_of(n));
        r
    } else {
        let mut r = digits_of(n / 10);
        r.push(digit_of(n % 10));
        r
    }
}

/// An integer in decimal (what `to_string` prints for an `i64`).
pub fn decimal_string(n: i64) -> (r: String)
    ensures
        r@ == decimal(n as int),
{
    let mag: u64 = if n < 0 {
        let m: i128 = 0 - (n as i128);
        m as u64
    } else {
        n as u64
    };
    assert(mag as int == if n < 0 { -(n as int) } else { n as int });
    let ds = digits_of(mag);
    let mut r = String::new();
    if n < 0 {
        push_char_checked(&mut r, '-');
    }
    let ghost start = r@;
    let mut i: usize = 0;
    while i < ds.len()
        invariant
            i <= ds@.len(),
            r@ == start + ds@.take(i as int),
        decreases ds@.len() - i,
    {
        push_char_checked(&mut r, ds[i]);
        proof {
            assert(start + ds@.take(i + 1) =~= (start + ds@.take(i as int)).push(ds@[i as int]));
        }
        i = i + 1;
    }
    proof {
        assert(ds@.take(ds@.len() as int) =~= ds@);
    }
    r
}

/// An optional integer in decimal, empty when absent.
pub open spec fn opt_decimal(n: Option<i64>) -> Seq<char> {
    match n {
        Some(v) => decimal(v as int),
        None => Seq::empty(),
    }
}

pub fn opt_decimal_string(n: Option<i64>) -> (r: String)
    ensures
        r@ == opt_decimal(n),
{
    match n {
        Some(v) => decimal_string(v),
        None => String::new(),
    }
}

/// An optional text, empty when absent.
pub open spec fn or_empty(s: Option<Seq<char>>) -> Seq<char> {
    match s {
        Some(v) => v,
        None => Seq::empty(),
    }
}

pub fn append_opt(r: &mut String, s: &Option<String>)
    ensures
        final(r)@ == old(r)@ + or_empty(opt_view(*s)),
{
    match s {
        Some(v) => r.append(v.as_str()),
        None => {
            proof {
                assert(old(r)@ + Seq::<char>::empty() =~= old(r)@);
            }
        },
    }
}

} // verus!

verus! {

/// The texts joined by a separator.
pub open spec fn join_views(s: Seq<Seq<char>>, sep: Seq<char>) -> Seq<char>
    decreases s.len(),
{
    if s.len() == 0 {
        Seq::empty()
    } else if s.len() == 1 {
        s[0]
    } else {
        join_views(s.drop_last(), sep) + sep + s.last()
    }
}

/// The texts of a list of strings.
pub open spec fn views(v: Seq<String>) -> Seq<Seq<char>> {
    v.map_values(|x: String| x@)
}

/// The strings joined by a separator (`join`).
pub fn join_strings(v: &Vec<String>, sep: &str) -> (r: String)
    ensures
        r@ == join_views(views(v@), sep@),
{
    let mut r = String::new();
    let mut i: usize = 0;
    while i < v.len()
        invariant
            i <= v@.len(),
            r@ == join_views(views(v@.take(i as int)), sep@),
        decreases v@.len() - i,
    {
        proof {
            assert(views(v@.take(i + 1)).drop_last() =~= views(v@.take(i as int)));
        }
        if i > 0 {
            r.append(sep);
        }
        r.append(v[i].as_str());
        proof {
            if i == 0 {
                assert(r@ =~= join_views(views(v@.take(1)), sep@));
            } else {
                assert(r@ =~= join_views(views(v@.take(i + 1)), sep@));
            }
        }
        i = i + 1;
    }
    proof {
        assert(v@.take(v@.len() as int) =~= v@);
    }
    r
}

/// The UTC time text of a timestamp, empty when out of range.
pub open spec fn time_text(secs: i64) -> Seq<char> {
    or_empty(crate::wrap::utc_text(secs))
}

pub fn append_time(r: &mut String, secs: i64)
    ensures
        final(r)@ == old(r)@ + time_text(secs),
{
    let t = crate::wrap::utc_string(secs);
    append_opt(r, &t);
}

/// Appends a field and the comma after it.
pub fn append_field(r: &mut String, s: &str)
    ensures
        final(r)@ == old(r)@ + s@ + seq![','],
{
    r.append(s);
    push_char_checked(r, ',');
}

} // verus!
