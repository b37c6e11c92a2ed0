//! Text building blocks shared by the exporters.

use vstd::prelude::*;

verus! {

/// `String::push` appends one character.
pub assume_specification[ std::string::String::push ](s: &mut std::string::String, ch: char)
    ensures
        final(s)@ == old(s)@.push(ch),
;

/// `String::push_str` appends a string slice.
pub assume_specification[ std::string::String::push_str ](s: &mut std::string::String, t: &str)
    ensures
        final(s)@ == old(s)@ + t@,
;

/// Escapes the four characters that are significant in HTML and XML text.
pub open spec fn escape_char(c: char) -> Seq<char> {
    if c == '&' {
        seq!['&', 'a', 'm', 'p', ';']
    } else if c == '<' {
        seq!['&', 'l', 't', ';']
    } else if c == '>' {
        seq!['&', 'g', 't', ';']
    } else if c == '"' {
        seq!['&', 'q', 'u', 'o', 't', ';']
    } else {
        seq![c]
    }
}

pub open spec fn escape_seq(s: Seq<char>) -> Seq<char>
    decreases s.len(),
{
    if s.len() == 0 {
        Seq::empty()
    } else {
        escape_seq(s.drop_last()) + escape_char(s.last())
    }
}

pub fn esc(s: &str) -> (r: String)
    ensures
        r@ == escape_seq(s@),
{
    let mut out = String::new();
    let ghost mut done: Seq<char> = Seq::empty();
    for c in it: s.chars()
        invariant
            it.seq() == s@,
            out@ == escape_seq(s@.take(it.index() as int)),
    {
        assert(s@.take(it.index() + 1).drop_last() == s@.take(it.index() as int));
        proof {
            reveal_strlit("&amp;");
            reveal_strlit("&lt;");
            reveal_strlit("&gt;");
            reveal_strlit("&quot;");
        }
        if c == '&' {
            out.push_str("&amp;");
        } else if c == '<' {
            out.push_str("&lt;");
        } else if c == '>' {
            out.push_str("&gt;");
        } else if c == '"' {
            out.push_str("&quot;");
        } else {
            out.push(c);
        }
    }
    assert(s@.take(s@.len() as int) == s@);
    out
}

} // verus!

verus! {

/// The characters of a string slice, in order.
pub fn chars_of(s: &str) -> (v: Vec<char>)
    ensures
        v@ == s@,
{
    let mut v: Vec<char> = Vec::new();
    for c in it: s.chars()
        invariant
            it.seq() == s@,
            v@ == s@.take(it.index() as int),
    {
        v.push(c);
        assert(v@ == s@.take(it.index() + 1));
    }
    assert(s@.take(s@.len() as int) == s@);
    v
}

/// Whether two string slices hold the same characters.
pub fn str_eq(a: &str, b: &str) -> (r: bool)
    ensures
        r == (a@ == b@),
{
    let x = chars_of(a);
    let y = chars_of(b);
    if x.len() != y.len() {
        return false;
    }
    let mut i: usize = 0;
    while i < x.len()
        invariant
            x@ == a@,
            y@ == b@,
            x.len() == y.len(),
            i <= x.len(),
            forall|j: int| 0 <= j < i ==> x@[j] == y@[j],
        decreases x.len() - i,
    {
        if x[i] != y[i] {
            return false;
        }
        i = i + 1;
    }
    assert(x@ =~= y@);
    true
}

/// An owned copy of a string slice.
pub fn owned(s: &str) -> (r: String)
    ensures
        r@ == s@,
{
    s.to_owned()
}

/// Joins `parts` with `sep` between neighbours.
pub open spec fn join_seq(parts: Seq<Seq<char>>, sep: Seq<char>) -> Seq<char>
    decreases parts.len(),
{
    if parts.len() == 0 {
        Seq::empty()
    } else if parts.len() == 1 {
        parts[0]
    } else {
        join_seq(parts.drop_last(), sep) + sep + parts.last()
    }
}

/// The non-empty members of `parts`, in order.
pub open spec fn keep_non_empty(parts: Seq<Seq<char>>) -> Seq<Seq<char>>
    decreases parts.len(),
{
    if parts.len() == 0 {
        Seq::empty()
    } else if parts.last().len() > 0 {
        keep_non_empty(parts.drop_last()).push(parts.last())
    } else {
        keep_non_empty(parts.drop_last())
    }
}

/// The views of a list of owned strings.
pub open spec fn views(v: Seq<String>) -> Seq<Seq<char>> {
    v.map_values(|s: String| s@)
}

pub proof fn lemma_views_push(v: Seq<String>, s: String)
    ensures
        views(v.push(s)) == views(v).push(s@),
{
    assert(views(v.push(s)) =~= views(v).push(s@));
}

/// Joins the non-empty members of `parts` with `sep`.
pub fn join_non_empty(parts: &Vec<String>, sep: &str) -> (r: String)
    ensures
        r@ == join_seq(keep_non_empty(views(parts@)), sep@),
{
    let mut out = String::new();
    let mut any = false;
    let mut i: usize = 0;
    while i < parts.len()
        invariant
            i <= parts.len(),
            out@ == join_seq(keep_non_empty(views(parts@.take(i as int))), sep@),
            any == (keep_non_empty(views(parts@.take(i as int))).len() > 0),
        decreases parts.len() - i,
    {
        let ghost before = views(parts@.take(i as int));
        let ghost after = views(parts@.take(i + 1));
        assert(after =~= before.push(parts@[i as int]@));
        assert(after.drop_last() =~= before);
        let ghost kept = keep_non_empty(before);
        proof {
            if parts@[i as int]@.len() > 0 {
                assert(keep_non_empty(after) == kept.push(parts@[i as int]@));
                assert(kept.push(parts@[i as int]@).drop_last() =~= kept);
            } else {
                assert(keep_non_empty(after) == kept);
            }
        }
        if !parts[i].as_str().is_empty() {
            if any {
                out.push_str(sep);
            }
            out.push_str(parts[i].as_str());
            any = true;
        }
        i = i + 1;
    }
    assert(parts@.take(parts.len() as int) == parts@);
    out
}

/// Decimal digits of a natural number, most significant first.
pub open spec fn decimal(n: nat) -> Seq<char>
    decreases n,
{
    if n < 10 {
        seq![digit_char(n)]
    } else {
        decimal(n / 10).push(digit_char(n % 10))
    }
}

pub open spec fn digit_char(d: nat) -> char {
    if d == 0 { '0' }
    else if d == 1 { '1' }
    else if d == 2 { '2' }
    else if d == 3 { '3' }
    else if d == 4 { '4' }
    else if d == 5 { '5' }
    else if d == 6 { '6' }
    else if d == 7 { '7' }
    else if d == 8 { '8' }
    else { '9' }
}

fn digit(d: u128) -> (c: char)
    requires
        d < 10,
    ensures
        c == digit_char(d as nat),
{
    if d == 0 { '0' }
    else if d == 1 { '1' }
    else if d == 2 { '2' }
    else if d == 3 { '3' }
    else if d == 4 { '4' }
    else if d == 5 { '5' }
    else if d == 6 { '6' }
    else if d == 7 { '7' }
    else if d == 8 { '8' }
    else { '9' }
}

/// Appends the decimal digits of `n` to `out`.
pub fn push_decimal(out: &mut String, n: u128)
    ensures
        final(out)@ == old(out)@ + decimal(n as nat),
    decreases n,
{
    if n < 10 {
        out.push(digit(n));
    } else {
        push_decimal(out, n / 10);
        out.push(digit(n % 10));
    }
}

} // verus!

verus! {

/// The text at position `i`, or "" past the end.
pub open spec fn text_at(s: Seq<Seq<char>>, i: int) -> Seq<char> {
    if 0 <= i < s.len() {
        s[i]
    } else {
        Seq::empty()
    }
}

/// The string at position `i`, or "" past the end.
pub fn str_at(v: &Vec<String>, i: usize) -> (r: &str)
    ensures
        r@ == text_at(views(v@), i as int),
{
    if i < v.len() {
        v[i].as_str()
    } else {
        proof { reveal_strlit(""); }
        ""
    }
}

/// " lpi-last" when `flag` holds: the class that draws the LPI group separator.
pub open spec fn lpi_last(flag: bool) -> Seq<char> {
    if flag {
        " lpi-last"@
    } else {
        Seq::empty()
    }
}

pub fn push_lpi_last(out: &mut String, flag: bool)
    ensures
        final(out)@ == old(out)@ + lpi_last(flag),
{
    if flag {
        out.push_str(" lpi-last");
    } else {
        assert(old(out)@ + lpi_last(flag) =~= old(out)@);
    }
}

/// Appends the escaped text of `s`.
pub fn push_escaped(out: &mut String, s: &str)
    ensures
        final(out)@ == old(out)@ + escape_seq(s@),
{
    let e = esc(s);
    out.push_str(e.as_str());
}

/// `open + s + close` for a non-empty `s`, nothing otherwise.
pub open spec fn wrapped(s: Seq<char>, open: Seq<char>, close: Seq<char>) -> Seq<char> {
    if s.len() == 0 {
        Seq::empty()
    } else {
        open + s + close
    }
}

pub proof fn lemma_escape_empty(s: Seq<char>)
    ensures
        (escape_seq(s).len() == 0) == (s.len() == 0),
    decreases s.len(),
{
    if s.len() > 0 {
        lemma_escape_empty(s.drop_last());
        assert(escape_char(s.last()).len() > 0);
    }
}

/// Appends the escaped `s` between `open` and `close` when `s` is non-empty.
pub fn push_wrapped_escaped(out: &mut String, s: &str, open: &str, close: &str)
    ensures
        final(out)@ == old(out)@ + wrapped(escape_seq(s@), open@, close@),
{
    proof { lemma_escape_empty(s@); }
    if !s.is_empty() {
        out.push_str(open);
        push_escaped(out, s);
        out.push_str(close);
        assert(final(out)@ =~= old(out)@ + wrapped(escape_seq(s@), open@, close@));
    } else {
        assert(old(out)@ + wrapped(escape_seq(s@), open@, close@) =~= old(out)@);
    }
}

} // verus!

verus! {

pub proof fn lemma_assoc(a: Seq<char>, b: Seq<char>, c: Seq<char>)
    ensures
        (a + b) + c == a + (b + c),
{
    assert((a + b) + c =~= a + (b + c));
}

pub proof fn lemma_add_empty(a: Seq<char>)
    ensures
        a + Seq::<char>::empty() == a,
{
    assert(a + Seq::<char>::empty() =~= a);
}


pub proof fn lemma_empty_add(a: Seq<char>)
    ensures
        Seq::<char>::empty() + a == a,
{
    assert(Seq::<char>::empty() + a =~= a);
}


/// Escaped text never holds a raw `<`, `>` or `"`, and every `&` in it starts
/// one of the four entities.
pub proof fn lemma_escape_safe(s: Seq<char>)
    ensures
        forall|i: int|
            0 <= i < escape_seq(s).len() ==> #[trigger] escape_seq(s)[i] != '<' && escape_seq(s)[i]
                != '>' && escape_seq(s)[i] != '"',
    decreases s.len(),
{
    if s.len() > 0 {
        lemma_escape_safe(s.drop_last());
        let a = escape_seq(s.drop_last());
        let b = escape_char(s.last());
        assert forall|i: int| 0 <= i < (a + b).len() implies #[trigger] (a + b)[i] != '<' && (a
            + b)[i] != '>' && (a + b)[i] != '"' by {
            if i >= a.len() {
                assert((a + b)[i] == b[i - a.len()]);
            } else {
                assert((a + b)[i] == a[i]);
            }
        }
    }
}

/// Joins every member of `parts` with `sep` between neighbours.
pub fn join_all(parts: &Vec<String>, sep: &str) -> (r: String)
    ensures
        r@ == join_seq(views(parts@), sep@),
{
    let mut s = String::new();
    let n = parts.len();
    let mut i: usize = 0;
    while i < n
        invariant
            n == parts.len(),
            i <= n,
            s@ == join_seq(views(parts@).take(i as int), sep@),
        decreases n - i,
    {
        let ghost v = views(parts@);
        assert(v.take(i + 1).drop_last() =~= v.take(i as int));
        assert(v[i as int] == parts@[i as int]@);
        if i > 0 {
            s.push_str(sep);
            s.push_str(parts[i].as_str());
        } else {
            s.push_str(parts[i].as_str());
            proof { lemma_empty_add(parts@[i as int]@); }
        }
        i = i + 1;
    }
    assert(views(parts@).take(n as int) =~= views(parts@));
    s
}

} // verus!
