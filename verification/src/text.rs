//! Verified text building blocks: space padding, decimal rendering of
//! integers, boolean rendering, and bracketed comma-joined lists.

use vstd::prelude::*;

verus! {

/// A run of `n` space characters.
pub open spec fn spaces(n: nat) -> Seq<char>
    decreases n,
{
    if n == 0 {
        Seq::empty()
    } else {
        spaces((n - 1) as nat) + " "@
    }
}

/// Left-justify `s` in a field of `w` columns: pad with spaces on the right,
/// never truncate.
pub open spec fn pad_to(s: Seq<char>, w: nat) -> Seq<char> {
    if s.len() >= w {
        s
    } else {
        s + spaces((w - s.len()) as nat)
    }
}

/// The single decimal digit `d` (`d < 10`) as text.
pub open spec fn dec_digit(d: nat) -> Seq<char> {
    if d == 0 {
        "0"@
    } else if d == 1 {
        "1"@
    } else if d == 2 {
        "2"@
    } else if d == 3 {
        "3"@
    } else if d == 4 {
        "4"@
    } else if d == 5 {
        "5"@
    } else if d == 6 {
        "6"@
    } else if d == 7 {
        "7"@
    } else if d == 8 {
        "8"@
    } else {
        "9"@
    }
}

/// The decimal rendering of `n`, without sign or leading zeros (except for 0
/// itself).
pub open spec fn dec_str(n: nat) -> Seq<char>
    decreases n,
{
    if n < 10 {
        dec_digit(n)
    } else {
        dec_str(n / 10) + dec_digit(n % 10)
    }
}

/// The rendering of a boolean flag.
pub open spec fn bool_str(b: bool) -> Seq<char> {
    if b {
        "true"@
    } else {
        "false"@
    }
}

/// The parts joined with a comma-space separator, in order.
pub open spec fn comma_join(parts: Seq<Seq<char>>) -> Seq<char>
    decreases parts.len(),
{
    if parts.len() == 0 {
        Seq::empty()
    } else if parts.len() == 1 {
        parts[0]
    } else {
        comma_join(parts.drop_last()) + ", "@ + parts.last()
    }
}

/// The parts comma-joined and enclosed in square brackets.
pub open spec fn bracketed(parts: Seq<Seq<char>>) -> Seq<char> {
    "["@ + comma_join(parts) + "]"@
}

/// The character sequences behind a sequence of strings.
pub open spec fn str_views(v: Seq<String>) -> Seq<Seq<char>> {
    v.map_values(|s: String| s@)
}

pub broadcast proof fn lemma_str_views_push(v: Seq<String>, s: String)
    ensures
        #[trigger] str_views(v.push(s)) == str_views(v).push(s@),
{
    assert(str_views(v.push(s)) =~= str_views(v).push(s@));
}

/// Append `n` spaces to `out`.
pub fn push_spaces(out: &mut String, n: usize)
    ensures
        final(out)@ == old(out)@ + spaces(n as nat),
{
    let mut i: usize = 0;
    while i < n
        invariant
            i <= n,
            out@ == old(out)@ + spaces(i as nat),
        decreases n - i,
    {
        out.append(" ");
        i = i + 1;
    }
    assert(out@ == old(out)@ + spaces(n as nat));
}

/// A string of `n` spaces.
pub fn spaces_string(n: usize) -> (s: String)
    ensures
        s@ == spaces(n as nat),
{
    let mut s = String::new();
    push_spaces(&mut s, n);
    proof {
        assert(Seq::<char>::empty() + spaces(n as nat) =~= spaces(n as nat));
    }
    s
}

/// Append `s` left-justified in a field of `w` columns.
pub fn push_padded(out: &mut String, s: &str, w: usize)
    ensures
        final(out)@ == old(out)@ + pad_to(s@, w as nat),
{
    out.append(s);
    let ghost base = out@;
    proof {
        assert(base + spaces(0) =~= base);
    }
    let n = s.unicode_len();
    let mut i = n;
    while i < w
        invariant
            n == s@.len(),
            n <= i,
            n < w ==> i <= w,
            n >= w ==> i == n,
            base == old(out)@ + s@,
            out@ == base + spaces((i - n) as nat),
        decreases w - i,
    {
        out.append(" ");
        i = i + 1;
    }
    proof {
        if n >= w {
            assert(out@ == base + spaces(0));
            assert(base + spaces(0) =~= old(out)@ + pad_to(s@, w as nat));
        } else {
            assert(out@ == base + spaces((w - n) as nat));
            assert(base + spaces((w - n) as nat) =~= old(out)@ + pad_to(s@, w as nat));
        }
    }
}

/// Append the decimal rendering of `n`.
pub fn push_dec(out: &mut String, n: u64)
    ensures
        final(out)@ == old(out)@ + dec_str(n as nat),
    decreases n,
{
    if n >= 10 {
        push_dec(out, n / 10);
    }
    let d = n % 10;
    if d == 0 {
        out.append("0");
    } else if d == 1 {
        out.append("1");
    } else if d == 2 {
        out.append("2");
    } else if d == 3 {
        out.append("3");
    } else if d == 4 {
        out.append("4");
    } else if d == 5 {
        out.append("5");
    } else if d == 6 {
        out.append("6");
    } else if d == 7 {
        out.append("7");
    } else if d == 8 {
        out.append("8");
    } else {
        out.append("9");
    }
    proof {
        if n < 10 {
            assert(out@ == old(out)@ + dec_str(n as nat));
        } else {
            assert(out@ == old(out)@ + dec_str((n / 10) as nat) + dec_digit((n % 10) as nat));
            assert(dec_str(n as nat) == dec_str((n / 10) as nat) + dec_digit((n % 10) as nat));
            assert(old(out)@ + dec_str((n / 10) as nat) + dec_digit((n % 10) as nat) =~= old(
                out,
            )@ + dec_str(n as nat));
        }
    }
}

/// The decimal rendering of `n` as a fresh string.
pub fn dec_string(n: u64) -> (s: String)
    ensures
        s@ == dec_str(n as nat),
{
    let mut s = String::new();
    push_dec(&mut s, n);
    proof {
        assert(Seq::<char>::empty() + dec_str(n as nat) =~= dec_str(n as nat));
    }
    s
}

/// The rendering of a boolean flag as a fresh string.
pub fn bool_string(b: bool) -> (s: String)
    ensures
        s@ == bool_str(b),
{
    if b {
        String::from_str("true")
    } else {
        String::from_str("false")
    }
}

/// Join the parts with a comma-space separator and enclose them in brackets.
pub fn bracket_join(parts: &Vec<String>) -> (s: String)
    ensures
        s@ == bracketed(str_views(parts@)),
{
    let ghost views = str_views(parts@);
    let mut out = String::new();
    out.append("[");
    proof {
        assert(Seq::<char>::empty() + "["@ =~= "["@);
    }
    let mut i: usize = 0;
    while i < parts.len()
        invariant
            i <= parts.len(),
            views == str_views(parts@),
            views.len() == parts@.len(),
            out@ == "["@ + comma_join(views.take(i as int)),
        decreases parts.len() - i,
    {
        if i > 0 {
            out.append(", ");
        }
        out.append(parts[i].as_str());
        proof {
            let prev = views.take(i as int);
            let next = views.take(i + 1 as int);
            assert(next.drop_last() =~= prev);
            assert(next.last() == views[i as int]);
            assert(views[i as int] == parts@[i as int]@);
            if i == 0 {
                assert(comma_join(next) == views[0]);
                assert(out@ == "["@ + comma_join(prev) + parts@[0]@);
                assert(comma_join(prev) == Seq::<char>::empty());
                assert("["@ + comma_join(prev) + parts@[0]@ =~= "["@ + comma_join(next));
            } else {
                assert(comma_join(next) == comma_join(prev) + ", "@ + views[i as int]);
                assert(out@ == "["@ + comma_join(prev) + ", "@ + parts@[i as int]@);
                assert("["@ + comma_join(prev) + ", "@ + parts@[i as int]@ =~= "["@ + comma_join(
                    next,
                ));
            }
        }
        i = i + 1;
    }
    proof {
        assert(views.take(parts@.len() as int) =~= views);
    }
    out.append("]");
    proof {
        assert("["@ + comma_join(views) + "]"@ =~= bracketed(views));
    }
    out
}

} // verus!
