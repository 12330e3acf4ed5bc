//! Text primitives over sequences of characters: joining, splitting into lines,
//! substring search and replacement, decimal rendering.

use vstd::prelude::*;
use vstd::string::*;

verus! {

/// The characters of each string of `v`, in order.
pub open spec fn texts(v: Seq<String>) -> Seq<Seq<char>> {
    Seq::new(v.len(), |i: int| v[i]@)
}

/// The parts of `parts` written one after another with `sep` between neighbours.
pub open spec fn join(parts: Seq<Seq<char>>, sep: Seq<char>) -> Seq<char>
    decreases parts.len(),
{
    if parts.len() == 0 {
        Seq::empty()
    } else if parts.len() == 1 {
        parts[0]
    } else {
        join(parts.drop_last(), sep) + sep + parts.last()
    }
}

/// `pat` occurs in `s` at position `i`.
pub open spec fn matches_at(s: Seq<char>, pat: Seq<char>, i: int) -> bool {
    0 <= i && i + pat.len() <= s.len() && s.subrange(i, i + pat.len()) == pat
}

/// `pat` occurs somewhere in `s`.
pub open spec fn contains(s: Seq<char>, pat: Seq<char>) -> bool {
    exists|i: int| matches_at(s, pat, i)
}

/// `s` with every occurrence of `pat` replaced by `with`, scanning from the left;
/// what was put in is not scanned again. With an empty `pat` nothing is
/// replaced.
pub open spec fn replace_all(s: Seq<char>, pat: Seq<char>, with: Seq<char>) -> Seq<char>
    decreases s.len(),
{
    if pat.len() == 0 || s.len() == 0 {
        s
    } else if matches_at(s, pat, 0) {
        with + replace_all(s.skip(pat.len() as int), pat, with)
    } else {
        seq![s[0]] + replace_all(s.skip(1), pat, with)
    }
}

/// A line without the carriage return that preceded its line feed.
pub open spec fn strip_cr(line: Seq<char>) -> Seq<char> {
    if line.len() > 0 && line.last() == '\r' {
        line.drop_last()
    } else {
        line
    }
}

/// The lines of `cur + s`, where `cur` holds no line feed.
pub open spec fn split_from(s: Seq<char>, cur: Seq<char>) -> Seq<Seq<char>>
    decreases s.len(),
{
    if s.len() == 0 {
        if cur.len() == 0 {
            Seq::empty()
        } else {
            seq![cur]
        }
    } else if s[0] == '\n' {
        seq![strip_cr(cur)] + split_from(s.skip(1), Seq::empty())
    } else {
        split_from(s.skip(1), cur.push(s[0]))
    }
}

/// The lines of `s`. A line ends at a line feed, or at a carriage return and a
/// line feed; the terminator is not part of the line, and the last line needs
/// none.
pub open spec fn split_lines(s: Seq<char>) -> Seq<Seq<char>> {
    split_from(s, Seq::empty())
}

/// The characters of `s` as a vector.
pub fn to_chars(s: &str) -> (res: Vec<char>)
    ensures
        res@ == s@,
{
    let mut out: Vec<char> = Vec::new();
    for c in it: s.chars()
        invariant
            out@ == it.seq().take(it.index() as int),
    {
        out.push(c);
    }
    out
}

/// Joins `parts` with `sep` between neighbours.
pub fn join_strings(parts: &Vec<String>, sep: &str) -> (res: String)
    ensures
        res@ == join(texts(parts@), sep@),
{
    let mut out = String::new();
    let mut i: usize = 0;
    while i < parts.len()
        invariant
            i <= parts.len(),
            out@ == join(texts(parts@).take(i as int), sep@),
        decreases parts.len() - i,
    {
        proof {
            let t = texts(parts@);
            assert(t.take(i + 1).drop_last() =~= t.take(i as int));
            assert(t.take(i + 1).last() == parts@[i as int]@);
            if i == 0 {
                assert(out@ + parts@[0]@ =~= parts@[0]@);
            }
        }
        if i > 0 {
            out.append(sep);
        }
        out.append(parts[i].as_str());
        i = i + 1;
    }
    proof {
        assert(texts(parts@).take(parts.len() as int) =~= texts(parts@));
    }
    out
}

/// Whether `pat` occurs in `s` at position `i`.
fn occurs_at(s: &Vec<char>, pat: &Vec<char>, i: usize) -> (res: bool)
    ensures
        res == matches_at(s@, pat@, i as int),
{
    if pat.len() > s.len() || i > s.len() - pat.len() {
        return false;
    }
    let mut j: usize = 0;
    while j < pat.len()
        invariant
            j <= pat.len(),
            i + pat.len() <= s.len(),
            forall|k: int| 0 <= k < j ==> s@[i + k] == pat@[k],
        decreases pat.len() - j,
    {
        if s[i + j] != pat[j] {
            proof {
                assert(s@.subrange(i as int, i + pat.len())[j as int] == s@[i + j]);
            }
            return false;
        }
        j = j + 1;
    }
    proof {
        assert(s@.subrange(i as int, i + pat.len()) =~= pat@);
    }
    true
}

/// Whether `a` and `b` hold the same characters.
pub fn same_text(a: &str, b: &str) -> (res: bool)
    ensures
        res == (a@ == b@),
{
    let ac = to_chars(a);
    let bc = to_chars(b);
    if ac.len() != bc.len() {
        return false;
    }
    let res = occurs_at(&ac, &bc, 0);
    proof {
        assert(a@.subrange(0, a@.len() as int) =~= a@);
    }
    res
}

/// Whether `pat` occurs somewhere in `s`.
pub fn contains_str(s: &str, pat: &str) -> (res: bool)
    ensures
        res == contains(s@, pat@),
{
    let sc = to_chars(s);
    let pc = to_chars(pat);
    let mut i: usize = 0;
    while i < sc.len()
        invariant
            i <= sc.len(),
            sc@ == s@,
            pc@ == pat@,
            forall|k: int| 0 <= k < i ==> !matches_at(s@, pat@, k),
        decreases sc.len() - i,
    {
        if occurs_at(&sc, &pc, i) {
            return true;
        }
        i = i + 1;
    }
    occurs_at(&sc, &pc, i)
}

/// Replacing in what is left of `s` after `n` characters, when `pat` occurs there.
proof fn lemma_replace_match(s: Seq<char>, pat: Seq<char>, with: Seq<char>, n: int)
    requires
        pat.len() > 0,
        matches_at(s, pat, n),
    ensures
        replace_all(s.skip(n), pat, with) == with + replace_all(
            s.skip(n + pat.len()),
            pat,
            with,
        ),
{
    let rest = s.skip(n);
    assert(rest.subrange(0, pat.len() as int) =~= s.subrange(n, n + pat.len()));
    assert(rest.skip(pat.len() as int) =~= s.skip(n + pat.len()));
}

/// Replacing in what is left of `s` after `n` characters, when `pat` does not
/// occur there.
proof fn lemma_replace_step(s: Seq<char>, pat: Seq<char>, with: Seq<char>, n: int)
    requires
        pat.len() > 0,
        0 <= n < s.len(),
        !matches_at(s, pat, n),
    ensures
        replace_all(s.skip(n), pat, with) == seq![s[n]] + replace_all(s.skip(n + 1), pat, with),
{
    let rest = s.skip(n);
    if matches_at(rest, pat, 0) {
        assert(rest.subrange(0, pat.len() as int) =~= s.subrange(n, n + pat.len()));
    }
    assert(rest.skip(1) =~= s.skip(n + 1));
}

/// A text in which `pat` does not occur is left as it is.
pub proof fn lemma_replace_without_occurrence(s: Seq<char>, pat: Seq<char>, with: Seq<char>)
    requires
        !contains(s, pat),
    ensures
        replace_all(s, pat, with) == s,
    decreases s.len(),
{
    if pat.len() != 0 && s.len() != 0 {
        assert(!matches_at(s, pat, 0));
        let rest = s.skip(1);
        assert forall|i: int| !matches_at(rest, pat, i) by {
            if matches_at(rest, pat, i) {
                assert(rest.subrange(i, i + pat.len()) =~= s.subrange(i + 1, i + 1 + pat.len()));
                assert(matches_at(s, pat, i + 1));
            }
        }
        lemma_replace_without_occurrence(rest, pat, with);
        assert(seq![s[0]] + rest =~= s);
    }
}

/// Replaces every occurrence of `pat` in `s` by `with`.
pub fn replace_str(s: &str, pat: &str, with: &str) -> (res: String)
    ensures
        res@ == replace_all(s@, pat@, with@),
{
    let sc = to_chars(s);
    let pc = to_chars(pat);
    if pc.len() == 0 {
        return String::from_str(s);
    }
    let mut out = String::new();
    let mut start: usize = 0;
    let mut i: usize = 0;
    proof {
        assert(s@.skip(0) =~= s@);
        assert(out@ + s@.subrange(0, 0) + replace_all(s@, pat@, with@) =~= replace_all(
            s@,
            pat@,
            with@,
        ));
    }
    while i < sc.len()
        invariant
            start <= i <= sc.len(),
            sc@ == s@,
            pc@ == pat@,
            pat@.len() > 0,
            replace_all(s@, pat@, with@) == out@ + s@.subrange(start as int, i as int)
                + replace_all(s@.skip(i as int), pat@, with@),
        decreases sc.len() - i,
    {
        if occurs_at(&sc, &pc, i) {
            proof {
                lemma_replace_match(s@, pat@, with@, i as int);
                let next = i + pc.len();
                assert(out@ + s@.subrange(start as int, i as int) + (with@ + replace_all(
                    s@.skip(next),
                    pat@,
                    with@,
                )) =~= (out@ + s@.subrange(start as int, i as int) + with@) + s@.subrange(
                    next,
                    next,
                ) + replace_all(s@.skip(next), pat@, with@));
            }
            out.append(s.substring_char(start, i));
            out.append(with);
            i = i + pc.len();
            start = i;
        } else {
            proof {
                lemma_replace_step(s@, pat@, with@, i as int);
                assert(s@.subrange(start as int, i as int) + seq![s@[i as int]] =~= s@.subrange(
                    start as int,
                    i + 1,
                ));
                assert(out@ + s@.subrange(start as int, i as int) + (seq![s@[i as int]]
                    + replace_all(s@.skip(i + 1), pat@, with@)) =~= out@ + (s@.subrange(
                    start as int,
                    i as int,
                ) + seq![s@[i as int]]) + replace_all(s@.skip(i + 1), pat@, with@));
            }
            i = i + 1;
        }
    }
    proof {
        assert(s@.skip(i as int) =~= Seq::<char>::empty());
        assert(out@ + s@.subrange(start as int, i as int) + Seq::<char>::empty() =~= out@
            + s@.subrange(start as int, i as int));
    }
    out.append(s.substring_char(start, i));
    out
}

/// The lines of `s`, each as a string of its own.
pub fn lines(s: &str) -> (res: Vec<String>)
    ensures
        texts(res@) == split_lines(s@),
{
    let sc = to_chars(s);
    let mut out: Vec<String> = Vec::new();
    let mut start: usize = 0;
    let mut i: usize = 0;
    proof {
        assert(s@.skip(0) =~= s@);
        assert(s@.subrange(0, 0) =~= Seq::<char>::empty());
        assert(texts(out@) + split_from(s@, Seq::empty()) =~= split_lines(s@));
    }
    while i < sc.len()
        invariant
            start <= i <= sc.len(),
            sc@ == s@,
            split_lines(s@) == texts(out@) + split_from(
                s@.skip(i as int),
                s@.subrange(start as int, i as int),
            ),
        decreases sc.len() - i,
    {
        let ghost before = texts(out@);
        let ghost cur = s@.subrange(start as int, i as int);
        proof {
            assert(s@.skip(i as int)[0] == s@[i as int]);
            assert(s@.skip(i as int).skip(1) =~= s@.skip(i + 1));
        }
        if sc[i] == '\n' {
            let end = if i > start && sc[i - 1] == '\r' {
                i - 1
            } else {
                i
            };
            proof {
                if cur.len() > 0 {
                    assert(cur.last() == s@[i - 1]);
                }
                assert(s@.subrange(start as int, end as int) =~= strip_cr(cur));
                assert(s@.subrange(i + 1, i + 1) =~= Seq::<char>::empty());
            }
            out.push(String::from_str(s.substring_char(start, end)));
            proof {
                assert(texts(out@) =~= before + seq![strip_cr(cur)]);
                assert(before + (seq![strip_cr(cur)] + split_from(s@.skip(i + 1), Seq::empty()))
                    =~= (before + seq![strip_cr(cur)]) + split_from(s@.skip(i + 1), Seq::empty()));
            }
            start = i + 1;
        } else {
            proof {
                assert(cur.push(s@[i as int]) =~= s@.subrange(start as int, i + 1));
            }
        }
        i = i + 1;
    }
    proof {
        assert(s@.skip(i as int) =~= Seq::<char>::empty());
    }
    if start < i {
        let ghost before = texts(out@);
        out.push(String::from_str(s.substring_char(start, i)));
        proof {
            assert(texts(out@) =~= before + seq![s@.subrange(start as int, i as int)]);
        }
    } else {
        proof {
            assert(texts(out@) + Seq::<Seq<char>>::empty() =~= texts(out@));
        }
    }
    out
}

/// The characters with the Unicode property `White_Space`.
pub open spec fn is_whitespace_char(c: char) -> bool {
    let n = c as u32;
    ||| 0x09 <= n <= 0x0D
    ||| n == 0x20
    ||| n == 0x85
    ||| n == 0xA0
    ||| n == 0x1680
    ||| 0x2000 <= n <= 0x200A
    ||| n == 0x2028
    ||| n == 0x2029
    ||| n == 0x202F
    ||| n == 0x205F
    ||| n == 0x3000
}

/// Whether `c` is white space.
pub fn is_whitespace(c: char) -> (res: bool)
    ensures
        res == is_whitespace_char(c),
{
    let n: u32 = c as u32;
    (0x09 <= n && n <= 0x0D) || n == 0x20 || n == 0x85 || n == 0xA0 || n == 0x1680 || (0x2000 <= n
        && n <= 0x200A) || n == 0x2028 || n == 0x2029 || n == 0x202F || n == 0x205F || n == 0x3000
}

/// The ten decimal digits, by value.
pub open spec fn digit_char(d: int) -> char {
    seq!['0', '1', '2', '3', '4', '5', '6', '7', '8', '9'][d]
}

/// A natural number in decimal, without leading zeros.
pub open spec fn decimal_nat(n: nat) -> Seq<char>
    decreases n,
{
    if n < 10 {
        seq![digit_char(n as int)]
    } else {
        decimal_nat(n / 10).push(digit_char((n % 10) as int))
    }
}

/// An integer in decimal, with a minus sign in front of a negative one.
pub open spec fn decimal(i: int) -> Seq<char> {
    if i < 0 {
        seq!['-'] + decimal_nat((-i) as nat)
    } else {
        decimal_nat(i as nat)
    }
}

/// Appends `n` in decimal to `out`.
fn push_decimal(out: &mut String, n: u64)
    ensures
        final(out)@ == old(out)@ + decimal_nat(n as nat),
    decreases n,
{
    if n >= 10 {
        push_decimal(out, n / 10);
    }
    let d: usize = (n % 10) as usize;
    proof {
        reveal_strlit("0123456789");
        assert("0123456789"@.subrange(d as int, d + 1) =~= seq![digit_char(d as int)]);
        if n >= 10 {
            assert(old(out)@ + decimal_nat((n / 10) as nat) + seq![digit_char(d as int)] =~= old(
                out,
            )@ + decimal_nat((n / 10) as nat).push(digit_char(d as int)));
        }
    }
    out.append("0123456789".substring_char(d, d + 1));
}

/// `value` in decimal.
pub fn decimal_string(value: i64) -> (res: String)
    ensures
        res@ == decimal(value as int),
{
    let mut out = String::new();
    if value < 0 {
        proof {
            reveal_strlit("-");
            assert("-"@ =~= seq!['-']);
        }
        out.append("-");
        let magnitude: u64 = if value == i64::MIN {
            9223372036854775808u64
        } else {
            (-value) as u64
        };
        push_decimal(&mut out, magnitude);
    } else {
        push_decimal(&mut out, value as u64);
    }
    out
}

/// A value that can stand in a command line or a comment as text.
pub trait Render {
    /// The text that stands for the value.
    spec fn rendered(&self) -> Seq<char>;

    /// Writes the value out.
    fn render(&self) -> (res: String)
        ensures
            res@ == self.rendered(),
    ;
}

impl Render for &str {
    open spec fn rendered(&self) -> Seq<char> {
        self@
    }

    fn render(&self) -> (res: String) {
        String::from_str(*self)
    }
}

impl Render for String {
    open spec fn rendered(&self) -> Seq<char> {
        self@
    }

    fn render(&self) -> (res: String) {
        self.clone()
    }
}

impl Render for i32 {
    open spec fn rendered(&self) -> Seq<char> {
        decimal(*self as int)
    }

    fn render(&self) -> (res: String) {
        decimal_string(*self as i64)
    }
}

} // verus!
