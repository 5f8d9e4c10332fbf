//! Character-level helpers shared by the parsers and renderers of the crate.

use vstd::prelude::*;

verus! {

/// Unicode `White_Space` property, as used by `char::is_whitespace` and `str::trim`.
pub open spec fn is_ws_spec(c: char) -> bool {
    let v = c as u32;
    ||| 0x09 <= v <= 0x0D
    ||| v == 0x20
    ||| v == 0x85
    ||| v == 0xA0
    ||| v == 0x1680
    ||| 0x2000 <= v <= 0x200A
    ||| v == 0x2028
    ||| v == 0x2029
    ||| v == 0x202F
    ||| v == 0x205F
    ||| v == 0x3000
}

/// Executable `White_Space` test.
pub fn is_ws(c: char) -> (b: bool)
    ensures
        b == is_ws_spec(c),
{
    let v = c as u32;
    (0x09 <= v && v <= 0x0D) || v == 0x20 || v == 0x85 || v == 0xA0 || v == 0x1680 || (0x2000 <= v
        && v <= 0x200A) || v == 0x2028 || v == 0x2029 || v == 0x202F || v == 0x205F || v == 0x3000
}

/// The characters of a string slice, in order.
pub fn chars_of(s: &str) -> (v: Vec<char>)
    ensures
        v@ == s@,
{
    let mut v: Vec<char> = Vec::new();
    for c in it: s.chars()
        invariant
            v@ == it.seq().take(it.index()),
    {
        v.push(c);
    }
    v
}


/// `String::push`: appends one character.
#[verifier::external_body]
pub(crate) fn push_char(s: &mut String, c: char)
    ensures
        final(s)@ == old(s)@.push(c),
{
    s.push(c);
}

/// The string made of the characters of `v[from..to]`.
pub fn string_from_range(v: &Vec<char>, from: usize, to: usize) -> (s: String)
    requires
        from <= to <= v@.len(),
    ensures
        s@ == v@.subrange(from as int, to as int),
{
    let mut s = String::new();
    let mut i = from;
    while i < to
        invariant
            from <= i <= to <= v@.len(),
            s@ == v@.subrange(from as int, i as int),
        decreases to - i,
    {
        push_char(&mut s, v[i]);
        i = i + 1;
        assert(s@ =~= v@.subrange(from as int, i as int));
    }
    s
}

/// `s` with leading `White_Space` characters removed (`str::trim_start`).
pub open spec fn trim_start_spec(s: Seq<char>) -> Seq<char>
    decreases s.len(),
{
    if s.len() > 0 && is_ws_spec(s[0]) {
        trim_start_spec(s.drop_first())
    } else {
        s
    }
}

/// `s` with trailing `White_Space` characters removed (`str::trim_end`).
pub open spec fn trim_end_spec(s: Seq<char>) -> Seq<char>
    decreases s.len(),
{
    if s.len() > 0 && is_ws_spec(s.last()) {
        trim_end_spec(s.drop_last())
    } else {
        s
    }
}

/// `s` with `White_Space` removed at both ends (`str::trim`).
pub open spec fn trim_spec(s: Seq<char>) -> Seq<char> {
    trim_end_spec(trim_start_spec(s))
}

proof fn lemma_trim_start_from(s: Seq<char>, i: int)
    requires
        0 <= i <= s.len(),
        forall|k: int| 0 <= k < i ==> is_ws_spec(#[trigger] s[k]),
    ensures
        trim_start_spec(s) == trim_start_spec(s.subrange(i, s.len() as int)),
    decreases i,
{
    if i > 0 {
        assert(is_ws_spec(s[0]));
        let t = s.drop_first();
        assert forall|k: int| 0 <= k < i - 1 implies is_ws_spec(#[trigger] t[k]) by {
            assert(t[k] == s[k + 1]);
        }
        lemma_trim_start_from(t, i - 1);
        assert(t.subrange(i - 1, t.len() as int) =~= s.subrange(i, s.len() as int));
    } else {
        assert(s.subrange(0, s.len() as int) =~= s);
    }
}

proof fn lemma_trim_end_to(s: Seq<char>, j: int)
    requires
        0 <= j <= s.len(),
        forall|k: int| j <= k < s.len() ==> is_ws_spec(#[trigger] s[k]),
    ensures
        trim_end_spec(s) == trim_end_spec(s.subrange(0, j)),
    decreases s.len() - j,
{
    if j < s.len() {
        assert(is_ws_spec(s[s.len() - 1]));
        let t = s.drop_last();
        assert forall|k: int| j <= k < t.len() implies is_ws_spec(#[trigger] t[k]) by {
            assert(t[k] == s[k]);
        }
        lemma_trim_end_to(t, j);
        assert(t.subrange(0, j) =~= s.subrange(0, j));
    } else {
        assert(s.subrange(0, j) =~= s);
    }
}

/// Index bounds `(i, j)` such that `v[i..j]` is `v` trimmed at both ends.
fn trim_bounds(v: &Vec<char>, start: bool, end: bool) -> (r: (usize, usize))
    ensures
        r.0 <= r.1 <= v@.len(),
        v@.subrange(r.0 as int, r.1 as int) == ({
            let a = if start { trim_start_spec(v@) } else { v@ };
            if end { trim_end_spec(a) } else { a }
        }),
{
    let mut i: usize = 0;
    if start {
        while i < v.len() && is_ws(v[i])
            invariant
                i <= v@.len(),
                forall|k: int| 0 <= k < i ==> is_ws_spec(#[trigger] v@[k]),
            decreases v.len() - i,
        {
            i = i + 1;
        }
        proof {
            lemma_trim_start_from(v@, i as int);
            let t = v@.subrange(i as int, v@.len() as int);
            if t.len() > 0 {
                assert(t[0] == v@[i as int]);
            }
        }
    }
    let ghost a = v@.subrange(i as int, v@.len() as int);
    proof {
        if !start {
            assert(a =~= v@);
        }
    }
    let mut j: usize = v.len();
    if end {
        while j > i && is_ws(v[j - 1])
            invariant
                i <= j <= v@.len(),
                a == v@.subrange(i as int, v@.len() as int),
                forall|k: int| j <= k < v@.len() ==> is_ws_spec(#[trigger] v@[k]),
            decreases j,
        {
            j = j - 1;
        }
        proof {
            let jj = (j - i) as int;
            assert forall|k: int| jj <= k < a.len() implies is_ws_spec(#[trigger] a[k]) by {
                assert(a[k] == v@[k + i]);
            }
            lemma_trim_end_to(a, jj);
            let t = a.subrange(0, jj);
            assert(t =~= v@.subrange(i as int, j as int));
            if t.len() > 0 {
                assert(t.last() == v@[j - 1]);
            }
        }
    }
    (i, j)
}

/// `str::trim`: `s` without leading and trailing white space.
pub fn trim(s: &str) -> (r: String)
    ensures
        r@ == trim_spec(s@),
{
    let v = chars_of(s);
    let (i, j) = trim_bounds(&v, true, true);
    string_from_range(&v, i, j)
}

/// `str::trim_end`: `s` without trailing white space.
pub fn trim_end(s: &str) -> (r: String)
    ensures
        r@ == trim_end_spec(s@),
{
    let v = chars_of(s);
    let (i, j) = trim_bounds(&v, false, true);
    string_from_range(&v, i, j)
}


/// ASCII lowercase of one character (`char::to_ascii_lowercase`).
pub open spec fn ascii_lower(c: char) -> char {
    if 65 <= (c as u32) <= 90 {
        ((c as u32) + 32) as char
    } else {
        c
    }
}

/// ASCII lowercase of a string (`str::to_ascii_lowercase`).
pub open spec fn lower_spec(s: Seq<char>) -> Seq<char> {
    s.map_values(|c: char| ascii_lower(c))
}

/// Executable `char::to_ascii_lowercase`.
pub fn to_ascii_lower(c: char) -> (r: char)
    ensures
        r == ascii_lower(c),
{
    let v = c as u32;
    if 65 <= v && v <= 90 {
        ((v + 32) as u8) as char
    } else {
        c
    }
}

/// Whether the ASCII lowercase of `s` is exactly `lit`.
pub fn lower_equals(s: &str, lit: &str) -> (b: bool)
    ensures
        b == (lower_spec(s@) == lit@),
{
    let a = chars_of(s);
    let t = chars_of(lit);
    if a.len() != t.len() {
        assert(lower_spec(s@).len() != lit@.len());
        return false;
    }
    let mut i: usize = 0;
    while i < a.len()
        invariant
            a@ == s@,
            t@ == lit@,
            a@.len() == t@.len(),
            i <= a@.len(),
            forall|k: int| 0 <= k < i ==> #[trigger] lower_spec(s@)[k] == lit@[k],
        decreases a.len() - i,
    {
        if to_ascii_lower(a[i]) != t[i] {
            assert(lower_spec(s@)[i as int] != lit@[i as int]);
            return false;
        }
        i = i + 1;
    }
    assert(lower_spec(s@) =~= lit@);
    true
}

/// Whether `s` starts with `p`.
pub open spec fn starts_with_spec(s: Seq<char>, p: Seq<char>) -> bool {
    p.len() <= s.len() && s.subrange(0, p.len() as int) == p
}

/// `str::starts_with` on character sequences.
pub fn starts_with(s: &Vec<char>, p: &str) -> (b: bool)
    ensures
        b == starts_with_spec(s@, p@),
{
    let t = chars_of(p);
    if t.len() > s.len() {
        return false;
    }
    let mut i: usize = 0;
    while i < t.len()
        invariant
            t@ == p@,
            t@.len() <= s@.len(),
            i <= t@.len(),
            forall|k: int| 0 <= k < i ==> s@[k] == t@[k],
        decreases t.len() - i,
    {
        if s[i] != t[i] {
            assert(s@.subrange(0, t@.len() as int)[i as int] != p@[i as int]);
            return false;
        }
        i = i + 1;
    }
    assert(s@.subrange(0, p@.len() as int) =~= p@);
    true
}

/// Decimal digit character for `d < 10`.
pub open spec fn digit_char(d: int) -> char {
    (48 + d) as char
}

/// Whether `c` is one of `'0'..='9'`.
pub open spec fn is_digit_spec(c: char) -> bool {
    48 <= (c as u32) <= 57
}

/// Value of a decimal digit character.
pub open spec fn digit_value(c: char) -> int {
    (c as u32) - 48
}

/// Whether every character of `s` is a decimal digit.
pub open spec fn all_digits(s: Seq<char>) -> bool {
    forall|k: int| 0 <= k < s.len() ==> is_digit_spec(#[trigger] s[k])
}

/// Value of a string of decimal digits.
pub open spec fn digits_value(s: Seq<char>) -> int
    decreases s.len(),
{
    if s.len() == 0 {
        0
    } else {
        digits_value(s.drop_last()) * 10 + digit_value(s.last())
    }
}

/// Canonical decimal rendering of a natural number (`u64`'s `Display`).
pub open spec fn decimal_spec(n: nat) -> Seq<char>
    decreases n,
{
    if n < 10 {
        seq![digit_char(n as int)]
    } else {
        decimal_spec(n / 10).push(digit_char((n % 10) as int))
    }
}

/// Appends the decimal rendering of `n` to `s`.
pub fn push_decimal(s: &mut String, n: u64)
    ensures
        final(s)@ == old(s)@ + decimal_spec(n as nat),
    decreases n,
{
    if n >= 10 {
        push_decimal(s, n / 10);
    }
    let d = (n % 10) as u8;
    let c = (48u8 + d) as char;
    assert(c == digit_char((n % 10) as int));
    push_char(s, c);
    proof {
        if n < 10 {
            assert(old(s)@ + decimal_spec(n as nat) =~= old(s)@.push(c));
        } else {
            assert(old(s)@ + decimal_spec(n as nat) =~= (old(s)@ + decimal_spec((n / 10) as nat)).push(c));
        }
    }
}

/// The decimal rendering of `n`.
pub fn decimal(n: u64) -> (s: String)
    ensures
        s@ == decimal_spec(n as nat),
{
    let mut s = String::new();
    push_decimal(&mut s, n);
    assert(s@ =~= decimal_spec(n as nat));
    s
}


/// `<uN as FromStr>::from_str` for an unsigned type whose largest value is `max`:
/// an optional `+`, then one or more decimal digits whose value is at most `max`.
pub open spec fn parse_unsigned_spec(s: Seq<char>, max: int) -> Option<int> {
    let d = if s.len() > 0 && s[0] == '+' {
        s.drop_first()
    } else {
        s
    };
    if d.len() > 0 && all_digits(d) && digits_value(d) <= max {
        Some(digits_value(d))
    } else {
        None
    }
}

/// `i32::from_str`: an optional sign, then one or more decimal digits, in range.
pub open spec fn parse_i32_spec(s: Seq<char>) -> Option<int> {
    if s.len() > 0 && s[0] == '-' {
        let d = s.drop_first();
        if d.len() > 0 && all_digits(d) && digits_value(d) <= 0x8000_0000 {
            Some(-digits_value(d))
        } else {
            None
        }
    } else {
        parse_unsigned_spec(s, 0x7fff_ffff)
    }
}

proof fn lemma_digits_value_nonneg(s: Seq<char>)
    requires
        all_digits(s),
    ensures
        digits_value(s) >= 0,
    decreases s.len(),
{
    if s.len() > 0 {
        assert(is_digit_spec(s[s.len() - 1]));
        assert(all_digits(s.drop_last())) by {
            assert forall|k: int| 0 <= k < s.drop_last().len() implies is_digit_spec(
                #[trigger] s.drop_last()[k],
            ) by {
                assert(s.drop_last()[k] == s[k]);
            }
        }
        lemma_digits_value_nonneg(s.drop_last());
    }
}

proof fn lemma_digits_value_prefix(s: Seq<char>, i: int)
    requires
        all_digits(s),
        0 <= i <= s.len(),
    ensures
        0 <= digits_value(s.take(i)) <= digits_value(s),
    decreases s.len() - i,
{
    if i == s.len() {
        assert(s.take(i) =~= s);
        lemma_digits_value_nonneg(s);
    } else {
        let t = s.take(i + 1);
        assert(all_digits(t)) by {
            assert forall|k: int| 0 <= k < t.len() implies is_digit_spec(#[trigger] t[k]) by {
                assert(t[k] == s[k]);
            }
        }
        assert(t.drop_last() =~= s.take(i));
        assert(is_digit_spec(t.last()));
        lemma_digits_value_nonneg(t.drop_last());
        lemma_digits_value_prefix(s, i + 1);
    }
}

/// Value of the digits `v[from..]`, or `None` when a character is not a digit,
/// there is no digit, or the value exceeds `max`.
fn parse_digits(v: &Vec<char>, from: usize, max: u64) -> (r: Option<u64>)
    requires
        from <= v@.len(),
    ensures
        ({
            let d = v@.subrange(from as int, v@.len() as int);
            match r {
                Some(n) => d.len() > 0 && all_digits(d) && digits_value(d) <= max && n
                    == digits_value(d),
                None => !(d.len() > 0 && all_digits(d) && digits_value(d) <= max),
            }
        }),
{
    let ghost d = v@.subrange(from as int, v@.len() as int);
    if from == v.len() {
        return None;
    }
    let mut acc: u64 = 0;
    let mut i: usize = from;
    while i < v.len()
        invariant
            from <= i <= v@.len(),
            d == v@.subrange(from as int, v@.len() as int),
            all_digits(d.take(i - from)),
            acc == digits_value(d.take(i - from)),
            acc <= max,
        decreases v.len() - i,
    {
        let c = v[i];
        let cv = c as u32;
        if cv < 48 || cv > 57 {
            assert(d[i - from] == c);
            assert(!is_digit_spec(d[i - from]));
            return None;
        }
        let dig = (cv - 48) as u64;
        let ghost t = d.take(i - from + 1);
        assert(t.drop_last() =~= d.take(i - from));
        assert(t.last() == c);
        if dig > max || acc > (max - dig) / 10 {
            proof {
                if dig <= max {
                    assert(acc * 10 + dig > max) by (nonlinear_arith)
                        requires
                            acc > (max - dig) / 10,
                            dig <= max,
                    ;
                }
                if all_digits(d) {
                    lemma_digits_value_prefix(d, i - from + 1);
                }
            }
            return None;
        }
        assert(acc * 10 + dig <= max) by (nonlinear_arith)
            requires
                acc <= (max - dig) / 10,
                dig <= max,
        ;
        acc = acc * 10 + dig;
        i = i + 1;
        proof {
            assert forall|k: int| 0 <= k < t.len() implies is_digit_spec(#[trigger] t[k]) by {
                if k < t.len() - 1 {
                    assert(t[k] == d.take(i - from - 1)[k]);
                }
            }
        }
    }
    assert(d.take(i - from) =~= d);
    Some(acc)
}

/// `u64::from_str`, with the result kept only when it is at most `max`.
pub fn parse_unsigned(s: &str, max: u64) -> (r: Option<u64>)
    ensures
        match r {
            Some(n) => parse_unsigned_spec(s@, max as int) == Some(n as int),
            None => parse_unsigned_spec(s@, max as int) is None,
        },
{
    let v = chars_of(s);
    if v.len() > 0 && v[0] == '+' {
        assert(v@.subrange(1, v@.len() as int) =~= s@.drop_first());
        parse_digits(&v, 1, max)
    } else {
        assert(v@.subrange(0, v@.len() as int) =~= s@);
        parse_digits(&v, 0, max)
    }
}

/// `u32::from_str`.
pub fn parse_u32(s: &str) -> (r: Option<u32>)
    ensures
        match r {
            Some(n) => parse_unsigned_spec(s@, u32::MAX as int) == Some(n as int),
            None => parse_unsigned_spec(s@, u32::MAX as int) is None,
        },
{
    match parse_unsigned(s, u32::MAX as u64) {
        Some(n) => Some(n as u32),
        None => None,
    }
}

/// `u64::from_str`.
pub fn parse_u64(s: &str) -> (r: Option<u64>)
    ensures
        match r {
            Some(n) => parse_unsigned_spec(s@, u64::MAX as int) == Some(n as int),
            None => parse_unsigned_spec(s@, u64::MAX as int) is None,
        },
{
    parse_unsigned(s, u64::MAX)
}

/// `i32::from_str`.
pub fn parse_i32(s: &str) -> (r: Option<i32>)
    ensures
        match r {
            Some(n) => parse_i32_spec(s@) == Some(n as int),
            None => parse_i32_spec(s@) is None,
        },
{
    let v = chars_of(s);
    if v.len() > 0 && v[0] == '-' {
        assert(v@.subrange(1, v@.len() as int) =~= s@.drop_first());
        match parse_digits(&v, 1, 0x8000_0000) {
            Some(n) => {
                if n == 0x8000_0000 {
                    Some(i32::MIN)
                } else {
                    Some(-(n as i32))
                }
            },
            None => None,
        }
    } else {
        match parse_unsigned(s, 0x7fff_ffff) {
            Some(n) => Some(n as i32),
            None => None,
        }
    }
}


/// The pieces of `s` between `'\n'` characters (`str::split('\n')`).
pub open spec fn split_nl(s: Seq<char>) -> Seq<Seq<char>>
    decreases s.len(),
{
    if s.len() == 0 {
        seq![Seq::<char>::empty()]
    } else {
        let p = split_nl(s.drop_last());
        if s.last() == '\n' {
            p.push(Seq::<char>::empty())
        } else {
            p.update(p.len() - 1, p.last().push(s.last()))
        }
    }
}

proof fn lemma_split_nl_nonempty(s: Seq<char>)
    ensures
        split_nl(s).len() >= 1,
    decreases s.len(),
{
    if s.len() > 0 {
        lemma_split_nl_nonempty(s.drop_last());
    }
}

/// A line that ended with `"\r\n"` loses its `'\r'`.
pub open spec fn strip_cr(l: Seq<char>) -> Seq<char> {
    if l.len() > 0 && l.last() == '\r' {
        l.drop_last()
    } else {
        l
    }
}

/// `str::lines`: the lines of `s`, without their `"\n"` or `"\r\n"` endings;
/// a final line ending does not start an empty last line.
pub open spec fn lines_spec(s: Seq<char>) -> Seq<Seq<char>> {
    let parts = split_nl(s);
    let ended = parts.drop_last().map_values(|l: Seq<char>| strip_cr(l));
    if parts.last().len() == 0 {
        ended
    } else {
        ended.push(parts.last())
    }
}

/// `parts` joined with `sep` between consecutive parts (`[&str]::join`).
pub open spec fn join_spec(parts: Seq<Seq<char>>, sep: Seq<char>) -> Seq<char>
    decreases parts.len(),
{
    if parts.len() == 0 {
        Seq::<char>::empty()
    } else if parts.len() == 1 {
        parts[0]
    } else {
        join_spec(parts.drop_last(), sep) + sep + parts.last()
    }
}

/// The string `v[from..to]` without a last `'\r'`.
fn line_from_range(v: &Vec<char>, from: usize, to: usize) -> (s: String)
    requires
        from <= to <= v@.len(),
    ensures
        s@ == strip_cr(v@.subrange(from as int, to as int)),
{
    if to > from && v[to - 1] == '\r' {
        let s = string_from_range(v, from, to - 1);
        assert(s@ =~= v@.subrange(from as int, to as int).drop_last());
        s
    } else {
        string_from_range(v, from, to)
    }
}

/// The lines of `s`, as `str::lines` yields them.
pub fn lines_of(s: &str) -> (r: Vec<String>)
    ensures
        r.deep_view() == lines_spec(s@),
{
    let v = chars_of(s);
    let mut done: Vec<String> = Vec::new();
    let mut start: usize = 0;
    let mut i: usize = 0;
    proof {
        assert(v@.take(0) =~= Seq::<char>::empty());
        assert(split_nl(v@.take(0)) =~= seq![Seq::<char>::empty()]);
        assert(done.deep_view() =~= split_nl(v@.take(0)).drop_last().map_values(
            |l: Seq<char>| strip_cr(l),
        ));
        assert(v@.subrange(0, 0) =~= Seq::<char>::empty());
    }
    while i < v.len()
        invariant
            v@ == s@,
            start <= i <= v@.len(),
            split_nl(v@.take(i as int)).len() >= 1,
            done.deep_view() == split_nl(v@.take(i as int)).drop_last().map_values(
                |l: Seq<char>| strip_cr(l),
            ),
            split_nl(v@.take(i as int)).last() == v@.subrange(start as int, i as int),
        decreases v.len() - i,
    {
        let ghost prev = split_nl(v@.take(i as int));
        let ghost next = split_nl(v@.take(i + 1));
        assert(v@.take(i + 1).drop_last() =~= v@.take(i as int));
        assert(v@.take(i + 1).last() == v@[i as int]);
        if v[i] == '\n' {
            let line = line_from_range(&v, start, i);
            let ghost old_done = done.deep_view();
            done.push(line);
            proof {
                assert(next == prev.push(Seq::<char>::empty()));
                assert(next.drop_last() =~= prev);
                assert(prev =~= prev.drop_last().push(prev.last()));
                assert(done.deep_view() =~= old_done.push(strip_cr(prev.last())));
                assert(done.deep_view() =~= next.drop_last().map_values(|l: Seq<char>| strip_cr(l)));
            }
            start = i + 1;
            i = i + 1;
            assert(v@.subrange(start as int, i as int) =~= Seq::<char>::empty());
        } else {
            proof {
                assert(next == prev.update(prev.len() - 1, prev.last().push(v@[i as int])));
                assert(next.drop_last() =~= prev.drop_last());
                assert(next.last() =~= v@.subrange(start as int, i + 1));
            }
            i = i + 1;
        }
    }
    assert(v@.take(i as int) =~= s@);
    let ghost parts = split_nl(s@);
    if start < v.len() {
        let last = string_from_range(&v, start, v.len());
        let ghost old_done = done.deep_view();
        done.push(last);
        assert(done.deep_view() =~= old_done.push(parts.last()));
    }
    done
}

/// The strings of `parts` joined with `sep` between them.
pub fn join(parts: &Vec<String>, sep: &str) -> (r: String)
    ensures
        r@ == join_spec(parts.deep_view(), sep@),
{
    let mut r = String::new();
    let mut i: usize = 0;
    while i < parts.len()
        invariant
            i <= parts@.len(),
            r@ == join_spec(parts.deep_view().take(i as int), sep@),
        decreases parts.len() - i,
    {
        let ghost pv = parts.deep_view().take(i + 1);
        assert(pv.drop_last() =~= parts.deep_view().take(i as int));
        assert(pv.last() == parts[i as int]@);
        if i > 0 {
            r.append(sep);
        } else {
            assert(r@ =~= Seq::<char>::empty());
        }
        r.append(parts[i].as_str());
        proof {
            if i == 0 {
                assert(pv.len() == 1);
                assert(r@ =~= pv[0]);
            }
        }
        i = i + 1;
    }
    assert(parts.deep_view().take(i as int) =~= parts.deep_view());
    r
}

} // verus!
