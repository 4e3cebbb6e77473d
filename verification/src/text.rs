//! Character-level text helpers the components share: whitespace trimming,
//! line splitting, decimal numbers and digit grouping, substring search.
use vstd::prelude::*;
use vstd::string::StringSliceAdditionalSpecFns;

verus! {

broadcast use vstd::string::group_string_axioms;

/// The characters of `s`, in order.
pub fn chars_of(s: &str) -> (out: Vec<char>)
    ensures
        out@ == s@,
{
    let mut out: Vec<char> = Vec::new();
    for c in it: s.chars()
        invariant
            out@ == it.seq().take(it.index()),
            it.seq() == s@,
    {
        out.push(c);
    }
    out
}

/// `std`'s collection of characters into a `String`: the string holds
/// exactly `chars`, in order.
#[verifier::external_body]
pub(crate) fn string_from(chars: &Vec<char>) -> (s: String)
    ensures
        s@ == chars@,
{
    chars.iter().collect()
}

/// Appends every character of `tail` to `out`.
pub fn extend_chars(out: &mut Vec<char>, tail: &Vec<char>)
    ensures
        final(out)@ == old(out)@ + tail@,
{
    let ghost start = out@;
    for i in 0..tail.len()
        invariant
            out@ == start + tail@.take(i as int),
    {
        out.push(tail[i]);
        assert(tail@.take(i + 1) == tail@.take(i as int).push(tail@[i as int]));
    }
    assert(tail@.take(tail@.len() as int) == tail@);
}

/// Appends the characters of `tail` to `out`.
pub fn extend_str(out: &mut Vec<char>, tail: &str)
    ensures
        final(out)@ == old(out)@ + tail@,
{
    let t = chars_of(tail);
    extend_chars(out, &t);
}

/// Whether `a` and `b` hold the same characters.
pub fn same_text(a: &str, b: &str) -> (eq: bool)
    ensures
        eq == (a@ == b@),
{
    let x = chars_of(a);
    let y = chars_of(b);
    if x.len() != y.len() {
        return false;
    }
    for i in 0..x.len()
        invariant
            x@ == a@,
            y@ == b@,
            x@.len() == y@.len(),
            forall|j: int| 0 <= j < i ==> x@[j] == y@[j],
    {
        if x[i] != y[i] {
            return false;
        }
    }
    assert(x@ == y@);
    true
}

/// Unicode `White_Space`: the characters `str::trim` removes.
pub open spec fn is_space(c: char) -> bool {
    let u = c as u32;
    ||| 0x9 <= u <= 0xd
    ||| u == 0x20
    ||| u == 0x85
    ||| u == 0xa0
    ||| u == 0x1680
    ||| 0x2000 <= u <= 0x200a
    ||| u == 0x2028
    ||| u == 0x2029
    ||| u == 0x202f
    ||| u == 0x205f
    ||| u == 0x3000
}

/// Whether `c` is Unicode white space.
pub fn is_space_char(c: char) -> (b: bool)
    ensures
        b == is_space(c),
{
    let u = c as u32;
    (0x9 <= u && u <= 0xd) || u == 0x20 || u == 0x85 || u == 0xa0 || u == 0x1680 || (0x2000 <= u && u
        <= 0x200a) || u == 0x2028 || u == 0x2029 || u == 0x202f || u == 0x205f || u == 0x3000
}

/// `s` without its leading white space.
pub open spec fn trim_start(s: Seq<char>) -> Seq<char>
    decreases s.len(),
{
    if s.len() > 0 && is_space(s[0]) {
        trim_start(s.drop_first())
    } else {
        s
    }
}

/// `s` without its trailing white space.
pub open spec fn trim_end(s: Seq<char>) -> Seq<char>
    decreases s.len(),
{
    if s.len() > 0 && is_space(s.last()) {
        trim_end(s.drop_last())
    } else {
        s
    }
}

/// `s` without leading and trailing white space (`str::trim`).
pub open spec fn trim(s: Seq<char>) -> Seq<char> {
    trim_end(trim_start(s))
}

proof fn lemma_trim_start_leads(s: Seq<char>)
    ensures
        trim_start(s).len() > 0 ==> !is_space(trim_start(s)[0]),
        trim_start(s).len() <= s.len(),
    decreases s.len(),
{
    if s.len() > 0 && is_space(s[0]) {
        lemma_trim_start_leads(s.drop_first());
    }
}

proof fn lemma_trim_end_keeps_front(s: Seq<char>)
    ensures
        trim_end(s) == s.take(trim_end(s).len() as int),
        trim_end(s).len() <= s.len(),
        trim_end(s).len() > 0 ==> !is_space(trim_end(s).last()),
    decreases s.len(),
{
    if s.len() > 0 && is_space(s.last()) {
        lemma_trim_end_keeps_front(s.drop_last());
        assert(s.drop_last().take(trim_end(s).len() as int) == s.take(trim_end(s).len() as int));
    } else {
        assert(s.take(s.len() as int) == s);
    }
}

/// Trimming is done in one pass: a trimmed text neither starts nor ends in
/// white space, so trimming it again leaves it as it is.
pub proof fn lemma_trim_is_trimmed(s: Seq<char>)
    ensures
        trim(trim(s)) == trim(s),
        trim(s).len() > 0 ==> !is_space(trim(s)[0]) && !is_space(trim(s).last()),
{
    let a = trim_start(s);
    lemma_trim_start_leads(s);
    lemma_trim_end_keeps_front(a);
    let t = trim_end(a);
    if t.len() > 0 {
        assert(t[0] == a[0]);
        assert(trim_start(t) == t);
        assert(trim_end(t) == t);
    } else {
        assert(trim_start(t) == t);
    }
}

/// Whether `s` is empty or all white space.
pub open spec fn is_blank(s: Seq<char>) -> bool {
    trim(s).len() == 0
}

/// Where trimming the leading white space of `s` starts.
pub fn trim_start_at(s: &Vec<char>, from: usize, to: usize) -> (lo: usize)
    requires
        from <= to <= s.len(),
    ensures
        from <= lo <= to,
        s@.subrange(lo as int, to as int) == trim_start(s@.subrange(from as int, to as int)),
{
    let mut lo = from;
    while lo < to && is_space_char(s[lo])
        invariant
            from <= lo <= to <= s.len(),
            trim_start(s@.subrange(lo as int, to as int)) == trim_start(
                s@.subrange(from as int, to as int),
            ),
        decreases to - lo,
    {
        assert(s@.subrange(lo as int, to as int).drop_first() == s@.subrange(lo + 1, to as int));
        lo = lo + 1;
    }
    lo
}

/// Where trimming the trailing white space of `s[from..to]` ends.
pub fn trim_end_at(s: &Vec<char>, from: usize, to: usize) -> (hi: usize)
    requires
        from <= to <= s.len(),
    ensures
        from <= hi <= to,
        s@.subrange(from as int, hi as int) == trim_end(s@.subrange(from as int, to as int)),
{
    let mut hi = to;
    while hi > from && is_space_char(s[hi - 1])
        invariant
            from <= hi <= to <= s.len(),
            trim_end(s@.subrange(from as int, hi as int)) == trim_end(
                s@.subrange(from as int, to as int),
            ),
        decreases hi - from,
    {
        assert(s@.subrange(from as int, hi as int).drop_last() == s@.subrange(
            from as int,
            hi - 1,
        ));
        hi = hi - 1;
    }
    hi
}

/// The bounds of `s[from..to]` with leading and trailing white space cut.
pub fn trim_range(s: &Vec<char>, from: usize, to: usize) -> (r: (usize, usize))
    requires
        from <= to <= s.len(),
    ensures
        from <= r.0 <= r.1 <= to,
        s@.subrange(r.0 as int, r.1 as int) == trim(s@.subrange(from as int, to as int)),
{
    let lo = trim_start_at(s, from, to);
    let hi = trim_end_at(s, lo, to);
    (lo, hi)
}

/// The characters of `s[from..to]`.
pub fn slice_chars(s: &Vec<char>, from: usize, to: usize) -> (out: Vec<char>)
    requires
        from <= to <= s.len(),
    ensures
        out@ == s@.subrange(from as int, to as int),
{
    let mut out: Vec<char> = Vec::new();
    let mut i = from;
    while i < to
        invariant
            from <= i <= to <= s.len(),
            out@ == s@.subrange(from as int, i as int),
        decreases to - i,
    {
        out.push(s[i]);
        assert(s@.subrange(from as int, i + 1) == s@.subrange(from as int, i as int).push(
            s@[i as int],
        ));
        i = i + 1;
    }
    out
}

/// `s` with leading and trailing white space cut (`str::trim`).
pub fn trimmed(s: &str) -> (out: Vec<char>)
    ensures
        out@ == trim(s@),
{
    let c = chars_of(s);
    let (lo, hi) = trim_range(&c, 0, c.len());
    assert(c@.subrange(0, c@.len() as int) == c@);
    slice_chars(&c, lo, hi)
}

/// Whether `s` is empty or all white space.
pub fn blank(s: &str) -> (b: bool)
    ensures
        b == is_blank(s@),
{
    let t = trimmed(s);
    t.len() == 0
}



/// The first index at or after `i` holding a line feed, or `s.len()`.
pub open spec fn line_end(s: Seq<char>, i: int) -> int
    decreases s.len() - i,
{
    if i >= s.len() || i < 0 {
        s.len() as int
    } else if s[i] == '\n' {
        i
    } else {
        line_end(s, i + 1)
    }
}

/// A line ended by a line feed drops the carriage return before it.
pub open spec fn strip_cr(line: Seq<char>) -> Seq<char> {
    if line.len() > 0 && line.last() == '\r' {
        line.drop_last()
    } else {
        line
    }
}

/// The lines of `s` from index `i` on, as `str::lines` yields them: split at
/// `\n` (a `\r\n` ending loses its `\r` too), with no empty line after a
/// final line feed.
pub open spec fn lines_from(s: Seq<char>, i: int) -> Seq<Seq<char>>
    decreases s.len() - i,
{
    if i >= s.len() || i < 0 {
        seq![]
    } else {
        let e = line_end(s, i);
        if e >= s.len() || e < i {
            seq![s.subrange(i, s.len() as int)]
        } else {
            seq![strip_cr(s.subrange(i, e))] + lines_from(s, e + 1)
        }
    }
}

/// The lines of `s` (`str::lines`).
pub open spec fn lines(s: Seq<char>) -> Seq<Seq<char>> {
    lines_from(s, 0)
}

proof fn lemma_line_end_bounds(s: Seq<char>, i: int)
    requires
        0 <= i,
    ensures
        i <= line_end(s, i) <= s.len() || (i > s.len() && line_end(s, i) == s.len()),
        line_end(s, i) < s.len() ==> s[line_end(s, i)] == '\n',
        forall|j: int| i <= j < line_end(s, i) ==> s[j] != '\n',
    decreases s.len() - i,
{
    if i < s.len() && s[i] != '\n' {
        lemma_line_end_bounds(s, i + 1);
    }
}

proof fn lemma_lines_from_hold_no_line_feed(s: Seq<char>, i: int)
    requires
        0 <= i,
    ensures
        forall|k: int, j: int|
            0 <= k < lines_from(s, i).len() && 0 <= j < lines_from(s, i)[k].len() ==> #[trigger] lines_from(
                s,
                i,
            )[k][j] != '\n',
    decreases s.len() - i,
{
    if i < s.len() {
        let e = line_end(s, i);
        lemma_line_end_bounds(s, i);
        if e < s.len() {
            lemma_lines_from_hold_no_line_feed(s, e + 1);
            let first = strip_cr(s.subrange(i, e));
            let rest = lines_from(s, e + 1);
            assert(lines_from(s, i) == seq![first] + rest);
            assert forall|k: int, j: int|
                0 <= k < lines_from(s, i).len() && 0 <= j < lines_from(s, i)[k].len() implies #[trigger] lines_from(
                    s,
                    i,
                )[k][j] != '\n' by {
                if k == 0 {
                    assert(first[j] == s[i + j]);
                } else {
                    assert(lines_from(s, i)[k] == rest[k - 1]);
                }
            }
        } else {
            assert forall|k: int, j: int|
                0 <= k < lines_from(s, i).len() && 0 <= j < lines_from(s, i)[k].len() implies #[trigger] lines_from(
                    s,
                    i,
                )[k][j] != '\n' by {
                assert(lines_from(s, i)[k][j] == s[i + j]);
            }
        }
    }
}

/// No line of `s` holds a line feed: `lines` splits at every one.
pub proof fn lemma_lines_hold_no_line_feed(s: Seq<char>)
    ensures
        forall|k: int, j: int|
            0 <= k < lines(s).len() && 0 <= j < lines(s)[k].len() ==> #[trigger] lines(s)[k][j] != '\n',
{
    lemma_lines_from_hold_no_line_feed(s, 0);
}

/// The end of the line that starts at `from`: the index of the next line
/// feed, or `s.len()`.
pub fn find_line_end(s: &Vec<char>, from: usize) -> (e: usize)
    requires
        from <= s.len(),
    ensures
        e == line_end(s@, from as int),
        from <= e <= s.len(),
{
    let mut e = from;
    while e < s.len() && s[e] != '\n'
        invariant
            from <= e <= s.len(),
            line_end(s@, e as int) == line_end(s@, from as int),
        decreases s.len() - e,
    {
        e = e + 1;
    }
    proof {
        lemma_line_end_bounds(s@, from as int);
    }
    e
}

/// The bounds of every line of `s`, in order (`str::lines`).
pub fn line_ranges(s: &Vec<char>) -> (out: Vec<(usize, usize)>)
    ensures
        out@.len() == lines(s@).len(),
        forall|k: int|
            0 <= k < out@.len() ==> {
                &&& out@[k].0 <= out@[k].1 <= s@.len()
                &&& #[trigger] lines(s@)[k] == s@.subrange(out@[k].0 as int, out@[k].1 as int)
            },
{
    let mut out: Vec<(usize, usize)> = Vec::new();
    let mut i: usize = 0;
    while i < s.len()
        invariant
            i <= s.len(),
            lines(s@) == out@.map_values(|r: (usize, usize)| s@.subrange(r.0 as int, r.1 as int))
                + lines_from(s@, i as int),
            forall|k: int| #![trigger out@[k]] 0 <= k < out@.len() ==> out@[k].0 <= out@[k].1 <= s@.len(),
        decreases s.len() - i,
    {
        let e = find_line_end(s, i);
        let ghost before = out@;
        if e == s.len() {
            out.push((i, e));
            proof {
                assert(out@.map_values(|r: (usize, usize)| s@.subrange(r.0 as int, r.1 as int))
                    == before.map_values(|r: (usize, usize)| s@.subrange(r.0 as int, r.1 as int))
                    + lines_from(s@, i as int));
                assert(lines_from(s@, e as int) == Seq::<Seq<char>>::empty());
            }
            i = e;
        } else {
            let hi = if e > i && s[e - 1] == '\r' {
                e - 1
            } else {
                e
            };
            proof {
                let line = s@.subrange(i as int, e as int);
                if e > i && s@[e - 1] == '\r' {
                    assert(line.drop_last() == s@.subrange(i as int, hi as int));
                }
                assert(strip_cr(line) == s@.subrange(i as int, hi as int));
            }
            out.push((i, hi));
            proof {
                assert(out@.map_values(|r: (usize, usize)| s@.subrange(r.0 as int, r.1 as int))
                    == before.map_values(|r: (usize, usize)| s@.subrange(r.0 as int, r.1 as int))
                    .push(s@.subrange(i as int, hi as int)));
            }
            i = e + 1;
        }
    }
    proof {
        assert(lines_from(s@, i as int) == Seq::<Seq<char>>::empty());
        let m = out@.map_values(|r: (usize, usize)| s@.subrange(r.0 as int, r.1 as int));
        assert(lines(s@) == m);
        assert forall|k: int| 0 <= k < out@.len() implies #[trigger] lines(s@)[k] == s@.subrange(
            out@[k].0 as int,
            out@[k].1 as int,
        ) by {
            assert(m[k] == s@.subrange(out@[k].0 as int, out@[k].1 as int));
        }
    }
    out
}

/// The digit `d` (`0..=9`) as a character.
pub open spec fn digit_char(d: nat) -> char {
    ((48 + d) as u8) as char
}

/// `n` in decimal, most significant digit first (`u64::to_string`).
pub open spec fn decimal(n: nat) -> Seq<char>
    decreases n,
{
    if n < 10 {
        seq![digit_char(n)]
    } else {
        decimal(n / 10).push(digit_char(n % 10))
    }
}

/// The number the decimal digits `s` spell, most significant first.
pub open spec fn digits_value(s: Seq<char>) -> int
    decreases s.len(),
{
    if s.len() == 0 {
        0
    } else {
        digits_value(s.drop_last()) * 10 + (s.last() as int - 48)
    }
}

/// Writing a number in decimal is exact: every character is a digit, the
/// digits spell the number back, and no zero leads a number of two digits
/// or more.
pub proof fn lemma_decimal_spells_the_number(n: nat)
    ensures
        decimal(n).len() > 0,
        forall|i: int| 0 <= i < decimal(n).len() ==> '0' <= #[trigger] decimal(n)[i] <= '9',
        digits_value(decimal(n)) == n,
        n >= 10 ==> decimal(n)[0] != '0',
    decreases n,
{
    let last = n % 10;
    assert(((48 + last) as u8) as int == 48 + last);
    assert(digit_char(last) as int == 48 + last);
    if n < 10 {
        assert(decimal(n) == seq![digit_char(n)]);
        assert(decimal(n).drop_last() == Seq::<char>::empty());
        assert(digits_value(decimal(n)) == digits_value(Seq::<char>::empty()) * 10 + (decimal(n).last() as int - 48));
    }
    if n >= 10 {
        lemma_decimal_spells_the_number(n / 10);
        let d = decimal(n);
        let h = decimal(n / 10);
        assert(d == h.push(digit_char(n % 10)));
        assert(d.drop_last() == h);
        assert(d.last() == digit_char(last));
        assert(digits_value(d) == digits_value(h) * 10 + (d.last() as int - 48));
        assert(n == (n / 10) * 10 + n % 10);
        assert forall|i: int| 0 <= i < d.len() implies '0' <= #[trigger] d[i] <= '9' by {
            if i < h.len() {
                assert(d[i] == h[i]);
            }
        }
        assert(d[0] == h[0]);
        if n / 10 < 10 {
            assert(h == seq![digit_char(n / 10)]);
        }
    }
}

/// `n` in decimal.
pub fn decimal_chars(n: u64) -> (out: Vec<char>)
    ensures
        out@ == decimal(n as nat),
    decreases n,
{
    if n < 10 {
        let c = ((48 + n) as u8) as char;
        let mut out: Vec<char> = Vec::new();
        out.push(c);
        out
    } else {
        let mut out = decimal_chars(n / 10);
        let c = ((48 + n % 10) as u8) as char;
        out.push(c);
        out
    }
}


/// `digits` with a comma before every full group of three counted from the
/// right: `1007997` reads `1,007,997`.
pub open spec fn grouped(digits: Seq<char>) -> Seq<char>
    decreases digits.len(),
{
    if digits.len() <= 3 {
        digits
    } else {
        grouped(digits.take(digits.len() - 3)) + seq![','] + digits.skip(digits.len() - 3)
    }
}

fn group_prefix(digits: &Vec<char>, len: usize) -> (out: Vec<char>)
    requires
        len <= digits.len(),
    ensures
        out@ == grouped(digits@.take(len as int)),
    decreases len,
{
    if len <= 3 {
        slice_chars(digits, 0, len)
    } else {
        let mut out = group_prefix(digits, len - 3);
        out.push(',');
        let tail = slice_chars(digits, len - 3, len);
        extend_chars(&mut out, &tail);
        proof {
            let p = digits@.take(len as int);
            assert(p.take(p.len() - 3) == digits@.take(len - 3));
            assert(p.skip(p.len() - 3) == digits@.subrange(len - 3, len as int));
        }
        out
    }
}

/// `n` in decimal with its digits grouped in threes: `19,328`.
pub fn thousands(n: u64) -> (out: String)
    ensures
        out@ == grouped(decimal(n as nat)),
{
    let d = decimal_chars(n);
    let g = group_prefix(&d, d.len());
    assert(d@.take(d@.len() as int) == d@);
    string_from(&g)
}

/// Whether a character is not the group separator.
pub open spec fn not_comma(c: char) -> bool {
    c != ','
}

proof fn lemma_filter_keeps_all(s: Seq<char>)
    requires
        forall|i: int| 0 <= i < s.len() ==> not_comma(#[trigger] s[i]),
    ensures
        s.filter(|c: char| not_comma(c)) == s,
    decreases s.len(),
{
    reveal_with_fuel(Seq::filter, 1);
    if s.len() > 0 {
        lemma_filter_keeps_all(s.drop_last());
        assert(s.drop_last().push(s.last()) =~= s);
    }
}

proof fn lemma_ungrouped(d: Seq<char>)
    requires
        forall|i: int| 0 <= i < d.len() ==> not_comma(#[trigger] d[i]),
    ensures
        grouped(d).filter(|c: char| not_comma(c)) == d,
    decreases d.len(),
{
    let pred = |c: char| not_comma(c);
    if d.len() <= 3 {
        lemma_filter_keeps_all(d);
    } else {
        let head = d.take(d.len() - 3);
        let tail = d.skip(d.len() - 3);
        lemma_ungrouped(head);
        lemma_filter_keeps_all(tail);
        Seq::filter_distributes_over_add(grouped(head), seq![','], pred);
        Seq::filter_distributes_over_add(grouped(head) + seq![','], tail, pred);
        reveal_with_fuel(Seq::filter, 2);
        assert(seq![','].filter(pred) =~= Seq::<char>::empty()) by {
            assert(seq![','].drop_last() =~= Seq::<char>::empty());
        }
        assert(head + tail =~= d);
    }
}

proof fn lemma_decimal_digits(n: nat)
    ensures
        forall|i: int| 0 <= i < decimal(n).len() ==> not_comma(#[trigger] decimal(n)[i]),
    decreases n,
{
    if n >= 10 {
        lemma_decimal_digits(n / 10);
        let d = decimal(n);
        assert forall|i: int| 0 <= i < d.len() implies not_comma(#[trigger] d[i]) by {
            if i < d.len() - 1 {
                assert(d[i] == decimal(n / 10)[i]);
            }
        }
    }
}

/// Whether the first `k` characters of `t` are its leading group: one to
/// three characters, none a comma, ended by a comma or by the end of `t`.
pub open spec fn leading_group(t: Seq<char>, k: int) -> bool {
    &&& 1 <= k <= 3
    &&& k <= t.len()
    &&& (k == t.len() || t[k] == ',')
    &&& forall|j: int| 0 <= j < k ==> t[j] != ','
}

proof fn lemma_comma_places(d: Seq<char>)
    requires
        d.len() > 0,
        forall|i: int| 0 <= i < d.len() ==> not_comma(#[trigger] d[i]),
    ensures
        grouped(d).len() % 4 != 0,
        forall|i: int|
            0 <= i < grouped(d).len() ==> ((#[trigger] grouped(d)[i] == ',') <==> (i > 0 && (grouped(d).len()
                - i) % 4 == 0)),
    decreases d.len(),
{
    if d.len() > 3 {
        let head = d.take(d.len() - 3);
        let tail = d.skip(d.len() - 3);
        lemma_comma_places(head);
        let th = grouped(head);
        let t = grouped(d);
        assert(t == th + seq![','] + tail);
        assert forall|i: int| 0 <= i < t.len() implies ((#[trigger] t[i] == ',') <==> (i > 0 && (t.len() - i)
            % 4 == 0)) by {
            if i < th.len() {
                assert(t[i] == th[i]);
                assert((t.len() - i) % 4 == (th.len() - i) % 4);
            } else if i > th.len() {
                assert(t[i] == tail[i - th.len() - 1]);
            }
        }
    }
}

/// Grouping only adds separators, and only where they belong: the grouped
/// count with its commas taken out is the count's own digits (so the
/// breakdown counts tokens exactly); it neither starts nor ends with a
/// comma, its leading group holds one to three digits, and every comma is
/// followed by exactly three digits, then another comma or the end.
pub proof fn lemma_grouping_keeps_the_digits(n: nat)
    ensures
        ({
            let t = grouped(decimal(n));
            &&& t.filter(|c: char| not_comma(c)) == decimal(n)
            &&& t.len() > 0
            &&& t[0] != ','
            &&& t.last() != ','
            &&& exists|k: int| #[trigger] leading_group(t, k)
            &&& forall|i: int|
                0 <= i < t.len() && #[trigger] t[i] == ',' ==> {
                    &&& i + 3 < t.len()
                    &&& t[i + 1] != ',' && t[i + 2] != ',' && t[i + 3] != ','
                    &&& (i + 4 == t.len() || t[i + 4] == ',')
                }
        }),
{
    lemma_decimal_digits(n);
    lemma_ungrouped(decimal(n));
    lemma_comma_places(decimal(n));
    let t = grouped(decimal(n));
    let len = t.len() as int;
    assert(t[0] != ',');
    assert(t[len - 1] != ',');
    let k = len % 4;
    assert(1 <= k <= 3);
    assert(k == len || t[k] == ',') by {
        if k < len {
            assert((len - k) % 4 == 0);
        }
    }
    assert forall|j: int| 0 <= j < k implies #[trigger] t[j] != ',' by {
        if j > 0 {
            assert((len - j) % 4 != 0);
        }
    }
    assert(leading_group(t, k));
    assert(t.len() > 0);
    assert forall|i: int| 0 <= i < t.len() && #[trigger] t[i] == ',' implies {
        &&& i + 3 < t.len()
        &&& t[i + 1] != ',' && t[i + 2] != ',' && t[i + 3] != ','
        &&& (i + 4 == t.len() || t[i + 4] == ',')
    } by {
        assert((len - i) % 4 == 0);
        assert(i + 3 < len);
        assert(t[i + 1] != ',');
        assert(t[i + 2] != ',');
        assert(t[i + 3] != ',');
        if i + 4 < len {
            assert(t[i + 4] == ',');
        }
    }
}

/// Whether `needle` occurs in `hay` starting at byte `at`.
pub open spec fn occurs_at(hay: Seq<u8>, needle: Seq<u8>, at: int) -> bool {
    0 <= at && at + needle.len() <= hay.len() && hay.subrange(at, at + needle.len()) == needle
}

/// The byte index of the first occurrence of `needle` in `hay` (`str::find`
/// with a string pattern), or `None` when it does not occur.
pub fn find(hay: &str, needle: &str) -> (at: Option<usize>)
    ensures
        match at {
            Some(i) => occurs_at(hay.spec_bytes(), needle.spec_bytes(), i as int) && forall|j: int|
                0 <= j < i ==> !occurs_at(hay.spec_bytes(), needle.spec_bytes(), j),
            None => forall|j: int| !occurs_at(hay.spec_bytes(), needle.spec_bytes(), j),
        },
{
    let h = hay.as_bytes();
    let n = needle.as_bytes();
    if n.len() > h.len() {
        return None;
    }
    if n.len() == 0 {
        assert(h@.subrange(0, 0) == n@);
        return Some(0);
    }
    let hl = h.len();
    let last = hl - n.len();
    let mut i: usize = 0;
    while i <= last
        invariant
            h@ == hay.spec_bytes(),
            n@ == needle.spec_bytes(),
            last == h@.len() - n@.len(),
            0 < n@.len() <= h@.len(),
            hl == h@.len(),
            i <= last + 1,
            forall|j: int| 0 <= j < i ==> !occurs_at(h@, n@, j),
        decreases last + 1 - i,
    {
        let mut k: usize = 0;
        let mut same = true;
        while k < n.len()
            invariant
                h@ == hay.spec_bytes(),
                n@ == needle.spec_bytes(),
                i <= last,
                last == h@.len() - n@.len(),
                0 < n@.len() <= h@.len(),
                hl == h@.len(),
                k <= n@.len(),
                same == (forall|m: int| 0 <= m < k ==> h@[i + m] == n@[m]),
            decreases n.len() - k,
        {
            assert(i + k < hl);
            if h[i + k] != n[k] {
                same = false;
            }
            k = k + 1;
        }
        if same {
            assert(h@.subrange(i as int, i + n@.len()) == n@);
            return Some(i);
        }
        proof {
            assert(!same);
            if occurs_at(h@, n@, i as int) {
                let m = choose|m: int| 0 <= m < n@.len() && h@[i + m] != n@[m];
                assert(h@.subrange(i as int, i + n@.len())[m] == h@[i + m]);
            }
        }
        assert(i < hl);
        i = i + 1;
    }
    None
}

} // verus!
