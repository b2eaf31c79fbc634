use vstd::prelude::*;
use crate::text::{
    chars_of, contains, contains_exec, first_from, is_space, is_space_char, occurs_at, occurs_at_exec,
};

verus! {

/// Fixed-point scale of a rate: a rate is held as millionths of the unit the
/// tool reports in (for megabits per second, that is bits per second).
pub const RATE_SCALE: u64 = 1_000_000;

pub open spec fn is_digit(c: char) -> bool {
    '0' <= c <= '9'
}

pub open spec fn is_rate_char(c: char) -> bool {
    is_digit(c) || c == '.'
}

/// A character of a unit token: ASCII letters and digits, and `_`.
pub open spec fn is_word(c: char) -> bool {
    is_digit(c) || ('a' <= c <= 'z') || ('A' <= c <= 'Z') || c == '_'
}

pub open spec fn digit_of(c: char) -> nat {
    (c as u32 - '0' as u32) as nat
}

/// The value of a run of decimal digits, most significant first.
pub open spec fn digits_value(d: Seq<char>) -> nat
    decreases d.len(),
{
    if d.len() == 0 {
        0
    } else {
        digits_value(d.drop_last()) * 10 + digit_of(d.last())
    }
}

pub open spec fn ten_pow(n: nat) -> nat
    decreases n,
{
    if n == 0 {
        1
    } else {
        10 * ten_pow((n - 1) as nat)
    }
}

/// The first six digits of a fraction, padded with zeros on the right.
pub open spec fn pad6(f: Seq<char>) -> Seq<char> {
    Seq::new(6, |k: int| if k < f.len() { f[k] } else { '0' })
}

/// The first `]` at or after `k`, or the length of `s`.
pub open spec fn first_close(s: Seq<char>, k: int) -> int {
    first_from(s.len() as int, k, |i: int| s[i] == ']')
}

/// `s` holds a tag `[<id>]` opening at `i`, with a non-empty id and white space after it.
pub open spec fn tag_at(s: Seq<char>, i: int) -> bool {
    &&& 0 <= i < s.len()
    &&& s[i] == '['
    &&& i + 1 < first_close(s, i + 1)
    &&& first_close(s, i + 1) + 1 < s.len()
    &&& is_space(s[first_close(s, i + 1) + 1])
}

/// Where the remainder of a line starts: after the first tag and the white space
/// that follows it, or at the start of the line when it holds no tag.
pub open spec fn remainder_start(s: Seq<char>) -> int {
    let t = first_from(s.len() as int, 0, |i: int| tag_at(s, i));
    if t < s.len() {
        first_close(s, t + 1) + 2
    } else {
        0
    }
}

pub open spec fn remainder(s: Seq<char>) -> Seq<char> {
    s.subrange(remainder_start(s), s.len() as int)
}

/// The end of the run of digits and dots that starts at `k`.
pub open spec fn run_end(s: Seq<char>, k: int) -> int {
    first_from(s.len() as int, k, |i: int| !is_rate_char(s[i]))
}

/// The end of the run of unit characters that starts at `k`.
pub open spec fn word_end(s: Seq<char>, k: int) -> int {
    first_from(s.len() as int, k, |i: int| !is_word(s[i]))
}

/// At `i` stands a number, one white space character, a unit token and `/sec`.
pub open spec fn rate_at(s: Seq<char>, i: int) -> bool {
    &&& 0 <= i < s.len()
    &&& is_rate_char(s[i])
    &&& run_end(s, i) < s.len()
    &&& is_space(s[run_end(s, i)])
    &&& run_end(s, i) + 1 < word_end(s, run_end(s, i) + 1)
    &&& occurs_at(s, "/sec"@, word_end(s, run_end(s, i) + 1))
}

pub open spec fn first_rate(s: Seq<char>) -> int {
    first_from(s.len() as int, 0, |i: int| rate_at(s, i))
}

/// The index of the first dot at or after `k`, or the length of `g`.
pub open spec fn dot_from(g: Seq<char>, k: int) -> int {
    first_from(g.len() as int, k, |i: int| g[i] == '.')
}

/// The digits after the dot, if there is one.
pub open spec fn fraction(g: Seq<char>) -> Seq<char> {
    let p = dot_from(g, 0);
    if p < g.len() {
        g.subrange(p + 1, g.len() as int)
    } else {
        Seq::<char>::empty()
    }
}

/// A run of digits and dots reads as a number: at most one dot and at least one digit.
pub open spec fn decimal_ok(g: Seq<char>) -> bool {
    let p = dot_from(g, 0);
    if p < g.len() {
        dot_from(g, p + 1) == g.len() && g.len() > 1
    } else {
        g.len() > 0
    }
}

/// The value of a decimal number in millionths; digits past the sixth after
/// the dot are dropped.
pub open spec fn micro_value(g: Seq<char>) -> nat {
    digits_value(g.subrange(0, dot_from(g, 0))) * 1_000_000 + digits_value(pad6(fraction(g)))
}

/// The rate that a run of digits and dots stands for, in millionths, if it
/// reads as a number that fits in 64 bits.
pub open spec fn parse_rate_spec(g: Seq<char>) -> Option<nat> {
    if decimal_ok(g) && micro_value(g) <= u64::MAX {
        Some(micro_value(g))
    } else {
        None
    }
}

/// What a line of the tool's output is.
pub ghost enum LineClass {
    Summary,
    Header,
    Sample(nat, Seq<char>),
    Unmatched,
}

/// The class of a line: a summary marker (`- - -`), a header (`Interval` in the
/// remainder), a sample (the first number followed by white space, a unit and
/// `/sec` in the remainder), or nothing of use.
pub open spec fn classify(s: Seq<char>) -> LineClass {
    let r = remainder(s);
    let i = first_rate(r);
    if contains(s, "- - -"@) {
        LineClass::Summary
    } else if contains(r, "Interval"@) {
        LineClass::Header
    } else if i < r.len() {
        match parse_rate_spec(r.subrange(i, run_end(r, i))) {
            Some(v) => LineClass::Sample(
                v,
                r.subrange(run_end(r, i) + 1, word_end(r, run_end(r, i) + 1)),
            ),
            None => LineClass::Unmatched,
        }
    } else {
        LineClass::Unmatched
    }
}

/// A classified line of the tool's output.
pub enum LineKind {
    /// The end-of-run summary marker.
    Summary,
    /// A column header or footer.
    Header,
    /// A throughput reading: `rate` in millionths of `unit` per second.
    Sample { rate: u64, unit: String },
    /// A line with nothing to take from it.
    Unmatched,
}

impl LineKind {
    pub open spec fn class(&self) -> LineClass {
        match self {
            LineKind::Summary => LineClass::Summary,
            LineKind::Header => LineClass::Header,
            LineKind::Sample { rate, unit } => LineClass::Sample(*rate as nat, unit@),
            LineKind::Unmatched => LineClass::Unmatched,
        }
    }
}

fn first_close_exec(s: &Vec<char>, k: usize) -> (r: usize)
    requires
        k <= s@.len(),
    ensures
        r == first_close(s@, k as int),
        k <= r <= s@.len(),
{
    let mut j = k;
    while j < s.len() && s[j] != ']'
        invariant
            k <= j <= s@.len(),
            first_close(s@, k as int) == first_close(s@, j as int),
        decreases s@.len() - j,
    {
        j = j + 1;
    }
    j
}

fn tag_at_exec(s: &Vec<char>, i: usize) -> (r: bool)
    requires
        i < s@.len(),
    ensures
        r == tag_at(s@, i as int),
{
    let n = s.len();
    if s[i] != '[' {
        return false;
    }
    let j = first_close_exec(s, i + 1);
    i + 1 < j && j < n - 1 && is_space_char(s[j + 1])
}

/// Index at which the remainder of the line starts.
fn remainder_start_exec(s: &Vec<char>) -> (r: usize)
    ensures
        r == remainder_start(s@),
        r <= s@.len(),
{
    let mut t: usize = 0;
    while t < s.len() && !tag_at_exec(s, t)
        invariant
            t <= s@.len(),
            first_from(s@.len() as int, 0, |i: int| tag_at(s@, i)) == first_from(
                s@.len() as int,
                t as int,
                |i: int| tag_at(s@, i),
            ),
        decreases s@.len() - t,
    {
        t = t + 1;
    }
    if t < s.len() {
        let j = first_close_exec(s, t + 1);
        j + 2
    } else {
        0
    }
}

fn run_end_exec(s: &Vec<char>, k: usize) -> (r: usize)
    requires
        k <= s@.len(),
    ensures
        r == run_end(s@, k as int),
        k <= r <= s@.len(),
        forall|j: int| k <= j < r ==> is_rate_char(#[trigger] s@[j]),
{
    let mut j = k;
    while j < s.len() && (('0' <= s[j] && s[j] <= '9') || s[j] == '.')
        invariant
            k <= j <= s@.len(),
            forall|i: int| k <= i < j ==> is_rate_char(#[trigger] s@[i]),
            run_end(s@, k as int) == run_end(s@, j as int),
        decreases s@.len() - j,
    {
        j = j + 1;
    }
    j
}

fn word_end_exec(s: &Vec<char>, k: usize) -> (r: usize)
    requires
        k <= s@.len(),
    ensures
        r == word_end(s@, k as int),
        k <= r <= s@.len(),
{
    let mut j = k;
    while j < s.len() && (('0' <= s[j] && s[j] <= '9') || ('a' <= s[j] && s[j] <= 'z') || ('A'
        <= s[j] && s[j] <= 'Z') || s[j] == '_')
        invariant
            k <= j <= s@.len(),
            word_end(s@, k as int) == word_end(s@, j as int),
        decreases s@.len() - j,
    {
        j = j + 1;
    }
    j
}

fn rate_at_exec(s: &Vec<char>, i: usize, per_sec: &Vec<char>) -> (r: bool)
    requires
        i < s@.len(),
        per_sec@ == "/sec"@,
    ensures
        r == rate_at(s@, i as int),
{
    if !(('0' <= s[i] && s[i] <= '9') || s[i] == '.') {
        return false;
    }
    let e = run_end_exec(s, i);
    if e >= s.len() || !is_space_char(s[e]) {
        return false;
    }
    let f = word_end_exec(s, e + 1);
    e + 1 < f && occurs_at_exec(s, per_sec, f)
}

fn first_rate_exec(s: &Vec<char>) -> (r: usize)
    ensures
        r == first_rate(s@),
        r <= s@.len(),
        r < s@.len() ==> rate_at(s@, r as int),
{
    let per_sec = chars_of("/sec");
    let mut t: usize = 0;
    while t < s.len() && !rate_at_exec(s, t, &per_sec)
        invariant
            t <= s@.len(),
            per_sec@ == "/sec"@,
            first_rate(s@) == first_from(s@.len() as int, t as int, |i: int| rate_at(s@, i)),
        decreases s@.len() - t,
    {
        t = t + 1;
    }
    t
}

/// `s` from `a` up to `b`, as a vector of its own.
fn sub_vec(s: &Vec<char>, a: usize, b: usize) -> (r: Vec<char>)
    requires
        a <= b <= s@.len(),
    ensures
        r@ == s@.subrange(a as int, b as int),
{
    let mut out: Vec<char> = Vec::new();
    let mut k = a;
    while k < b
        invariant
            a <= k <= b <= s@.len(),
            out@ == s@.subrange(a as int, k as int),
        decreases b - k,
    {
        out.push(s[k]);
        assert(out@ =~= s@.subrange(a as int, k + 1));
        k = k + 1;
    }
    out
}

proof fn lemma_digits_prefix(d: Seq<char>, k: int)
    requires
        0 <= k <= d.len(),
    ensures
        digits_value(d.subrange(0, k)) <= digits_value(d),
    decreases d.len(),
{
    if k == d.len() {
        assert(d.subrange(0, k) =~= d);
    } else {
        lemma_digits_prefix(d.drop_last(), k);
        assert(d.drop_last().subrange(0, k) =~= d.subrange(0, k));
    }
}

proof fn lemma_digits_step(d: Seq<char>, k: int)
    requires
        0 <= k < d.len(),
    ensures
        digits_value(d.subrange(0, k + 1)) == digits_value(d.subrange(0, k)) * 10 + digit_of(d[k]),
{
    assert(d.subrange(0, k + 1).drop_last() =~= d.subrange(0, k));
}

/// Reads a run of digits and dots as a rate in millionths.
pub fn parse_rate(g: &Vec<char>) -> (r: Option<u64>)
    requires
        forall|i: int| 0 <= i < g@.len() ==> is_rate_char(#[trigger] g@[i]),
    ensures
        r matches Some(v) ==> parse_rate_spec(g@) == Some(v as nat),
        r is None ==> parse_rate_spec(g@) is None,
{
    let n = g.len();
    let mut p: usize = 0;
    while p < n && g[p] != '.'
        invariant
            p <= n == g@.len(),
            dot_from(g@, 0) == dot_from(g@, p as int),
            forall|i: int| 0 <= i < p ==> g@[i] != '.',
        decreases n - p,
    {
        p = p + 1;
    }
    if p < n {
        let mut q: usize = p + 1;
        while q < n && g[q] != '.'
            invariant
                p < q <= n == g@.len(),
                dot_from(g@, p + 1) == dot_from(g@, q as int),
                forall|i: int| p < i < q ==> g@[i] != '.',
            decreases n - q,
        {
            q = q + 1;
        }
        if q < n || n <= 1 {
            return None;
        }
    } else if n == 0 {
        return None;
    }
    assert(decimal_ok(g@));
    assert(forall|i: int| 0 <= i < n && i != p ==> g@[i] != '.');
    let mut whole: u128 = 0;
    let mut k: usize = 0;
    while k < p
        invariant
            p <= n == g@.len(),
            p == dot_from(g@, 0),
            k <= p,
            whole == digits_value(g@.subrange(0, k as int)),
            whole <= u64::MAX,
            forall|i: int| 0 <= i < g@.len() ==> is_rate_char(#[trigger] g@[i]),
            forall|i: int| 0 <= i < p ==> g@[i] != '.',
        decreases p - k,
    {
        let ghost w = g@.subrange(0, p as int);
        let c = g[k];
        assert(g@[k as int] != '.');
        let d = (c as u32 - '0' as u32) as u128;
        proof {
            lemma_digits_step(w, k as int);
            assert(w.subrange(0, k as int) =~= g@.subrange(0, k as int));
            assert(w.subrange(0, k + 1) =~= g@.subrange(0, k + 1));
        }
        let next = whole * 10 + d;
        if next > u64::MAX as u128 {
            proof {
                lemma_digits_prefix(w, k + 1);
            }
            return None;
        }
        whole = next;
        k = k + 1;
    }
    assert(g@.subrange(0, p as int) == g@.subrange(0, k as int));
    let ghost f = fraction(g@);
    let ghost padded = pad6(f);
    let mut frac: u128 = 0;
    let mut j: usize = 0;
    while j < 6
        invariant
            p <= n == g@.len(),
            p == dot_from(g@, 0),
            f == fraction(g@),
            padded == pad6(f),
            j <= 6,
            frac == digits_value(padded.subrange(0, j as int)),
            frac < ten_pow(j as nat),
            forall|i: int| 0 <= i < n && i != p ==> g@[i] != '.',
            forall|i: int| 0 <= i < g@.len() ==> is_rate_char(#[trigger] g@[i]),
            decimal_ok(g@),
        decreases 6 - j,
    {
        let c = if p < n && j < n - p - 1 {
            g[p + 1 + j]
        } else {
            '0'
        };
        assert(c == padded[j as int]);
        assert(is_digit(c)) by {
            if p < n && j < n - p - 1 {
                assert(g@[p + 1 + j] != '.');
            }
        }
        let d = (c as u32 - '0' as u32) as u128;
        proof {
            lemma_digits_step(padded, j as int);
        }
        assert(ten_pow((j + 1) as nat) == 10 * ten_pow(j as nat));
        assert(ten_pow(j as nat) <= 100_000) by {
            reveal_with_fuel(ten_pow, 7);
            assert(j == 0 || j == 1 || j == 2 || j == 3 || j == 4 || j == 5);
        }
        frac = frac * 10 + d;
        j = j + 1;
    }
    assert(padded.subrange(0, 6) =~= padded);
    assert(ten_pow(6) == 1_000_000) by {
        reveal_with_fuel(ten_pow, 7);
    }
    let total = whole * 1_000_000 + frac;
    if total > u64::MAX as u128 {
        None
    } else {
        Some(total as u64)
    }
}

/// Sorts one line of the tool's output, and takes the reading from a sample line.
pub fn classify_line(line: &str) -> (r: LineKind)
    ensures
        r.class() == classify(line@),
{
    let s = chars_of(line);
    let dashes = chars_of("- - -");
    if contains_exec(&s, &dashes) {
        return LineKind::Summary;
    }
    let st = remainder_start_exec(&s);
    let rest = sub_vec(&s, st, s.len());
    let interval = chars_of("Interval");
    if contains_exec(&rest, &interval) {
        return LineKind::Header;
    }
    let i = first_rate_exec(&rest);
    if i < rest.len() {
        let e = run_end_exec(&rest, i);
        let f = word_end_exec(&rest, e + 1);
        let g = sub_vec(&rest, i, e);
        match parse_rate(&g) {
            Some(v) => {
                let unit = String::from_str(line.substring_char(st + e + 1, st + f));
                assert(unit@ =~= rest@.subrange(e + 1, f as int));
                LineKind::Sample { rate: v, unit }
            },
            None => LineKind::Unmatched,
        }
    } else {
        LineKind::Unmatched
    }
}

/// A line holding the summary marker `- - -` never gives a sample, nor does
/// one whose remainder holds `Interval`.
pub proof fn lemma_marker_lines_give_no_sample(s: Seq<char>)
    ensures
        contains(s, "- - -"@) ==> classify(s) == LineClass::Summary,
        !contains(s, "- - -"@) && contains(remainder(s), "Interval"@) ==> classify(s)
            == LineClass::Header,
        contains(s, "- - -"@) || contains(remainder(s), "Interval"@) ==> !(classify(s) is Sample),
{
}

} // verus!
