use vstd::prelude::*;

verus! {

pub open spec fn is_blank(c: char) -> bool {
    c == ' ' || c == '\t' || c == '\r' || c == '\n'
}

/// Splitting `s` at blanks, left to right: the words completed so far and the
/// word being read.
pub open spec fn split_state(s: Seq<char>) -> (Seq<Seq<char>>, Seq<char>)
    decreases s.len(),
{
    if s.len() == 0 {
        (seq![], seq![])
    } else {
        let (done, cur) = split_state(s.drop_last());
        if is_blank(s.last()) {
            if cur.len() == 0 {
                (done, cur)
            } else {
                (done.push(cur), seq![])
            }
        } else {
            (done, cur.push(s.last()))
        }
    }
}

/// The blank-separated words of `s`, none of them empty.
pub open spec fn words(s: Seq<char>) -> Seq<Seq<char>> {
    let (done, cur) = split_state(s);
    if cur.len() == 0 {
        done
    } else {
        done.push(cur)
    }
}

/// The blank-separated words of `line`.
pub fn split_words(line: &[char]) -> (r: Vec<Vec<char>>)
    ensures
        r@.len() == words(line@).len(),
        forall|k: int| 0 <= k < r@.len() ==> #[trigger] r@[k]@ == words(line@)[k],
{
    let mut done: Vec<Vec<char>> = Vec::new();
    let mut cur: Vec<char> = Vec::new();
    let mut i: usize = 0;
    while i < line.len()
        invariant
            0 <= i <= line@.len(),
            done@.len() == split_state(line@.subrange(0, i as int)).0.len(),
            forall|k: int|
                0 <= k < done@.len() ==> #[trigger] done@[k]@ == split_state(
                    line@.subrange(0, i as int),
                ).0[k],
            cur@ == split_state(line@.subrange(0, i as int)).1,
        decreases line@.len() - i,
    {
        let c = line[i];
        proof {
            assert(line@.subrange(0, i + 1).drop_last() =~= line@.subrange(0, i as int));
        }
        if c == ' ' || c == '\t' || c == '\r' || c == '\n' {
            if cur.len() > 0 {
                done.push(cur);
                cur = Vec::new();
            }
        } else {
            cur.push(c);
        }
        i = i + 1;
    }
    proof {
        assert(line@.subrange(0, line@.len() as int) =~= line@);
    }
    if cur.len() > 0 {
        done.push(cur);
    }
    done
}

/// Whether `a` and `b` hold the same characters.
pub fn same_chars(a: &[char], b: &[char]) -> (r: bool)
    ensures
        r == (a@ == b@),
{
    if a.len() != b.len() {
        return false;
    }
    let mut i: usize = 0;
    while i < a.len()
        invariant
            a@.len() == b@.len(),
            0 <= i <= a@.len(),
            forall|k: int| 0 <= k < i ==> a@[k] == b@[k],
        decreases a@.len() - i,
    {
        if a[i] != b[i] {
            return false;
        }
        i = i + 1;
    }
    proof {
        assert(a@ =~= b@);
    }
    true
}

pub open spec fn is_digit(c: char) -> bool {
    '0' <= c <= '9'
}

pub open spec fn digit_value(c: char) -> nat {
    (c as int - '0' as int) as nat
}

/// The number that the decimal digits `s` write.
pub open spec fn digits_value(s: Seq<char>) -> nat
    decreases s.len(),
{
    if s.len() == 0 {
        0
    } else {
        digits_value(s.drop_last()) * 10 + digit_value(s.last())
    }
}

/// The end of the run of digits in `s` that starts at `i`.
pub open spec fn digit_run(s: Seq<char>, i: int) -> int
    decreases s.len() - i,
{
    if i < 0 || i >= s.len() || !is_digit(s[i]) {
        i
    } else {
        digit_run(s, i + 1)
    }
}

pub open spec fn min_nat(a: nat, b: nat) -> nat {
    if a <= b { a } else { b }
}

/// Where the run of digits of `s` that starts at `lo` ends.
pub fn digit_run_end(s: &[char], lo: usize) -> (r: usize)
    requires
        lo <= s@.len(),
    ensures
        r == digit_run(s@, lo as int),
        lo <= r <= s@.len(),
        forall|k: int| lo <= k < r ==> is_digit(#[trigger] s@[k]),
{
    let mut i = lo;
    while i < s.len() && '0' <= s[i] && s[i] <= '9'
        invariant
            lo <= i <= s@.len(),
            digit_run(s@, lo as int) == digit_run(s@, i as int),
            forall|k: int| lo <= k < i ==> is_digit(#[trigger] s@[k]),
        decreases s@.len() - i,
    {
        i = i + 1;
    }
    i
}

/// The number that the digits `s[lo..hi]` write, or `cap` if that is larger.
pub fn digits_capped(s: &[char], lo: usize, hi: usize, cap: u64) -> (r: u64)
    requires
        lo <= hi <= s@.len(),
        cap <= 1_000_000_000,
        forall|k: int| lo <= k < hi ==> is_digit(#[trigger] s@[k]),
    ensures
        r == min_nat(digits_value(s@.subrange(lo as int, hi as int)), cap as nat),
{
    let mut v: u64 = 0;
    let mut i = lo;
    while i < hi
        invariant
            lo <= i <= hi <= s@.len(),
            cap <= 1_000_000_000,
            forall|k: int| lo <= k < hi ==> is_digit(#[trigger] s@[k]),
            v == min_nat(digits_value(s@.subrange(lo as int, i as int)), cap as nat),
        decreases hi - i,
    {
        let c = s[i];
        assert(is_digit(s@[i as int]));
        let d = (c as u32 - '0' as u32) as u64;
        proof {
            let p = s@.subrange(lo as int, i + 1);
            assert(p.drop_last() =~= s@.subrange(lo as int, i as int));
            assert(p.last() == c);
        }
        if v < cap {
            let next = v * 10 + d;
            v = if next < cap { next } else { cap };
        }
        i = i + 1;
    }
    v
}

} // verus!
