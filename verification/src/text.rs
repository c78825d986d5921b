//! Small text utilities shared by the parser and the argument builders:
//! scanning for a separator, decimal digit strings, and whitespace trimming.
use vstd::prelude::*;

verus! {

/// Index of the first occurrence of `t` in `s` at or after `from`,
/// or `s.len()` when there is none.
pub open spec fn find_from<T>(s: Seq<T>, from: int, t: T) -> int
    decreases s.len() - from,
{
    if from < 0 || from >= s.len() {
        s.len() as int
    } else if s[from] == t {
        from
    } else {
        find_from(s, from + 1, t)
    }
}

pub proof fn lemma_find_from<T>(s: Seq<T>, from: int, t: T)
    requires
        0 <= from <= s.len(),
    ensures
        from <= find_from(s, from, t) <= s.len(),
        find_from(s, from, t) < s.len() ==> s[find_from(s, from, t)] == t,
        forall|k: int| from <= k < find_from(s, from, t) ==> s[k] != t,
    decreases s.len() - from,
{
    if from < s.len() && s[from] != t {
        lemma_find_from(s, from + 1, t);
    }
}

/// First occurrence of the byte `t` in `s` at or after `from`; `s.len()` when absent.
pub fn find_byte(s: &[u8], from: usize, t: u8) -> (r: usize)
    requires
        from <= s@.len(),
    ensures
        r == find_from(s@, from as int, t),
{
    let mut i = from;
    while i < s.len()
        invariant
            from <= i <= s@.len(),
            find_from(s@, from as int, t) == find_from(s@, i as int, t),
            forall|k: int| from <= k < i ==> s@[k] != t,
        decreases s@.len() - i,
    {
        if s[i] == t {
            assert(find_from(s@, i as int, t) == i);
            return i;
        }
        i = i + 1;
    }
    assert(find_from(s@, i as int, t) == s@.len());
    i
}

/// The character for one decimal digit.
pub open spec fn digit_char(d: int) -> char {
    if d == 0 {
        '0'
    } else if d == 1 {
        '1'
    } else if d == 2 {
        '2'
    } else if d == 3 {
        '3'
    } else if d == 4 {
        '4'
    } else if d == 5 {
        '5'
    } else if d == 6 {
        '6'
    } else if d == 7 {
        '7'
    } else if d == 8 {
        '8'
    } else {
        '9'
    }
}

/// The decimal representation of `n`, most significant digit first,
/// without leading zeros (`0` is written as "0").
pub open spec fn dec_str(n: nat) -> Seq<char>
    decreases n,
{
    if n < 10 {
        seq![digit_char(n as int)]
    } else {
        dec_str(n / 10).push(digit_char((n % 10) as int))
    }
}

fn exec_digit_char(d: u32) -> (c: char)
    requires
        d < 10,
    ensures
        c == digit_char(d as int),
{
    if d == 0 {
        '0'
    } else if d == 1 {
        '1'
    } else if d == 2 {
        '2'
    } else if d == 3 {
        '3'
    } else if d == 4 {
        '4'
    } else if d == 5 {
        '5'
    } else if d == 6 {
        '6'
    } else if d == 7 {
        '7'
    } else if d == 8 {
        '8'
    } else {
        '9'
    }
}

/// Appends the decimal representation of `n` to `out`.
pub fn push_decimal(n: u32, out: &mut Vec<char>)
    ensures
        final(out)@ == old(out)@ + dec_str(n as nat),
    decreases n,
{
    if n < 10 {
        out.push(exec_digit_char(n));
        assert(old(out)@.push(digit_char(n as int)) =~= old(out)@ + dec_str(n as nat));
    } else {
        push_decimal(n / 10, out);
        out.push(exec_digit_char(n % 10));
        assert(old(out)@ + dec_str((n / 10) as nat) + seq![digit_char((n % 10) as int)] =~= old(
            out,
        )@ + dec_str(n as nat));
    }
}

/// ASCII whitespace, the characters the option fields are trimmed of.
pub open spec fn is_space(c: char) -> bool {
    c == ' ' || c == '\t' || c == '\r' || c == '\n'
}

pub open spec fn trim_start(s: Seq<char>) -> Seq<char>
    decreases s.len(),
{
    if s.len() > 0 && is_space(s[0]) {
        trim_start(s.drop_first())
    } else {
        s
    }
}

pub open spec fn trim_end(s: Seq<char>) -> Seq<char>
    decreases s.len(),
{
    if s.len() > 0 && is_space(s.last()) {
        trim_end(s.drop_last())
    } else {
        s
    }
}

/// `s` without leading and trailing ASCII whitespace.
pub open spec fn trim(s: Seq<char>) -> Seq<char> {
    trim_end(trim_start(s))
}

proof fn lemma_trim_start_subrange(s: Seq<char>, a: int)
    requires
        0 <= a <= s.len(),
        forall|k: int| 0 <= k < a ==> is_space(s[k]),
        a == s.len() || !is_space(s[a]),
    ensures
        trim_start(s) == s.subrange(a, s.len() as int),
    decreases a,
{
    if a == 0 {
        assert(s.subrange(0, s.len() as int) =~= s);
    } else {
        let t = s.drop_first();
        assert(t =~= s.subrange(1, s.len() as int));
        lemma_trim_start_subrange(t, a - 1);
        assert(t.subrange(a - 1, t.len() as int) =~= s.subrange(a, s.len() as int));
    }
}

proof fn lemma_trim_end_subrange(s: Seq<char>, b: int)
    requires
        0 <= b <= s.len(),
        forall|k: int| b <= k < s.len() ==> is_space(s[k]),
        b == 0 || !is_space(s[b - 1]),
    ensures
        trim_end(s) == s.subrange(0, b),
    decreases s.len() - b,
{
    if b == s.len() {
        assert(s.subrange(0, b) =~= s);
    } else {
        let t = s.drop_last();
        assert(t =~= s.subrange(0, s.len() - 1));
        lemma_trim_end_subrange(t, b);
        assert(t.subrange(0, b) =~= s.subrange(0, b));
    }
}

/// Trimming takes the subrange whose ends skip exactly the whitespace.
pub proof fn lemma_trim_subrange(s: Seq<char>, a: int, b: int)
    requires
        0 <= a <= b <= s.len(),
        forall|k: int| 0 <= k < a ==> is_space(s[k]),
        forall|k: int| b <= k < s.len() ==> is_space(s[k]),
        a == b || (!is_space(s[a]) && !is_space(s[b - 1])),
    ensures
        trim(s) == s.subrange(a, b),
{
    if a == b {
        lemma_trim_start_subrange(s, s.len() as int);
        assert(trim_start(s) =~= Seq::<char>::empty());
        assert(trim(s) =~= s.subrange(a, b));
    } else {
        lemma_trim_start_subrange(s, a);
        let t = s.subrange(a, s.len() as int);
        lemma_trim_end_subrange(t, b - a);
        assert(t.subrange(0, b - a) =~= s.subrange(a, b));
    }
}

/// The views of a sequence of strings.
pub open spec fn views_of(v: Seq<String>) -> Seq<Seq<char>> {
    v.map_values(|s: String| s@)
}

} // verus!
