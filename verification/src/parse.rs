//! Parsing of one search-output line of the shape `path:line:column:content`,
//! where ANSI styling may appear anywhere. The separators are located in the
//! raw bytes; the `path` and `line` slices are stripped of styling before they
//! are interpreted. Any failure yields a record that is still displayable but
//! carries no path and no line number.
use vstd::prelude::*;

use crate::ansi::{ansi_stripped, bytes_to_string, strip_ansi};
use crate::text::{find_byte, find_from};

verus! {

/// One parsed match line. `display` keeps the raw styled bytes for rendering;
/// `file_path` and `line_number` are present only when the line parsed fully,
/// and then the record can be opened and previewed.
pub struct Record {
    pub display: Vec<u8>,
    pub file_path: Option<String>,
    pub line_number: Option<u32>,
}

/// The mathematical image of a `Record`.
#[verifier::ext_equal]
pub struct RecordModel {
    pub display: Seq<u8>,
    pub file_path: Option<Seq<char>>,
    pub line_number: Option<u32>,
}

impl View for Record {
    type V = RecordModel;

    open spec fn view(&self) -> RecordModel {
        RecordModel {
            display: self.display@,
            file_path: self.file_path.deep_view(),
            line_number: self.line_number,
        }
    }
}

pub open spec fn is_digit(b: u8) -> bool {
    48 <= b <= 57
}

/// The value of a big-endian decimal digit string.
pub open spec fn digits_val(s: Seq<u8>) -> int
    decreases s.len(),
{
    if s.len() == 0 {
        0
    } else {
        digits_val(s.drop_last()) * 10 + (s.last() - 48)
    }
}

pub open spec fn all_digits(s: Seq<u8>) -> bool {
    forall|k: int| 0 <= k < s.len() ==> is_digit(#[trigger] s[k])
}

/// A nonempty string of decimal digits whose value fits parses; anything else
/// does not.
pub open spec fn parse_u32_spec(s: Seq<u8>) -> Option<u32> {
    if s.len() > 0 && all_digits(s) && digits_val(s) <= u32::MAX {
        Some(digits_val(s) as u32)
    } else {
        None
    }
}

proof fn lemma_digits_val_nonneg(s: Seq<u8>)
    requires
        all_digits(s),
    ensures
        digits_val(s) >= 0,
    decreases s.len(),
{
    if s.len() > 0 {
        assert(all_digits(s.drop_last()));
        lemma_digits_val_nonneg(s.drop_last());
    }
}

/// Along an all-digit string, the value of a prefix never exceeds the value
/// of the whole.
proof fn lemma_digits_val_prefix(s: Seq<u8>, k: int)
    requires
        all_digits(s),
        0 <= k <= s.len(),
    ensures
        digits_val(s.subrange(0, k)) <= digits_val(s),
    decreases s.len() - k,
{
    if k == s.len() {
        assert(s.subrange(0, k) =~= s);
    } else {
        let t = s.subrange(0, k + 1);
        assert(t.drop_last() =~= s.subrange(0, k));
        assert(all_digits(s.subrange(0, k)));
        lemma_digits_val_nonneg(s.subrange(0, k));
        assert(digits_val(t) == digits_val(s.subrange(0, k)) * 10 + (s[k] - 48));
        lemma_digits_val_prefix(s, k + 1);
    }
}

/// Parses a decimal `u32`; `None` on an empty string, a non-digit, or a value
/// over `u32::MAX`.
pub fn parse_u32(s: &[u8]) -> (r: Option<u32>)
    ensures
        r == parse_u32_spec(s@),
{
    if s.len() == 0 {
        return None;
    }
    let mut val: u32 = 0;
    let mut i: usize = 0;
    while i < s.len()
        invariant
            0 <= i <= s@.len(),
            all_digits(s@.subrange(0, i as int)),
            val == digits_val(s@.subrange(0, i as int)),
        decreases s@.len() - i,
    {
        let b = s[i];
        if b < 48 || b > 57 {
            assert(!is_digit(s@[i as int]));
            return None;
        }
        let d: u32 = (b - 48) as u32;
        proof {
            assert(s@.subrange(0, i + 1).drop_last() =~= s@.subrange(0, i as int));
        }
        if val > (u32::MAX - d) / 10 {
            proof {
                let p = s@.subrange(0, i + 1);
                assert(all_digits(p));
                assert(digits_val(p) == val * 10 + d);
                vstd::arithmetic::div_mod::lemma_fundamental_div_mod((u32::MAX - d) as int, 10);
                vstd::arithmetic::mul::lemma_mul_inequality(
                    ((u32::MAX - d) / 10 + 1) as int,
                    val as int,
                    10,
                );
                assert(digits_val(p) > u32::MAX);
                if all_digits(s@) {
                    lemma_digits_val_prefix(s@, i + 1);
                }
            }
            return None;
        }
        proof {
            vstd::arithmetic::div_mod::lemma_fundamental_div_mod((u32::MAX - d) as int, 10);
            vstd::arithmetic::mul::lemma_mul_inequality(
                val as int,
                ((u32::MAX - d) / 10) as int,
                10,
            );
        }
        val = val * 10 + d;
        i = i + 1;
    }
    proof {
        assert(s@.subrange(0, s@.len() as int) =~= s@);
    }
    Some(val)
}

/// How one raw line is parsed: the first two unescaped `:` separators are
/// located in the raw bytes; the slices before them are stripped of ANSI
/// styling and read as a UTF-8 path and a decimal line number. Any failure
/// leaves both fields absent, and the raw line is kept for display either way.
pub open spec fn parse_line_spec(l: Seq<u8>) -> RecordModel {
    let i = find_from(l, 0, 58u8);
    let j = find_from(l, i + 1, 58u8);
    if i == l.len() || j == l.len() {
        RecordModel { display: l, file_path: None, line_number: None }
    } else {
        let path_bytes = ansi_stripped(l.subrange(0, i));
        let num_bytes = ansi_stripped(l.subrange(i + 1, j));
        let num = parse_u32_spec(num_bytes);
        if vstd::utf8::valid_utf8(path_bytes) && num is Some {
            RecordModel {
                display: l,
                file_path: Some(vstd::utf8::decode_utf8(path_bytes)),
                line_number: num,
            }
        } else {
            RecordModel { display: l, file_path: None, line_number: None }
        }
    }
}

/// Parses one raw line into a `Record`. Never fails: a malformed line yields
/// a record without path and line number, still carrying the raw bytes.
pub fn parse_line(line: Vec<u8>) -> (r: Record)
    ensures
        r@ == parse_line_spec(line@),
{
    let len = line.len();
    proof {
        crate::text::lemma_find_from(line@, 0, 58u8);
    }
    let i = find_byte(line.as_slice(), 0, 58);
    if i == len {
        return Record { display: line, file_path: None, line_number: None };
    }
    proof {
        crate::text::lemma_find_from(line@, i + 1, 58u8);
    }
    let j = find_byte(line.as_slice(), i + 1, 58);
    if j == len {
        return Record { display: line, file_path: None, line_number: None };
    }
    let path_bytes = strip_ansi(vstd::slice::slice_subrange(line.as_slice(), 0, i));
    let num_bytes = strip_ansi(vstd::slice::slice_subrange(line.as_slice(), i + 1, j));
    let num = parse_u32(num_bytes.as_slice());
    let path = bytes_to_string(path_bytes);
    match (path, num) {
        (Some(p), Some(n)) => Record {
            display: line,
            file_path: Some(p),
            line_number: Some(n),
        },
        _ => Record { display: line, file_path: None, line_number: None },
    }
}

/// A line without a `:` separator parses to a record that is shown raw and is
/// not actionable: no path, no line number.
pub proof fn lemma_parse_resilience(l: Seq<u8>)
    requires
        forall|k: int| 0 <= k < l.len() ==> l[k] != 58u8,
    ensures
        parse_line_spec(l).display == l,
        parse_line_spec(l).file_path is None,
        parse_line_spec(l).line_number is None,
{
    crate::text::lemma_find_from(l, 0, 58u8);
    if find_from(l, 0, 58u8) < l.len() {
        assert(l[find_from(l, 0, 58u8)] == 58u8);
    }
}

} // verus!
