//! Interpreting what the platform's space-reporting tools print: decimal
//! fields become byte counts, and drive tokens become mount paths. Running
//! the tools and splitting their output into lines and fields stays with the
//! caller; every decision about the split fields is made here.

use vstd::prelude::*;
use vstd::string::StrSliceExecFns;
use vstd::string::StringExecFns;
use crate::volume::DiskSpaceInfo;

verus! {

pub open spec fn is_digit(c: char) -> bool {
    48 <= c as u32 <= 57
}

pub open spec fn digit_val(c: char) -> int {
    c as u32 - 48
}

pub open spec fn all_digits(s: Seq<char>) -> bool {
    forall|i: int| 0 <= i < s.len() ==> is_digit(#[trigger] s[i])
}

/// The number a digit string denotes, base ten, most significant first.
pub open spec fn digits_val(s: Seq<char>) -> int
    decreases s.len(),
{
    if s.len() == 0 {
        0
    } else {
        digits_val(s.drop_last()) * 10 + digit_val(s.last())
    }
}

/// Reading one more character multiplies the value by ten and adds the
/// digit.
proof fn lemma_digits_val_extend(s: Seq<char>, i: int)
    requires
        0 <= i < s.len(),
    ensures
        digits_val(s.subrange(0, i + 1)) == digits_val(s.subrange(0, i)) * 10 + digit_val(s[i]),
{
    assert(s.subrange(0, i + 1).drop_last() =~= s.subrange(0, i));
    assert(s.subrange(0, i + 1).last() == s[i]);
}

/// A digit string denotes a number, never a negative value.
proof fn lemma_digits_val_nonneg(s: Seq<char>)
    requires
        all_digits(s),
    ensures
        digits_val(s) >= 0,
    decreases s.len(),
{
    if s.len() > 0 {
        assert(all_digits(s.drop_last())) by {
            assert(forall|i: int|
                0 <= i < s.len() - 1 ==> s.drop_last()[i] == #[trigger] s[i]);
        }
        lemma_digits_val_nonneg(s.drop_last());
        assert(is_digit(s.last()));
    }
}

/// More digits never shrink the value: the whole string denotes at least as
/// much as any of its prefixes.
proof fn lemma_digits_val_monotone(s: Seq<char>, i: int)
    requires
        all_digits(s),
        0 <= i <= s.len(),
    ensures
        digits_val(s) >= digits_val(s.subrange(0, i)),
    decreases s.len() - i,
{
    if i == s.len() {
        assert(s.subrange(0, i) =~= s);
    } else {
        lemma_digits_val_extend(s, i);
        assert(all_digits(s.subrange(0, i))) by {
            assert(forall|j: int|
                0 <= j < i ==> s.subrange(0, i)[j] == #[trigger] s[j]);
        }
        lemma_digits_val_nonneg(s.subrange(0, i));
        assert(is_digit(s[i]));
        lemma_digits_val_monotone(s, i + 1);
    }
}

/// Reads a whole string of decimal digits as a number: the value it denotes,
/// or `None` when the string is empty, holds any other character, or denotes
/// more than fits.
pub fn parse_u64(s: &str) -> (r: Option<u64>)
    ensures
        match r {
            Some(v) => s@.len() > 0 && all_digits(s@) && v == digits_val(s@),
            None => s@.len() == 0 || !all_digits(s@) || digits_val(s@) > u64::MAX,
        },
{
    let n = s.unicode_len();
    if n == 0 {
        return None;
    }
    let mut v: u64 = 0;
    let mut i: usize = 0;
    while i < n
        invariant
            n == s@.len(),
            0 <= i <= n,
            forall|j: int| 0 <= j < i ==> is_digit(#[trigger] s@[j]),
            v == digits_val(s@.subrange(0, i as int)),
        decreases n - i,
    {
        let c = s.get_char(i);
        let cv = c as u32;
        if cv < 48 || cv > 57 {
            assert(!is_digit(s@[i as int]));
            return None;
        }
        let d = (cv - 48) as u64;
        proof {
            lemma_digits_val_extend(s@, i as int);
        }
        if v > (u64::MAX - d) / 10 {
            proof {
                assert(v * 10 + d > u64::MAX) by (nonlinear_arith)
                    requires
                        v > (u64::MAX - d) / 10,
                        d <= u64::MAX,
                ;
                if all_digits(s@) {
                    lemma_digits_val_monotone(s@, i + 1);
                }
            }
            return None;
        }
        v = v * 10 + d;
        i = i + 1;
    }
    proof {
        assert(s@.subrange(0, n as int) =~= s@);
    }
    Some(v)
}

/// The string `s` denotes a number that, scaled by 1024, fits in a `u64`.
pub open spec fn denotes_kib(s: Seq<char>) -> bool {
    &&& s.len() > 0
    &&& all_digits(s)
    &&& digits_val(s) * 1024 <= u64::MAX
}

/// The measured space of one mount from the fields of a `df -k` data line:
/// the second field is the total and the fourth the available space, both in
/// 1024-byte blocks. `None` when fields are missing, non-numeric, or too
/// large to scale to bytes.
pub fn df_space_of_fields(parts: &Vec<String>) -> (r: Option<DiskSpaceInfo>)
    ensures
        match r {
            Some(info) => {
                &&& parts@.len() >= 4
                &&& denotes_kib(parts@[1]@) && info.total == digits_val(parts@[1]@) * 1024
                &&& denotes_kib(parts@[3]@) && info.available == digits_val(parts@[3]@) * 1024
            },
            None => parts@.len() < 4 || !denotes_kib(parts@[1]@) || !denotes_kib(parts@[3]@),
        },
{
    if parts.len() < 4 {
        return None;
    }
    let total_blocks = match parse_u64(parts[1].as_str()) {
        Some(v) => v,
        None => {
            return None;
        },
    };
    let avail_blocks = match parse_u64(parts[3].as_str()) {
        Some(v) => v,
        None => {
            return None;
        },
    };
    if total_blocks > u64::MAX / 1024 || avail_blocks > u64::MAX / 1024 {
        proof {
            assert(total_blocks > u64::MAX / 1024 ==> total_blocks * 1024 > u64::MAX)
                by (nonlinear_arith);
            assert(avail_blocks > u64::MAX / 1024 ==> avail_blocks * 1024 > u64::MAX)
                by (nonlinear_arith);
        }
        return None;
    }
    proof {
        assert(total_blocks * 1024 <= u64::MAX) by (nonlinear_arith)
            requires
                total_blocks <= u64::MAX / 1024,
        ;
        assert(avail_blocks * 1024 <= u64::MAX) by (nonlinear_arith)
            requires
                avail_blocks <= u64::MAX / 1024,
        ;
    }
    Some(DiskSpaceInfo { total: total_blocks * 1024, available: avail_blocks * 1024 })
}

/// The measured space of one drive from the fields of a `wmic logicaldisk`
/// data line: free space first, then size, both already in bytes. `None`
/// when fewer than two fields are numbers.
pub fn wmic_space_of_fields(parts: &Vec<String>) -> (r: Option<DiskSpaceInfo>)
    ensures
        match r {
            Some(info) => {
                &&& parts@.len() >= 2
                &&& parts@[0]@.len() > 0 && all_digits(parts@[0]@)
                    && info.available == digits_val(parts@[0]@)
                &&& parts@[1]@.len() > 0 && all_digits(parts@[1]@)
                    && info.total == digits_val(parts@[1]@)
            },
            None => parts@.len() < 2 || parts@[0]@.len() == 0 || !all_digits(parts@[0]@)
                || digits_val(parts@[0]@) > u64::MAX || parts@[1]@.len() == 0
                || !all_digits(parts@[1]@) || digits_val(parts@[1]@) > u64::MAX,
        },
{
    if parts.len() < 2 {
        return None;
    }
    let available = match parse_u64(parts[0].as_str()) {
        Some(v) => v,
        None => {
            return None;
        },
    };
    let total = match parse_u64(parts[1].as_str()) {
        Some(v) => v,
        None => {
            return None;
        },
    };
    Some(DiskSpaceInfo { total, available })
}

/// Turns a trimmed drive token such as a letter followed by a colon into the
/// drive's mount path, the token with a trailing backslash; any other token
/// is not a drive.
pub fn windows_drive_of(token: &str) -> (r: Option<String>)
    ensures
        match r {
            Some(d) => token@.len() == 2 && token@[1] == ':' && d@ == token@ + seq!['\\'],
            None => token@.len() != 2 || token@[1] != ':',
        },
{
    let n = token.unicode_len();
    if n != 2 {
        return None;
    }
    if token.get_char(1) != ':' {
        return None;
    }
    let mut d = token.to_owned();
    d.append("\\");
    proof {
        reveal_strlit("\\");
        assert("\\"@ =~= seq!['\\']);
        assert(d@ =~= token@ + seq!['\\']);
    }
    Some(d)
}

} // verus!
