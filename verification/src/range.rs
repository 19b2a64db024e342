//! Byte-range requests: the wire encoding both backends use for a partial
//! download, and the byte-level meaning of a range against stored content.
//!
//! A range is a pair of optional bounds. Both backends encode it the same
//! way on the wire: `bytes=s-e` (inclusive range), `bytes=s-` (from `s` to
//! the end), `bytes=-e` (the last `e` bytes). No bounds means the full
//! object and no range header at all.

use vstd::prelude::*;
use vstd::string::StringExecFns;

use crate::opt_str_view;

verus! {

/// The decimal digit character for `d` (`d < 10`).
pub open spec fn dec_digit(d: nat) -> char {
    if d == 0 {
        '0'
    } else if d == 1 {
        '1'
    } else if d == 2 {
        '2'
    } else if d == 3 {
        '3'
    } else if d == 4 {
        '4'
    } else if d == 5 {
        '5'
    } else if d == 6 {
        '6'
    } else if d == 7 {
        '7'
    } else if d == 8 {
        '8'
    } else {
        '9'
    }
}

/// The decimal digit sequence of `n`, most significant digit first, with no
/// leading zeros (`0` is written as `"0"`).
pub open spec fn dec_seq(n: nat) -> Seq<char>
    decreases n,
{
    if n < 10 {
        seq![dec_digit(n)]
    } else {
        dec_seq(n / 10).push(dec_digit(n % 10))
    }
}

fn digit_str(d: u64) -> (r: &'static str)
    requires
        d < 10,
    ensures
        r@ == dec_seq(d as nat),
{
    proof {
        reveal_strlit("0");
        reveal_strlit("1");
        reveal_strlit("2");
        reveal_strlit("3");
        reveal_strlit("4");
        reveal_strlit("5");
        reveal_strlit("6");
        reveal_strlit("7");
        reveal_strlit("8");
        reveal_strlit("9");
    }
    let r: &'static str = match d {
        0 => "0",
        1 => "1",
        2 => "2",
        3 => "3",
        4 => "4",
        5 => "5",
        6 => "6",
        7 => "7",
        8 => "8",
        _ => "9",
    };
    proof {
        assert(r@ =~= dec_seq(d as nat));
    }
    r
}

/// Renders `n` in decimal.
pub fn u64_to_decimal(n: u64) -> (s: String)
    ensures
        s@ == dec_seq(n as nat),
    decreases n,
{
    if n < 10 {
        digit_str(n).to_owned()
    } else {
        let mut s = u64_to_decimal(n / 10);
        s.append(digit_str(n % 10));
        proof {
            assert(s@ =~= dec_seq(n as nat));
        }
        s
    }
}

/// The `Range` header value that a pair of optional bounds is encoded as;
/// `None` when no header is sent (full object).
pub open spec fn range_header_view(starting: Option<u64>, ending: Option<u64>) -> Option<
    Seq<char>,
> {
    match (starting, ending) {
        (Some(s), Some(e)) => Some(
            bytes_prefix() + dec_seq(s as nat) + seq!['-'] + dec_seq(e as nat),
        ),
        (Some(s), None) => Some(bytes_prefix() + dec_seq(s as nat) + seq!['-']),
        (None, Some(e)) => Some(bytes_prefix() + seq!['-'] + dec_seq(e as nat)),
        (None, None) => None,
    }
}

/// The characters `bytes=`, the prefix of every range header value.
pub open spec fn bytes_prefix() -> Seq<char> {
    seq!['b', 'y', 't', 'e', 's', '=']
}

/// Encodes a pair of optional bounds as the `Range` header value both
/// backends send, or `None` when the full object is requested.
pub fn range_header(starting: Option<u64>, ending: Option<u64>) -> (r: Option<String>)
    ensures
        opt_str_view(r) == range_header_view(starting, ending),
{
    proof {
        reveal_strlit("bytes=");
        reveal_strlit("-");
        assert("bytes="@ =~= bytes_prefix());
        assert("-"@ =~= seq!['-']);
    }
    match (starting, ending) {
        (Some(s), Some(e)) => {
            let mut h = "bytes=".to_owned();
            let s_dec = u64_to_decimal(s);
            h.append(s_dec.as_str());
            h.append("-");
            let e_dec = u64_to_decimal(e);
            h.append(e_dec.as_str());
            proof {
                assert(h@ =~= bytes_prefix() + dec_seq(s as nat) + seq!['-'] + dec_seq(e as nat));
            }
            Some(h)
        },
        (Some(s), None) => {
            let mut h = "bytes=".to_owned();
            let s_dec = u64_to_decimal(s);
            h.append(s_dec.as_str());
            h.append("-");
            proof {
                assert(h@ =~= bytes_prefix() + dec_seq(s as nat) + seq!['-']);
            }
            Some(h)
        },
        (None, Some(e)) => {
            let mut h = "bytes=".to_owned();
            h.append("-");
            let e_dec = u64_to_decimal(e);
            h.append(e_dec.as_str());
            proof {
                assert(h@ =~= bytes_prefix() + seq!['-'] + dec_seq(e as nat));
            }
            Some(h)
        },
        (None, None) => None,
    }
}

/// Whether a range is satisfiable against content of length `len`.
///
/// An inclusive or open-ended range must start inside the content; the
/// upper bound may overshoot and is clamped, as the providers clamp it. A
/// suffix range (`bytes=-e`) and the full-object request are always
/// satisfiable.
pub open spec fn range_valid(len: nat, starting: Option<u64>, ending: Option<u64>) -> bool {
    match (starting, ending) {
        (Some(s), Some(e)) => s <= e && (s as nat) < len,
        (Some(s), None) => (s as nat) < len,
        (None, Some(_)) => true,
        (None, None) => true,
    }
}

/// The bytes of `data` that a range denotes: the inclusive slice
/// `data[s ..= e]` (clamped to the content's end), the tail from `s`, the
/// last `e` bytes, or all of `data`.
pub open spec fn range_slice(data: Seq<u8>, starting: Option<u64>, ending: Option<u64>) -> Seq<
    u8,
>
    recommends
        range_valid(data.len(), starting, ending),
{
    match (starting, ending) {
        (Some(s), Some(e)) => data.subrange(
            s as int,
            if e + 1 <= data.len() {
                e + 1
            } else {
                data.len() as int
            },
        ),
        (Some(s), None) => data.subrange(s as int, data.len() as int),
        (None, Some(e)) => data.subrange(
            if e <= data.len() {
                data.len() - e
            } else {
                0
            },
            data.len() as int,
        ),
        (None, None) => data,
    }
}

/// Cuts the range out of `data`: `None` exactly when the range is not
/// satisfiable, otherwise the bytes the range denotes.
pub fn apply_range(data: &Vec<u8>, starting: Option<u64>, ending: Option<u64>) -> (r: Option<
    Vec<u8>,
>)
    ensures
        r is Some <==> range_valid(data@.len(), starting, ending),
        (r matches Some(v) ==> v@ == range_slice(data@, starting, ending)),
{
    let len: usize = data.len();
    let bounds: Option<(usize, usize)> = match (starting, ending) {
        (Some(s), Some(e)) => {
            if s <= e && s < len as u64 {
                let lo: usize = s as usize;
                let hi: usize = if e >= len as u64 {
                    len
                } else {
                    (e + 1) as usize
                };
                Some((lo, hi))
            } else {
                None
            }
        },
        (Some(s), None) => {
            if s < len as u64 {
                Some((s as usize, len))
            } else {
                None
            }
        },
        (None, Some(e)) => {
            let lo: usize = if e <= len as u64 {
                len - (e as usize)
            } else {
                0
            };
            Some((lo, len))
        },
        (None, None) => Some((0, len)),
    };
    match bounds {
        Some((lo, hi)) => {
            let mut v: Vec<u8> = Vec::new();
            let mut i: usize = lo;
            while i < hi
                invariant
                    lo <= i <= hi <= data@.len(),
                    v@ == data@.subrange(lo as int, i as int),
                decreases hi - i,
            {
                v.push(data[i]);
                proof {
                    assert(v@ =~= data@.subrange(lo as int, i + 1 as int));
                }
                i += 1;
            }
            proof {
                assert(v@ =~= range_slice(data@, starting, ending));
            }
            Some(v)
        },
        None => None,
    }
}

/// An inclusive in-bounds range `(s, e)` with `s <= e < data.len()` denotes
/// exactly `e - s + 1` bytes, and they are `data[s] ..= data[e]` in order.
pub proof fn lemma_inclusive_range_length(data: Seq<u8>, s: u64, e: u64)
    requires
        s <= e,
        (e as nat) < data.len(),
    ensures
        range_valid(data.len(), Some(s), Some(e)),
        range_slice(data, Some(s), Some(e)).len() == e - s + 1,
        forall|i: int|
            0 <= i < range_slice(data, Some(s), Some(e)).len() ==> range_slice(
                data,
                Some(s),
                Some(e),
            )[i] == data[s + i],
{
}

} // verus!
