//! The `--size WIDTH,HEIGHT` value: two unsigned decimal integers separated
//! by a comma.
use vstd::prelude::*;
use crate::surface::WindowSize;

verus! {

/// The byte `,`.
pub const COMMA: u8 = 44;

/// The byte `+`.
pub const PLUS: u8 = 43;

/// Index of the first comma at or after `start`, or the length when there is
/// none.
pub open spec fn next_comma(s: Seq<u8>, start: int) -> int
    decreases s.len() - start,
{
    if start >= s.len() {
        s.len() as int
    } else if s[start] == COMMA {
        start
    } else {
        next_comma(s, start + 1)
    }
}

/// Every byte is an ASCII decimal digit.
pub open spec fn all_digits(s: Seq<u8>) -> bool {
    forall|i: int| 0 <= i < s.len() ==> 48 <= #[trigger] s[i] <= 57
}

/// The number the decimal digits `s` write.
pub open spec fn digits_value(s: Seq<u8>) -> nat
    decreases s.len(),
{
    if s.len() == 0 {
        0
    } else {
        digits_value(s.drop_last()) * 10 + (s.last() - 48) as nat
    }
}

/// The `u32` that `s` writes in decimal, with an optional leading `+`.
pub open spec fn u32_text(s: Seq<u8>) -> Option<u32> {
    let d = if s.len() > 0 && s[0] == PLUS {
        s.drop_first()
    } else {
        s
    };
    if d.len() > 0 && all_digits(d) && digits_value(d) <= u32::MAX {
        Some(digits_value(d) as u32)
    } else {
        None
    }
}

/// The size written in `s`: the width before the first comma, the height
/// between that comma and the next one (or the end).
pub open spec fn size_text(s: Seq<u8>) -> Option<WindowSize> {
    let c = next_comma(s, 0);
    if c >= s.len() {
        None
    } else {
        let e = next_comma(s, c + 1);
        match (u32_text(s.subrange(0, c)), u32_text(s.subrange(c + 1, e))) {
            (Some(w), Some(h)) => Some(WindowSize { width: w, height: h }),
            _ => None,
        }
    }
}

proof fn lemma_next_comma_bounds(s: Seq<u8>, start: int)
    requires
        0 <= start <= s.len(),
    ensures
        start <= next_comma(s, start) <= s.len(),
    decreases s.len() - start,
{
    if start < s.len() && s[start] != COMMA {
        lemma_next_comma_bounds(s, start + 1);
    }
}

fn find_comma(s: &[u8], start: usize) -> (r: usize)
    requires
        start <= s@.len(),
    ensures
        r == next_comma(s@, start as int),
        start <= r <= s@.len(),
{
    let mut i: usize = start;
    proof {
        lemma_next_comma_bounds(s@, start as int);
    }
    while i < s.len() && s[i] != COMMA
        invariant
            start <= i <= s@.len(),
            next_comma(s@, start as int) == next_comma(s@, i as int),
        decreases s@.len() - i,
    {
        i = i + 1;
    }
    i
}

/// Appending digits never makes the value smaller.
proof fn lemma_digits_grow(s: Seq<u8>, k: int)
    requires
        0 <= k <= s.len(),
        all_digits(s),
    ensures
        digits_value(s.take(k)) <= digits_value(s),
    decreases s.len() - k,
{
    if k < s.len() {
        lemma_digits_grow(s, k + 1);
        assert(s.take(k + 1).drop_last() =~= s.take(k));
    } else {
        assert(s.take(k) =~= s);
    }
}

/// Reads the decimal `u32` in `s[start..end]`, with an optional leading `+`.
fn parse_u32(s: &[u8], start: usize, end: usize) -> (r: Option<u32>)
    requires
        start <= end <= s@.len(),
    ensures
        r == u32_text(s@.subrange(start as int, end as int)),
{
    let ghost t = s@.subrange(start as int, end as int);
    let mut from: usize = start;
    if start < end && s[start] == PLUS {
        from = start + 1;
    }
    let ghost d = s@.subrange(from as int, end as int);
    assert(d =~= (if t.len() > 0 && t[0] == PLUS { t.drop_first() } else { t }));
    if from == end {
        return None;
    }
    let mut value: u64 = 0;
    let mut i: usize = from;
    while i < end
        invariant
            start <= from <= i <= end <= s@.len(),
            d == s@.subrange(from as int, end as int),
            t == s@.subrange(start as int, end as int),
            d.len() > 0,
            u32_text(t) == (if all_digits(d) && digits_value(d) <= u32::MAX {
                Some(digits_value(d) as u32)
            } else {
                None
            }),
            all_digits(d.take(i - from)),
            value == digits_value(d.take(i - from)),
            value <= u32::MAX,
        decreases end - i,
    {
        let b = s[i];
        if b < 48 || b > 57 {
            proof {
                assert(d[i - from] == b);
                assert(!all_digits(d));
                assert(u32_text(t) is None);
            }
            return None;
        }
        proof {
            assert(d.take(i - from + 1).drop_last() =~= d.take(i - from));
            assert(d.take(i - from + 1).last() == b);
        }
        value = value * 10 + (b - 48) as u64;
        i = i + 1;
        if value > u32::MAX as u64 {
            proof {
                if all_digits(d) {
                    lemma_digits_grow(d, i - from);
                }
                assert(u32_text(t) is None);
            }
            return None;
        }
    }
    proof {
        assert(d.take(i - from) =~= d);
    }
    Some(value as u32)
}

/// The size written in `arg`, the value of `--size`: the width before the
/// first comma and the height after it, up to a second comma if any; `None`
/// when there is no comma or either number is not a decimal `u32`.
pub fn parse_size(arg: &[u8]) -> (r: Option<WindowSize>)
    ensures
        r == size_text(arg@),
{
    let c = find_comma(arg, 0);
    if c >= arg.len() {
        return None;
    }
    let e = find_comma(arg, c + 1);
    let w = parse_u32(arg, 0, c);
    let h = parse_u32(arg, c + 1, e);
    match (w, h) {
        (Some(width), Some(height)) => Some(WindowSize { width, height }),
        _ => None,
    }
}

/// The flag that sets the initial window size.
pub open spec fn size_flag() -> Seq<u8> {
    seq![45, 45, 115, 105, 122, 101]
}

/// Whether `a` is the flag `--size`.
pub fn is_size_flag(a: &Vec<u8>) -> (r: bool)
    ensures
        r == (a@ == size_flag()),
{
    let r = a.len() == 6 && a[0] == 45 && a[1] == 45 && a[2] == 115 && a[3] == 105 && a[4] == 122
        && a[5] == 101;
    proof {
        if r {
            assert(a@ =~= size_flag());
        }
    }
    r
}

/// Why the command line was refused.
#[derive(Clone, Copy, Debug, PartialEq, Eq, Structural)]
pub enum ArgError {
    /// The first argument is not `--size`.
    InvalidOption,
    /// `--size` has no value after it.
    MissingSize,
    /// The value of `--size` is not `WIDTH,HEIGHT`.
    InvalidSize,
}

/// The initial window size chosen by the arguments `args` (the program's
/// name excluded), or why they are refused. Only the first argument, and the
/// value after it, are read.
pub open spec fn size_from_args(args: Seq<Seq<u8>>, default: WindowSize) -> Result<WindowSize, ArgError> {
    if args.len() == 0 {
        Ok(default)
    } else if args[0] != size_flag() {
        Err(ArgError::InvalidOption)
    } else if args.len() < 2 {
        Err(ArgError::MissingSize)
    } else {
        match size_text(args[1]) {
            Some(s) => Ok(s),
            None => Err(ArgError::InvalidSize),
        }
    }
}

/// The byte strings that `args` holds.
pub open spec fn arg_bytes(args: Seq<Vec<u8>>) -> Seq<Seq<u8>> {
    args.map_values(|a: Vec<u8>| a@)
}

/// Reads the arguments: none leaves `default`; `--size WIDTH,HEIGHT` sets
/// the size; anything else is refused.
pub fn read_size_args(args: &Vec<Vec<u8>>, default: WindowSize) -> (r: Result<WindowSize, ArgError>)
    ensures
        r == size_from_args(arg_bytes(args@), default),
{
    let ghost a = arg_bytes(args@);
    if args.len() == 0 {
        return Ok(default);
    }
    assert(a[0] == args@[0]@);
    if !is_size_flag(&args[0]) {
        return Err(ArgError::InvalidOption);
    }
    if args.len() < 2 {
        return Err(ArgError::MissingSize);
    }
    assert(a[1] == args@[1]@);
    match parse_size(args[1].as_slice()) {
        Some(s) => Ok(s),
        None => Err(ArgError::InvalidSize),
    }
}

} // verus!
