//! Money and counters as display text.
use crate::text::push_char;
use vstd::prelude::*;

verus! {

/// The character of the decimal digit `d`.
pub open spec fn digit_char(d: int) -> char {
    if d == 0 {
        '0'
    } else if d == 1 {
        '1'
    } else if d == 2 {
        '2'
    } else if d == 3 {
        '3'
    } else if d == 4 {
        '4'
    } else if d == 5 {
        '5'
    } else if d == 6 {
        '6'
    } else if d == 7 {
        '7'
    } else if d == 8 {
        '8'
    } else {
        '9'
    }
}

/// The decimal digits of `n`, most significant first, without leading zeros.
pub open spec fn digits(n: nat) -> Seq<char>
    decreases n,
{
    if n < 10 {
        seq![digit_char(n as int)]
    } else {
        digits(n / 10).push(digit_char((n % 10) as int))
    }
}

/// The decimal text of `n`, with a leading minus sign where it is negative.
pub open spec fn signed_digits(n: int) -> Seq<char> {
    if n < 0 {
        seq!['-'] + digits((-n) as nat)
    } else {
        digits(n as nat)
    }
}

/// The first `i` digits of `d`, with a comma before each digit after the
/// first that has a multiple of three digits after it.
pub open spec fn grouped(d: Seq<char>, i: nat) -> Seq<char>
    decreases i,
{
    if i == 0 {
        seq![]
    } else {
        let k = i - 1;
        grouped(d, k as nat) + if k > 0 && (d.len() - k) % 3 == 0 {
            seq![',']
        } else {
            seq![]
        } + seq![d[k]]
    }
}

/// `d` with thousands separators.
pub open spec fn with_separators(d: Seq<char>) -> Seq<char> {
    grouped(d, d.len())
}

pub open spec fn abs(n: int) -> int {
    if n < 0 {
        -n
    } else {
        n
    }
}

/// `cents` as money: the symbol, a minus sign where the whole part is
/// negative, the whole part with thousands separators, and two decimals.
pub open spec fn money_text(cents: int, symbol: Seq<char>) -> Seq<char> {
    let whole = abs(cents) / 100;
    let frac = abs(cents) % 100;
    symbol + (if cents <= -100 {
        seq!['-']
    } else {
        seq![]
    }) + with_separators(digits(whole as nat)) + seq![
        '.',
        digit_char(frac / 10),
        digit_char(frac % 10),
    ]
}

fn digit(d: u64) -> (c: char)
    requires
        d < 10,
    ensures
        c == digit_char(d as int),
{
    if d == 0 {
        '0'
    } else if d == 1 {
        '1'
    } else if d == 2 {
        '2'
    } else if d == 3 {
        '3'
    } else if d == 4 {
        '4'
    } else if d == 5 {
        '5'
    } else if d == 6 {
        '6'
    } else if d == 7 {
        '7'
    } else if d == 8 {
        '8'
    } else {
        '9'
    }
}

/// The decimal digits of `n`.
pub fn decimal_digits(n: u64) -> (r: Vec<char>)
    ensures
        r@ == digits(n as nat),
        r@.len() >= 1,
{
    let mut m = n;
    let mut acc: Vec<char> = Vec::new();
    while m >= 10
        invariant
            digits(n as nat) == digits(m as nat) + acc@,
        decreases m,
    {
        let c = digit(m % 10);
        let ghost before = acc@;
        acc.insert(0, c);
        proof {
            assert(digits(m as nat) == digits((m / 10) as nat).push(c));
            assert(digits((m / 10) as nat) + acc@ =~= digits((m / 10) as nat).push(c) + before);
        }
        m = m / 10;
    }
    let ghost before = acc@;
    acc.insert(0, digit(m));
    assert(acc@ =~= digits(m as nat) + before);
    acc
}

/// `n` as decimal text.
pub fn decimal_text(n: i64) -> (r: String)
    ensures
        r@ == signed_digits(n as int),
{
    let mag: u64 = if n < 0 {
        (-(n as i128)) as u64
    } else {
        n as u64
    };
    let ds = decimal_digits(mag);
    let mut out = String::new();
    if n < 0 {
        push_char(&mut out, '-');
    }
    let ghost lead = out@;
    let mut i: usize = 0;
    while i < ds.len()
        invariant
            0 <= i <= ds@.len(),
            out@ == lead + ds@.take(i as int),
        decreases ds@.len() - i,
    {
        push_char(&mut out, ds[i]);
        i = i + 1;
        assert(out@ =~= lead + ds@.take(i as int));
    }
    assert(ds@.take(i as int) =~= ds@);
    assert(out@ =~= signed_digits(n as int));
    out
}

/// `cents` as money in the currency with the given symbol, such as
/// `€1,234.56`.
pub fn format_money(cents: i64, symbol: &str) -> (r: String)
    ensures
        r@ == money_text(cents as int, symbol@),
{
    let mag: u64 = if cents < 0 {
        (-(cents as i128)) as u64
    } else {
        cents as u64
    };
    let whole = mag / 100;
    let frac = mag % 100;
    let ds = decimal_digits(whole);
    let mut out = String::from_str(symbol);
    if cents <= -100 {
        push_char(&mut out, '-');
    }
    let ghost lead = out@;
    let mut i: usize = 0;
    while i < ds.len()
        invariant
            0 <= i <= ds@.len(),
            out@ == lead + grouped(ds@, i as nat),
        decreases ds@.len() - i,
    {
        if i > 0 && (ds.len() - i) % 3 == 0 {
            push_char(&mut out, ',');
        }
        push_char(&mut out, ds[i]);
        i = i + 1;
        assert(out@ =~= lead + grouped(ds@, i as nat));
    }
    push_char(&mut out, '.');
    push_char(&mut out, digit(frac / 10));
    push_char(&mut out, digit(frac % 10));
    assert(out@ =~= money_text(cents as int, symbol@));
    out
}

/// The dots of the waiting animation: none, one, two or three, in turn.
pub fn dots_animation(tick: u32) -> (r: String)
    ensures
        r@ == Seq::new((tick % 4) as nat, |i: int| '.'),
{
    let dots = if tick % 4 == 0 {
        ""
    } else if tick % 4 == 1 {
        "."
    } else if tick % 4 == 2 {
        ".."
    } else {
        "..."
    };
    proof {
        reveal_strlit("");
        reveal_strlit(".");
        reveal_strlit("..");
        reveal_strlit("...");
        assert(dots@ =~= Seq::new((tick % 4) as nat, |i: int| '.'));
    }
    String::from_str(dots)
}

} // verus!
