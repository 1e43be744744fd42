//! Frame ranges and the names of rendered frame files.

use vstd::prelude::*;
use vstd::string::StringExecFns;

verus! {

/// A range of frames `frame_min..frame_limit` can be rendered only when
/// it holds at least one frame.
pub fn valid_frame_range(frame_min: u32, frame_limit: u32) -> (r: bool)
    ensures
        r == (frame_min < frame_limit),
{
    frame_min < frame_limit
}

/// The number of decimal digits of `n`.
pub open spec fn num_digits(n: nat) -> nat
    decreases n,
{
    if n < 10 {
        1
    } else {
        1 + num_digits(n / 10)
    }
}

/// The character of a decimal digit.
pub open spec fn digit_char(d: nat) -> char {
    if d == 0 {
        '0'
    } else if d == 1 {
        '1'
    } else if d == 2 {
        '2'
    } else if d == 3 {
        '3'
    } else if d == 4 {
        '4'
    } else if d == 5 {
        '5'
    } else if d == 6 {
        '6'
    } else if d == 7 {
        '7'
    } else if d == 8 {
        '8'
    } else {
        '9'
    }
}

/// The decimal text of `n`.
pub open spec fn decimal(n: nat) -> Seq<char>
    decreases n,
{
    if n < 10 {
        seq![digit_char(n)]
    } else {
        decimal(n / 10).push(digit_char(n % 10))
    }
}

/// The decimal text of `n`, with leading zeros up to `width` characters.
pub open spec fn zero_padded(n: nat, width: nat) -> Seq<char> {
    let d = decimal(n);
    if d.len() >= width {
        d
    } else {
        Seq::new((width - d.len()) as nat, |i: int| '0') + d
    }
}

proof fn lemma_decimal_len(n: nat)
    ensures
        decimal(n).len() == num_digits(n),
    decreases n,
{
    if n >= 10 {
        lemma_decimal_len(n / 10);
    }
}

/// The number of digits of the largest frame number, as wide as every
/// frame file name is padded: `ilog10(frame_limit) + 1`.
pub fn frame_digits(frame_limit: u32) -> (r: usize)
    requires
        frame_limit > 0,
    ensures
        r == num_digits(frame_limit as nat),
{
    let mut n = frame_limit;
    let mut count: usize = 1;
    while n >= 10
        invariant
            count + num_digits(n as nat) == 1 + num_digits(frame_limit as nat),
            count <= 10,
            num_digits(n as nat) >= 1,
        decreases n,
    {
        proof {
            assert(num_digits(n as nat) == 1 + num_digits((n / 10) as nat));
            lemma_digits_bound(frame_limit as nat);
        }
        n = n / 10;
        count = count + 1;
    }
    count
}

proof fn lemma_digits_bound(n: nat)
    requires
        n <= u32::MAX,
    ensures
        num_digits(n) <= 10,
{
    reveal_with_fuel(num_digits, 11);
}

fn digit_str(d: u32) -> (r: &'static str)
    requires
        d < 10,
    ensures
        r@ == seq![digit_char(d as nat)],
{
    proof {
        reveal_strlit("0");
        reveal_strlit("1");
        reveal_strlit("2");
        reveal_strlit("3");
        reveal_strlit("4");
        reveal_strlit("5");
        reveal_strlit("6");
        reveal_strlit("7");
        reveal_strlit("8");
        reveal_strlit("9");
    }
    if d == 0 {
        "0"
    } else if d == 1 {
        "1"
    } else if d == 2 {
        "2"
    } else if d == 3 {
        "3"
    } else if d == 4 {
        "4"
    } else if d == 5 {
        "5"
    } else if d == 6 {
        "6"
    } else if d == 7 {
        "7"
    } else if d == 8 {
        "8"
    } else {
        "9"
    }
}

/// Appends the decimal text of `n` to `s`.
fn append_decimal(s: &mut String, n: u32)
    ensures
        final(s)@ == old(s)@ + decimal(n as nat),
    decreases n,
{
    if n >= 10 {
        append_decimal(s, n / 10);
    }
    s.append(digit_str(n % 10));
    proof {
        if n >= 10 {
            assert(decimal(n as nat) == decimal((n / 10) as nat).push(digit_char((n % 10) as nat)));
        }
    }
    assert(s@ =~= old(s)@ + decimal(n as nat));
}

/// The file a rendered frame is written to:
/// `{directory}/{frame, zero-padded to width}.exr`.
pub fn frame_file_name(directory: &str, frame: u32, width: usize) -> (r: String)
    ensures
        r@ == directory@ + "/"@ + zero_padded(frame as nat, width as nat) + ".exr"@,
{
    let mut s = directory.to_owned();
    s.append("/");
    let ghost prefix = s@;
    let digits = frame_digits_of(frame);
    proof {
        lemma_decimal_len(frame as nat);
        reveal_strlit("0");
    }
    let mut k: usize = digits;
    while k < width
        invariant
            digits == decimal(frame as nat).len(),
            digits <= k,
            k <= width || k == digits,
            s@ == prefix + Seq::new((k - digits) as nat, |i: int| '0'),
        decreases width - k,
    {
        proof {
            reveal_strlit("0");
        }
        s.append("0");
        k = k + 1;
        assert(s@ =~= prefix + Seq::new((k - digits) as nat, |i: int| '0'));
    }
    let ghost before = s@;
    append_decimal(&mut s, frame);
    proof {
        let d = decimal(frame as nat);
        if d.len() >= width {
            assert(k == digits);
            assert(s@ =~= prefix + zero_padded(frame as nat, width as nat));
        } else {
            assert(k == width);
            assert(s@ =~= prefix + zero_padded(frame as nat, width as nat));
        }
    }
    s.append(".exr");
    s
}

/// The number of decimal digits of `n`.
fn frame_digits_of(n: u32) -> (r: usize)
    ensures
        r == num_digits(n as nat),
{
    if n == 0 {
        1
    } else {
        frame_digits(n)
    }
}

/// The number a decimal digit character stands for.
pub open spec fn char_digit(c: char) -> nat {
    if c == '1' {
        1
    } else if c == '2' {
        2
    } else if c == '3' {
        3
    } else if c == '4' {
        4
    } else if c == '5' {
        5
    } else if c == '6' {
        6
    } else if c == '7' {
        7
    } else if c == '8' {
        8
    } else if c == '9' {
        9
    } else {
        0
    }
}

/// The number a text of decimal digits stands for.
pub open spec fn digits_value(s: Seq<char>) -> nat
    decreases s.len(),
{
    if s.len() == 0 {
        0
    } else {
        digits_value(s.drop_last()) * 10 + char_digit(s.last())
    }
}

proof fn lemma_digit_round_trip(d: nat)
    requires
        d < 10,
    ensures
        char_digit(digit_char(d)) == d,
{
}

proof fn lemma_decimal_value(n: nat)
    ensures
        digits_value(decimal(n)) == n,
    decreases n,
{
    let d = decimal(n);
    if n >= 10 {
        lemma_decimal_value(n / 10);
        assert(d.drop_last() =~= decimal(n / 10));
        lemma_digit_round_trip(n % 10);
        assert(d.last() == digit_char(n % 10));
        assert(digits_value(d) == digits_value(d.drop_last()) * 10 + char_digit(d.last()));
        assert((n / 10) * 10 + n % 10 == n);
    } else {
        lemma_digit_round_trip(n);
        assert(d.drop_last() =~= Seq::<char>::empty());
        assert(digits_value(d) == digits_value(d.drop_last()) * 10 + char_digit(d.last()));
    }
}

proof fn lemma_zeros_value(k: nat, s: Seq<char>)
    ensures
        digits_value(Seq::new(k, |i: int| '0') + s) == digits_value(s),
    decreases s.len(), k,
{
    let z = Seq::new(k, |i: int| '0');
    if s.len() == 0 {
        assert(z + s =~= z);
        if k > 0 {
            let z1 = Seq::new((k - 1) as nat, |i: int| '0');
            assert(z.drop_last() =~= z1 + Seq::<char>::empty());
            lemma_zeros_value((k - 1) as nat, Seq::<char>::empty());
            assert(z1 + Seq::<char>::empty() =~= z1);
        }
    } else {
        assert((z + s).drop_last() =~= z + s.drop_last());
        lemma_zeros_value(k, s.drop_last());
    }
}

/// Each frame gets a file of its own: for a given width, distinct
/// frame numbers give distinct padded names, and the padded name reads
/// back as the frame number.
pub proof fn law_frame_names_distinct(frame1: nat, frame2: nat, width: nat)
    ensures
        digits_value(zero_padded(frame1, width)) == frame1,
        frame1 != frame2 ==> zero_padded(frame1, width) != zero_padded(frame2, width),
{
    lemma_decimal_value(frame1);
    lemma_decimal_value(frame2);
    let d1 = decimal(frame1);
    let d2 = decimal(frame2);
    if d1.len() < width {
        lemma_zeros_value((width - d1.len()) as nat, d1);
    }
    if d2.len() < width {
        lemma_zeros_value((width - d2.len()) as nat, d2);
    }
}

/// A padded frame number is at least `width` characters long, and
/// exactly that long when its digits fit.
pub proof fn law_frame_name_width(frame: nat, width: nat)
    ensures
        zero_padded(frame, width).len() >= width,
        num_digits(frame) <= width ==> zero_padded(frame, width).len() == width,
{
    lemma_decimal_len(frame);
}

} // verus!
