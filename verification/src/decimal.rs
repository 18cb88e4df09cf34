//! Exact decimal quantities.
//!
//! A meter reading arrives as an integer together with a signed decimal
//! exponent (the "scaler").  The product `value * 10^scaler` must be kept
//! exact for every representable magnitude and every scaler, so the quantity
//! is stored as the pair itself: a mantissa and an exponent.  No intermediate
//! arithmetic is performed, hence nothing can overflow or round.

use vstd::prelude::*;
use vstd::string::StrSliceExecFns;
use vstd::string::StringExecFns;
use vstd::utf8::is_ascii_chars;

verus! {

/// `10^e`, the weight a scaler gives to a reading.
pub open spec fn pow10(e: nat) -> nat
    decreases e,
{
    if e == 0 {
        1
    } else {
        10 * pow10((e - 1) as nat)
    }
}

/// An exact decimal quantity, worth `mantissa * 10^exp`.
#[derive(Clone, Copy, Debug, PartialEq, Eq, Structural)]
pub struct Dec {
    pub mantissa: i128,
    pub exp: i8,
}

impl Dec {
    /// The mantissa must be negatable, so that its magnitude fits in `i128`
    /// when the text rendering takes the absolute value.
    pub open spec fn wf(self) -> bool {
        self.mantissa > i128::MIN
    }

    /// The quantity is exactly `v * 10^e`: stated over the integers by
    /// multiplying both sides up to a common exponent.
    pub open spec fn represents(self, v: int, e: int) -> bool {
        if self.exp >= e {
            self.mantissa * pow10((self.exp - e) as nat) == v
        } else {
            self.mantissa == v * pow10((e - self.exp) as nat)
        }
    }

    /// Runtime check of `wf`, for callers outside the verified world.
    pub fn is_wf(&self) -> (b: bool)
        ensures
            b == self.wf(),
    {
        self.mantissa > i128::MIN
    }

    /// Builds the quantity `mantissa * 10^exp`.
    pub fn new(mantissa: i128, exp: i8) -> (r: Dec)
        requires
            mantissa > i128::MIN,
        ensures
            r == (Dec { mantissa, exp }),
            r.wf(),
            r.represents(mantissa as int, exp as int),
    {
        proof {
            assert(pow10(0) == 1);
            let d = Dec { mantissa, exp };
            let e: int = exp as int;
            assert((d.exp - e) as nat == 0);
            assert(d.mantissa * pow10((d.exp - e) as nat) == d.mantissa * 1);
        }
        Dec { mantissa, exp }
    }
}

/// The character for one decimal digit.
pub open spec fn digit_char(d: nat) -> char {
    if d == 0 {
        '0'
    } else if d == 1 {
        '1'
    } else if d == 2 {
        '2'
    } else if d == 3 {
        '3'
    } else if d == 4 {
        '4'
    } else if d == 5 {
        '5'
    } else if d == 6 {
        '6'
    } else if d == 7 {
        '7'
    } else if d == 8 {
        '8'
    } else {
        '9'
    }
}

/// The decimal digits of `n`, most significant first, with no leading zero
/// except for `n == 0` itself.
pub open spec fn digits(n: nat) -> Seq<char>
    decreases n,
{
    if n < 10 {
        seq![digit_char(n)]
    } else {
        digits(n / 10) + seq![digit_char(n % 10)]
    }
}

/// `k` zero characters.
pub open spec fn zeros(k: nat) -> Seq<char> {
    Seq::new(k, |i: int| '0')
}

/// The text of a whole quantity `n * 10^e`.
pub open spec fn whole_text(n: nat, e: nat) -> Seq<char> {
    if n == 0 {
        seq!['0']
    } else {
        digits(n) + zeros(e)
    }
}

/// The text of a fractional quantity `n * 10^(-s)` for `s >= 1`: the digits
/// of `n` with a decimal point `s` places from the right, zero-padded on the
/// left down to one leading whole digit.  The `s` fractional digits are kept
/// even when they are zeros: the scaler says how much precision the meter
/// reported.
pub open spec fn frac_text(n: nat, s: nat) -> Seq<char> {
    let ds = digits(n);
    if ds.len() > s {
        ds.subrange(0, ds.len() - s) + seq!['.'] + ds.subrange(ds.len() - s, ds.len() as int)
    } else {
        seq!['0', '.'] + zeros((s - ds.len()) as nat) + ds
    }
}

/// The exact decimal text of a quantity: no rounding, no scientific
/// notation, trailing zeros exactly as the exponent carries them.
pub open spec fn dec_text(d: Dec) -> Seq<char> {
    let n: nat = if d.mantissa < 0 {
        (0 - d.mantissa) as nat
    } else {
        d.mantissa as nat
    };
    let sign: Seq<char> = if d.mantissa < 0 {
        seq!['-']
    } else {
        Seq::<char>::empty()
    };
    if d.exp >= 0 {
        sign + whole_text(n, d.exp as nat)
    } else {
        sign + frac_text(n, (0 - d.exp) as nat)
    }
}

/// Digit sequences are never empty and hold ASCII characters only.
pub proof fn lemma_digits_wf(n: nat)
    ensures
        digits(n).len() >= 1,
        is_ascii_chars(digits(n)),
    decreases n,
{
    if n < 10 {
        assert(digits(n) =~= seq![digit_char(n)]);
    } else {
        lemma_digits_wf(n / 10);
        assert(digits(n) =~= digits(n / 10) + seq![digit_char(n % 10)]);
    }
}

/// One decimal digit as a string slice.
fn digit_str(d: u8) -> (r: &'static str)
    requires
        d < 10,
    ensures
        r@ == seq![digit_char(d as nat)],
{
    proof {
        reveal_strlit("0");
        reveal_strlit("1");
        reveal_strlit("2");
        reveal_strlit("3");
        reveal_strlit("4");
        reveal_strlit("5");
        reveal_strlit("6");
        reveal_strlit("7");
        reveal_strlit("8");
        reveal_strlit("9");
    }
    match d {
        0 => "0",
        1 => "1",
        2 => "2",
        3 => "3",
        4 => "4",
        5 => "5",
        6 => "6",
        7 => "7",
        8 => "8",
        _ => "9",
    }
}

/// Renders the decimal digits of `n`, most significant first.
pub fn digits_u128(n: u128) -> (r: String)
    ensures
        r@ == digits(n as nat),
    decreases n,
{
    if n < 10 {
        String::from_str(digit_str(n as u8))
    } else {
        let mut s = digits_u128(n / 10);
        s.append(digit_str((n % 10) as u8));
        s
    }
}

/// Appends `k` zero characters.
fn push_zeros(s: &mut String, k: usize)
    ensures
        final(s)@ == old(s)@ + zeros(k as nat),
{
    let mut i: usize = 0;
    proof {
        assert(s@ =~= old(s)@ + zeros(0));
    }
    while i < k
        invariant
            i <= k,
            s@ == old(s)@ + zeros(i as nat),
        decreases k - i,
    {
        s.append("0");
        i = i + 1;
        proof {
            reveal_strlit("0");
            assert(old(s)@ + zeros((i - 1) as nat) + "0"@ =~= old(s)@ + zeros(i as nat));
        }
    }
}

impl Dec {
    /// Renders the quantity as exact decimal text.
    pub fn to_text(&self) -> (r: String)
        requires
            self.wf(),
        ensures
            r@ == dec_text(*self),
    {
        let neg = self.mantissa < 0;
        let mag: u128 = if neg {
            (-self.mantissa) as u128
        } else {
            self.mantissa as u128
        };
        let ghost n: nat = mag as nat;
        proof {
            lemma_digits_wf(n);
        }
        let mut s = String::new();
        if neg {
            s.append("-");
            proof {
                reveal_strlit("-");
                assert(s@ =~= seq!['-']);
            }
        }
        if self.exp >= 0 {
            if mag == 0 {
                s.append("0");
                proof {
                    reveal_strlit("0");
                    assert(s@ =~= dec_text(*self));
                }
            } else {
                let ds = digits_u128(mag);
                s.append(ds.as_str());
                push_zeros(&mut s, self.exp as usize);
                proof {
                    assert(s@ =~= dec_text(*self));
                }
            }
        } else {
            let scale: usize = (-(self.exp as i32)) as usize;
            let ds = digits_u128(mag);
            let len = ds.unicode_len();
            proof {
                assert(is_ascii_chars(ds@));
            }
            if len > scale {
                let head = ds.as_str().substring_ascii(0, len - scale);
                s.append(head);
                s.append(".");
                let tail = ds.as_str().substring_ascii(len - scale, len);
                s.append(tail);
                proof {
                    reveal_strlit(".");
                    assert(s@ =~= dec_text(*self));
                }
            } else {
                s.append("0.");
                push_zeros(&mut s, scale - len);
                s.append(ds.as_str());
                proof {
                    reveal_strlit("0.");
                    assert(s@ =~= dec_text(*self));
                }
            }
        }
        s
    }
}

} // verus!
