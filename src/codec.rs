//! Fixed-width, zero-padded, unsigned decimal fields.
//!
//! A field is described by an [`ArgFormat`]: `digits` characters on the wire,
//! of which the rightmost `decimals` are the fractional part.
use crate::psu::{Milli, SupplyVariant, MILLI_DECIMALS};
use crate::{command, response};
use vstd::prelude::*;

verus! {

/// Widest field this codec handles, so that every field value fits a `Milli`.
pub const MAX_DIGITS: usize = 15;

/// `10^n`.
pub open spec fn pow10(n: nat) -> nat
    decreases n,
{
    if n == 0 {
        1
    } else {
        10 * pow10((n - 1) as nat)
    }
}

/// Whether `b` is an ASCII decimal digit.
pub open spec fn is_digit(b: u8) -> bool {
    0x30 <= b <= 0x39
}

/// Whether every byte of `s` is an ASCII decimal digit.
pub open spec fn all_digits(s: Seq<u8>) -> bool {
    forall|i: int| 0 <= i < s.len() ==> #[trigger] is_digit(s[i])
}

/// The number that a string of decimal digits spells, most significant first.
pub open spec fn digits_value(s: Seq<u8>) -> nat
    decreases s.len(),
{
    if s.len() == 0 {
        0
    } else {
        digits_value(s.drop_last()) * 10 + (s.last() - 0x30) as nat
    }
}

/// The last `width` decimal digits of `n`, most significant first: for
/// `n < 10^width`, `n` left-padded with `0` to exactly `width` characters.
pub open spec fn padded(n: nat, width: nat) -> Seq<u8>
    decreases width,
{
    if width == 0 {
        seq![]
    } else {
        padded(n / 10, (width - 1) as nat).push((0x30 + n % 10) as u8)
    }
}

/// `val / step`, rounded to the nearest integer, ties away from zero.
pub open spec fn round_div(val: int, step: int) -> int {
    if (val % step) * 2 >= step {
        val / step + 1
    } else {
        val / step
    }
}

/// Descriptor of one numeric field: `(decimals, digits)`.
#[derive(Clone, Copy, Debug, PartialEq, Eq, Structural, Hash)]
pub struct ArgFormat {
    /// How many of the rightmost digits are the fractional part.
    pub decimals: usize,
    /// Total width of the field on the wire.
    pub digits: usize,
}

impl ArgFormat {
    /// The descriptor is usable: at least one digit, no more fractional
    /// digits than the field has or than a `Milli` resolves, and a width
    /// whose values fit a `Milli`.
    pub open spec fn wf(self) -> bool {
        &&& 1 <= self.digits <= MAX_DIGITS
        &&& self.decimals <= self.digits
        &&& self.decimals <= MILLI_DECIMALS
    }

    /// Thousandths of a unit that one step of the last digit stands for.
    pub open spec fn spec_step(self) -> nat {
        pow10((MILLI_DECIMALS - self.decimals) as nat)
    }

    /// Largest representable value, in thousandths:
    /// `(10^digits - 1) / 10^decimals` units.
    pub open spec fn spec_max(self) -> int {
        (pow10(self.digits as nat) - 1) * self.spec_step()
    }

    /// The integer written on the wire for `val`, when it is representable.
    pub open spec fn spec_output_val(self, val: Milli) -> Option<nat> {
        if 0 <= val.0 <= self.spec_max() {
            Some(round_div(val.0 as int, self.spec_step() as int) as nat)
        } else {
            None
        }
    }

    /// Whether `val` is representable in this field without rounding.
    pub open spec fn spec_exact(self, val: Milli) -> bool {
        0 <= val.0 <= self.spec_max() && (val.0 as int) % (self.spec_step() as int) == 0
    }

    /// The field that encodes `val`, or `None` when `val` is negative or
    /// above the field's maximum.
    pub open spec fn spec_encode(self, val: Milli) -> Option<Seq<u8>> {
        match self.spec_output_val(val) {
            Some(n) => Some(padded(n, self.digits as nat)),
            None => None,
        }
    }

    /// The value a field decodes to, or `None` when it is malformed: not
    /// exactly `digits` long, or holding a byte that is not a decimal digit.
    pub open spec fn spec_parse(self, raw: Seq<u8>) -> Option<Milli> {
        if raw.len() == self.digits && all_digits(raw) {
            Some(Milli((digits_value(raw) * self.spec_step()) as i64))
        } else {
            None
        }
    }

    /// The 3-digit voltage field of `variant`.
    pub open spec fn spec_for_voltage(variant: SupplyVariant) -> ArgFormat {
        ArgFormat { decimals: variant.spec_info().voltage_decimals, digits: 3 }
    }

    /// The 3-digit current field of `variant`.
    pub open spec fn spec_for_current(variant: SupplyVariant) -> ArgFormat {
        ArgFormat { decimals: variant.spec_info().current_decimals, digits: 3 }
    }

    /// The 3-digit voltage field of `variant`.
    pub fn for_voltage(variant: &SupplyVariant) -> (r: ArgFormat)
        ensures
            r == Self::spec_for_voltage(*variant),
            r.wf(),
    {
        ArgFormat { decimals: variant.info().voltage_decimals, digits: 3 }
    }

    /// The 3-digit current field of `variant`.
    pub fn for_current(variant: &SupplyVariant) -> (r: ArgFormat)
        ensures
            r == Self::spec_for_current(*variant),
            r.wf(),
    {
        ArgFormat { decimals: variant.info().current_decimals, digits: 3 }
    }

    /// Thousandths of a unit that one step of the last digit stands for.
    pub fn step(&self) -> (r: i64)
        requires
            self.wf(),
        ensures
            r == self.spec_step(),
    {
        let mut r: i64 = 1;
        let mut i: usize = self.decimals;
        while i < MILLI_DECIMALS
            invariant
                self.decimals <= i <= MILLI_DECIMALS,
                r == pow10((i - self.decimals) as nat),
            decreases MILLI_DECIMALS - i,
        {
            proof {
                reveal_with_fuel(pow10, 4);
            }
            r = r * 10;
            i = i + 1;
        }
        r
    }

    /// Largest representable value.
    pub fn max(&self) -> (r: Milli)
        requires
            self.wf(),
        ensures
            r.0 == self.spec_max(),
    {
        let top = pow10_exec(self.digits);
        let step = self.step();
        proof {
            lemma_max_fits(*self);
            lemma_pow10_mono(self.digits as nat, MAX_DIGITS as nat);
            lemma_pow10_values();
            assert((top - 1) * step == self.spec_max());
        }
        Milli((top as i64 - 1) * step)
    }

    /// The integer to write for `val`, or `None` when `val` cannot be
    /// represented in this field.
    pub fn output_val(&self, val: Milli) -> (r: Option<u64>)
        requires
            self.wf(),
        ensures
            match r {
                Some(n) => self.spec_output_val(val) == Some(n as nat),
                None => self.spec_output_val(val) is None,
            },
    {
        let max = self.max();
        if val.0 < 0 || val.0 > max.0 {
            return None;
        }
        let step = self.step();
        proof {
            lemma_max_fits(*self);
            lemma_round_div_exec(val.0 as int, *self);
        }
        Some(((val.0 + step / 2) / step) as u64)
    }

    /// Append the encoding of `val` to `sink`.
    ///
    /// Fails with `ValueUnrepresentable(val)`, leaving `sink` untouched, when
    /// `val` is negative or above the field's maximum.
    pub fn serialize_arg(&self, sink: &mut Vec<u8>, val: Milli) -> (r: Result<(), command::Error>)
        requires
            self.wf(),
        ensures
            match self.spec_encode(val) {
                Some(field) => r is Ok && final(sink)@ == old(sink)@ + field,
                None => r == Err::<(), command::Error>(command::Error::ValueUnrepresentable(val))
                    && final(sink)@ == old(sink)@,
            },
    {
        match self.output_val(val) {
            Some(n) => {
                push_padded(sink, n, self.digits);
                Ok(())
            },
            None => Err(command::Error::ValueUnrepresentable(val)),
        }
    }

    /// Decode one field.
    ///
    /// Fails with `MalformedResponse` when `raw` is not exactly `digits`
    /// long or holds a byte that is not an ASCII decimal digit.
    pub fn parse(&self, raw: &[u8]) -> (r: Result<Milli, response::Error>)
        requires
            self.wf(),
        ensures
            match self.spec_parse(raw@) {
                Some(v) => r == Ok::<Milli, response::Error>(v),
                None => r is Err && r->Err_0 is MalformedResponse,
            },
    {
        if raw.len() != self.digits {
            return Err(response::Error::MalformedResponse);
        }
        let mut acc: u64 = 0;
        let mut i: usize = 0;
        while i < raw.len()
            invariant
                0 <= i <= raw.len(),
                raw.len() == self.digits,
                self.wf(),
                all_digits(raw@.take(i as int)),
                acc == digits_value(raw@.take(i as int)),
                acc < pow10(i as nat),
            decreases raw.len() - i,
        {
            let b = raw[i];
            if b < 0x30 || b > 0x39 {
                assert(!is_digit(raw@[i as int]));
                return Err(response::Error::MalformedResponse);
            }
            proof {
                lemma_pow10_mono(i as nat, MAX_DIGITS as nat);
                lemma_pow10_values();
                assert(raw@.take(i + 1).drop_last() == raw@.take(i as int));
            }
            acc = acc * 10 + (b - 0x30) as u64;
            i = i + 1;
        }
        assert(raw@.take(i as int) == raw@);
        let step = self.step();
        proof {
            lemma_pow10_mono(self.digits as nat, MAX_DIGITS as nat);
            lemma_pow10_mono((MILLI_DECIMALS - self.decimals) as nat, MILLI_DECIMALS as nat);
            lemma_pow10_values();
            assert(acc * step <= 1_000_000_000_000_000 * 1000) by (nonlinear_arith)
                requires
                    acc < 1_000_000_000_000_000,
                    step <= 1000,
                    step >= 1,
            ;
        }
        Ok(Milli(acc as i64 * step))
    }
}

/// `10^n`, for the widths this codec handles.
pub fn pow10_exec(n: usize) -> (r: u64)
    requires
        n <= MAX_DIGITS,
    ensures
        r == pow10(n as nat),
{
    let mut r: u64 = 1;
    let mut i: usize = 0;
    while i < n
        invariant
            0 <= i <= n,
            n <= MAX_DIGITS,
            r == pow10(i as nat),
        decreases n - i,
    {
        proof {
            lemma_pow10_mono((i + 1) as nat, MAX_DIGITS as nat);
            lemma_pow10_values();
        }
        r = r * 10;
        i = i + 1;
    }
    r
}

/// Append `n` to `sink` as exactly `width` decimal digits, zero-padded.
fn push_padded(sink: &mut Vec<u8>, n: u64, width: usize)
    ensures
        final(sink)@ == old(sink)@ + padded(n as nat, width as nat),
    decreases width,
{
    if width > 0 {
        push_padded(sink, n / 10, width - 1);
        sink.push(0x30 + (n % 10) as u8);
        assert(sink@ == old(sink)@ + padded(n as nat, width as nat));
    }
}

/// The powers of ten this codec reaches.
pub proof fn lemma_pow10_values()
    ensures
        pow10(0) == 1,
        pow10(1) == 10,
        pow10(2) == 100,
        pow10(3) == 1000,
        pow10(15) == 1_000_000_000_000_000,
{
    reveal_with_fuel(pow10, 16);
}

/// Powers of ten grow with the exponent.
pub proof fn lemma_pow10_mono(a: nat, b: nat)
    requires
        a <= b,
    ensures
        1 <= pow10(a) <= pow10(b),
    decreases b,
{
    if a < b {
        lemma_pow10_mono(a, (b - 1) as nat);
    } else if a > 0 {
        lemma_pow10_mono((a - 1) as nat, (a - 1) as nat);
    }
}

/// The step of a well-formed field is a power of ten up to a thousand.
proof fn lemma_step_values(f: ArgFormat)
    requires
        f.wf(),
    ensures
        f.spec_step() == 1 || f.spec_step() == 10 || f.spec_step() == 100 || f.spec_step() == 1000,
{
    lemma_pow10_values();
    if f.decimals == 0 {
        assert(f.spec_step() == pow10(3));
    } else if f.decimals == 1 {
        assert(f.spec_step() == pow10(2));
    } else if f.decimals == 2 {
        assert(f.spec_step() == pow10(1));
    } else {
        assert(f.spec_step() == pow10(0));
    }
}

/// The maximum of a well-formed field fits a `Milli`.
proof fn lemma_max_fits(f: ArgFormat)
    requires
        f.wf(),
    ensures
        1 <= f.spec_step() <= 1000,
        1000int % (f.spec_step() as int) == 0,
        f.spec_max() + f.spec_step() <= 1_000_000_000_000_000 * 1000,
        0 <= f.spec_max(),
{
    lemma_pow10_mono(f.digits as nat, MAX_DIGITS as nat);
    lemma_step_values(f);
    lemma_pow10_values();
    let p = pow10(f.digits as nat);
    let s = f.spec_step();
    assert(p * s <= 1_000_000_000_000_000 * 1000) by (nonlinear_arith)
        requires
            p <= 1_000_000_000_000_000,
            s <= 1000,
    ;
    assert((p - 1) * s + s == p * s) by (nonlinear_arith);
}

/// The rounding that `output_val` computes is `round_div`, and it lands in
/// the field's range.
proof fn lemma_round_div_exec(val: int, f: ArgFormat)
    requires
        f.wf(),
        0 <= val <= f.spec_max(),
    ensures
        (val + f.spec_step() as int / 2) / (f.spec_step() as int) == round_div(
            val,
            f.spec_step() as int,
        ),
        0 <= round_div(val, f.spec_step() as int) < pow10(f.digits as nat),
{
    lemma_max_fits(f);
    lemma_step_values(f);
    let s = f.spec_step() as int;
    let p = pow10(f.digits as nat) as int;
    if s == 1 {
        assert((val + 0) / 1 == round_div(val, 1));
    } else if s == 10 {
        assert((val + 5) / 10 == round_div(val, 10));
    } else if s == 100 {
        assert((val + 50) / 100 == round_div(val, 100));
    } else {
        assert((val + 500) / 1000 == round_div(val, 1000));
    }
    assert(val <= (p - 1) * s);
    assert(round_div(val, s) <= p - 1) by (nonlinear_arith)
        requires
            s >= 1,
            0 <= val <= (p - 1) * s,
            round_div(val, s) == if (val % s) * 2 >= s {
                val / s + 1
            } else {
                val / s
            },
            s == 1 || s == 10 || s == 100 || s == 1000,
    ;
}

/// A padded number is `width` decimal digits long.
pub proof fn lemma_padded_shape(n: nat, width: nat)
    ensures
        padded(n, width).len() == width,
        all_digits(padded(n, width)),
    decreases width,
{
    if width > 0 {
        lemma_padded_shape(n / 10, (width - 1) as nat);
        let p = padded(n, width);
        assert forall|i: int| 0 <= i < p.len() implies #[trigger] is_digit(p[i]) by {
            if i < width - 1 {
                assert(p[i] == padded(n / 10, (width - 1) as nat)[i]);
            }
        }
    }
}

/// Reading back a padded number gives the number, when it fits the width.
pub proof fn lemma_padded_value(n: nat, width: nat)
    requires
        n < pow10(width),
    ensures
        digits_value(padded(n, width)) == n,
    decreases width,
{
    if width == 0 {
    } else {
        lemma_padded_value(n / 10, (width - 1) as nat);
        assert(padded(n, width).drop_last() == padded(n / 10, (width - 1) as nat));
    }
}

/// Writing out the number a digit string spells gives the string back.
pub proof fn lemma_value_padded(s: Seq<u8>)
    requires
        all_digits(s),
    ensures
        padded(digits_value(s), s.len()) == s,
        digits_value(s) < pow10(s.len()),
    decreases s.len(),
{
    if s.len() > 0 {
        let t = s.drop_last();
        assert(all_digits(t)) by {
            assert forall|i: int| 0 <= i < t.len() implies #[trigger] is_digit(t[i]) by {
                assert(t[i] == s[i]);
            }
        }
        lemma_value_padded(t);
        assert(is_digit(s[s.len() - 1]));
        let v = digits_value(s);
        assert(v / 10 == digits_value(t));
        assert(v % 10 == s.last() - 0x30);
        assert(padded(v, s.len()) == s);
    }
}

/// Round trip, value first: every value in `[0, max]` encodes to exactly
/// `digits` ASCII digits, and decoding them gives the value back rounded to
/// the field's precision (half away from zero); a value already at that
/// precision comes back unchanged.
pub proof fn lemma_encode_parse_round_trip(f: ArgFormat, val: Milli)
    requires
        f.wf(),
        0 <= val.0 <= f.spec_max(),
    ensures
        f.spec_encode(val) is Some,
        f.spec_encode(val)->0.len() == f.digits,
        all_digits(f.spec_encode(val)->0),
        f.spec_parse(f.spec_encode(val)->0) == Some(
            Milli((round_div(val.0 as int, f.spec_step() as int) * f.spec_step()) as i64),
        ),
        (val.0 as int) % (f.spec_step() as int) == 0 ==> f.spec_parse(f.spec_encode(val)->0) == Some(val),
{
    lemma_max_fits(f);
    lemma_step_values(f);
    lemma_round_div_exec(val.0 as int, f);
    let s = f.spec_step() as int;
    let v = val.0 as int;
    let n = round_div(v, s);
    lemma_padded_shape(n as nat, f.digits as nat);
    lemma_padded_value(n as nat, f.digits as nat);
    if v % s == 0 {
        assert(n * s == v) by (nonlinear_arith)
            requires
                s >= 1,
                v % s == 0,
                n == v / s,
        ;
    }
}

/// Round trip, bytes first: re-encoding the value that a well-formed field
/// decodes to gives the same bytes.
pub proof fn lemma_parse_encode_round_trip(f: ArgFormat, raw: Seq<u8>)
    requires
        f.wf(),
        f.spec_parse(raw) is Some,
    ensures
        f.spec_encode(f.spec_parse(raw)->0) == Some(raw),
{
    lemma_max_fits(f);
    lemma_step_values(f);
    lemma_value_padded(raw);
    let s = f.spec_step() as int;
    let n = digits_value(raw) as int;
    let p = pow10(f.digits as nat) as int;
    assert(n * s <= (p - 1) * s) by (nonlinear_arith)
        requires
            s >= 1,
            n <= p - 1,
    ;
    assert(round_div(n * s, s) == n) by (nonlinear_arith)
        requires
            s >= 1,
            n >= 0,
            round_div(n * s, s) == if ((n * s) % s) * 2 >= s {
                (n * s) / s + 1
            } else {
                (n * s) / s
            },
    ;
}

} // verus!
