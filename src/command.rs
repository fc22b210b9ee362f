//! Power supply command set.
//!
//! A command is a four-character function code, its argument fields with no
//! separator between them, and a terminating `\r`.
use crate::codec::{lemma_pow10_values, padded, round_div, ArgFormat};
use crate::psu::{Milli, OperatingPoint, OutputState, PresetIndex, SupplyVariant};
use crate::response::{Current, Presets, Voltage, CR};
use vstd::prelude::*;

verus! {

/// Errors that can arise from serializing or sending a command.
#[derive(Debug)]
pub enum Error {
    /// The command contained a value which is invalid for its format.
    ValueUnrepresentable(Milli),
    /// The sink returned an error while writing the command.
    WriteFailure(std::io::Error),
}

/// One field holding `val`, or the value itself when the field cannot
/// represent it.
pub open spec fn spec_field(fmt: ArgFormat, val: Milli) -> Result<Seq<u8>, Milli> {
    match fmt.spec_encode(val) {
        Some(bytes) => Ok(bytes),
        None => Err(val),
    }
}

/// Fields written one after the other; the first value that cannot be
/// represented stops the whole.
pub open spec fn spec_fields(fields: Seq<(ArgFormat, Milli)>) -> Result<Seq<u8>, Milli>
    decreases fields.len(),
{
    if fields.len() == 0 {
        Ok(Seq::empty())
    } else {
        match spec_fields(fields.drop_last()) {
            Err(v) => Err(v),
            Ok(init) => match spec_field(fields.last().0, fields.last().1) {
                Err(v) => Err(v),
                Ok(last) => Ok(init + last),
            },
        }
    }
}

/// Once a value cannot be represented, no field written after it matters.
proof fn lemma_fields_err_extends(fields: Seq<(ArgFormat, Milli)>, n: int)
    requires
        0 <= n <= fields.len(),
        spec_fields(fields.take(n)) is Err,
    ensures
        spec_fields(fields) == spec_fields(fields.take(n)),
    decreases fields.len() - n,
{
    if n < fields.len() {
        assert(fields.take(n + 1).drop_last() == fields.take(n));
        lemma_fields_err_extends(fields, n + 1);
    } else {
        assert(fields.take(n) == fields);
    }
}

/// When every field can hold its value and all are `width` digits wide, the
/// first `k` fields write out as their encodings back to back.
pub proof fn lemma_fields_concat(fields: Seq<(ArgFormat, Milli)>, k: int, width: nat)
    requires
        0 <= k <= fields.len(),
        forall|j: int|
            0 <= j < fields.len() ==> (#[trigger] fields[j]).0.wf() && fields[j].0.digits == width
                && fields[j].0.spec_encode(fields[j].1) is Some,
    ensures
        spec_fields(fields.take(k)) is Ok,
        spec_fields(fields.take(k))->Ok_0.len() == width * k,
        forall|j: int|
            0 <= j < k ==> spec_fields(fields.take(k))->Ok_0.subrange(
                width * j,
                width * j + width,
            ) == (#[trigger] fields[j]).0.spec_encode(fields[j].1)->0,
    decreases k,
{
    if k == 0 {
        assert(fields.take(0) == Seq::<(ArgFormat, Milli)>::empty());
    } else {
        lemma_fields_concat(fields, k - 1, width);
        let acc = spec_fields(fields.take(k - 1))->Ok_0;
        let (f, v) = fields[k - 1];
        crate::codec::lemma_padded_shape(f.spec_output_val(v)->0, f.digits as nat);
        let e = f.spec_encode(v)->0;
        assert(fields.take(k).drop_last() == fields.take(k - 1));
        assert(fields.take(k).last() == fields[k - 1]);
        let next = acc + e;
        assert(spec_fields(fields.take(k)) == Ok::<Seq<u8>, Milli>(next));
        assert(width * (k - 1) + width == width * k) by (nonlinear_arith);
        assert forall|j: int| 0 <= j < k implies next.subrange(width * j, width * j + width) == (
        #[trigger] fields[j]).0.spec_encode(fields[j].1)->0 by {
            if j < k - 1 {
                assert(width * j + width <= width * (k - 1)) by (nonlinear_arith)
                    requires
                        j < k - 1,
                ;
                assert(next.subrange(width * j, width * j + width) == acc.subrange(
                    width * j,
                    width * j + width,
                ));
            } else {
                assert(next.subrange(width * j, width * j + width) == e);
            }
        }
    }
}

/// Single-digit fields: flags and preset indices.
pub open spec fn spec_digit_format() -> ArgFormat {
    ArgFormat { decimals: 0, digits: 1 }
}

/// A PSU command.
pub trait Command {
    /// The four-character function code.
    spec fn spec_function() -> Seq<u8>;

    /// The argument fields for `variant`, or the first value that its field
    /// cannot represent.
    spec fn spec_args(&self, variant: SupplyVariant) -> Result<Seq<u8>, Milli>;

    /// Function-discrimination part of the command: what operation is being
    /// performed.
    fn function() -> (r: [u8; 4])
        ensures
            r@ == Self::spec_function(),
    ;

    /// Serialize the command's arguments.
    fn serialize_args(&self, variant: &SupplyVariant) -> (r: Result<Vec<u8>, Error>)
        ensures
            match self.spec_args(*variant) {
                Ok(args) => r is Ok && r->Ok_0@ == args,
                Err(v) => r is Err && r->Err_0 == Error::ValueUnrepresentable(v),
            },
    ;

    /// Serialize the whole command: function code, arguments, `\r`.
    ///
    /// All or nothing: when a field cannot hold its value, the error names
    /// that value and no bytes are produced.
    fn serialize(&self, variant: &SupplyVariant) -> (r: Result<Vec<u8>, Error>)
        ensures
            match self.spec_args(*variant) {
                Ok(args) => r is Ok && r->Ok_0@ == Self::spec_function() + args + seq![CR],
                Err(v) => r is Err && r->Err_0 == Error::ValueUnrepresentable(v),
            },
    {
        let function = Self::function();
        let mut args = match self.serialize_args(variant) {
            Ok(a) => a,
            Err(e) => return Err(e),
        };
        let mut out: Vec<u8> = Vec::new();
        out.push(function[0]);
        out.push(function[1]);
        out.push(function[2]);
        out.push(function[3]);
        out.append(&mut args);
        out.push(CR);
        assert(function@ == seq![function[0], function[1], function[2], function[3]]);
        Ok(out)
    }
}

/// Encode one field into a fresh buffer.
fn field(fmt: &ArgFormat, val: Milli) -> (r: Result<Vec<u8>, Error>)
    requires
        fmt.wf(),
    ensures
        match spec_field(*fmt, val) {
            Ok(bytes) => r is Ok && r->Ok_0@ == bytes,
            Err(v) => r is Err && r->Err_0 == Error::ValueUnrepresentable(v),
        },
{
    let mut sink: Vec<u8> = Vec::new();
    match fmt.serialize_arg(&mut sink, val) {
        Ok(()) => {
            assert(sink@ == Seq::<u8>::empty() + fmt.spec_encode(val)->0);
            Ok(sink)
        },
        Err(e) => Err(e),
    }
}

/// Encode fields one after the other into a fresh buffer.
fn serialize_fields(fields: &[(ArgFormat, Milli)]) -> (r: Result<Vec<u8>, Error>)
    requires
        forall|i: int| 0 <= i < fields@.len() ==> (#[trigger] fields@[i]).0.wf(),
    ensures
        match spec_fields(fields@) {
            Ok(bytes) => r is Ok && r->Ok_0@ == bytes,
            Err(v) => r is Err && r->Err_0 == Error::ValueUnrepresentable(v),
        },
{
    let mut sink: Vec<u8> = Vec::new();
    let mut i: usize = 0;
    assert(fields@.take(0) == Seq::<(ArgFormat, Milli)>::empty());
    while i < fields.len()
        invariant
            0 <= i <= fields@.len(),
            forall|j: int| 0 <= j < fields@.len() ==> (#[trigger] fields@[j]).0.wf(),
            spec_fields(fields@.take(i as int)) == Ok::<Seq<u8>, Milli>(sink@),
        decreases fields.len() - i,
    {
        let (fmt, val) = fields[i];
        assert(fields@.take(i + 1).drop_last() == fields@.take(i as int));
        assert(fields@.take(i + 1).last() == fields@[i as int]);
        match fmt.serialize_arg(&mut sink, val) {
            Ok(()) => {},
            Err(e) => {
                proof {
                    lemma_fields_err_extends(fields@, i + 1);
                }
                return Err(e);
            },
        }
        i = i + 1;
    }
    assert(fields@.take(i as int) == fields@);
    Ok(sink)
}

/// Get the output voltage and current settings.
///
/// Set through [`SetVoltage`] and [`SetCurrent`]; answered by
/// [`Settings`](crate::response::Settings).
#[derive(Clone, Copy, Debug, PartialEq, Eq, Structural)]
pub struct GetSettings;

impl Command for GetSettings {
    open spec fn spec_function() -> Seq<u8> {
        seq!['G' as u8, 'E' as u8, 'T' as u8, 'S' as u8]
    }

    open spec fn spec_args(&self, variant: SupplyVariant) -> Result<Seq<u8>, Milli> {
        Ok(Seq::empty())
    }

    fn function() -> (r: [u8; 4]) {
        ['G' as u8, 'E' as u8, 'T' as u8, 'S' as u8]
    }

    fn serialize_args(&self, variant: &SupplyVariant) -> (r: Result<Vec<u8>, Error>) {
        Ok(Vec::new())
    }
}

/// Get the supply status as shown on the front panel: actual output
/// voltage, actual output current and output mode.
///
/// Answered by [`Status`](crate::response::Status).
#[derive(Clone, Copy, Debug, PartialEq, Eq, Structural)]
pub struct GetStatus;

impl Command for GetStatus {
    open spec fn spec_function() -> Seq<u8> {
        seq!['G' as u8, 'E' as u8, 'T' as u8, 'D' as u8]
    }

    open spec fn spec_args(&self, variant: SupplyVariant) -> Result<Seq<u8>, Milli> {
        Ok(Seq::empty())
    }

    fn function() -> (r: [u8; 4]) {
        ['G' as u8, 'E' as u8, 'T' as u8, 'D' as u8]
    }

    fn serialize_args(&self, variant: &SupplyVariant) -> (r: Result<Vec<u8>, Error>) {
        Ok(Vec::new())
    }
}

/// Get the "soft" voltage limit.
///
/// Set through [`SetVoltageLimit`]; answered by [`Voltage`].
#[derive(Clone, Copy, Debug, PartialEq, Eq, Structural)]
pub struct GetVoltageLimit;

impl Command for GetVoltageLimit {
    open spec fn spec_function() -> Seq<u8> {
        seq!['G' as u8, 'O' as u8, 'V' as u8, 'P' as u8]
    }

    open spec fn spec_args(&self, variant: SupplyVariant) -> Result<Seq<u8>, Milli> {
        Ok(Seq::empty())
    }

    fn function() -> (r: [u8; 4]) {
        ['G' as u8, 'O' as u8, 'V' as u8, 'P' as u8]
    }

    fn serialize_args(&self, variant: &SupplyVariant) -> (r: Result<Vec<u8>, Error>) {
        Ok(Vec::new())
    }
}

/// Get the "soft" current limit.
///
/// Set through [`SetCurrentLimit`]; answered by [`Current`].
#[derive(Clone, Copy, Debug, PartialEq, Eq, Structural)]
pub struct GetCurrentLimit;

impl Command for GetCurrentLimit {
    open spec fn spec_function() -> Seq<u8> {
        seq!['G' as u8, 'O' as u8, 'C' as u8, 'P' as u8]
    }

    open spec fn spec_args(&self, variant: SupplyVariant) -> Result<Seq<u8>, Milli> {
        Ok(Seq::empty())
    }

    fn function() -> (r: [u8; 4]) {
        ['G' as u8, 'O' as u8, 'C' as u8, 'P' as u8]
    }

    fn serialize_args(&self, variant: &SupplyVariant) -> (r: Result<Vec<u8>, Error>) {
        Ok(Vec::new())
    }
}

/// Get the hardware's absolute maximum voltage and current, which the
/// "soft" limits do not affect.
///
/// Answered by [`Capabilities`](crate::response::Capabilities).
#[derive(Clone, Copy, Debug, PartialEq, Eq, Structural)]
pub struct GetCapabilities;

impl Command for GetCapabilities {
    open spec fn spec_function() -> Seq<u8> {
        seq!['G' as u8, 'M' as u8, 'A' as u8, 'X' as u8]
    }

    open spec fn spec_args(&self, variant: SupplyVariant) -> Result<Seq<u8>, Milli> {
        Ok(Seq::empty())
    }

    fn function() -> (r: [u8; 4]) {
        ['G' as u8, 'M' as u8, 'A' as u8, 'X' as u8]
    }

    fn serialize_args(&self, variant: &SupplyVariant) -> (r: Result<Vec<u8>, Error>) {
        Ok(Vec::new())
    }
}

/// Get the three stored operating points.
///
/// Answered by [`Presets`].
#[derive(Clone, Copy, Debug, PartialEq, Eq, Structural)]
pub struct GetPresets;

impl Command for GetPresets {
    open spec fn spec_function() -> Seq<u8> {
        seq!['G' as u8, 'E' as u8, 'T' as u8, 'M' as u8]
    }

    open spec fn spec_args(&self, variant: SupplyVariant) -> Result<Seq<u8>, Milli> {
        Ok(Seq::empty())
    }

    fn function() -> (r: [u8; 4]) {
        ['G' as u8, 'E' as u8, 'T' as u8, 'M' as u8]
    }

    fn serialize_args(&self, variant: &SupplyVariant) -> (r: Result<Vec<u8>, Error>) {
        Ok(Vec::new())
    }
}

/// Set the supply's operating voltage.
#[derive(Clone, Copy, Debug, PartialEq, Eq, Structural)]
pub struct SetVoltage(pub Milli);

impl Command for SetVoltage {
    open spec fn spec_function() -> Seq<u8> {
        seq!['V' as u8, 'O' as u8, 'L' as u8, 'T' as u8]
    }

    open spec fn spec_args(&self, variant: SupplyVariant) -> Result<Seq<u8>, Milli> {
        spec_field(ArgFormat::spec_for_voltage(variant), self.0)
    }

    fn function() -> (r: [u8; 4]) {
        ['V' as u8, 'O' as u8, 'L' as u8, 'T' as u8]
    }

    fn serialize_args(&self, variant: &SupplyVariant) -> (r: Result<Vec<u8>, Error>) {
        let fmt = ArgFormat::for_voltage(variant);
        field(&fmt, self.0)
    }
}

impl From<Voltage> for SetVoltage {
    fn from(v: Voltage) -> (r: SetVoltage) {
        SetVoltage(v.0)
    }
}

impl vstd::std_specs::convert::FromSpecImpl<Voltage> for SetVoltage {
    open spec fn obeys_from_spec() -> bool {
        true
    }

    open spec fn from_spec(v: Voltage) -> SetVoltage {
        SetVoltage(v.0)
    }
}

impl From<Milli> for SetVoltage {
    fn from(v: Milli) -> (r: SetVoltage) {
        SetVoltage(v)
    }
}

impl vstd::std_specs::convert::FromSpecImpl<Milli> for SetVoltage {
    open spec fn obeys_from_spec() -> bool {
        true
    }

    open spec fn from_spec(v: Milli) -> SetVoltage {
        SetVoltage(v)
    }
}

/// Set the supply's operating current.
#[derive(Clone, Copy, Debug, PartialEq, Eq, Structural)]
pub struct SetCurrent(pub Milli);

impl Command for SetCurrent {
    open spec fn spec_function() -> Seq<u8> {
        seq!['C' as u8, 'U' as u8, 'R' as u8, 'R' as u8]
    }

    open spec fn spec_args(&self, variant: SupplyVariant) -> Result<Seq<u8>, Milli> {
        spec_field(ArgFormat::spec_for_current(variant), self.0)
    }

    fn function() -> (r: [u8; 4]) {
        ['C' as u8, 'U' as u8, 'R' as u8, 'R' as u8]
    }

    fn serialize_args(&self, variant: &SupplyVariant) -> (r: Result<Vec<u8>, Error>) {
        let fmt = ArgFormat::for_current(variant);
        field(&fmt, self.0)
    }
}

impl From<Current> for SetCurrent {
    fn from(c: Current) -> (r: SetCurrent) {
        SetCurrent(c.0)
    }
}

impl vstd::std_specs::convert::FromSpecImpl<Current> for SetCurrent {
    open spec fn obeys_from_spec() -> bool {
        true
    }

    open spec fn from_spec(c: Current) -> SetCurrent {
        SetCurrent(c.0)
    }
}

impl From<Milli> for SetCurrent {
    fn from(c: Milli) -> (r: SetCurrent) {
        SetCurrent(c)
    }
}

impl vstd::std_specs::convert::FromSpecImpl<Milli> for SetCurrent {
    open spec fn obeys_from_spec() -> bool {
        true
    }

    open spec fn from_spec(c: Milli) -> SetCurrent {
        SetCurrent(c)
    }
}

/// Set a "soft" limit on programmable voltage.
///
/// The limit applies to settings made on the front panel; remote control can
/// lift it.
#[derive(Clone, Copy, Debug, PartialEq, Eq, Structural)]
pub struct SetVoltageLimit(pub Milli);

impl Command for SetVoltageLimit {
    open spec fn spec_function() -> Seq<u8> {
        seq!['S' as u8, 'O' as u8, 'V' as u8, 'P' as u8]
    }

    open spec fn spec_args(&self, variant: SupplyVariant) -> Result<Seq<u8>, Milli> {
        spec_field(ArgFormat::spec_for_voltage(variant), self.0)
    }

    fn function() -> (r: [u8; 4]) {
        ['S' as u8, 'O' as u8, 'V' as u8, 'P' as u8]
    }

    fn serialize_args(&self, variant: &SupplyVariant) -> (r: Result<Vec<u8>, Error>) {
        let fmt = ArgFormat::for_voltage(variant);
        field(&fmt, self.0)
    }
}

impl From<Voltage> for SetVoltageLimit {
    fn from(v: Voltage) -> (r: SetVoltageLimit) {
        SetVoltageLimit(v.0)
    }
}

impl vstd::std_specs::convert::FromSpecImpl<Voltage> for SetVoltageLimit {
    open spec fn obeys_from_spec() -> bool {
        true
    }

    open spec fn from_spec(v: Voltage) -> SetVoltageLimit {
        SetVoltageLimit(v.0)
    }
}

impl From<Milli> for SetVoltageLimit {
    fn from(v: Milli) -> (r: SetVoltageLimit) {
        SetVoltageLimit(v)
    }
}

impl vstd::std_specs::convert::FromSpecImpl<Milli> for SetVoltageLimit {
    open spec fn obeys_from_spec() -> bool {
        true
    }

    open spec fn from_spec(v: Milli) -> SetVoltageLimit {
        SetVoltageLimit(v)
    }
}

/// Set a "soft" limit on programmable current.
///
/// The limit applies to settings made on the front panel; remote control can
/// lift it.
#[derive(Clone, Copy, Debug, PartialEq, Eq, Structural)]
pub struct SetCurrentLimit(pub Milli);

impl Command for SetCurrentLimit {
    open spec fn spec_function() -> Seq<u8> {
        seq!['S' as u8, 'O' as u8, 'C' as u8, 'P' as u8]
    }

    open spec fn spec_args(&self, variant: SupplyVariant) -> Result<Seq<u8>, Milli> {
        spec_field(ArgFormat::spec_for_current(variant), self.0)
    }

    fn function() -> (r: [u8; 4]) {
        ['S' as u8, 'O' as u8, 'C' as u8, 'P' as u8]
    }

    fn serialize_args(&self, variant: &SupplyVariant) -> (r: Result<Vec<u8>, Error>) {
        let fmt = ArgFormat::for_current(variant);
        field(&fmt, self.0)
    }
}

impl From<Current> for SetCurrentLimit {
    fn from(c: Current) -> (r: SetCurrentLimit) {
        SetCurrentLimit(c.0)
    }
}

impl vstd::std_specs::convert::FromSpecImpl<Current> for SetCurrentLimit {
    open spec fn obeys_from_spec() -> bool {
        true
    }

    open spec fn from_spec(c: Current) -> SetCurrentLimit {
        SetCurrentLimit(c.0)
    }
}

impl From<Milli> for SetCurrentLimit {
    fn from(c: Milli) -> (r: SetCurrentLimit) {
        SetCurrentLimit(c)
    }
}

impl vstd::std_specs::convert::FromSpecImpl<Milli> for SetCurrentLimit {
    open spec fn obeys_from_spec() -> bool {
        true
    }

    open spec fn from_spec(c: Milli) -> SetCurrentLimit {
        SetCurrentLimit(c)
    }
}

/// The value a single-digit field carries for the digit `d`.
pub open spec fn spec_digit_value(d: nat) -> Milli {
    Milli((d * 1000) as i64)
}

/// A single-digit field holds its digit.
proof fn lemma_digit_field(d: nat)
    requires
        d <= 9,
    ensures
        spec_field(spec_digit_format(), spec_digit_value(d)) == Ok::<Seq<u8>, Milli>(
            seq![(0x30 + d) as u8],
        ),
{
    lemma_pow10_values();
    let f = spec_digit_format();
    assert(f.spec_step() == 1000);
    assert(f.spec_max() == 9000);
    assert(round_div((d * 1000) as int, 1000) == d);
    assert(padded(d, 1) == padded(0, 0).push((0x30 + d % 10) as u8));
    assert(padded(d, 1) == seq![(0x30 + d) as u8]);
}

/// Switch the supply's output on or off.
#[derive(Clone, Copy, Debug, PartialEq, Eq, Structural)]
pub struct SetOutput(pub OutputState);

impl Command for SetOutput {
    open spec fn spec_function() -> Seq<u8> {
        seq!['S' as u8, 'O' as u8, 'U' as u8, 'T' as u8]
    }

    open spec fn spec_args(&self, variant: SupplyVariant) -> Result<Seq<u8>, Milli> {
        spec_field(spec_digit_format(), spec_digit_value(self.0.spec_arg_val()))
    }

    fn function() -> (r: [u8; 4]) {
        ['S' as u8, 'O' as u8, 'U' as u8, 'T' as u8]
    }

    fn serialize_args(&self, variant: &SupplyVariant) -> (r: Result<Vec<u8>, Error>)
        ensures
            r is Ok && r->Ok_0@ == seq![(0x30 + self.0.spec_arg_val()) as u8],
    {
        let fmt = ArgFormat { decimals: 0, digits: 1 };
        let r = field(&fmt, Milli(self.0.arg_val() as i64 * 1000));
        proof {
            lemma_digit_field(self.0.spec_arg_val());
        }
        r
    }
}

/// Switch the supply to one of its stored operating points.
#[derive(Clone, Copy, Debug, PartialEq, Eq, Structural)]
pub struct SelectPreset(pub PresetIndex);

impl Command for SelectPreset {
    open spec fn spec_function() -> Seq<u8> {
        seq!['R' as u8, 'U' as u8, 'N' as u8, 'M' as u8]
    }

    open spec fn spec_args(&self, variant: SupplyVariant) -> Result<Seq<u8>, Milli> {
        spec_field(spec_digit_format(), spec_digit_value(self.0.spec_arg_val()))
    }

    fn function() -> (r: [u8; 4]) {
        ['R' as u8, 'U' as u8, 'N' as u8, 'M' as u8]
    }

    fn serialize_args(&self, variant: &SupplyVariant) -> (r: Result<Vec<u8>, Error>)
        ensures
            r is Ok && r->Ok_0@ == seq![(0x30 + self.0.spec_arg_val()) as u8],
    {
        let fmt = ArgFormat { decimals: 0, digits: 1 };
        let r = field(&fmt, Milli(self.0.arg_val() as i64 * 1000));
        proof {
            lemma_digit_field(self.0.spec_arg_val());
        }
        r
    }
}

/// Store three operating points in the supply.
#[derive(Clone, Copy, Debug, PartialEq, Eq, Structural)]
pub struct SetPresets(pub OperatingPoint, pub OperatingPoint, pub OperatingPoint);

impl SetPresets {
    /// The six fields of this command, in order: voltage then current of
    /// each operating point.
    pub open spec fn spec_field_list(&self, variant: SupplyVariant) -> Seq<(ArgFormat, Milli)> {
        let v_fmt = ArgFormat::spec_for_voltage(variant);
        let i_fmt = ArgFormat::spec_for_current(variant);
        seq![
            (v_fmt, self.0.voltage),
            (i_fmt, self.0.current),
            (v_fmt, self.1.voltage),
            (i_fmt, self.1.current),
            (v_fmt, self.2.voltage),
            (i_fmt, self.2.current),
        ]
    }

    /// The operating point at `i`.
    pub fn index(&self, i: PresetIndex) -> (r: &OperatingPoint)
        ensures
            *r == match i {
                PresetIndex::One => self.0,
                PresetIndex::Two => self.1,
                PresetIndex::Three => self.2,
            },
    {
        match i {
            PresetIndex::One => &self.0,
            PresetIndex::Two => &self.1,
            PresetIndex::Three => &self.2,
        }
    }

    /// Mutable access to the operating point at `i`; the other two stay as
    /// they are.
    pub fn index_mut(&mut self, i: PresetIndex) -> (r: &mut OperatingPoint)
        ensures
            *r == match i {
                PresetIndex::One => old(self).0,
                PresetIndex::Two => old(self).1,
                PresetIndex::Three => old(self).2,
            },
            *final(self) == match i {
                PresetIndex::One => SetPresets(*final(r), old(self).1, old(self).2),
                PresetIndex::Two => SetPresets(old(self).0, *final(r), old(self).2),
                PresetIndex::Three => SetPresets(old(self).0, old(self).1, *final(r)),
            },
    {
        match i {
            PresetIndex::One => &mut self.0,
            PresetIndex::Two => &mut self.1,
            PresetIndex::Three => &mut self.2,
        }
    }
}

impl Command for SetPresets {
    open spec fn spec_function() -> Seq<u8> {
        seq!['P' as u8, 'R' as u8, 'O' as u8, 'M' as u8]
    }

    open spec fn spec_args(&self, variant: SupplyVariant) -> Result<Seq<u8>, Milli> {
        spec_fields(self.spec_field_list(variant))
    }

    fn function() -> (r: [u8; 4]) {
        ['P' as u8, 'R' as u8, 'O' as u8, 'M' as u8]
    }

    fn serialize_args(&self, variant: &SupplyVariant) -> (r: Result<Vec<u8>, Error>) {
        let v_fmt = ArgFormat::for_voltage(variant);
        let i_fmt = ArgFormat::for_current(variant);
        let fields: [(ArgFormat, Milli); 6] = [
            (v_fmt, self.0.voltage),
            (i_fmt, self.0.current),
            (v_fmt, self.1.voltage),
            (i_fmt, self.1.current),
            (v_fmt, self.2.voltage),
            (i_fmt, self.2.current),
        ];
        assert(fields@ == self.spec_field_list(*variant));
        serialize_fields(fields.as_slice())
    }
}

impl From<Presets> for SetPresets {
    fn from(p: Presets) -> (r: SetPresets) {
        SetPresets(p.0, p.1, p.2)
    }
}

impl vstd::std_specs::convert::FromSpecImpl<Presets> for SetPresets {
    open spec fn obeys_from_spec() -> bool {
        true
    }

    open spec fn from_spec(p: Presets) -> SetPresets {
        SetPresets(p.0, p.1, p.2)
    }
}

} // verus!
