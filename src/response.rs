//! Response parsing.
//!
//! The protocol is not self-describing: a response can only be read as the
//! answer to the command that preceded it. Every response is a fixed-size
//! argument block, a `\r` separator when the block is not empty, and the
//! literal `OK\r`.
use crate::codec::{lemma_encode_parse_round_trip, ArgFormat};
use crate::command::{lemma_fields_concat, spec_fields, Command, SetPresets};
use crate::psu::{
    spec_variant_for_max_voltage, variant_for_max_voltage, Milli, OperatingPoint, OutputMode,
    PresetIndex, SupplyVariant,
};
use vstd::prelude::*;
use vstd::slice::slice_subrange;

verus! {

/// Errors that can arise from reading or parsing a response.
#[derive(Debug)]
pub enum Error {
    /// The supply returned data, but it did not match the expected format.
    MalformedResponse,
    /// The supply returned no data; also what a timeout looks like.
    NoResponse,
    /// The source returned an error when reading data.
    ReadFailure(std::io::Error),
}

/// Carriage return: the separator and terminator byte.
pub const CR: u8 = 0x0d;

/// Length of the acknowledgment `OK\r`.
pub const OK_LEN: usize = 3;

/// The acknowledgment that ends every response: `OK\r`.
pub open spec fn ok_literal() -> Seq<u8> {
    seq![0x4f, 0x4b, CR]
}

/// A type which may be a supply's response to a command.
///
/// Implementations describe the argument block only; the framing around it
/// is handled by [`parse_response`].
pub trait Response: Sized {
    /// How many bytes make up the argument block, internal separators
    /// included, the separator before `OK\r` excluded.
    spec fn spec_arg_bytes() -> nat;

    /// What an argument block decodes to; `None` when it is malformed.
    spec fn spec_parse_args(raw: Seq<u8>, variant: SupplyVariant) -> Option<Self>;

    /// How many bytes make up the argument block.
    fn arg_bytes() -> (r: usize)
        ensures
            r == Self::spec_arg_bytes(),
            r + 4 <= usize::MAX,
    ;

    /// Parse the argument block of this response.
    fn parse_args(raw: &[u8], variant: &SupplyVariant) -> (r: Result<Self, Error>)
        ensures
            match Self::spec_parse_args(raw@, *variant) {
                Some(v) => r == Ok::<Self, Error>(v),
                None => r is Err && r->Err_0 is MalformedResponse,
            },
    ;
}

/// Total length of a response frame whose argument block is `arg_bytes` long.
pub open spec fn spec_frame_len(arg_bytes: nat) -> nat {
    if arg_bytes == 0 {
        OK_LEN as nat
    } else {
        (arg_bytes + 1 + OK_LEN) as nat
    }
}

/// The argument block of `raw`, when `raw` is a well-framed response with an
/// `arg_bytes`-long block: exactly the frame's length, a `\r` right after the
/// block when the block is not empty, and `OK\r` at the end.
pub open spec fn frame_args(raw: Seq<u8>, arg_bytes: nat) -> Option<Seq<u8>> {
    let before_ok = spec_frame_len(arg_bytes) - OK_LEN;
    if raw.len() == spec_frame_len(arg_bytes) && raw.skip(before_ok) == ok_literal() && (
    arg_bytes > 0 ==> raw[arg_bytes as int] == CR) {
        Some(raw.take(arg_bytes as int))
    } else {
        None
    }
}

/// Number of bytes to read for one response of type `R`.
pub fn frame_len<R: Response>() -> (r: usize)
    ensures
        r == spec_frame_len(R::spec_arg_bytes()),
{
    let arg_bytes = R::arg_bytes();
    if arg_bytes != 0 {
        arg_bytes + 1 + OK_LEN
    } else {
        OK_LEN
    }
}

/// Check the trailing acknowledgment.
pub fn verify_ok(raw: &[u8]) -> (r: Result<(), Error>)
    ensures
        raw@ == ok_literal() ==> r is Ok,
        raw@ != ok_literal() ==> r is Err && r->Err_0 is MalformedResponse,
{
    if raw.len() != OK_LEN || raw[0] != 0x4f || raw[1] != 0x4b || raw[2] != CR {
        return Err(Error::MalformedResponse);
    }
    assert(raw@ == ok_literal());
    Ok(())
}

/// Check the separator between the argument block and the acknowledgment.
pub fn verify_sep(sep: u8) -> (r: Result<(), Error>)
    ensures
        sep == CR ==> r is Ok,
        sep != CR ==> r is Err && r->Err_0 is MalformedResponse,
{
    if sep != CR {
        return Err(Error::MalformedResponse);
    }
    Ok(())
}

/// Read one response of type `R` out of the bytes that a single read of
/// [`frame_len`] bytes returned.
///
/// - no bytes at all: `NoResponse`;
/// - a frame of the wrong length (a short read included), without `OK\r`
///   at its end or without the separator after the argument block:
///   `MalformedResponse`;
/// - otherwise what `R` decodes the argument block to.
pub fn parse_response<R: Response>(raw: &[u8], variant: &SupplyVariant) -> (r: Result<R, Error>)
    ensures
        raw@.len() == 0 ==> r is Err && r->Err_0 is NoResponse,
        raw@.len() > 0 ==> match frame_args(raw@, R::spec_arg_bytes()) {
            None => r is Err && r->Err_0 is MalformedResponse,
            Some(args) => match R::spec_parse_args(args, *variant) {
                Some(v) => r == Ok::<R, Error>(v),
                None => r is Err && r->Err_0 is MalformedResponse,
            },
        },
{
    let arg_bytes = R::arg_bytes();
    let before_ok_bytes = if arg_bytes != 0 {
        // one more for the separator
        arg_bytes + 1
    } else {
        0
    };
    let total_bytes = before_ok_bytes + OK_LEN;
    if raw.len() == 0 {
        return Err(Error::NoResponse);
    } else if raw.len() != total_bytes {
        return Err(Error::MalformedResponse);
    }
    let (before_ok, ok) = raw.split_at(before_ok_bytes);
    match verify_ok(ok) {
        Ok(()) => {},
        Err(e) => return Err(e),
    }
    let args = if arg_bytes != 0 {
        match verify_sep(before_ok[arg_bytes]) {
            Ok(()) => {},
            Err(e) => return Err(e),
        }
        slice_subrange(before_ok, 0, arg_bytes)
    } else {
        before_ok
    };
    assert(frame_args(raw@, R::spec_arg_bytes()) == Some(args@));
    R::parse_args(args, variant)
}

/// A response indicating success, but carrying no data.
#[derive(Clone, Copy, Debug, PartialEq, Eq, Structural)]
pub struct Ack;

impl Response for Ack {
    open spec fn spec_arg_bytes() -> nat {
        0
    }

    open spec fn spec_parse_args(raw: Seq<u8>, variant: SupplyVariant) -> Option<Self> {
        Some(Ack)
    }

    fn arg_bytes() -> (r: usize) {
        0
    }

    fn parse_args(raw: &[u8], variant: &SupplyVariant) -> (r: Result<Self, Error>) {
        Ok(Ack)
    }
}

/// A single voltage value.
///
/// This is the response to [`GetVoltageLimit`](crate::command::GetVoltageLimit).
#[derive(Clone, Copy, Debug, PartialEq, Eq, Structural)]
pub struct Voltage(pub Milli);

impl Response for Voltage {
    open spec fn spec_arg_bytes() -> nat {
        3
    }

    open spec fn spec_parse_args(raw: Seq<u8>, variant: SupplyVariant) -> Option<Self> {
        match ArgFormat::spec_for_voltage(variant).spec_parse(raw) {
            Some(v) => Some(Voltage(v)),
            None => None,
        }
    }

    fn arg_bytes() -> (r: usize) {
        3
    }

    fn parse_args(raw: &[u8], variant: &SupplyVariant) -> (r: Result<Self, Error>) {
        let voltage_fmt = ArgFormat::for_voltage(variant);
        match voltage_fmt.parse(raw) {
            Ok(v) => Ok(Voltage(v)),
            Err(e) => Err(e),
        }
    }
}

impl From<Milli> for Voltage {
    fn from(v: Milli) -> (r: Voltage) {
        Voltage(v)
    }
}

impl vstd::std_specs::convert::FromSpecImpl<Milli> for Voltage {
    open spec fn obeys_from_spec() -> bool {
        true
    }

    open spec fn from_spec(v: Milli) -> Voltage {
        Voltage(v)
    }
}

/// A single current value.
///
/// This is the response to [`GetCurrentLimit`](crate::command::GetCurrentLimit).
#[derive(Clone, Copy, Debug, PartialEq, Eq, Structural)]
pub struct Current(pub Milli);

impl Response for Current {
    open spec fn spec_arg_bytes() -> nat {
        3
    }

    open spec fn spec_parse_args(raw: Seq<u8>, variant: SupplyVariant) -> Option<Self> {
        match ArgFormat::spec_for_current(variant).spec_parse(raw) {
            Some(i) => Some(Current(i)),
            None => None,
        }
    }

    fn arg_bytes() -> (r: usize) {
        3
    }

    fn parse_args(raw: &[u8], variant: &SupplyVariant) -> (r: Result<Self, Error>) {
        let current_fmt = ArgFormat::for_current(variant);
        match current_fmt.parse(raw) {
            Ok(i) => Ok(Current(i)),
            Err(e) => Err(e),
        }
    }
}

impl From<Milli> for Current {
    fn from(i: Milli) -> (r: Current) {
        Current(i)
    }
}

impl vstd::std_specs::convert::FromSpecImpl<Milli> for Current {
    open spec fn obeys_from_spec() -> bool {
        true
    }

    open spec fn from_spec(i: Milli) -> Current {
        Current(i)
    }
}

/// The supply's output settings.
///
/// This is the response to [`GetSettings`](crate::command::GetSettings).
#[derive(Clone, Copy, Debug, PartialEq, Eq, Structural)]
pub struct Settings {
    /// Output voltage setting.
    pub voltage: Milli,
    /// Output current setting.
    pub current: Milli,
}

/// Decode a voltage field followed by a current field, each 3 digits wide.
pub open spec fn spec_parse_pair(raw: Seq<u8>, v_fmt: ArgFormat, i_fmt: ArgFormat) -> Option<
    OperatingPoint,
> {
    if raw.len() < v_fmt.digits {
        None
    } else {
        match (v_fmt.spec_parse(raw.take(v_fmt.digits as int)), i_fmt.spec_parse(
            raw.skip(v_fmt.digits as int),
        )) {
            (Some(voltage), Some(current)) => Some(OperatingPoint { voltage, current }),
            _ => None,
        }
    }
}

/// Decode a voltage field followed by a current field.
fn parse_pair(raw: &[u8], v_fmt: &ArgFormat, i_fmt: &ArgFormat) -> (r: Result<OperatingPoint, Error>)
    requires
        v_fmt.wf(),
        i_fmt.wf(),
    ensures
        match spec_parse_pair(raw@, *v_fmt, *i_fmt) {
            Some(p) => r == Ok::<OperatingPoint, Error>(p),
            None => r is Err && r->Err_0 is MalformedResponse,
        },
{
    if raw.len() < v_fmt.digits {
        return Err(Error::MalformedResponse);
    }
    let (v_raw, i_raw) = raw.split_at(v_fmt.digits);
    let voltage = match v_fmt.parse(v_raw) {
        Ok(v) => v,
        Err(e) => return Err(e),
    };
    let current = match i_fmt.parse(i_raw) {
        Ok(i) => i,
        Err(e) => return Err(e),
    };
    Ok(OperatingPoint { voltage, current })
}

impl Response for Settings {
    open spec fn spec_arg_bytes() -> nat {
        6
    }

    open spec fn spec_parse_args(raw: Seq<u8>, variant: SupplyVariant) -> Option<Self> {
        match spec_parse_pair(
            raw,
            ArgFormat::spec_for_voltage(variant),
            ArgFormat::spec_for_current(variant),
        ) {
            Some(p) => Some(Settings { voltage: p.voltage, current: p.current }),
            None => None,
        }
    }

    fn arg_bytes() -> (r: usize) {
        6
    }

    fn parse_args(raw: &[u8], variant: &SupplyVariant) -> (r: Result<Self, Error>) {
        let volt_fmt = ArgFormat::for_voltage(variant);
        let curr_fmt = ArgFormat::for_current(variant);
        match parse_pair(raw, &volt_fmt, &curr_fmt) {
            Ok(p) => Ok(Settings { voltage: p.voltage, current: p.current }),
            Err(e) => Err(e),
        }
    }
}

/// The supply's instantaneous state.
///
/// This is the response to [`GetStatus`](crate::command::GetStatus).
#[derive(Clone, Copy, Debug, PartialEq, Eq, Structural)]
pub struct Status {
    /// Output voltage.
    pub voltage: Milli,
    /// Output current.
    pub current: Milli,
    /// Output-limiting mode.
    pub mode: OutputMode,
}

/// Both fields of a status record: 4 digits, 2 of them decimals, whatever
/// the model.
pub open spec fn spec_status_format() -> ArgFormat {
    ArgFormat { decimals: 2, digits: 4 }
}

/// The output mode a status flag byte stands for.
pub open spec fn spec_mode_of(flag: u8) -> Option<OutputMode> {
    if flag == 0x30 {
        Some(OutputMode::ConstantVoltage)
    } else if flag == 0x31 {
        Some(OutputMode::ConstantCurrent)
    } else {
        None
    }
}

impl Response for Status {
    open spec fn spec_arg_bytes() -> nat {
        9
    }

    open spec fn spec_parse_args(raw: Seq<u8>, variant: SupplyVariant) -> Option<Self> {
        if raw.len() == 0 {
            None
        } else {
            match (
                spec_parse_pair(raw.drop_last(), spec_status_format(), spec_status_format()),
                spec_mode_of(raw.last()),
            ) {
                (Some(p), Some(mode)) => Some(Status { voltage: p.voltage, current: p.current, mode }),
                _ => None,
            }
        }
    }

    fn arg_bytes() -> (r: usize) {
        9
    }

    fn parse_args(raw: &[u8], variant: &SupplyVariant) -> (r: Result<Self, Error>) {
        // This response reports both values with more precision than the
        // others, and in the same format on every model.
        let arg_fmt = ArgFormat { decimals: 2, digits: 4 };
        if raw.len() == 0 {
            return Err(Error::MalformedResponse);
        }
        let mode_raw = raw[raw.len() - 1];
        let args_raw = slice_subrange(raw, 0, raw.len() - 1);
        assert(args_raw@ == raw@.drop_last());
        let p = match parse_pair(args_raw, &arg_fmt, &arg_fmt) {
            Ok(p) => p,
            Err(e) => return Err(e),
        };
        let mode = if mode_raw == 0x30 {
            OutputMode::ConstantVoltage
        } else if mode_raw == 0x31 {
            OutputMode::ConstantCurrent
        } else {
            return Err(Error::MalformedResponse);
        };
        Ok(Status { voltage: p.voltage, current: p.current, mode })
    }
}

/// The supply's three stored operating points.
///
/// This is the response to [`GetPresets`](crate::command::GetPresets).
#[derive(Clone, Copy, Debug, PartialEq, Eq, Structural)]
pub struct Presets(pub OperatingPoint, pub OperatingPoint, pub OperatingPoint);

/// Length of one stored operating point on the wire.
pub const PRESET_BYTES: usize = 6;

/// Decode three operating points.
///
/// The block splits on `\r` into exactly three chunks of exactly six bytes:
/// chunks at `[0, 6)`, `[7, 13)` and `[14, 20)`, separators at 6 and 13.
/// Chunks hold digits only, so no other `\r` can occur.
pub open spec fn spec_parse_presets(raw: Seq<u8>, variant: SupplyVariant) -> Option<Presets> {
    let v_fmt = ArgFormat::spec_for_voltage(variant);
    let i_fmt = ArgFormat::spec_for_current(variant);
    if raw.len() != 20 || raw[6] != CR || raw[13] != CR {
        None
    } else {
        match (
            spec_parse_pair(raw.subrange(0, 6), v_fmt, i_fmt),
            spec_parse_pair(raw.subrange(7, 13), v_fmt, i_fmt),
            spec_parse_pair(raw.subrange(14, 20), v_fmt, i_fmt),
        ) {
            (Some(p0), Some(p1), Some(p2)) => Some(Presets(p0, p1, p2)),
            _ => None,
        }
    }
}

impl Presets {
    /// The operating point at `i`.
    pub fn index(&self, i: PresetIndex) -> (r: &OperatingPoint)
        ensures
            *r == match i {
                PresetIndex::One => self.0,
                PresetIndex::Two => self.1,
                PresetIndex::Three => self.2,
            },
    {
        match i {
            PresetIndex::One => &self.0,
            PresetIndex::Two => &self.1,
            PresetIndex::Three => &self.2,
        }
    }

    /// Mutable access to the operating point at `i`; the other two stay as
    /// they are.
    pub fn index_mut(&mut self, i: PresetIndex) -> (r: &mut OperatingPoint)
        ensures
            *r == match i {
                PresetIndex::One => old(self).0,
                PresetIndex::Two => old(self).1,
                PresetIndex::Three => old(self).2,
            },
            *final(self) == match i {
                PresetIndex::One => Presets(*final(r), old(self).1, old(self).2),
                PresetIndex::Two => Presets(old(self).0, *final(r), old(self).2),
                PresetIndex::Three => Presets(old(self).0, old(self).1, *final(r)),
            },
    {
        match i {
            PresetIndex::One => &mut self.0,
            PresetIndex::Two => &mut self.1,
            PresetIndex::Three => &mut self.2,
        }
    }
}

impl Response for Presets {
    open spec fn spec_arg_bytes() -> nat {
        // three 6-byte fields, two separators
        20
    }

    open spec fn spec_parse_args(raw: Seq<u8>, variant: SupplyVariant) -> Option<Self> {
        spec_parse_presets(raw, variant)
    }

    fn arg_bytes() -> (r: usize) {
        PRESET_BYTES * 3 + 2
    }

    fn parse_args(raw: &[u8], variant: &SupplyVariant) -> (r: Result<Self, Error>) {
        let v_fmt = ArgFormat::for_voltage(variant);
        let i_fmt = ArgFormat::for_current(variant);
        if raw.len() != 20 || raw[6] != CR || raw[13] != CR {
            return Err(Error::MalformedResponse);
        }
        let p0 = match parse_pair(slice_subrange(raw, 0, 6), &v_fmt, &i_fmt) {
            Ok(p) => p,
            Err(e) => return Err(e),
        };
        let p1 = match parse_pair(slice_subrange(raw, 7, 13), &v_fmt, &i_fmt) {
            Ok(p) => p,
            Err(e) => return Err(e),
        };
        let p2 = match parse_pair(slice_subrange(raw, 14, 20), &v_fmt, &i_fmt) {
            Ok(p) => p,
            Err(e) => return Err(e),
        };
        Ok(Presets(p0, p1, p2))
    }
}

/// Stored presets read back as written: when every value of `points` is
/// exact at the variant's precision, the six fields that `SetPresets` sends,
/// laid out as three 6-byte chunks joined by `\r` (the argument block of the
/// reply to `GetPresets`), decode to the same three operating points.
pub proof fn lemma_presets_round_trip(points: SetPresets, variant: SupplyVariant)
    requires
        ArgFormat::spec_for_voltage(variant).spec_exact(points.0.voltage),
        ArgFormat::spec_for_current(variant).spec_exact(points.0.current),
        ArgFormat::spec_for_voltage(variant).spec_exact(points.1.voltage),
        ArgFormat::spec_for_current(variant).spec_exact(points.1.current),
        ArgFormat::spec_for_voltage(variant).spec_exact(points.2.voltage),
        ArgFormat::spec_for_current(variant).spec_exact(points.2.current),
    ensures
        points.spec_args(variant) is Ok,
        ({
            let args = points.spec_args(variant)->Ok_0;
            let block = args.subrange(0, 6) + seq![CR] + args.subrange(6, 12) + seq![CR]
                + args.subrange(12, 18);
            spec_parse_presets(block, variant) == Some(Presets(points.0, points.1, points.2))
        }),
{
    let v_fmt = ArgFormat::spec_for_voltage(variant);
    let i_fmt = ArgFormat::spec_for_current(variant);
    let fields = points.spec_field_list(variant);
    assert forall|j: int| 0 <= j < 6 implies (#[trigger] fields[j]).0.wf() && fields[j].0.digits
        == 3 && fields[j].0.spec_encode(fields[j].1) is Some by {
        lemma_encode_parse_round_trip(fields[j].0, fields[j].1);
    }
    lemma_fields_concat(fields, 6, 3);
    let acc = spec_fields(fields.take(6))->Ok_0;
    assert(fields.take(6) == fields);
    let block = acc.subrange(0, 6) + seq![CR] + acc.subrange(6, 12) + seq![CR] + acc.subrange(
        12,
        18,
    );
    assert(block.len() == 20);
    assert(block[6] == CR);
    assert(block[13] == CR);
    assert(block.subrange(0, 6) == acc.subrange(0, 6));
    assert(block.subrange(7, 13) == acc.subrange(6, 12));
    assert(block.subrange(14, 20) == acc.subrange(12, 18));
    lemma_chunk_round_trip(acc, 0, v_fmt, i_fmt, points.0);
    lemma_chunk_round_trip(acc, 1, v_fmt, i_fmt, points.1);
    lemma_chunk_round_trip(acc, 2, v_fmt, i_fmt, points.2);
}

/// The `j`-th 6-byte chunk of `acc` decodes to `p` when its two halves are
/// the exact encodings of `p`'s voltage and current.
proof fn lemma_chunk_round_trip(
    acc: Seq<u8>,
    j: int,
    v_fmt: ArgFormat,
    i_fmt: ArgFormat,
    p: OperatingPoint,
)
    requires
        0 <= j,
        acc.len() >= 6 * j + 6,
        v_fmt.wf(),
        i_fmt.wf(),
        v_fmt.digits == 3,
        v_fmt.spec_exact(p.voltage),
        i_fmt.spec_exact(p.current),
        acc.subrange(6 * j, 6 * j + 3) == v_fmt.spec_encode(p.voltage)->0,
        acc.subrange(6 * j + 3, 6 * j + 6) == i_fmt.spec_encode(p.current)->0,
    ensures
        spec_parse_pair(acc.subrange(6 * j, 6 * j + 6), v_fmt, i_fmt) == Some(p),
{
    let chunk = acc.subrange(6 * j, 6 * j + 6);
    assert(chunk.take(3) == acc.subrange(6 * j, 6 * j + 3));
    assert(chunk.skip(3) == acc.subrange(6 * j + 3, 6 * j + 6));
    lemma_encode_parse_round_trip(v_fmt, p.voltage);
    lemma_encode_parse_round_trip(i_fmt, p.current);
}

/// The maximum output this hardware is capable of.
///
/// This is the response to [`GetCapabilities`](crate::command::GetCapabilities).
/// When parsed, it ignores the variant it is given: it identifies the model
/// from the maximum voltage it reports, which is what makes autodetection
/// possible.
#[derive(Clone, Copy, Debug, PartialEq, Eq, Structural)]
pub struct Capabilities {
    /// Maximum voltage that can be supplied.
    pub max_voltage: Milli,
    /// Maximum current that can be supplied.
    pub max_current: Milli,
}

/// The voltage field of a capabilities record: one decimal on every model.
pub open spec fn spec_capabilities_voltage_format() -> ArgFormat {
    ArgFormat { decimals: 1, digits: 3 }
}

/// The current field of a capabilities record: the precision of the model
/// that `max_voltage` identifies, or one decimal when it identifies none.
pub open spec fn spec_capabilities_current_format(max_voltage: Milli) -> ArgFormat {
    match spec_variant_for_max_voltage(max_voltage) {
        Some(model) => ArgFormat { decimals: model.spec_info().current_decimals, digits: 3 },
        None => ArgFormat { decimals: 1, digits: 3 },
    }
}

impl Capabilities {
    /// Determine the model suggested by these capabilities.
    ///
    /// `None` when they match none of the known models.
    pub fn variant(self) -> (r: Option<SupplyVariant>)
        ensures
            r == spec_variant_for_max_voltage(self.max_voltage),
    {
        variant_for_max_voltage(self.max_voltage)
    }
}

impl Response for Capabilities {
    open spec fn spec_arg_bytes() -> nat {
        6
    }

    open spec fn spec_parse_args(raw: Seq<u8>, variant: SupplyVariant) -> Option<Self> {
        let v_fmt = spec_capabilities_voltage_format();
        if raw.len() < 3 {
            None
        } else {
            match v_fmt.spec_parse(raw.take(3)) {
                None => None,
                Some(max_voltage) => match spec_capabilities_current_format(max_voltage).spec_parse(
                    raw.skip(3),
                ) {
                    Some(max_current) => Some(Capabilities { max_voltage, max_current }),
                    None => None,
                },
            }
        }
    }

    fn arg_bytes() -> (r: usize) {
        6
    }

    fn parse_args(raw: &[u8], variant: &SupplyVariant) -> (r: Result<Self, Error>) {
        let volt_fmt = ArgFormat { decimals: 1, digits: 3 };
        if raw.len() < volt_fmt.digits {
            return Err(Error::MalformedResponse);
        }
        let (volt_raw, curr_raw) = raw.split_at(volt_fmt.digits);
        let voltage = match volt_fmt.parse(volt_raw) {
            Ok(v) => v,
            Err(e) => return Err(e),
        };
        // An unidentified supply falls back to one decimal place.
        let current_decimals = match variant_for_max_voltage(voltage) {
            Some(model) => model.info().current_decimals,
            None => 1,
        };
        let curr_fmt = ArgFormat { decimals: current_decimals, digits: 3 };
        let current = match curr_fmt.parse(curr_raw) {
            Ok(i) => i,
            Err(e) => return Err(e),
        };
        Ok(Capabilities { max_voltage: voltage, max_current: current })
    }
}

} // verus!
