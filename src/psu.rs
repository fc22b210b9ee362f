//! Supply models, their protocol quirks, and the plain values that commands
//! and responses carry.
use vstd::prelude::*;

verus! {

/// A voltage or a current, in thousandths of a volt or an ampere.
///
/// `Milli(12_300)` is 12.3 V (or 12.3 A).
#[derive(Clone, Copy, Debug, PartialEq, Eq, Structural, Hash)]
pub struct Milli(pub i64);

/// Number of decimal places a [`Milli`] resolves.
pub const MILLI_DECIMALS: usize = 3;

/// Output state of the supply.
#[derive(Clone, Copy, Debug, PartialEq, Eq, Structural, Hash)]
pub enum OutputState {
    /// The supply is actively providing power.
    On,
    /// The supply is not providing power.
    Off,
}

impl OutputState {
    /// The digit that stands for this state in a command.
    ///
    /// The logic is inverted on the wire: `0` means on, `1` means off.
    pub open spec fn spec_arg_val(self) -> nat {
        match self {
            OutputState::On => 0,
            OutputState::Off => 1,
        }
    }

    /// Get a value appropriate for using in a command.
    pub fn arg_val(self) -> (r: usize)
        ensures
            r == self.spec_arg_val(),
    {
        match self {
            OutputState::On => 0,
            OutputState::Off => 1,
        }
    }
}

/// A supply's output-limiting mode.
#[derive(Clone, Copy, Debug, PartialEq, Eq, Structural, Hash)]
pub enum OutputMode {
    /// The supply regulates its output current to hold the configured voltage.
    ConstantVoltage,
    /// The supply regulates its output voltage to hold the configured current.
    ConstantCurrent,
}

/// Selects one of the three presets.
#[derive(Clone, Copy, Debug, PartialEq, Eq, Structural, Hash)]
pub enum PresetIndex {
    /// First preset
    One,
    /// Second preset
    Two,
    /// Third preset
    Three,
}

impl PresetIndex {
    /// Zero-based position of this preset.
    pub open spec fn spec_arg_val(self) -> nat {
        match self {
            PresetIndex::One => 0,
            PresetIndex::Two => 1,
            PresetIndex::Three => 2,
        }
    }

    /// Get a concrete index for this preset, for commands or for indexing
    /// preset arrays.
    pub fn arg_val(self) -> (r: usize)
        ensures
            r == self.spec_arg_val(),
            r < 3,
    {
        match self {
            PresetIndex::One => 0,
            PresetIndex::Two => 1,
            PresetIndex::Three => 2,
        }
    }
}

/// A power-supply operating point.
#[derive(Clone, Copy, Debug, PartialEq, Eq, Structural, Hash)]
pub struct OperatingPoint {
    /// Voltage setpoint.
    pub voltage: Milli,
    /// Current limit.
    pub current: Milli,
}

/// One of the supported supply models.
///
/// Each model resolves to a fixed [`Info`] record; no other record exists.
#[derive(Clone, Copy, Debug, PartialEq, Eq, Structural, Hash)]
pub enum SupplyVariant {
    /// The 60V / 5A model.
    BK1685B,
    /// The 36V / 10A model.
    BK1687B,
    /// The 18V / 20A model.
    BK1688B,
}

/// Model-to-model protocol variations.
///
/// Obtained only through [`SupplyVariant::info`].
#[non_exhaustive]
#[derive(Clone, Copy, Debug, PartialEq, Eq, Structural, Hash)]
pub struct Info {
    /// The model this record describes.
    pub model: SupplyVariant,
    /// The stated maximum voltage, in volts.
    ///
    /// A supply usually reports capabilities slightly above this.
    pub nominal_max_voltage: usize,
    /// The stated maximum current, in amperes.
    pub nominal_max_current: usize,
    /// The number of decimal places in commands encoding current.
    pub current_decimals: usize,
    /// The number of decimal places in commands encoding voltage.
    pub voltage_decimals: usize,
}

impl Info {
    /// Get the number of decimal places in commands encoding current.
    pub fn current_decimals(&self) -> (r: usize)
        ensures
            r == self.current_decimals,
    {
        self.current_decimals
    }

    /// Get the number of decimal places in commands encoding voltage.
    pub fn voltage_decimals(&self) -> (r: usize)
        ensures
            r == self.voltage_decimals,
    {
        self.voltage_decimals
    }
}

impl SupplyVariant {
    /// The registry entry of this model.
    pub open spec fn spec_info(self) -> Info {
        match self {
            SupplyVariant::BK1685B => Info {
                model: self,
                nominal_max_voltage: 60,
                nominal_max_current: 5,
                current_decimals: 2,
                voltage_decimals: 1,
            },
            SupplyVariant::BK1687B => Info {
                model: self,
                nominal_max_voltage: 36,
                nominal_max_current: 10,
                current_decimals: 1,
                voltage_decimals: 1,
            },
            SupplyVariant::BK1688B => Info {
                model: self,
                nominal_max_voltage: 18,
                nominal_max_current: 20,
                current_decimals: 1,
                voltage_decimals: 1,
            },
        }
    }

    /// Look up the protocol quirks of this model.
    pub fn info(&self) -> (r: Info)
        ensures
            r == self.spec_info(),
    {
        match self {
            SupplyVariant::BK1685B => Info {
                model: *self,
                nominal_max_voltage: 60,
                nominal_max_current: 5,
                current_decimals: 2,
                voltage_decimals: 1,
            },
            SupplyVariant::BK1687B => Info {
                model: *self,
                nominal_max_voltage: 36,
                nominal_max_current: 10,
                current_decimals: 1,
                voltage_decimals: 1,
            },
            SupplyVariant::BK1688B => Info {
                model: *self,
                nominal_max_voltage: 18,
                nominal_max_current: 20,
                current_decimals: 1,
                voltage_decimals: 1,
            },
        }
    }

    /// The model number, as printed on the supply.
    pub fn model_name(&self) -> (r: &'static str)
        ensures
            r@ == match self {
                SupplyVariant::BK1685B => "BK1685B"@,
                SupplyVariant::BK1687B => "BK1687B"@,
                SupplyVariant::BK1688B => "BK1688B"@,
            },
    {
        match self {
            SupplyVariant::BK1685B => "BK1685B",
            SupplyVariant::BK1687B => "BK1687B",
            SupplyVariant::BK1688B => "BK1688B",
        }
    }
}

/// Every known model, in the order autodetection tries them.
pub open spec fn registry() -> Seq<SupplyVariant> {
    seq![SupplyVariant::BK1685B, SupplyVariant::BK1687B, SupplyVariant::BK1688B]
}

/// Width of an autodetection band, in millivolts: supplies report a maximum
/// voltage a little above their rating.
pub const BAND_MILLIVOLTS: i64 = 10_000;

/// Whether a reported maximum voltage falls in the band of `variant`:
/// `[nominal, nominal + 10 V)`.
pub open spec fn in_band(variant: SupplyVariant, voltage: Milli) -> bool {
    let nominal = variant.spec_info().nominal_max_voltage * 1000;
    nominal <= voltage.0 < nominal + BAND_MILLIVOLTS
}

/// The first of `candidates` whose band holds `voltage`.
pub open spec fn first_in_band(candidates: Seq<SupplyVariant>, voltage: Milli) -> Option<
    SupplyVariant,
>
    decreases candidates.len(),
{
    if candidates.len() == 0 {
        None
    } else if in_band(candidates[0], voltage) {
        Some(candidates[0])
    } else {
        first_in_band(candidates.drop_first(), voltage)
    }
}

/// The model that a reported maximum voltage identifies, if any.
pub open spec fn spec_variant_for_max_voltage(voltage: Milli) -> Option<SupplyVariant> {
    first_in_band(registry(), voltage)
}

/// Identify a model from the maximum voltage it reports.
///
/// Tries the registry in order and returns the first model whose band
/// `[nominal, nominal + 10 V)` holds `voltage`; `None` when no band does.
pub fn variant_for_max_voltage(voltage: Milli) -> (r: Option<SupplyVariant>)
    ensures
        r == spec_variant_for_max_voltage(voltage),
{
    let candidates: [SupplyVariant; 3] = [
        SupplyVariant::BK1685B,
        SupplyVariant::BK1687B,
        SupplyVariant::BK1688B,
    ];
    assert(candidates@ == registry());
    assert(registry().skip(0) == registry());
    let mut i: usize = 0;
    while i < 3
        invariant
            0 <= i <= 3,
            candidates@ == registry(),
            first_in_band(registry(), voltage) == first_in_band(registry().skip(i as int), voltage),
        decreases 3 - i,
    {
        let supply = candidates[i];
        let nominal = supply.info().nominal_max_voltage as i64 * 1000;
        assert(registry().skip(i as int)[0] == supply);
        if nominal <= voltage.0 && voltage.0 < nominal + BAND_MILLIVOLTS {
            return Some(supply);
        }
        assert(registry().skip(i as int).drop_first() == registry().skip(i + 1));
        i = i + 1;
    }
    None
}

} // verus!
