use bk168xb::response::{
    frame_len, parse_response, verify_ok, verify_sep, Ack, Capabilities, Current, Error, Presets,
    Response, Settings, Status, Voltage,
};
use bk168xb::command::{Command, SetPresets};
use bk168xb::OutputMode::{ConstantCurrent, ConstantVoltage};
use bk168xb::{Milli, OperatingPoint, OutputMode, PresetIndex, SupplyVariant};
use std::fmt::Debug;

const ANY: [SupplyVariant; 3] =
    [SupplyVariant::BK1685B, SupplyVariant::BK1687B, SupplyVariant::BK1688B];
const LOW: [SupplyVariant; 2] = [SupplyVariant::BK1687B, SupplyVariant::BK1688B];
const HIGH: SupplyVariant = SupplyVariant::BK1685B;

fn read<R: Response>(raw: &str, variant: SupplyVariant) -> Result<R, Error> {
    parse_response::<R>(raw.as_bytes(), &variant)
}

fn assert_reads<R: Response + PartialEq + Debug>(raw: &str, expected: R, variant: SupplyVariant) {
    match read::<R>(raw, variant) {
        Ok(r) => assert_eq!(r, expected, "{:?}", raw),
        Err(e) => panic!("{:?} failed: {:?}", raw, e),
    }
}

fn assert_malformed<R: Response + Debug>(raw: &str, variant: SupplyVariant) {
    match read::<R>(raw, variant) {
        Err(Error::MalformedResponse) => {},
        other => panic!("{:?} gave {:?}", raw, other),
    }
}

fn dummy_arg<R: Response>() -> String {
    "0".repeat(R::arg_bytes())
}

fn point(voltage: i64, current: i64) -> OperatingPoint {
    OperatingPoint { voltage: Milli(voltage), current: Milli(current) }
}

fn settings(voltage: i64, current: i64) -> Settings {
    Settings { voltage: Milli(voltage), current: Milli(current) }
}

fn status(voltage: i64, current: i64, mode: OutputMode) -> Status {
    Status { voltage: Milli(voltage), current: Milli(current), mode }
}

fn caps(max_voltage: i64, max_current: i64) -> Capabilities {
    Capabilities { max_voltage: Milli(max_voltage), max_current: Milli(max_current) }
}

#[test]
fn frame_lengths() {
    assert_eq!(frame_len::<Ack>(), 3);
    assert_eq!(frame_len::<Voltage>(), 7);
    assert_eq!(frame_len::<Current>(), 7);
    assert_eq!(frame_len::<Settings>(), 10);
    assert_eq!(frame_len::<Capabilities>(), 10);
    assert_eq!(frame_len::<Status>(), 13);
    assert_eq!(frame_len::<Presets>(), 24);
}

#[test]
fn ack_can_parse() {
    for variant in ANY {
        assert_reads("OK\r", Ack, variant);
    }
}

#[test]
fn checks_ack_and_separator() {
    assert!(verify_ok(b"OK\r").is_ok());
    for bad in [&b"foo"[..], b"OK", b"ok\r", b"\r", b"NOK\r", b"OK\n"] {
        assert!(matches!(verify_ok(bad), Err(Error::MalformedResponse)), "{:?}", bad);
    }
    assert!(verify_sep(b'\r').is_ok());
    for bad in [b' ', b'\n', b'#', b'.', b'0', b'9'] {
        assert!(matches!(verify_sep(bad), Err(Error::MalformedResponse)));
    }
}

fn no_response<R: Response + Debug>(variant: SupplyVariant) {
    assert!(matches!(read::<R>("", variant), Err(Error::NoResponse)));
}

#[test]
fn fails_to_parse_with_no_response() {
    for variant in ANY {
        no_response::<Ack>(variant);
        no_response::<Voltage>(variant);
        no_response::<Current>(variant);
        no_response::<Settings>(variant);
        no_response::<Status>(variant);
        no_response::<Presets>(variant);
        no_response::<Capabilities>(variant);
    }
}

fn no_value<R: Response + Debug>(variant: SupplyVariant) {
    assert_malformed::<R>("OK\r", variant);
}

#[test]
fn fails_to_parse_with_no_value() {
    for variant in ANY {
        no_value::<Voltage>(variant);
        no_value::<Current>(variant);
        no_value::<Settings>(variant);
        no_value::<Status>(variant);
        no_value::<Presets>(variant);
        no_value::<Capabilities>(variant);
    }
}

fn no_separator<R: Response + Debug>(variant: SupplyVariant) {
    let resp = dummy_arg::<R>() + "OK\r";
    assert_malformed::<R>(&resp, variant);
}

#[test]
fn fails_to_parse_with_no_separator() {
    for variant in ANY {
        no_separator::<Voltage>(variant);
        no_separator::<Current>(variant);
        no_separator::<Settings>(variant);
        no_separator::<Status>(variant);
        no_separator::<Presets>(variant);
        no_separator::<Capabilities>(variant);
    }
}

fn bad_separator<R: Response + Debug>(variant: SupplyVariant, sep: char) {
    let mut resp = dummy_arg::<R>();
    resp.push(sep);
    resp.push_str("OK\r");
    assert_malformed::<R>(&resp, variant);
}

#[test]
fn fails_to_parse_with_invalid_separator() {
    for variant in ANY {
        for sep in [' ', '\n', '#', '.', '0', '9'] {
            bad_separator::<Ack>(variant, sep);
            bad_separator::<Voltage>(variant, sep);
            bad_separator::<Current>(variant, sep);
            bad_separator::<Settings>(variant, sep);
            bad_separator::<Status>(variant, sep);
            bad_separator::<Presets>(variant, sep);
            bad_separator::<Capabilities>(variant, sep);
        }
    }
}

fn duplicate_separator<R: Response + Debug>(variant: SupplyVariant) {
    let resp = dummy_arg::<R>() + "\r\rOK\r";
    assert_malformed::<R>(&resp, variant);
}

#[test]
fn fails_to_parse_with_duplicate_separator() {
    for variant in ANY {
        duplicate_separator::<Ack>(variant);
        duplicate_separator::<Voltage>(variant);
        duplicate_separator::<Current>(variant);
        duplicate_separator::<Settings>(variant);
        duplicate_separator::<Status>(variant);
        duplicate_separator::<Presets>(variant);
        duplicate_separator::<Capabilities>(variant);
    }
}

fn bad_ack<R: Response + Debug>(variant: SupplyVariant, ack: &str) {
    let mut resp = dummy_arg::<R>();
    if !resp.is_empty() {
        resp.push('\r');
    }
    resp.push_str(ack);
    assert_malformed::<R>(&resp, variant);
}

#[test]
fn fails_to_parse_with_bad_ack() {
    for variant in ANY {
        for ack in ["foo", "OK", "ok", "\r", "NOK\r", "ERROR\r"] {
            bad_ack::<Ack>(variant, ack);
            bad_ack::<Voltage>(variant, ack);
            bad_ack::<Current>(variant, ack);
            bad_ack::<Settings>(variant, ack);
            bad_ack::<Status>(variant, ack);
            bad_ack::<Presets>(variant, ack);
            bad_ack::<Capabilities>(variant, ack);
        }
    }
}

fn short_read<R: Response + Debug>(variant: SupplyVariant) {
    let full = dummy_arg::<R>() + "\rOK\r";
    assert_malformed::<R>(&full[..2], variant);
    assert_malformed::<R>(&full[..full.len() - 1], variant);
}

#[test]
fn short_read_is_malformed() {
    for variant in ANY {
        short_read::<Voltage>(variant);
        short_read::<Current>(variant);
        short_read::<Settings>(variant);
        short_read::<Status>(variant);
        short_read::<Presets>(variant);
        short_read::<Capabilities>(variant);
    }
    assert_malformed::<Settings>("00", SupplyVariant::BK1687B);
}

const VALID_NUMS: [(&str, i64); 6] =
    [("000", 0), ("001", 1), ("010", 10), ("100", 100), ("998", 998), ("999", 999)];

const INVALID_NUMS: [&str; 9] = ["10", "8924", "22.1", "foo", "22f", "22.", "OK", "NOK", "a32"];

#[test]
fn voltage_and_current_for_low_voltage() {
    for variant in LOW {
        for (raw, n) in VALID_NUMS {
            let resp = format!("{}\rOK\r", raw);
            assert_reads(&resp, Voltage(Milli(n * 100)), variant);
            assert_reads(&resp, Current(Milli(n * 100)), variant);
        }
    }
}

#[test]
fn voltage_and_current_for_high_voltage() {
    for (raw, n) in VALID_NUMS {
        let resp = format!("{}\rOK\r", raw);
        assert_reads(&resp, Voltage(Milli(n * 100)), HIGH);
        assert_reads(&resp, Current(Milli(n * 10)), HIGH);
    }
}

#[test]
fn fails_to_parse_with_malformed_param() {
    for variant in ANY {
        for raw in INVALID_NUMS {
            let resp = format!("{}\rOK\r", raw);
            assert_malformed::<Voltage>(&resp, variant);
            assert_malformed::<Current>(&resp, variant);
        }
    }
}

#[test]
fn settings_for_low_voltage() {
    for variant in LOW {
        assert_reads("000000\rOK\r", settings(0, 0), variant);
        assert_reads("999000\rOK\r", settings(99_900, 0), variant);
        assert_reads("000999\rOK\r", settings(0, 99_900), variant);
        assert_reads("123456\rOK\r", settings(12_300, 45_600), variant);
        assert_reads("654321\rOK\r", settings(65_400, 32_100), variant);
        assert_reads("025051\rOK\r", settings(2_500, 5_100), variant);
    }
}

#[test]
fn settings_for_high_voltage() {
    assert_reads("000000\rOK\r", settings(0, 0), HIGH);
    assert_reads("999000\rOK\r", settings(99_900, 0), HIGH);
    assert_reads("000999\rOK\r", settings(0, 9_990), HIGH);
    assert_reads("123456\rOK\r", settings(12_300, 4_560), HIGH);
    assert_reads("654321\rOK\r", settings(65_400, 3_210), HIGH);
    assert_reads("025051\rOK\r", settings(2_500, 510), HIGH);
}

#[test]
fn fails_to_parse_invalid_settings() {
    for variant in ANY {
        assert_malformed::<Settings>("x00000\rOK\r", variant);
        assert_malformed::<Settings>("000x00\rOK\r", variant);
        assert_malformed::<Settings>("1234567\rOK\r", variant);
    }
}

#[test]
fn status_can_parse() {
    for variant in ANY {
        assert_reads("000000000\rOK\r", status(0, 0, ConstantVoltage), variant);
        assert_reads("999900000\rOK\r", status(99_990, 0, ConstantVoltage), variant);
        assert_reads("000099990\rOK\r", status(0, 99_990, ConstantVoltage), variant);
        assert_reads("000000001\rOK\r", status(0, 0, ConstantCurrent), variant);
        assert_reads("123456780\rOK\r", status(12_340, 56_780, ConstantVoltage), variant);
        assert_reads("987654321\rOK\r", status(98_760, 54_320, ConstantCurrent), variant);
        assert_reads("030201450\rOK\r", status(3_020, 1_450, ConstantVoltage), variant);
    }
}

#[test]
fn status_fails_to_parse_bad_param() {
    for variant in ANY {
        for raw in [
            "foo000000", "----00001", "OK0000000", "0000foo00", "0000----1", "0000OK000",
            "0000blah1", "123456782", "888776543", "000000009", "00000000X",
        ] {
            assert_malformed::<Status>(&format!("{}\rOK\r", raw), variant);
        }
    }
}

#[test]
fn presets_for_low_voltage() {
    for variant in LOW {
        let zero = point(0, 0);
        assert_reads("000000\r000000\r000000\rOK\r", Presets(zero, zero, zero), variant);
        assert_reads("111000\r000000\r000000\rOK\r", Presets(point(11_100, 0), zero, zero), variant);
        assert_reads("000222\r000000\r000000\rOK\r", Presets(point(0, 22_200), zero, zero), variant);
        assert_reads("000000\r333000\r000000\rOK\r", Presets(zero, point(33_300, 0), zero), variant);
        assert_reads("000000\r000444\r000000\rOK\r", Presets(zero, point(0, 44_400), zero), variant);
        assert_reads("000000\r000000\r555000\rOK\r", Presets(zero, zero, point(55_500, 0)), variant);
        assert_reads("000000\r000000\r000666\rOK\r", Presets(zero, zero, point(0, 66_600)), variant);
        assert_reads(
            "015015\r025025\r035035\rOK\r",
            Presets(point(1_500, 1_500), point(2_500, 2_500), point(3_500, 3_500)),
            variant,
        );
    }
}

#[test]
fn presets_for_high_voltage() {
    let zero = point(0, 0);
    assert_reads("000000\r000000\r000000\rOK\r", Presets(zero, zero, zero), HIGH);
    assert_reads("111000\r000000\r000000\rOK\r", Presets(point(11_100, 0), zero, zero), HIGH);
    assert_reads("000222\r000000\r000000\rOK\r", Presets(point(0, 2_220), zero, zero), HIGH);
    assert_reads("000000\r000444\r000000\rOK\r", Presets(zero, point(0, 4_440), zero), HIGH);
    assert_reads("000000\r000000\r000666\rOK\r", Presets(zero, zero, point(0, 6_660)), HIGH);
}

#[test]
fn presets_round_trip_vector() {
    let variant = SupplyVariant::BK1687B;
    let points = (point(1_100, 2_200), point(3_300, 4_400), point(5_500, 6_600));
    let sent = SetPresets(points.0, points.1, points.2).serialize(&variant).unwrap();
    assert_eq!(sent, b"PROM011022033044055066\r".to_vec());
    assert_reads(
        "011022\r033044\r055066\rOK\r",
        Presets(points.0, points.1, points.2),
        variant,
    );
}

#[test]
fn presets_rejects_wrong_chunks() {
    for variant in ANY {
        for raw in [
            "0000000\r00000\r000000\rOK\r",
            "000000\r000000\r000000\r\rOK\r",
            "000000\r0000000000000\rOK\r",
            "000000\r000000\r00000\r\rOK\r",
            "000000\r000000\r0000x0\rOK\r",
            "00000\r\r000000\r000000\rOK\r",
        ] {
            assert_malformed::<Presets>(raw, variant);
        }
    }
}

#[test]
fn presets_indexing() {
    let mut p = Presets(point(1, 1), point(2, 2), point(3, 3));
    assert_eq!(*p.index(PresetIndex::One), point(1, 1));
    *p.index_mut(PresetIndex::Two) = point(7, 7);
    assert_eq!(p, Presets(point(1, 1), point(7, 7), point(3, 3)));
}

#[test]
fn parses_for_60v_supply() {
    for variant in ANY {
        assert_reads("600500\rOK\r", caps(60_000, 5_000), variant);
        assert_reads("601501\rOK\r", caps(60_100, 5_010), variant);
        assert_reads("623579\rOK\r", caps(62_300, 5_790), variant);
    }
    assert_eq!(caps(60_100, 5_010).variant(), Some(SupplyVariant::BK1685B));
}

#[test]
fn parses_for_36v_supply() {
    for variant in ANY {
        assert_reads("360100\rOK\r", caps(36_000, 10_000), variant);
        assert_reads("361101\rOK\r", caps(36_100, 10_100), variant);
        assert_reads("383109\rOK\r", caps(38_300, 10_900), variant);
    }
}

#[test]
fn parses_for_18v_supply() {
    for variant in ANY {
        assert_reads("180200\rOK\r", caps(18_000, 20_000), variant);
        assert_reads("181201\rOK\r", caps(18_100, 20_100), variant);
        assert_reads("193209\rOK\r", caps(19_300, 20_900), variant);
    }
}

#[test]
fn capabilities_unidentified_falls_back_to_one_decimal() {
    for variant in ANY {
        assert_reads("472053\rOK\r", caps(47_200, 5_300), variant);
    }
    assert_eq!(caps(47_200, 5_300).variant(), None);
}

#[test]
fn fails_to_parse_invalid_capabilities() {
    for variant in ANY {
        assert_malformed::<Capabilities>("x00000\rOK\r", variant);
        assert_malformed::<Capabilities>("000x00\rOK\r", variant);
        assert_malformed::<Capabilities>("1234567\rOK\r", variant);
    }
}

#[test]
fn parse_args_directly() {
    assert_eq!(Settings::parse_args(b"999000", &HIGH).unwrap(), settings(99_900, 0));
    assert!(matches!(Status::parse_args(b"", &HIGH), Err(Error::MalformedResponse)));
    assert!(matches!(Settings::parse_args(b"12", &HIGH), Err(Error::MalformedResponse)));
    assert!(matches!(Capabilities::parse_args(b"1", &HIGH), Err(Error::MalformedResponse)));
    assert_eq!(Ack::arg_bytes(), 0);
    assert_eq!(Presets::arg_bytes(), 20);
}
