use bk168xb::codec::ArgFormat;
use bk168xb::command;
use bk168xb::response;
use bk168xb::Milli;

fn encode(fmt: ArgFormat, val: Milli) -> Result<String, command::Error> {
    let mut sink = Vec::new();
    fmt.serialize_arg(&mut sink, val)?;
    Ok(String::from_utf8(sink).unwrap())
}

const ONE_OF_THREE: ArgFormat = ArgFormat { decimals: 1, digits: 3 };

#[test]
fn encodes_concrete_vectors() {
    assert_eq!(encode(ONE_OF_THREE, Milli(12_300)).unwrap(), "123");
    assert_eq!(encode(ONE_OF_THREE, Milli(100)).unwrap(), "001");
    assert_eq!(encode(ONE_OF_THREE, Milli(99_900)).unwrap(), "999");
    assert_eq!(encode(ONE_OF_THREE, Milli(12_990)).unwrap(), "130");
    assert_eq!(encode(ONE_OF_THREE, Milli(0)).unwrap(), "000");
}

#[test]
fn rounds_half_away_from_zero() {
    assert_eq!(encode(ONE_OF_THREE, Milli(8_210)).unwrap(), "082");
    assert_eq!(encode(ONE_OF_THREE, Milli(8_250)).unwrap(), "083");
    assert_eq!(encode(ONE_OF_THREE, Milli(8_249)).unwrap(), "082");
    let two = ArgFormat { decimals: 2, digits: 3 };
    assert_eq!(encode(two, Milli(1_299)).unwrap(), "130");
    assert_eq!(encode(two, Milli(821)).unwrap(), "082");
    assert_eq!(encode(two, Milli(5)).unwrap(), "001");
    assert_eq!(encode(two, Milli(4)).unwrap(), "000");
}

#[test]
fn rejects_unrepresentable_values() {
    for v in [-1, -1_000, 99_901, 100_000, 101_000, i64::MAX, i64::MIN] {
        match encode(ONE_OF_THREE, Milli(v)) {
            Err(command::Error::ValueUnrepresentable(x)) => assert_eq!(x, Milli(v)),
            other => panic!("{:?} encoded to {:?}", v, other),
        }
    }
}

#[test]
fn failed_encode_leaves_sink_untouched() {
    let mut sink = b"VOLT".to_vec();
    assert!(ONE_OF_THREE.serialize_arg(&mut sink, Milli(100_000)).is_err());
    assert_eq!(sink, b"VOLT".to_vec());
    ONE_OF_THREE.serialize_arg(&mut sink, Milli(1_000)).unwrap();
    assert_eq!(sink, b"VOLT010".to_vec());
}

#[test]
fn max_and_step_follow_descriptor() {
    assert_eq!(ONE_OF_THREE.max(), Milli(99_900));
    assert_eq!(ONE_OF_THREE.step(), 100);
    let status = ArgFormat { decimals: 2, digits: 4 };
    assert_eq!(status.max(), Milli(99_990));
    let digit = ArgFormat { decimals: 0, digits: 1 };
    assert_eq!(digit.max(), Milli(9_000));
    assert_eq!(digit.output_val(Milli(2_000)), Some(2));
    assert_eq!(digit.output_val(Milli(10_000)), None);
}

#[test]
fn decodes_fields() {
    assert_eq!(ONE_OF_THREE.parse(b"123").unwrap(), Milli(12_300));
    assert_eq!(ONE_OF_THREE.parse(b"999").unwrap(), Milli(99_900));
    assert_eq!(ONE_OF_THREE.parse(b"000").unwrap(), Milli(0));
    let two = ArgFormat { decimals: 2, digits: 3 };
    assert_eq!(two.parse(b"501").unwrap(), Milli(5_010));
    let status = ArgFormat { decimals: 2, digits: 4 };
    assert_eq!(status.parse(b"1234").unwrap(), Milli(12_340));
}

#[test]
fn rejects_malformed_fields() {
    for raw in [&b"12"[..], b"1234", b"", b"+12", b"-12", b"1 2", b"12a", b"1.2"] {
        assert!(
            matches!(ONE_OF_THREE.parse(raw), Err(response::Error::MalformedResponse)),
            "{:?}",
            raw
        );
    }
}

#[test]
fn round_trips_at_field_precision() {
    for fmt in [
        ArgFormat { decimals: 1, digits: 3 },
        ArgFormat { decimals: 2, digits: 3 },
        ArgFormat { decimals: 2, digits: 4 },
        ArgFormat { decimals: 0, digits: 1 },
    ] {
        let step = fmt.step();
        let max = fmt.max().0;
        let mut v = 0;
        while v <= max {
            let field = encode(fmt, Milli(v)).unwrap();
            assert_eq!(field.len(), fmt.digits);
            assert!(field.bytes().all(|b| b.is_ascii_digit()));
            assert_eq!(fmt.parse(field.as_bytes()).unwrap(), Milli(v));
            v += step;
        }
    }
}
