use clickei::double::Double;
use clickei::macro_file::{
    deserialize, read_error, serialize_error, write_error, CURRENT_FORMAT_VERSION, EXTENSION,
};
use clickei::model::MacroData;

#[test]
fn known_formats_are_accepted_and_cleaned() {
    for version in [i32::MIN, -1, 0, 1] {
        let d = MacroData {
            format_version: version,
            loop_count: 100_000,
            speed: Double { bits: 100.0f64.to_bits() },
            ..MacroData::default()
        };
        let r = deserialize(Ok(d)).unwrap();
        assert_eq!(r.format_version, CURRENT_FORMAT_VERSION);
        assert_eq!(r.loop_count, 9999);
        assert_eq!(f64::from_bits(r.speed.bits), 10.0);
    }
}

#[test]
fn future_formats_are_refused() {
    for (version, text) in [
        (2, "format v2 not supported (expected v1)"),
        (i32::MAX, "format v2147483647 not supported (expected v1)"),
    ] {
        let d = MacroData { format_version: version, ..MacroData::default() };
        assert_eq!(deserialize(Ok(d)).unwrap_err().0, text);
    }
    assert_eq!(
        deserialize(Err("eof".to_string())).unwrap_err().0,
        "corrupt .ttx: eof"
    );
}

#[test]
fn sane_macros_are_accepted_as_they_are() {
    let d = MacroData { loop_count: 3, interval_ms: 4, ..MacroData::default() };
    let r = deserialize(Ok(d)).unwrap();
    assert_eq!((r.loop_count, r.interval_ms, r.app_name.as_str()), (3, 4, "Clickei"));
    let again = deserialize(Ok(r.clone())).unwrap();
    assert_eq!(again.loop_count, r.loop_count);
}

#[test]
fn file_failures_are_put_into_words() {
    assert_eq!(serialize_error("x").0, "serialize failed: x");
    assert_eq!(write_error("p", "x").0, "write p: x");
    assert_eq!(read_error("p", "x").0, "read p: x");
    assert_eq!(EXTENSION, ".ttx");
}
