use fractal_viewer::config::{
    find, read_count, read_flag, read_real, ConfigEntry, ConfigError, ConfigValue, Field,
};
use fractal_viewer::scalar::Scalar;
use fractal_viewer::tunables::Tunables;

fn real_value(x: f32) -> ConfigValue {
    ConfigValue::Number { value: Scalar::from_bits(x.to_bits()), integer: None }
}

fn integer(n: i64) -> ConfigValue {
    ConfigValue::Number { value: Scalar::from_bits((n as f32).to_bits()), integer: Some(n) }
}

fn entry(name: &str, value: ConfigValue) -> ConfigEntry {
    ConfigEntry { name: name.to_string(), value }
}

fn good_record() -> Vec<ConfigEntry> {
    vec![
        entry("escape_threshold", real_value(8.0)),
        entry("max_iteration", integer(500)),
        entry("pan_speed", real_value(0.05)),
        entry("scroll_sensitivity", real_value(2.5)),
        entry("use_extended_precision", ConfigValue::Flag(true)),
    ]
}

fn replaced(name: &str, value: ConfigValue) -> Vec<ConfigEntry> {
    let mut record = good_record();
    for e in record.iter_mut() {
        if e.name == name {
            e.value = value;
        }
    }
    record
}

fn without(name: &str) -> Vec<ConfigEntry> {
    let mut record = good_record();
    record.retain(|e| e.name != name);
    record
}

#[test]
fn field_keys() {
    assert_eq!(Field::EscapeThreshold.key(), "escape_threshold");
    assert_eq!(Field::MaxIteration.key(), "max_iteration");
    assert_eq!(Field::PanSpeed.key(), "pan_speed");
    assert_eq!(Field::ScrollSensitivity.key(), "scroll_sensitivity");
    assert_eq!(Field::UseExtendedPrecision.key(), "use_extended_precision");
}

#[test]
fn find_gives_the_value_of_the_first_entry_of_that_name() {
    let record = vec![
        entry("a", integer(1)),
        entry("b", integer(2)),
        entry("a", integer(3)),
    ];
    assert_eq!(find(&record, "a"), Some(integer(1)));
    assert_eq!(find(&record, "b"), Some(integer(2)));
    assert_eq!(find(&record, "c"), None);
    assert_eq!(find(&record, ""), None);
    assert_eq!(find(&Vec::new(), "a"), None);
}

#[test]
fn find_matches_whole_names_only() {
    let record = vec![entry("max_iteration_count", integer(1)), entry("max", integer(2))];
    assert_eq!(find(&record, "max_iteration"), None);
    assert_eq!(find(&record, "max"), Some(integer(2)));
}

#[test]
fn good_record_gives_its_parameter_set() {
    let t = Tunables::from_record(&good_record()).unwrap();
    assert_eq!(t.escape_threshold, Scalar::from_bits(8.0f32.to_bits()));
    assert_eq!(t.max_iteration, 500);
    assert_eq!(t.pan_speed, Scalar::from_bits(0.05f32.to_bits()));
    assert_eq!(t.scroll_sensitivity, Scalar::from_bits(2.5f32.to_bits()));
    assert!(t.use_extended_precision);
    assert!(t.is_valid());
}

#[test]
fn order_of_entries_does_not_matter() {
    let mut record = good_record();
    record.reverse();
    assert_eq!(Tunables::from_record(&record), Tunables::from_record(&good_record()));
}

#[test]
fn unknown_fields_are_ignored() {
    let mut record = good_record();
    record.insert(0, entry("window_title", integer(7)));
    record.insert(3, entry("colour", real_value(-1.0)));
    record.insert(5, entry("title", ConfigValue::Other));
    record.push(entry("Max_Iteration", integer(-4)));
    assert_eq!(Tunables::from_record(&record), Tunables::from_record(&good_record()));
}

#[test]
fn first_of_two_entries_of_one_name_counts() {
    let mut record = good_record();
    record.push(entry("max_iteration", integer(-1)));
    assert_eq!(Tunables::from_record(&record).unwrap().max_iteration, 500);
    record.insert(0, entry("max_iteration", integer(9)));
    assert_eq!(Tunables::from_record(&record).unwrap().max_iteration, 9);
}

#[test]
fn each_missing_field_is_reported() {
    assert_eq!(
        Tunables::from_record(&without("escape_threshold")),
        Err(ConfigError::Missing(Field::EscapeThreshold))
    );
    assert_eq!(
        Tunables::from_record(&without("max_iteration")),
        Err(ConfigError::Missing(Field::MaxIteration))
    );
    assert_eq!(Tunables::from_record(&without("pan_speed")), Err(ConfigError::Missing(Field::PanSpeed)));
    assert_eq!(
        Tunables::from_record(&without("scroll_sensitivity")),
        Err(ConfigError::Missing(Field::ScrollSensitivity))
    );
    assert_eq!(
        Tunables::from_record(&without("use_extended_precision")),
        Err(ConfigError::Missing(Field::UseExtendedPrecision))
    );
    assert_eq!(
        Tunables::from_record(&Vec::new()),
        Err(ConfigError::Missing(Field::EscapeThreshold))
    );
}

#[test]
fn mistyped_fields_are_reported() {
    assert_eq!(
        Tunables::from_record(&replaced("escape_threshold", ConfigValue::Flag(false))),
        Err(ConfigError::Mistyped(Field::EscapeThreshold))
    );
    assert_eq!(
        Tunables::from_record(&replaced("max_iteration", real_value(100.0))),
        Err(ConfigError::Mistyped(Field::MaxIteration))
    );
    assert_eq!(
        Tunables::from_record(&replaced("pan_speed", ConfigValue::Flag(true))),
        Err(ConfigError::Mistyped(Field::PanSpeed))
    );
    assert_eq!(
        Tunables::from_record(&replaced("scroll_sensitivity", ConfigValue::Other)),
        Err(ConfigError::Mistyped(Field::ScrollSensitivity))
    );
    assert_eq!(
        Tunables::from_record(&replaced("use_extended_precision", integer(1))),
        Err(ConfigError::Mistyped(Field::UseExtendedPrecision))
    );
    assert_eq!(
        Tunables::from_record(&replaced("max_iteration", ConfigValue::Other)),
        Err(ConfigError::Mistyped(Field::MaxIteration))
    );
    assert_eq!(
        Tunables::from_record(&replaced("pan_speed", ConfigValue::Other)),
        Err(ConfigError::Mistyped(Field::PanSpeed))
    );
}

#[test]
fn whole_numbers_are_real_numbers() {
    let t = Tunables::from_record(&replaced("escape_threshold", integer(4))).unwrap();
    assert_eq!(t.escape_threshold, Scalar::from_bits(4.0f32.to_bits()));
    assert_eq!(
        Tunables::from_record(&replaced("escape_threshold", integer(0))),
        Err(ConfigError::Invalid(Field::EscapeThreshold))
    );
    assert_eq!(
        Tunables::from_record(&replaced("pan_speed", integer(-2))),
        Err(ConfigError::Invalid(Field::PanSpeed))
    );
}

#[test]
fn negative_max_iteration_is_invalid() {
    assert_eq!(
        Tunables::from_record(&replaced("max_iteration", integer(-1))),
        Err(ConfigError::Invalid(Field::MaxIteration))
    );
    assert_eq!(
        Tunables::from_record(&replaced("max_iteration", integer(i64::MIN))),
        Err(ConfigError::Invalid(Field::MaxIteration))
    );
}

#[test]
fn max_iteration_range() {
    assert_eq!(
        Tunables::from_record(&replaced("max_iteration", integer(0))).unwrap().max_iteration,
        0
    );
    assert_eq!(
        Tunables::from_record(&replaced("max_iteration", integer(2_147_483_647)))
            .unwrap()
            .max_iteration,
        i32::MAX
    );
    assert_eq!(
        Tunables::from_record(&replaced("max_iteration", integer(2_147_483_648))),
        Err(ConfigError::Invalid(Field::MaxIteration))
    );
}

#[test]
fn real_fields_must_be_above_zero() {
    for bad in [0.0f32, -0.0, -4.0, f32::NAN, f32::INFINITY, f32::NEG_INFINITY] {
        assert_eq!(
            Tunables::from_record(&replaced("escape_threshold", real_value(bad))),
            Err(ConfigError::Invalid(Field::EscapeThreshold))
        );
        assert_eq!(
            Tunables::from_record(&replaced("pan_speed", real_value(bad))),
            Err(ConfigError::Invalid(Field::PanSpeed))
        );
        assert_eq!(
            Tunables::from_record(&replaced("scroll_sensitivity", real_value(bad))),
            Err(ConfigError::Invalid(Field::ScrollSensitivity))
        );
    }
}

#[test]
fn first_bad_field_in_field_order_decides_the_error() {
    let mut record = good_record();
    record.reverse();
    for e in record.iter_mut() {
        if e.name == "scroll_sensitivity" {
            e.value = real_value(-1.0);
        }
        if e.name == "max_iteration" {
            e.value = ConfigValue::Flag(false);
        }
    }
    assert_eq!(Tunables::from_record(&record), Err(ConfigError::Mistyped(Field::MaxIteration)));
    record.retain(|e| e.name != "escape_threshold");
    assert_eq!(Tunables::from_record(&record), Err(ConfigError::Missing(Field::EscapeThreshold)));
}

#[test]
fn single_field_readers() {
    let record = good_record();
    assert_eq!(read_real(&record, Field::PanSpeed), Ok(Scalar::from_bits(0.05f32.to_bits())));
    assert_eq!(read_real(&record, Field::MaxIteration), Ok(Scalar::from_bits(500.0f32.to_bits())));
    assert_eq!(
        read_real(&record, Field::UseExtendedPrecision),
        Err(ConfigError::Mistyped(Field::UseExtendedPrecision))
    );
    assert_eq!(read_count(&record, Field::MaxIteration), Ok(500));
    assert_eq!(read_count(&record, Field::PanSpeed), Err(ConfigError::Mistyped(Field::PanSpeed)));
    assert_eq!(read_flag(&record, Field::UseExtendedPrecision), Ok(true));
    assert_eq!(
        read_flag(&without("use_extended_precision"), Field::UseExtendedPrecision),
        Err(ConfigError::Missing(Field::UseExtendedPrecision))
    );
}

#[test]
fn initial_tunables() {
    let t = Tunables::initial();
    assert_eq!(f32::from_bits(t.escape_threshold.to_bits()), 4.0);
    assert_eq!(t.max_iteration, 100);
    assert_eq!(f32::from_bits(t.pan_speed.to_bits()), 0.1);
    assert_eq!(f32::from_bits(t.scroll_sensitivity.to_bits()), 4.0);
    assert!(!t.use_extended_precision);
    assert!(t.is_valid());
}

#[test]
fn tunables_validity() {
    let good = Tunables::initial();
    let mut t = good;
    t.max_iteration = -1;
    assert!(!t.is_valid());
    t = good;
    t.max_iteration = 0;
    assert!(t.is_valid());
    t = good;
    t.escape_threshold = Scalar::from_bits(0);
    assert!(!t.is_valid());
    t = good;
    t.pan_speed = Scalar::from_bits((-0.1f32).to_bits());
    assert!(!t.is_valid());
    t = good;
    t.scroll_sensitivity = Scalar::from_bits(f32::NAN.to_bits());
    assert!(!t.is_valid());
    t = good;
    t.use_extended_precision = true;
    assert!(t.is_valid());
}
