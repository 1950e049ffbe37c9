use envconfig::env::Environment;
use envconfig::error::Error;
use envconfig::load::{load_var, Envconfig, Record};
use envconfig::parse::{parse_signed, parse_unsigned, FromText};
use envconfig::text::same_text;

struct Config {
    port: u16,
    host: String,
}

impl Envconfig for Config {
    fn init(env: &::envconfig::Environment) -> Result<Self, ::envconfig::Error> {
        let config = Self {
            port: ::envconfig::load_var("PORT", env)?,
            host: ::envconfig::load_var("HOST", env)?,
        };
        Ok(config)
    }
}

type ConfigFields = (u16, (String, ()));

fn env_of(pairs: &[(&str, &str)]) -> Environment {
    let mut env = Environment::new();
    for (name, text) in pairs {
        env.set(name, text);
    }
    env
}

#[test]
fn errors_compare_by_kind_and_name() {
    assert_eq!(
        Error::EnvVarMissing { name: "A" },
        Error::EnvVarMissing { name: "A" }
    );
    assert_eq!(Error::ParseError { name: "A" }, Error::ParseError { name: "A" });
    assert_ne!(Error::EnvVarMissing { name: "A" }, Error::ParseError { name: "A" });
    assert_ne!(Error::ParseError { name: "A" }, Error::EnvVarMissing { name: "A" });
    assert_ne!(
        Error::EnvVarMissing { name: "A" },
        Error::EnvVarMissing { name: "B" }
    );
    assert_ne!(Error::ParseError { name: "A" }, Error::ParseError { name: "AA" });
}

#[test]
fn errors_with_equal_names_from_different_strings_are_equal() {
    let leaked: &'static str = Box::leak(format!("{}{}", "DB_", "URL").into_boxed_str());
    assert_eq!(
        Error::EnvVarMissing { name: leaked },
        Error::EnvVarMissing { name: "DB_URL" }
    );
}

#[test]
fn error_messages_name_the_variable() {
    assert_eq!(
        Error::EnvVarMissing { name: "PORT" }.message(),
        "Env variable is missing: PORT"
    );
    assert_eq!(
        Error::ParseError { name: "PORT" }.message(),
        "Failed to parse env variable: PORT"
    );
}

#[test]
fn error_name_is_the_variable() {
    assert_eq!(Error::EnvVarMissing { name: "PORT" }.name(), "PORT");
    assert_eq!(Error::ParseError { name: "HOST" }.name(), "HOST");
}

#[test]
fn same_text_compares_characters() {
    assert!(same_text("", ""));
    assert!(same_text("from", "from"));
    assert!(!same_text("from", "form"));
    assert!(!same_text("from", "fro"));
    assert!(!same_text("fro", "from"));
    assert!(!same_text("from", "From"));
    assert!(same_text("größe", "größe"));
    assert!(!same_text("große", "größe"));
}

#[test]
fn environment_starts_empty() {
    let env = Environment::new();
    assert_eq!(env.get("PATH"), None);
    assert_eq!(env.get(""), None);
}

#[test]
fn environment_set_get_unset() {
    let mut env = Environment::new();
    env.set("PORT", "8080");
    assert_eq!(env.get("PORT"), Some("8080"));
    assert_eq!(env.get("port"), None);
    env.set("PORT", "9090");
    assert_eq!(env.get("PORT"), Some("9090"));
    env.set("HOST", "");
    assert_eq!(env.get("HOST"), Some(""));
    env.unset("PORT");
    assert_eq!(env.get("PORT"), None);
    assert_eq!(env.get("HOST"), Some(""));
    env.unset("PORT");
    assert_eq!(env.get("PORT"), None);
}

#[test]
fn unsigned_numbers_are_read() {
    assert_eq!(u16::from_text("8080"), Some(8080));
    assert_eq!(u16::from_text("0"), Some(0));
    assert_eq!(u16::from_text("+5"), Some(5));
    assert_eq!(u16::from_text("007"), Some(7));
    assert_eq!(u16::from_text("65535"), Some(65535));
    assert_eq!(u16::from_text("0000000000000000000000065535"), Some(65535));
    assert_eq!(u8::from_text("255"), Some(255));
    assert_eq!(u32::from_text("4294967295"), Some(4294967295));
    assert_eq!(u64::from_text("18446744073709551615"), Some(u64::MAX));
    assert_eq!(u64::from_text("12345678901234567890"), Some(12345678901234567890));
}

#[test]
fn text_that_is_no_unsigned_number_is_refused() {
    for text in [
        "", "+", "-", "-1", "-0", "++1", "+-1", "1+", " 1", "1 ", "1_000", "0x10", "1e3", "1.0",
        "notanumber", "１２", "٣", "12a", "a12", "+ 1", "\u{0}", "1\n",
    ] {
        assert_eq!(u16::from_text(text), None, "{:?}", text);
        assert_eq!(u64::from_text(text), None, "{:?}", text);
    }
}

#[test]
fn numbers_that_do_not_fit_are_refused() {
    assert_eq!(u8::from_text("256"), None);
    assert_eq!(u8::from_text("1000"), None);
    assert_eq!(u16::from_text("65536"), None);
    assert_eq!(u16::from_text("99999999999999999999999999"), None);
    assert_eq!(u32::from_text("4294967296"), None);
    assert_eq!(u64::from_text("18446744073709551616"), None);
    assert_eq!(u64::from_text("18446744073709551620"), None);
    assert_eq!(u64::from_text("99999999999999999999"), None);
    assert_eq!(u64::from_text("340282366920938463463374607431768211456"), None);
}

#[test]
fn parse_unsigned_respects_the_bound() {
    assert_eq!(parse_unsigned("10", 10), Some(10));
    assert_eq!(parse_unsigned("11", 10), None);
    assert_eq!(parse_unsigned("0", 0), Some(0));
    assert_eq!(parse_unsigned("1", 0), None);
    assert_eq!(parse_unsigned("+3", 5), Some(3));
    assert_eq!(parse_unsigned("", 5), None);
}

#[test]
fn unsigned_numbers_are_read_as_the_standard_library_reads_them() {
    let samples = [
        "", "+", "-", "0", "1", "9", "10", "+0", "+10", "-10", "00", "0010", "255", "256", "+255",
        "+256", "65535", "65536", "+65535", "4294967295", "4294967296", "18446744073709551615",
        "18446744073709551616", "1a", "a1", " 1", "1 ", "1_0", "１", "+１", "1+1", "++1", "0x1",
        "٠", "1\u{0}", "\u{7f}", "99999999999999999999999999999999999999999",
    ];
    for text in samples {
        assert_eq!(u8::from_text(text), text.parse::<u8>().ok(), "{:?}", text);
        assert_eq!(u16::from_text(text), text.parse::<u16>().ok(), "{:?}", text);
        assert_eq!(u32::from_text(text), text.parse::<u32>().ok(), "{:?}", text);
        assert_eq!(u64::from_text(text), text.parse::<u64>().ok(), "{:?}", text);
    }
    for n in 0u32..2000 {
        let text = n.to_string();
        assert_eq!(u8::from_text(&text), text.parse::<u8>().ok());
        assert_eq!(u16::from_text(&text), Some(n as u16));
    }
}

#[test]
fn wide_and_address_sized_unsigned_numbers_are_read() {
    assert_eq!(
        u128::from_text("340282366920938463463374607431768211455"),
        Some(u128::MAX)
    );
    assert_eq!(u128::from_text("340282366920938463463374607431768211456"), None);
    assert_eq!(u128::from_text("340282366920938463463374607431768211460"), None);
    assert_eq!(u128::from_text("3402823669209384634633746074317682114550"), None);
    assert_eq!(u128::from_text("+18446744073709551616"), Some(18446744073709551616));
    assert_eq!(u128::from_text("-1"), None);
    assert_eq!(usize::from_text("4096"), Some(4096));
    assert_eq!(usize::from_text(&usize::MAX.to_string()), Some(usize::MAX));
    assert_eq!(usize::from_text("340282366920938463463374607431768211455"), None);
    assert_eq!(usize::from_text("-1"), None);
    assert_eq!(usize::from_text(""), None);
}

#[test]
fn signed_numbers_are_read() {
    assert_eq!(i32::from_text("-5"), Some(-5));
    assert_eq!(i32::from_text("5"), Some(5));
    assert_eq!(i32::from_text("+5"), Some(5));
    assert_eq!(i32::from_text("-0"), Some(0));
    assert_eq!(i32::from_text("-007"), Some(-7));
    assert_eq!(i8::from_text("-128"), Some(i8::MIN));
    assert_eq!(i8::from_text("127"), Some(i8::MAX));
    assert_eq!(i16::from_text("-32768"), Some(i16::MIN));
    assert_eq!(i16::from_text("32767"), Some(i16::MAX));
    assert_eq!(i32::from_text("-2147483648"), Some(i32::MIN));
    assert_eq!(i32::from_text("2147483647"), Some(i32::MAX));
    assert_eq!(i64::from_text("-9223372036854775808"), Some(i64::MIN));
    assert_eq!(i64::from_text("9223372036854775807"), Some(i64::MAX));
    assert_eq!(
        i128::from_text("-170141183460469231731687303715884105728"),
        Some(i128::MIN)
    );
    assert_eq!(
        i128::from_text("170141183460469231731687303715884105727"),
        Some(i128::MAX)
    );
    assert_eq!(isize::from_text("-42"), Some(-42));
    assert_eq!(isize::from_text(&isize::MIN.to_string()), Some(isize::MIN));
    assert_eq!(isize::from_text(&isize::MAX.to_string()), Some(isize::MAX));
}

#[test]
fn signed_numbers_that_do_not_fit_are_refused() {
    assert_eq!(i8::from_text("-129"), None);
    assert_eq!(i8::from_text("128"), None);
    assert_eq!(i16::from_text("-32769"), None);
    assert_eq!(i16::from_text("32768"), None);
    assert_eq!(i32::from_text("-2147483649"), None);
    assert_eq!(i32::from_text("2147483648"), None);
    assert_eq!(i64::from_text("-9223372036854775809"), None);
    assert_eq!(i64::from_text("9223372036854775808"), None);
    assert_eq!(i128::from_text("-170141183460469231731687303715884105729"), None);
    assert_eq!(i128::from_text("170141183460469231731687303715884105728"), None);
    assert_eq!(i128::from_text("-340282366920938463463374607431768211456"), None);
    assert_eq!(i128::from_text("999999999999999999999999999999999999999999"), None);
    assert_eq!(isize::from_text("170141183460469231731687303715884105727"), None);
}

#[test]
fn text_that_is_no_signed_number_is_refused() {
    for text in [
        "", "+", "-", "--1", "++1", "+-1", "-+1", "1-", "- 1", " -1", "-1 ", "-1_0", "-0x1", "−1",
        "-１", "1.0", "-a", "a", "-\u{0}",
    ] {
        assert_eq!(i8::from_text(text), None, "{:?}", text);
        assert_eq!(i32::from_text(text), None, "{:?}", text);
        assert_eq!(i128::from_text(text), None, "{:?}", text);
    }
}

#[test]
fn parse_signed_respects_the_bounds() {
    assert_eq!(parse_signed("-3", -3, 3), Some(-3));
    assert_eq!(parse_signed("3", -3, 3), Some(3));
    assert_eq!(parse_signed("-4", -3, 3), None);
    assert_eq!(parse_signed("4", -3, 3), None);
    assert_eq!(parse_signed("5", 5, 9), Some(5));
    assert_eq!(parse_signed("4", 5, 9), None);
    assert_eq!(parse_signed("-4", 5, 9), None);
    assert_eq!(parse_signed("-7", -9, -5), Some(-7));
    assert_eq!(parse_signed("7", -9, -5), None);
    assert_eq!(parse_signed("0", 1, 0), None);
    assert_eq!(parse_signed("", -3, 3), None);
}

#[test]
fn numbers_are_read_as_the_standard_library_reads_them() {
    let samples = [
        "", "+", "-", "0", "-0", "+0", "1", "-1", "+1", "127", "128", "-128", "-129", "255",
        "256", "32767", "32768", "-32768", "-32769", "65535", "65536", "2147483647",
        "2147483648", "-2147483648", "-2147483649", "4294967295", "4294967296",
        "9223372036854775807", "9223372036854775808", "-9223372036854775808",
        "-9223372036854775809", "18446744073709551615", "18446744073709551616",
        "170141183460469231731687303715884105727", "170141183460469231731687303715884105728",
        "-170141183460469231731687303715884105728", "-170141183460469231731687303715884105729",
        "340282366920938463463374607431768211455", "340282366920938463463374607431768211456",
        "-00000000000000000000000000000000000000000000012", "0000000000000000000000000000000000012",
        "--1", "+-1", "-+1", "1-", " 1", "-1 ", "1_0", "−1", "１", "-１", "0x1", "1e2", "a",
    ];
    for text in samples {
        assert_eq!(i8::from_text(text), text.parse::<i8>().ok(), "{:?}", text);
        assert_eq!(i16::from_text(text), text.parse::<i16>().ok(), "{:?}", text);
        assert_eq!(i32::from_text(text), text.parse::<i32>().ok(), "{:?}", text);
        assert_eq!(i64::from_text(text), text.parse::<i64>().ok(), "{:?}", text);
        assert_eq!(i128::from_text(text), text.parse::<i128>().ok(), "{:?}", text);
        assert_eq!(isize::from_text(text), text.parse::<isize>().ok(), "{:?}", text);
        assert_eq!(u128::from_text(text), text.parse::<u128>().ok(), "{:?}", text);
        assert_eq!(usize::from_text(text), text.parse::<usize>().ok(), "{:?}", text);
        assert_eq!(u64::from_text(text), text.parse::<u64>().ok(), "{:?}", text);
    }
    for n in -300i32..300 {
        let text = n.to_string();
        assert_eq!(i8::from_text(&text), text.parse::<i8>().ok());
        assert_eq!(i16::from_text(&text), Some(n as i16));
        assert_eq!(u8::from_text(&text), text.parse::<u8>().ok());
    }
}

#[test]
fn a_character_is_a_text_of_one_character() {
    assert_eq!(char::from_text("a"), Some('a'));
    assert_eq!(char::from_text(" "), Some(' '));
    assert_eq!(char::from_text("ß"), Some('ß'));
    assert_eq!(char::from_text("語"), Some('語'));
    assert_eq!(char::from_text("\u{1F600}"), Some('\u{1F600}'));
    for text in ["", "ab", "a ", "ßß", "e\u{301}", "\u{1F600}\u{1F600}"] {
        assert_eq!(char::from_text(text), None, "{:?}", text);
    }
    for text in ["", "a", "ab", "ß", "語", "語語", "\n", "e\u{301}"] {
        assert_eq!(char::from_text(text), text.parse::<char>().ok(), "{:?}", text);
    }
}

#[test]
fn values_of_every_kind_are_loaded() {
    let env = env_of(&[("OFFSET", "-12"), ("SIZE", "4096"), ("SEP", ";"), ("BIG", "-9223372036854775809")]);
    assert_eq!(load_var::<i32>("OFFSET", &env), Ok(-12));
    assert_eq!(load_var::<i8>("OFFSET", &env), Ok(-12));
    assert_eq!(load_var::<usize>("SIZE", &env), Ok(4096));
    assert_eq!(load_var::<u128>("SIZE", &env), Ok(4096));
    assert_eq!(load_var::<char>("SEP", &env), Ok(';'));
    assert_eq!(load_var::<i128>("BIG", &env), Ok(-9223372036854775809));
    assert_eq!(load_var::<i64>("BIG", &env), Err(Error::ParseError { name: "BIG" }));
    assert_eq!(load_var::<u32>("OFFSET", &env), Err(Error::ParseError { name: "OFFSET" }));
    assert_eq!(load_var::<char>("SIZE", &env), Err(Error::ParseError { name: "SIZE" }));
    assert_eq!(load_var::<isize>("NONE", &env), Err(Error::EnvVarMissing { name: "NONE" }));
    let r: Result<(i32, (usize, (char, ()))), Error> =
        Record::load(&("OFFSET", ("SIZE", ("SEP", ()))), &env);
    assert_eq!(r, Ok((-12, (4096, (';', ())))));
}

#[test]
fn booleans_are_the_two_words() {
    assert_eq!(bool::from_text("true"), Some(true));
    assert_eq!(bool::from_text("false"), Some(false));
    for text in ["", "True", "FALSE", "1", "0", "yes", " true", "true ", "truee", "fals"] {
        assert_eq!(bool::from_text(text), None, "{:?}", text);
        assert_eq!(bool::from_text(text), text.parse::<bool>().ok());
    }
}

#[test]
fn every_text_is_a_string() {
    assert_eq!(String::from_text("localhost"), Some("localhost".to_string()));
    assert_eq!(String::from_text(""), Some(String::new()));
    assert_eq!(String::from_text(" a b\n"), Some(" a b\n".to_string()));
    assert_eq!(String::from_text("größe"), Some("größe".to_string()));
}

#[test]
fn load_var_reads_a_set_variable() {
    let env = env_of(&[("PORT", "8080"), ("HOST", "localhost"), ("DEBUG", "true")]);
    assert_eq!(load_var::<u16>("PORT", &env), Ok(8080));
    assert_eq!(load_var::<u64>("PORT", &env), Ok(8080));
    assert_eq!(load_var::<String>("PORT", &env), Ok("8080".to_string()));
    assert_eq!(load_var::<String>("HOST", &env), Ok("localhost".to_string()));
    assert_eq!(load_var::<bool>("DEBUG", &env), Ok(true));
}

#[test]
fn load_var_reports_an_unset_variable_as_missing() {
    let env = env_of(&[("HOST", "localhost")]);
    assert_eq!(
        load_var::<u16>("PORT", &env),
        Err(Error::EnvVarMissing { name: "PORT" })
    );
    assert_eq!(
        load_var::<String>("PORT", &env),
        Err(Error::EnvVarMissing { name: "PORT" })
    );
    assert_eq!(
        load_var::<String>("host", &env),
        Err(Error::EnvVarMissing { name: "host" })
    );
}

#[test]
fn load_var_reports_text_of_another_type_as_unparsable() {
    let env = env_of(&[("PORT", "notanumber"), ("BIG", "70000"), ("EMPTY", "")]);
    assert_eq!(
        load_var::<u16>("PORT", &env),
        Err(Error::ParseError { name: "PORT" })
    );
    assert_eq!(load_var::<u16>("BIG", &env), Err(Error::ParseError { name: "BIG" }));
    assert_eq!(load_var::<u32>("BIG", &env), Ok(70000));
    assert_eq!(
        load_var::<u16>("EMPTY", &env),
        Err(Error::ParseError { name: "EMPTY" })
    );
    assert_eq!(load_var::<String>("EMPTY", &env), Ok(String::new()));
    assert_eq!(
        load_var::<bool>("PORT", &env),
        Err(Error::ParseError { name: "PORT" })
    );
}

#[test]
fn port_and_host_are_loaded() {
    let env = env_of(&[("PORT", "8080"), ("HOST", "localhost")]);
    let config = Config::init(&env).unwrap();
    assert_eq!(config.port, 8080);
    assert_eq!(config.host, "localhost");
    let fields: Result<ConfigFields, Error> = Record::load(&("PORT", ("HOST", ())), &env);
    assert_eq!(fields, Ok((8080, ("localhost".to_string(), ()))));
}

#[test]
fn unset_port_is_reported_as_missing() {
    let env = env_of(&[("HOST", "localhost")]);
    assert_eq!(
        Config::init(&env).err(),
        Some(Error::EnvVarMissing { name: "PORT" })
    );
    let fields: Result<ConfigFields, Error> = Record::load(&("PORT", ("HOST", ())), &env);
    assert_eq!(fields, Err(Error::EnvVarMissing { name: "PORT" }));
}

#[test]
fn port_that_is_no_number_is_reported_as_unparsable() {
    let env = env_of(&[("PORT", "notanumber"), ("HOST", "localhost")]);
    assert_eq!(
        Config::init(&env).err(),
        Some(Error::ParseError { name: "PORT" })
    );
    let fields: Result<ConfigFields, Error> = Record::load(&("PORT", ("HOST", ())), &env);
    assert_eq!(fields, Err(Error::ParseError { name: "PORT" }));
}

#[test]
fn the_first_missing_variable_is_reported() {
    let vars = ("A", ("B", ("C", ())));
    let none = env_of(&[]);
    let r: Result<(u8, (u8, (u8, ()))), Error> = Record::load(&vars, &none);
    assert_eq!(r, Err(Error::EnvVarMissing { name: "A" }));
    let first = env_of(&[("A", "1")]);
    let r: Result<(u8, (u8, (u8, ()))), Error> = Record::load(&vars, &first);
    assert_eq!(r, Err(Error::EnvVarMissing { name: "B" }));
    let last_missing = env_of(&[("A", "1"), ("B", "2")]);
    let r: Result<(u8, (u8, (u8, ()))), Error> = Record::load(&vars, &last_missing);
    assert_eq!(r, Err(Error::EnvVarMissing { name: "C" }));
    let middle_missing = env_of(&[("A", "1"), ("C", "x")]);
    let r: Result<(u8, (u8, (u8, ()))), Error> = Record::load(&vars, &middle_missing);
    assert_eq!(r, Err(Error::EnvVarMissing { name: "B" }));
}

#[test]
fn the_first_unparsable_variable_is_reported() {
    let vars = ("A", ("B", ("C", ())));
    let env = env_of(&[("A", "1"), ("B", "x"), ("C", "y")]);
    let r: Result<(u8, (u8, (u8, ()))), Error> = Record::load(&vars, &env);
    assert_eq!(r, Err(Error::ParseError { name: "B" }));
    let env = env_of(&[("A", "300"), ("B", "x"), ("C", "3")]);
    let r: Result<(u8, (u8, (u8, ()))), Error> = Record::load(&vars, &env);
    assert_eq!(r, Err(Error::ParseError { name: "A" }));
    let env = env_of(&[("A", "1"), ("B", "2"), ("C", "")]);
    let r: Result<(u8, (u8, (u8, ()))), Error> = Record::load(&vars, &env);
    assert_eq!(r, Err(Error::ParseError { name: "C" }));
}

#[test]
fn an_earlier_failure_hides_a_later_one_of_either_kind() {
    let env = env_of(&[("PORT", "notanumber")]);
    let r: Result<ConfigFields, Error> = Record::load(&("PORT", ("HOST", ())), &env);
    assert_eq!(r, Err(Error::ParseError { name: "PORT" }));
    assert_eq!(
        Config::init(&env).err(),
        Some(Error::ParseError { name: "PORT" })
    );
    let env = env_of(&[("B", "x")]);
    let r: Result<(u8, (u8, ())), Error> = Record::load(&("A", ("B", ())), &env);
    assert_eq!(r, Err(Error::EnvVarMissing { name: "A" }));
}

#[test]
fn fields_hold_the_values_in_declaration_order() {
    let env = env_of(&[("C", "3"), ("A", "1"), ("B", "two"), ("D", "false")]);
    let r: Result<(u8, (String, (u64, (bool, ())))), Error> =
        Record::load(&("A", ("B", ("C", ("D", ())))), &env);
    assert_eq!(r, Ok((1, ("two".to_string(), (3, (false, ()))))));
    let r: Result<(u64, (u8, ())), Error> = Record::load(&("C", ("A", ())), &env);
    assert_eq!(r, Ok((3, (1, ()))));
}

#[test]
fn one_variable_may_fill_several_fields() {
    let env = env_of(&[("N", "7")]);
    let r: Result<(u8, (String, (u32, ()))), Error> = Record::load(&("N", ("N", ("N", ()))), &env);
    assert_eq!(r, Ok((7, ("7".to_string(), (7, ())))));
}

#[test]
fn a_structure_without_fields_is_always_constructed() {
    let env = env_of(&[]);
    let r: Result<(), Error> = Record::load(&(), &env);
    assert_eq!(r, Ok(()));
    let env = env_of(&[("A", "1")]);
    let r: Result<(), Error> = Record::load(&(), &env);
    assert_eq!(r, Ok(()));
}
