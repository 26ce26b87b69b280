use descord::args::{coerce_args, parse_args, parse_bool, parse_int, resolve_argument, Argument, DescordError, ParamType, Value};

fn names(v: &[&str]) -> Vec<String> {
    v.iter().map(|s| s.to_string()).collect()
}

#[test]
fn quoted_argument_stays_together() {
    assert_eq!(parse_args("!greet \"New York\" 5"), names(&["!greet", "New York", "5"]));
    assert_eq!(parse_args("  a\tb  'c d'  "), names(&["a", "b", "c d"]));
    assert_eq!(parse_args("say \"it's fine\""), names(&["say", "it's fine"]));
    assert_eq!(parse_args(""), Vec::<String>::new());
}

#[test]
fn unterminated_quote_splits_on_white_space() {
    assert_eq!(parse_args("x \"a b"), names(&["x", "\"a", "b"]));
}

#[test]
fn greet_arguments() {
    let tokens = parse_args("!greet \"New York\" 5");
    let r = coerce_args(&"greet".to_string(), &tokens, 1, &vec![ParamType::String, ParamType::Int], &vec![false, false]).unwrap();
    assert_eq!(r.len(), 2);
    assert!(matches!(&r[0], Argument::Ready(Value::String(s)) if s == "New York"));
    assert!(matches!(&r[1], Argument::Ready(Value::Int(5))));
}

#[test]
fn optional_trailing_parameter_absent() {
    let tokens = parse_args("!greet \"New York\"");
    let r = coerce_args(&"greet".to_string(), &tokens, 1, &vec![ParamType::String, ParamType::Int], &vec![false, true]).unwrap();
    assert!(matches!(&r[1], Argument::Ready(Value::IntOption(None))));
    let r = coerce_args(&"greet".to_string(), &tokens, 1, &vec![ParamType::String, ParamType::Bool, ParamType::Channel], &vec![false, true, true]).unwrap();
    assert!(matches!(&r[1], Argument::Ready(Value::BoolOption(None))));
    assert!(matches!(&r[2], Argument::Ready(Value::ChannelOption(None))));
}

#[test]
fn missing_required_argument_is_an_error() {
    let tokens = parse_args("!greet");
    let r = coerce_args(&"greet".to_string(), &tokens, 1, &vec![ParamType::String], &vec![false]);
    match r {
        Err(e) => {
            assert!(matches!(&e, DescordError::MissingRequiredArgument(n) if n == "greet"));
            assert_eq!(e.message(), "Missing required argument for command: greet");
        }
        Ok(_) => panic!("expected an error"),
    }
}

#[test]
fn invalid_int_is_an_error() {
    let tokens = parse_args("!add x");
    let r = coerce_args(&"add".to_string(), &tokens, 1, &vec![ParamType::Int], &vec![false]);
    assert!(matches!(r, Err(DescordError::InvalidArgument(n)) if n == "add"));
}

#[test]
fn mentions_and_rest() {
    let tokens = parse_args("!x <#123> <@456> a b c");
    let sig = vec![ParamType::Channel, ParamType::User, ParamType::Args];
    let r = coerce_args(&"x".to_string(), &tokens, 1, &sig, &vec![false, true, false]).unwrap();
    assert!(matches!(&r[0], Argument::ChannelRef { id, optional: false } if id == "123"));
    assert!(matches!(&r[1], Argument::UserRef { id, optional: true } if id == "456"));
    assert!(matches!(&r[2], Argument::Ready(Value::Args(v)) if *v == names(&["a", "b", "c"])));
}

#[test]
fn numbers_and_flags() {
    assert_eq!(parse_int("42"), Some(42));
    assert_eq!(parse_int("-7"), Some(-7));
    assert_eq!(parse_int("+7"), Some(7));
    assert_eq!(parse_int("-9223372036854775808"), Some(i64::MIN));
    assert_eq!(parse_int("9223372036854775808"), None);
    assert_eq!(parse_int("-"), None);
    assert_eq!(parse_int("1x"), None);
    assert_eq!(parse_bool("true"), Some(true));
    assert_eq!(parse_bool("false"), Some(false));
    assert_eq!(parse_bool("True"), None);
}

#[test]
fn failed_lookups() {
    let a = Argument::ChannelRef { id: "1".to_string(), optional: true };
    assert!(matches!(resolve_argument(a, None, None), Ok(Value::ChannelOption(None))));
    let a = Argument::UserRef { id: "2".to_string(), optional: false };
    assert!(matches!(resolve_argument(a, None, None), Err(DescordError::NotFound(n)) if n == "2"));
    let a = Argument::Ready(Value::Bool(true));
    assert!(matches!(resolve_argument(a, None, None), Ok(Value::Bool(true))));
}
