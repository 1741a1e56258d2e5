use spinoso::args::{reorder_short_form, Args, ArgsError, Field, Value};

fn ints(values: &[i64]) -> Vec<Value> {
    values.iter().map(|&n| Value::Integer(n)).collect()
}

#[test]
fn requires_at_least_one_param() {
    let mut args = vec![];

    let result: Result<Args, ArgsError> = Args::try_convert_mut(&mut args);
    let error = result.unwrap_err();

    assert_eq!(error.name(), "ArgumentError");
    assert_eq!(error.message(), "wrong number of arguments (given 0, expected 1..8)");
}

#[test]
fn eight_params() {
    let mut ary_args = ints(&[2022, 2, 3, 4, 5, 6, 7]);
    ary_args.push(Value::Nil);
    let result: Args = Args::try_convert_mut(&mut ary_args).unwrap();
    assert_eq!(2022, result.year);
    assert_eq!(2, result.month);
    assert_eq!(3, result.day);
    assert_eq!(4, result.hour);
    assert_eq!(5, result.minute);
    assert_eq!(6, result.second);
    assert_eq!(7000, result.nanoseconds);
}

#[test]
fn seven_params() {
    let mut ary_args = ints(&[2022, 2, 3, 4, 5, 6, 7]);
    let result: Args = Args::try_convert_mut(&mut ary_args).unwrap();
    assert_eq!(2022, result.year);
    assert_eq!(2, result.month);
    assert_eq!(3, result.day);
    assert_eq!(4, result.hour);
    assert_eq!(5, result.minute);
    assert_eq!(6, result.second);
    assert_eq!(7000, result.nanoseconds);
}

#[test]
fn six_params() {
    let mut ary_args = ints(&[2022, 2, 3, 4, 5, 6]);
    let result: Args = Args::try_convert_mut(&mut ary_args).unwrap();
    assert_eq!(2022, result.year);
    assert_eq!(2, result.month);
    assert_eq!(3, result.day);
    assert_eq!(4, result.hour);
    assert_eq!(5, result.minute);
    assert_eq!(6, result.second);
    assert_eq!(0, result.nanoseconds);
}

#[test]
fn five_params() {
    let mut ary_args = ints(&[2022, 2, 3, 4, 5]);
    let result: Args = Args::try_convert_mut(&mut ary_args).unwrap();
    assert_eq!(2022, result.year);
    assert_eq!(2, result.month);
    assert_eq!(3, result.day);
    assert_eq!(4, result.hour);
    assert_eq!(5, result.minute);
    assert_eq!(0, result.second);
    assert_eq!(0, result.nanoseconds);
}

#[test]
fn four_params() {
    let mut ary_args = ints(&[2022, 2, 3, 4]);
    let result: Args = Args::try_convert_mut(&mut ary_args).unwrap();
    assert_eq!(2022, result.year);
    assert_eq!(2, result.month);
    assert_eq!(3, result.day);
    assert_eq!(4, result.hour);
    assert_eq!(0, result.minute);
    assert_eq!(0, result.second);
    assert_eq!(0, result.nanoseconds);
}

#[test]
fn three_params() {
    let mut ary_args = ints(&[2022, 2, 3]);
    let result: Args = Args::try_convert_mut(&mut ary_args).unwrap();
    assert_eq!(2022, result.year);
    assert_eq!(2, result.month);
    assert_eq!(3, result.day);
    assert_eq!(0, result.hour);
    assert_eq!(0, result.minute);
    assert_eq!(0, result.second);
    assert_eq!(0, result.nanoseconds);
}

#[test]
fn two_params() {
    let mut ary_args = ints(&[2022, 2]);
    let result: Args = Args::try_convert_mut(&mut ary_args).unwrap();
    assert_eq!(2022, result.year);
    assert_eq!(2, result.month);
    assert_eq!(1, result.day);
    assert_eq!(0, result.hour);
    assert_eq!(0, result.minute);
    assert_eq!(0, result.second);
    assert_eq!(0, result.nanoseconds);
}

#[test]
fn one_param() {
    let mut ary_args = ints(&[2022]);
    let result: Args = Args::try_convert_mut(&mut ary_args).unwrap();
    assert_eq!(2022, result.year);
    assert_eq!(1, result.month);
    assert_eq!(1, result.day);
    assert_eq!(0, result.hour);
    assert_eq!(0, result.minute);
    assert_eq!(0, result.second);
    assert_eq!(0, result.nanoseconds);
}

#[test]
fn subsec_is_valid_micros_not_nanos() {
    let mut ary_args = ints(&[2022, 1, 1, 0, 0, 0, 1]);
    let result: Args = Args::try_convert_mut(&mut ary_args).unwrap();
    let nanos = result.nanoseconds;
    assert_eq!(1000, nanos);

    let mut ary_args = ints(&[2022, 1, 1, 0, 0, 0, 999_999]);
    let result: Args = Args::try_convert_mut(&mut ary_args).unwrap();
    let nanos = result.nanoseconds;
    assert_eq!(999_999_000, nanos);
}

#[test]
fn subsec_does_not_wrap_around() {
    let mut ary_args = ints(&[2022, 1, 1, 0, 0, 0, -1]);
    let result: Result<Args, ArgsError> = Args::try_convert_mut(&mut ary_args);
    let error = result.unwrap_err();
    assert_eq!(error.message(), "subsecx out of range");

    let mut ary_args = ints(&[2022, 1, 1, 0, 0, 0, 1_000_000]);
    let result: Result<Args, ArgsError> = Args::try_convert_mut(&mut ary_args);
    let error = result.unwrap_err();
    assert_eq!(error.message(), "subsecx out of range");
}

#[test]
fn fractional_seconds_return_nanos() {}

#[test]
fn nine_args_not_supported() {
    let mut ary_args = ints(&[2022, 2, 3, 4, 5, 6, 7]);
    ary_args.push(Value::Nil);
    ary_args.push(Value::Integer(0));
    let result: Result<Args, ArgsError> = Args::try_convert_mut(&mut ary_args);
    let error = result.unwrap_err();

    assert_eq!(error.message(), "wrong number of arguments (given 9, expected 1..8)");
    assert_eq!(error.name(), "ArgumentError");
}

#[test]
fn ten_args_changes_unit_order() {
    let mut ary_args = ints(&[1, 2, 3, 4, 5, 2022]);
    ary_args.extend([Value::Nil, Value::Nil, Value::Nil, Value::Nil]);
    let result: Args = Args::try_convert_mut(&mut ary_args).unwrap();

    assert_eq!(1, result.second);
    assert_eq!(2, result.minute);
    assert_eq!(3, result.hour);
    assert_eq!(4, result.day);
    assert_eq!(5, result.month);
    assert_eq!(2022, result.year);
}

#[test]
fn eleven_args_is_too_many() {
    let mut ary_args = ints(&[2022, 2, 3, 4, 5, 6, 7]);
    ary_args.push(Value::Nil);
    ary_args.extend(ints(&[0, 0, 0]));
    let result: Result<Args, ArgsError> = Args::try_convert_mut(&mut ary_args);
    let error = result.unwrap_err();

    assert_eq!(error.message(), "wrong number of arguments (given 11, expected 1..8)");
    assert_eq!(error.name(), "ArgumentError");
}

#[test]
fn twelve_and_more_args_are_refused_with_their_count() {
    let mut args = ints(&[2022; 12]);
    let error = Args::try_convert_mut(&mut args).unwrap_err();
    assert_eq!(error, ArgsError::ArgumentCount { given: 12 });
    assert_eq!(error.message(), "wrong number of arguments (given 12, expected 1..8)");

    let mut args = vec![Value::Object; 1234];
    let error = Args::try_convert_mut(&mut args).unwrap_err();
    assert_eq!(error.message(), "wrong number of arguments (given 1234, expected 1..8)");
}

#[test]
fn refused_count_leaves_the_list_as_it_was() {
    let mut args = ints(&[1, 2, 3, 4, 5, 6, 7, 8, 9]);
    let before = args.clone();
    assert!(Args::try_convert_mut(&mut args).is_err());
    assert_eq!(args, before);
}

#[test]
fn default_components() {
    let args = Args::default();
    assert_eq!(0, args.year);
    assert_eq!(1, args.month);
    assert_eq!(1, args.day);
    assert_eq!(0, args.hour);
    assert_eq!(0, args.minute);
    assert_eq!(0, args.second);
    assert_eq!(0, args.nanoseconds);
}

#[test]
fn unset_trailing_fields_take_defaults_for_every_length() {
    let full = [1999, 12, 31, 23, 58, 57, 123_456, 0];
    for given in 1..=8 {
        let mut args = ints(&full[..given]);
        let result = Args::try_convert_mut(&mut args).unwrap();
        assert_eq!(1999, result.year);
        assert_eq!(if given > 1 { 12 } else { 1 }, result.month);
        assert_eq!(if given > 2 { 31 } else { 1 }, result.day);
        assert_eq!(if given > 3 { 23 } else { 0 }, result.hour);
        assert_eq!(if given > 4 { 58 } else { 0 }, result.minute);
        assert_eq!(if given > 5 { 57 } else { 0 }, result.second);
        assert_eq!(if given > 6 { 123_456_000 } else { 0 }, result.nanoseconds);
    }
}

#[test]
fn ten_args_are_reordered_in_place() {
    let mut args = ints(&[1, 2, 3, 4, 5, 2022, 60, 61, 62, 63]);
    Args::try_convert_mut(&mut args).unwrap();
    assert_eq!(args, ints(&[2022, 5, 4, 3, 2, 1, 60, 61, 62, 63]));
}

#[test]
fn ten_args_ignore_what_follows_the_year() {
    let mut args = ints(&[59, 59, 59, 31, 12, -5]);
    args.extend([Value::Object, Value::Integer(-1), Value::Nil, Value::Integer(i64::MAX)]);
    let result = Args::try_convert_mut(&mut args).unwrap();
    assert_eq!(-5, result.year);
    assert_eq!(12, result.month);
    assert_eq!(31, result.day);
    assert_eq!(59, result.hour);
    assert_eq!(59, result.minute);
    assert_eq!(59, result.second);
    assert_eq!(0, result.nanoseconds);
}

#[test]
fn ten_args_are_checked_in_canonical_order() {
    // seconds are out of range, and so is the month: the month comes first.
    let mut args = ints(&[60, 2, 3, 4, 13, 2022, 0, 0, 0, 0]);
    let error = Args::try_convert_mut(&mut args).unwrap_err();
    assert_eq!(error, ArgsError::FieldRange(Field::Month));
}

#[test]
fn eighth_argument_is_never_looked_at() {
    for last in [Value::Nil, Value::Object, Value::Integer(i64::MIN)] {
        let mut args = ints(&[2022, 1, 1, 0, 0, 0, 0]);
        args.push(last);
        let result = Args::try_convert_mut(&mut args).unwrap();
        assert_eq!(2022, result.year);
        assert_eq!(0, result.nanoseconds);
    }
}

#[test]
fn each_field_has_its_range_and_message() {
    let cases: [(usize, i64, i64, &str, Field); 7] = [
        (0, i32::MIN as i64, i32::MAX as i64, "year out of range", Field::Year),
        (1, 1, 12, "mon out of range", Field::Month),
        (2, 1, 31, "mday out of range", Field::Day),
        (3, 0, 59, "hour out of range", Field::Hour),
        (4, 0, 59, "min out of range", Field::Minute),
        (5, 0, 59, "sec out of range", Field::Second),
        (6, 0, 999_999, "subsecx out of range", Field::Subsec),
    ];
    for (position, lowest, highest, message, field) in cases {
        for accepted in [lowest, highest] {
            let mut args = ints(&[2022, 1, 1, 0, 0, 0, 0]);
            args[position] = Value::Integer(accepted);
            assert!(Args::try_convert_mut(&mut args).is_ok());
        }
        for refused in [lowest - 1, highest + 1] {
            let mut args = ints(&[2022, 1, 1, 0, 0, 0, 0]);
            args[position] = Value::Integer(refused);
            let error = Args::try_convert_mut(&mut args).unwrap_err();
            assert_eq!(error, ArgsError::FieldRange(field));
            assert_eq!(error.message(), message);
            assert_eq!(error.name(), "ArgumentError");
        }
    }
}

#[test]
fn hour_up_to_fifty_nine_is_taken() {
    let mut args = ints(&[2022, 1, 1, 59]);
    assert_eq!(59, Args::try_convert_mut(&mut args).unwrap().hour);
}

#[test]
fn leftmost_refused_argument_decides() {
    let mut args = ints(&[2022, 13, 32, 60]);
    let error = Args::try_convert_mut(&mut args).unwrap_err();
    assert_eq!(error, ArgsError::FieldRange(Field::Month));

    let mut args = vec![Value::Integer(2022), Value::Nil, Value::Integer(32)];
    let error = Args::try_convert_mut(&mut args).unwrap_err();
    assert_eq!(error, ArgsError::TypeConversion(Field::Month));

    let mut args = vec![Value::Integer(2022), Value::Integer(0), Value::Object];
    let error = Args::try_convert_mut(&mut args).unwrap_err();
    assert_eq!(error, ArgsError::FieldRange(Field::Month));
}

#[test]
fn value_without_integer_conversion_is_a_type_error() {
    for bad in [Value::Nil, Value::Object] {
        let mut args = vec![bad];
        let error = Args::try_convert_mut(&mut args).unwrap_err();
        assert_eq!(error, ArgsError::TypeConversion(Field::Year));
        assert_eq!(error.name(), "TypeError");
        assert_eq!(error.message(), "no implicit conversion into Integer");
    }
}

#[test]
fn value_to_int() {
    assert_eq!(Some(-7), Value::Integer(-7).to_int());
    assert_eq!(None, Value::Nil.to_int());
    assert_eq!(None, Value::Object.to_int());
}

#[test]
fn field_table() {
    assert_eq!(Field::Year, Field::from_position(0));
    assert_eq!(Field::Subsec, Field::from_position(6));
    assert_eq!(Field::Subsec, Field::from_position(7));
    assert_eq!((1, 12), Field::Month.bounds());
    assert_eq!((0, 999_999), Field::Subsec.bounds());
    assert_eq!("mday", Field::Day.name());
}

#[test]
fn reorder_short_form_exchanges_the_first_six() {
    let mut args = ints(&[0, 1, 2, 3, 4, 5, 6, 7, 8, 9]);
    reorder_short_form(&mut args);
    assert_eq!(args, ints(&[5, 4, 3, 2, 1, 0, 6, 7, 8, 9]));
    let mut args = ints(&[0, 1, 2, 3, 4, 5]);
    reorder_short_form(&mut args);
    assert_eq!(args, ints(&[0, 1, 2, 3, 4, 5]));
}
