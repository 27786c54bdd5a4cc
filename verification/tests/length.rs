use lusion::validator::{
    validate_field, HasLength, Length, ValidationError, ValidationErrors, Validator,
};
use std::borrow::Cow;
use std::collections::{HashMap, HashSet};

fn expect_error<T: HasLength>(
    min: Option<usize>,
    max: Option<usize>,
    value: &T,
    code: &str,
    params: &[usize],
) {
    let validator = Length(min, max);
    let error = validator.validate(value);
    match error {
        Some(err) => assert_eq!(err, ValidationError::with_params(code, params)),
        None => panic!("expected {} for bounds {:?}..{:?}", code, min, max),
    }
}

#[test]
fn test_length_validator_with_str() {
    let empty: &'static str = "";
    let long: &'static str = "123456";
    expect_error(Some(1), Some(4), &empty, "length", &vec![1, 4]);
    expect_error(Some(1), Some(4), &long, "length", &vec![1, 4]);
    expect_error(Some(1), None, &empty, "min_length", &vec![1]);
    expect_error(None, Some(4), &long, "max_length", &vec![4]);
}

#[test]
fn test_length_validator_with_string() {
    let empty = "".to_owned();
    let long = "123456".to_owned();
    expect_error(Some(1), Some(4), &empty, "length", &vec![1, 4]);
    expect_error(Some(1), Some(4), &long, "length", &vec![1, 4]);
    expect_error(Some(1), None, &empty, "min_length", &vec![1]);
    expect_error(None, Some(4), &long, "max_length", &vec![4]);
}

#[test]
fn test_length_validator_with_cow() {
    let empty = Cow::from("");
    let long = Cow::from("123456");
    expect_error(Some(1), Some(4), &empty, "length", &vec![1, 4]);
    expect_error(Some(1), Some(4), &long, "length", &vec![1, 4]);
    expect_error(Some(1), None, &empty, "min_length", &vec![1]);
    expect_error(None, Some(4), &long, "max_length", &vec![4]);
}

#[test]
fn test_length_validator_with_vec() {
    let empty = Vec::<usize>::new();
    let long = std::iter::repeat(1).take(10).collect::<Vec<usize>>();
    expect_error(Some(1), Some(4), &empty, "length", &vec![1, 4]);
    expect_error(Some(1), Some(4), &long, "length", &vec![1, 4]);
    expect_error(Some(1), None, &empty, "min_length", &vec![1]);
    expect_error(None, Some(4), &long, "max_length", &vec![4]);
}

#[test]
fn test_length_validator_with_hashset() {
    let empty = HashSet::<usize>::new();
    let long = vec![1, 2, 3, 4, 5, 6, 7, 8, 9, 0]
        .iter()
        .cloned()
        .collect::<HashSet<usize>>();
    expect_error(Some(1), Some(4), &empty, "length", &vec![1, 4]);
    expect_error(Some(1), Some(4), &long, "length", &vec![1, 4]);
    expect_error(Some(1), None, &empty, "min_length", &vec![1]);
    expect_error(None, Some(4), &long, "max_length", &vec![4]);
}

#[test]
fn test_length_validator_with_hashmap() {
    let empty = HashMap::<usize, usize>::new();
    let long = vec![1, 2, 3, 4, 5, 6, 7, 8, 9, 0]
        .into_iter()
        .map(|s| (s, s))
        .collect::<HashMap<usize, usize>>();
    expect_error(Some(1), Some(4), &empty, "length", &vec![1, 4]);
    expect_error(Some(1), Some(4), &long, "length", &vec![1, 4]);
    expect_error(Some(1), None, &empty, "min_length", &vec![1]);
    expect_error(None, Some(4), &long, "max_length", &vec![4]);
}

#[test]
fn test_validator_for_option() {
    struct JustErrorValidator;

    impl Validator<()> for JustErrorValidator {
        fn validate(&self, _: &()) -> Option<ValidationError> {
            Some(ValidationError::new("just_error"))
        }
    }

    let value = ();
    let error = JustErrorValidator.validate(&value);
    match error {
        Some(err) => assert_eq!(err, ValidationError::new("just_error")),
        None => panic!("the rule fails every value"),
    }

    let error = JustErrorValidator.validate(&Option::<()>::None);
    assert!(matches!(error, None));
}

#[test]
fn length_within_bounds_passes() {
    let word = "1234".to_owned();
    assert!(Length(Some(1), Some(4)).validate(&word).is_none());
    assert!(Length(Some(4), Some(4)).validate(&word).is_none());
    assert!(Length(Some(4), None).validate(&word).is_none());
    assert!(Length(None, Some(4)).validate(&word).is_none());
    assert!(Length(None, None).validate(&word).is_none());
    assert!(Length(None, None).validate(&String::new()).is_none());
}

#[test]
fn length_counts_bytes_of_text() {
    let text = "é".to_owned();
    assert_eq!(text.length(), 2);
    assert!(Length(Some(2), Some(2)).validate(&text).is_none());
    let error = Length(None, Some(1)).validate(&text);
    assert_eq!(error, Some(ValidationError::with_params("max_length", &[1])));
}

#[test]
fn length_with_inverted_bounds_fails_everything() {
    let error = Length(Some(5), Some(2)).check(3);
    assert_eq!(error, Some(ValidationError::with_params("length", &[5, 2])));
}

#[test]
fn optional_value_is_held_to_the_rule_when_present() {
    let rule = Length(Some(2), None);
    let present: Option<String> = Some("a".to_owned());
    let absent: Option<String> = None;
    assert_eq!(
        rule.validate(&present),
        Some(ValidationError::with_params("min_length", &[2]))
    );
    assert_eq!(rule.validate(&absent), None);
    assert_eq!(
        lusion::validator::validate_option(&rule, &present),
        Some(ValidationError::with_params("min_length", &[2]))
    );
}

#[test]
fn validation_error_collects_params_in_order() {
    let mut error = ValidationError::new("range");
    assert_eq!(error.code(), "range");
    assert!(error.params().is_empty());
    error.param(3);
    error.param(9);
    assert_eq!(error.params(), &[3, 9]);
    assert_eq!(error, ValidationError::with_params("range", &[3, 9]));
    assert_ne!(error, ValidationError::with_params("range", &[9, 3]));
}

#[test]
fn test_validate_macro() {
    struct User {
        username: String,
        password: String,
    }

    let user = User {
        username: "user".to_owned(),
        password: "1234".to_owned(),
    };

    let mut errors = ValidationErrors::new();
    validate_field(&mut errors, "username", &Length(Some(1), Some(20)), &user.username);
    validate_field(&mut errors, "password", &Length(Some(1), Some(20)), &user.password);

    assert!(errors.is_empty());
}

#[test]
fn failed_fields_are_collected_in_order() {
    let mut errors = ValidationErrors::new();
    let name = "".to_owned();
    let tags: Vec<u8> = vec![1, 2, 3];
    validate_field(&mut errors, "name", &Length(Some(1), Some(20)), &name);
    validate_field(&mut errors, "tags", &Length(None, Some(2)), &tags);
    validate_field(&mut errors, "name", &Length(Some(3), None), &name);
    validate_field(&mut errors, "name", &Length(None, Some(3)), &name);
    assert!(!errors.is_empty());
    assert_eq!(errors.len(), 3);
    assert_eq!(
        errors.get("name"),
        vec![
            ValidationError::with_params("length", &[1, 20]),
            ValidationError::with_params("min_length", &[3]),
        ]
    );
    assert_eq!(
        errors.get("tags"),
        vec![ValidationError::with_params("max_length", &[2])]
    );
    assert!(errors.get("other").is_empty());
    errors.record("other", None);
    errors.add("other", ValidationError::new("required"));
    assert_eq!(errors.get("other"), vec![ValidationError::new("required")]);
    assert_eq!(errors.len(), 4);
}
