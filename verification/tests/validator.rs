use inquire::error::CustomUserError;
use inquire::list_option::ListOption;
use inquire::parser::{CustomTypeParser, FromStrParser};
use inquire::validator::{ErrorMessage, LengthValidator, RequiredValidator, StringValidator, Validation};

fn build_option_vec(len: usize) -> Vec<ListOption<&'static str>> {
    let mut options = Vec::new();

    for i in 0..len {
        options.push(ListOption::new(i, ""));
    }

    options
}

fn check_slice(validator: &LengthValidator, len: usize) -> Result<Validation, CustomUserError> {
    let options = build_option_vec(len);
    validator.check(&options.as_slice())
}

#[test]
fn string_length_counts_graphemes() -> Result<(), CustomUserError> {
    let validator = LengthValidator::length(5);

    assert!(matches!(validator.validate("five!")?, Validation::Valid));
    assert!(matches!(validator.validate("♥️♥️♥️♥️♥️")?, Validation::Valid));
    assert!(matches!(
        validator.validate("🤦🏼‍♂️🤦🏼‍♂️🤦🏼‍♂️🤦🏼‍♂️🤦🏼‍♂️")?,
        Validation::Valid
    ));

    assert!(matches!(validator.validate("five!!!")?, Validation::Invalid(_)));
    assert!(matches!(
        validator.validate("🤦🏼‍♂️🤦🏼‍♂️🤦🏼‍♂️🤦🏼‍♂️")?,
        Validation::Invalid(_)
    ));
    assert!(matches!(
        validator.validate("🤦🏼‍♂️🤦🏼‍♂️🤦🏼‍♂️🤦🏼‍♂️🤦🏼‍♂️🤦🏼‍♂️")?,
        Validation::Invalid(_)
    ));

    Ok(())
}

#[test]
fn slice_length() -> Result<(), CustomUserError> {
    let validator = LengthValidator::length(5);

    assert!(matches!(check_slice(&validator, 5)?, Validation::Valid));
    assert!(matches!(check_slice(&validator, 4)?, Validation::Invalid(_)));
    assert!(matches!(check_slice(&validator, 6)?, Validation::Invalid(_)));

    Ok(())
}

#[test]
fn string_max_length_counts_graphemes() -> Result<(), CustomUserError> {
    let validator = LengthValidator::max_length(5);

    assert!(matches!(validator.validate("")?, Validation::Valid));
    assert!(matches!(validator.validate("five!")?, Validation::Valid));
    assert!(matches!(validator.validate("♥️♥️♥️♥️♥️")?, Validation::Valid));
    assert!(matches!(
        validator.validate("🤦🏼‍♂️🤦🏼‍♂️🤦🏼‍♂️🤦🏼‍♂️🤦🏼‍♂️")?,
        Validation::Valid
    ));

    assert!(matches!(validator.validate("five!!!")?, Validation::Invalid(_)));
    assert!(matches!(validator.validate("♥️♥️♥️♥️♥️♥️")?, Validation::Invalid(_)));
    assert!(matches!(
        validator.validate("🤦🏼‍♂️🤦🏼‍♂️🤦🏼‍♂️🤦🏼‍♂️🤦🏼‍♂️🤦🏼‍♂️")?,
        Validation::Invalid(_)
    ));

    Ok(())
}

#[test]
fn slice_max_length() -> Result<(), CustomUserError> {
    let validator = LengthValidator::max_length(5);

    for len in 0..=5 {
        assert!(matches!(check_slice(&validator, len)?, Validation::Valid));
    }
    for len in 6..=8 {
        assert!(matches!(check_slice(&validator, len)?, Validation::Invalid(_)));
    }

    Ok(())
}

#[test]
fn string_min_length_counts_graphemes() -> Result<(), CustomUserError> {
    let validator = LengthValidator::min_length(5);

    assert!(matches!(validator.validate("")?, Validation::Invalid(_)));
    assert!(matches!(validator.validate("♥️♥️♥️♥️")?, Validation::Invalid(_)));
    assert!(matches!(validator.validate("mike")?, Validation::Invalid(_)));

    assert!(matches!(validator.validate("five!")?, Validation::Valid));
    assert!(matches!(validator.validate("five!!!")?, Validation::Valid));
    assert!(matches!(validator.validate("♥️♥️♥️♥️♥️")?, Validation::Valid));
    assert!(matches!(validator.validate("♥️♥️♥️♥️♥️♥️")?, Validation::Valid));
    assert!(matches!(
        validator.validate("🤦🏼‍♂️🤦🏼‍♂️🤦🏼‍♂️🤦🏼‍♂️🤦🏼‍♂️")?,
        Validation::Valid
    ));
    assert!(matches!(
        validator.validate("🤦🏼‍♂️🤦🏼‍♂️🤦🏼‍♂️🤦🏼‍♂️🤦🏼‍♂️🤦🏼‍♂️")?,
        Validation::Valid
    ));

    Ok(())
}

#[test]
fn slice_min_length() -> Result<(), CustomUserError> {
    let validator = LengthValidator::min_length(5);

    for len in 0..=4 {
        assert!(matches!(check_slice(&validator, len)?, Validation::Invalid(_)));
    }
    for len in 5..=8 {
        assert!(matches!(check_slice(&validator, len)?, Validation::Valid));
    }

    Ok(())
}

#[test]
fn default_messages_name_the_limit() {
    assert_eq!(
        Validation::Invalid(ErrorMessage::Custom(
            "The length of the response should be at most 5".to_string()
        )),
        LengthValidator::max_length(5).validate("Terrible").unwrap()
    );
    assert_eq!(
        Validation::Invalid(ErrorMessage::Custom(
            "The length of the response should be at least 3".to_string()
        )),
        LengthValidator::min_length(3).validate("No").unwrap()
    );
    assert_eq!(
        Validation::Invalid(ErrorMessage::Custom("The length of the response should be 30".to_string())),
        LengthValidator::length(30).validate("No").unwrap()
    );
    assert_eq!(
        Validation::Invalid(ErrorMessage::Custom("Three characters please.".to_string())),
        LengthValidator::length(3).with_message("Three characters please.").validate("No").unwrap()
    );
}

#[test]
fn required_rejects_empty_answers() {
    let validator = RequiredValidator::new();
    assert_eq!(Validation::Valid, validator.validate("Generic input").unwrap());
    assert_eq!(
        Validation::Invalid(ErrorMessage::Custom("A response is required.".to_string())),
        validator.validate("").unwrap()
    );
    let none: Vec<ListOption<&&str>> = Vec::new();
    assert_eq!(
        Validation::Invalid(ErrorMessage::Custom("No empty!".to_string())),
        inquire::validator::MultiOptionValidator::<&str>::validate(&RequiredValidator::with_message("No empty!"), &none).unwrap()
    );
}

#[test]
fn integers_are_read_as_std_documents() {
    let p = FromStrParser;
    assert_eq!(Ok(7u8), CustomTypeParser::<u8>::parse(&p, "+7"));
    assert_eq!(Ok(7u8), CustomTypeParser::<u8>::parse(&p, "007"));
    assert_eq!(Err(()), CustomTypeParser::<u8>::parse(&p, "-0"));
    assert_eq!(Err(()), CustomTypeParser::<u8>::parse(&p, "256"));
    assert_eq!(Ok(-128i8), CustomTypeParser::<i8>::parse(&p, "-128"));
    assert_eq!(Err(()), CustomTypeParser::<i8>::parse(&p, "128"));
    assert_eq!(Err(()), CustomTypeParser::<i32>::parse(&p, "-"));
    assert_eq!(Err(()), CustomTypeParser::<i32>::parse(&p, ""));
    assert_eq!(Err(()), CustomTypeParser::<i32>::parse(&p, " 1"));
    assert_eq!(Err(()), CustomTypeParser::<i64>::parse(&p, "+-5"));
    assert_eq!(Ok(usize::MAX), CustomTypeParser::<usize>::parse(&p, &usize::MAX.to_string()));
}
