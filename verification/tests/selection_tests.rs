use pimple::errors::PimError;
use pimple::session::parse_selection;
use pimple::text::parse_usize_token;

#[test]
fn selects_listed_indices() {
    assert_eq!(parse_selection("1,3", 3).unwrap(), vec![1, 3]);
}

#[test]
fn selects_a_single_index() {
    assert_eq!(parse_selection("2", 3).unwrap(), vec![2]);
}

#[test]
fn accepts_an_explicit_plus_sign() {
    assert_eq!(parse_selection("+2", 3).unwrap(), vec![2]);
}

#[test]
fn rejects_an_index_beyond_the_catalog() {
    assert_eq!(parse_selection("1,5", 3).err().unwrap(), PimError::UserInputFailure);
}

#[test]
fn rejects_a_non_numeric_token() {
    assert_eq!(parse_selection("x", 3).err().unwrap(), PimError::UserInputFailure);
}

#[test]
fn rejects_index_zero() {
    assert_eq!(parse_selection("0", 3).err().unwrap(), PimError::UserInputFailure);
}

#[test]
fn rejects_an_empty_reply() {
    assert_eq!(parse_selection("", 3).err().unwrap(), PimError::UserInputFailure);
}

#[test]
fn rejects_an_empty_token_between_commas() {
    assert_eq!(parse_selection("1,,2", 3).err().unwrap(), PimError::UserInputFailure);
}

#[test]
fn rejects_a_token_with_inner_spaces() {
    assert_eq!(parse_selection("1, 2", 3).err().unwrap(), PimError::UserInputFailure);
}

#[test]
fn rejects_overflowing_numbers() {
    assert_eq!(
        parse_selection("999999999999999999999999999999", 3).err().unwrap(),
        PimError::UserInputFailure
    );
}

#[test]
fn token_parser_matches_the_standard_grammar() {
    assert_eq!(parse_usize_token("42"), Some(42));
    assert_eq!(parse_usize_token("+7"), Some(7));
    assert_eq!(parse_usize_token(""), None);
    assert_eq!(parse_usize_token("+"), None);
    assert_eq!(parse_usize_token("4x"), None);
    assert_eq!(parse_usize_token("-4"), None);
}
