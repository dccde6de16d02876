use pswd::utils::{to_vec_char, Chars};

/// Test to_vec_char accurately splits string slices.
#[test]
fn test_to_vec_char() {
    let result = vec!['h', 'e', 'l', 'l', 'o'];
    assert_eq!("hello".as_chars(), result)
}

/// Test that trailing spaces are not cleaned up.
#[test]
fn test_to_vec_char_trailing_spaces() {
    let result = vec!['h', 'e', 'l', 'l', 'o', ' '];
    assert_eq!("hello ".as_chars(), result)
}

/// Test that leading spaces are not cleaned up.
#[test]
fn test_to_vec_char_leading_spaces() {
    let result = vec![' ', 'h', 'e', 'l', 'l', 'o'];
    assert_eq!(" hello".as_chars(), result)
}

/// The free function splits as the trait method does.
#[test]
fn test_to_vec_char_free_function() {
    assert_eq!(to_vec_char("hello"), vec!['h', 'e', 'l', 'l', 'o']);
    assert_eq!(to_vec_char(" a b "), " a b ".as_chars());
}

/// The empty slice has no characters.
#[test]
fn test_to_vec_char_empty() {
    let result: Vec<char> = Vec::new();
    assert_eq!("".as_chars(), result);
    assert_eq!(to_vec_char(""), result);
}

/// Characters are split by scalar value, not by byte.
#[test]
fn test_to_vec_char_multibyte() {
    let result = vec!['h', 'é', '日', '!'];
    assert_eq!("hé日!".as_chars(), result);
    assert_eq!(to_vec_char("hé日!").len(), 4);
}
