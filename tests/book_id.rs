use book_service::book_id::{BookId, ValidationError};

#[test]
fn test_book_id() {
    let book_id = BookId::new("9784167158057".to_string()).unwrap();
    assert_eq!(book_id.value(), "9784167158057");
}

#[test]
fn test_book_id_equals() {
    let book_id1 = BookId::new("9784167158057".to_string()).unwrap();
    let book_id2 = BookId::new("9784167158057".to_string()).unwrap();
    assert_eq!(book_id1, book_id2);
}

#[test]
fn test_book_id_to_isbn_13() {
    let book_id = BookId::new("9784167158057".to_string()).unwrap();
    assert_eq!(book_id.to_isbn(), "ISBN978-4-16-715805-7");
}

#[test]
fn test_book_id_to_isbn_10() {
    let book_id = BookId::new("4167158051".to_string()).unwrap();
    assert_eq!(book_id.to_isbn(), "ISBN4-16-715805-1");
}

#[test]
fn test_book_id_invalid_length() {
    let long_isbn = "1".repeat(101);
    let result = BookId::new(long_isbn);
    assert!(result.is_err());
    assert_eq!(result.unwrap_err().message(), "ISBNの文字数が不正です");
}

#[test]
fn test_book_id_invalid_format() {
    let invalid_isbn = "416715805X1";
    let result = BookId::new(invalid_isbn.to_string());
    assert!(result.is_err());
    assert_eq!(result.unwrap_err().message(), "ISBNの文字数が不正です");

    for _ in 0..5 {
        let invalid_isbn = "978416715805X7";
        let result = BookId::new(invalid_isbn.to_string());
        assert!(result.is_err());
        assert_eq!(result.unwrap_err().message(), "ISBNの文字数が不正です");
    }
}

#[test]
fn lengths_other_than_ten_and_thirteen_are_rejected() {
    for len in [0usize, 1, 9, 11, 12, 14, 20] {
        let result = BookId::new("1".repeat(len));
        assert_eq!(result.unwrap_err(), ValidationError::InvalidLength);
    }
}

#[test]
fn length_counts_characters_not_bytes() {
    // ten characters, but more than ten bytes
    let result = BookId::new("41671580５1".to_string());
    assert_eq!(result.unwrap_err(), ValidationError::InvalidFormat);
}

#[test]
fn bad_characters_give_invalid_format() {
    let result = BookId::new("41671A8051".to_string());
    assert_eq!(result.unwrap_err(), ValidationError::InvalidFormat);
    let result = BookId::new("978416715805X".to_string());
    assert_eq!(result.unwrap_err(), ValidationError::InvalidFormat);
    let result = BookId::new("978-416715805".to_string());
    assert_eq!(result.unwrap_err(), ValidationError::InvalidFormat);
}

#[test]
fn x_is_accepted_only_as_last_isbn10_character() {
    // 0-8044-2957-X is a valid ISBN-10 whose check digit is X
    let id = BookId::new("080442957X".to_string()).unwrap();
    assert_eq!(id.to_isbn(), "ISBN0-80-442957-X");
    // the weighted sum (110) is divisible by 11, but X stands first
    let result = BookId::new("X000000050".to_string());
    assert_eq!(result.unwrap_err(), ValidationError::InvalidFormat);
}

#[test]
fn checksums_are_checked() {
    assert!(BookId::new("4167158051".to_string()).is_ok());
    assert_eq!(
        BookId::new("416715805X".to_string()).unwrap_err(),
        ValidationError::InvalidFormat
    );
    assert!(BookId::new("9784167158057".to_string()).is_ok());
    assert_eq!(
        BookId::new("9784167158058".to_string()).unwrap_err(),
        ValidationError::InvalidFormat
    );
    assert_eq!(
        BookId::new("4167158052".to_string()).unwrap_err(),
        ValidationError::InvalidFormat
    );
}

#[test]
fn format_error_has_its_own_message() {
    assert_eq!(ValidationError::InvalidFormat.message(), "ISBNの形式が不正です");
    assert_ne!(
        ValidationError::InvalidFormat.message(),
        ValidationError::InvalidLength.message()
    );
}

#[test]
fn different_raw_strings_give_different_ids() {
    let a = BookId::new("9784167158057".to_string()).unwrap();
    let b = BookId::new("4167158051".to_string()).unwrap();
    assert_ne!(a, b);
    assert_eq!(a.clone(), a);
}

#[test]
fn creation_is_repeatable() {
    for raw in ["4167158051", "416715805X", "12345", "9784167158057"] {
        let first = BookId::new(raw.to_string());
        let second = BookId::new(raw.to_string());
        assert_eq!(first, second);
    }
}
