use vstd::prelude::*;
use vstd::std_specs::cmp::PartialEqSpec;
use vstd::string::*;

verus! {

/// Whether `c` is one of the ASCII decimal digits `0` to `9`.
pub open spec fn is_decimal_digit(c: char) -> bool {
    '0' <= c && c <= '9'
}

/// The numeric value of a decimal digit.
pub open spec fn digit_value(c: char) -> int {
    c as int - '0' as int
}

/// The value of a character in an ISBN-10 checksum: `X` counts ten.
pub open spec fn isbn10_char_value(c: char) -> int {
    if c == 'X' {
        10
    } else {
        digit_value(c)
    }
}

/// The ISBN-10 weighted sum over the first `n` characters of `s`:
/// the character at position `i` has weight `10 - i`.
pub open spec fn isbn10_sum(s: Seq<char>, n: int) -> int
    decreases n,
{
    if n <= 0 {
        0
    } else {
        isbn10_sum(s, n - 1) + (10 - (n - 1)) * isbn10_char_value(s[n - 1])
    }
}

/// The ISBN-13 weighted sum over the first `n` characters of `s`:
/// weight 1 at even positions, 3 at odd ones.
pub open spec fn isbn13_sum(s: Seq<char>, n: int) -> int
    decreases n,
{
    if n <= 0 {
        0
    } else {
        isbn13_sum(s, n - 1) + (if (n - 1) % 2 == 0 { 1int } else { 3int }) * digit_value(s[n - 1])
    }
}

/// A valid ISBN-10: ten characters, digits except that the last may be `X`,
/// with a weighted sum divisible by 11.
pub open spec fn is_valid_isbn10(s: Seq<char>) -> bool {
    &&& s.len() == 10
    &&& forall|i: int| 0 <= i < 9 ==> #[trigger] is_decimal_digit(s[i])
    &&& (is_decimal_digit(s[9]) || s[9] == 'X')
    &&& isbn10_sum(s, 10) % 11 == 0
}

/// A valid ISBN-13: thirteen digits with a weighted sum divisible by 10.
pub open spec fn is_valid_isbn13(s: Seq<char>) -> bool {
    &&& s.len() == 13
    &&& forall|i: int| 0 <= i < 13 ==> #[trigger] is_decimal_digit(s[i])
    &&& isbn13_sum(s, 13) % 10 == 0
}

/// Whether `s` is a valid ISBN of either form.
pub open spec fn is_valid_isbn(s: Seq<char>) -> bool {
    is_valid_isbn10(s) || is_valid_isbn13(s)
}

/// Why a string is not a book identifier, or `None` when it is one.
pub open spec fn isbn_error(s: Seq<char>) -> Option<ValidationError> {
    if s.len() != 10 && s.len() != 13 {
        Some(ValidationError::InvalidLength)
    } else if !is_valid_isbn(s) {
        Some(ValidationError::InvalidFormat)
    } else {
        None
    }
}

/// The outcome that creating a book identifier from `s` must have.
pub open spec fn book_id_outcome(s: Seq<char>, r: Result<BookId, ValidationError>) -> bool {
    match r {
        Ok(id) => isbn_error(s) is None && id@ == s,
        Err(e) => isbn_error(s) == Some(e),
    }
}

/// The hyphenated display form of a valid ISBN: `ISBN` followed by the
/// groups of the code, separated by `-`.
pub open spec fn display_form(s: Seq<char>) -> Seq<char> {
    let dash = seq!['-'];
    if s.len() == 10 {
        seq!['I', 'S', 'B', 'N'] + s.subrange(0, 1) + dash + s.subrange(1, 3) + dash
            + s.subrange(3, 9) + dash + s.subrange(9, 10)
    } else {
        seq!['I', 'S', 'B', 'N'] + s.subrange(0, 3) + dash + s.subrange(3, 4) + dash
            + s.subrange(4, 6) + dash + s.subrange(6, 12) + dash + s.subrange(12, 13)
    }
}

/// Why a string was rejected as a book identifier.
#[derive(Debug, Clone, Copy, PartialEq, Eq, Structural)]
pub enum ValidationError {
    /// The string has neither 10 nor 13 characters.
    InvalidLength,
    /// The length is right, but a character or the check digit is wrong.
    InvalidFormat,
}

/// The user-facing text of each validation error.
pub open spec fn validation_message(e: ValidationError) -> Seq<char> {
    match e {
        ValidationError::InvalidLength => "ISBNの文字数が不正です"@,
        ValidationError::InvalidFormat => "ISBNの形式が不正です"@,
    }
}

impl ValidationError {
    /// The user-facing text of this error.
    pub fn message(&self) -> (r: String)
        ensures
            r@ == validation_message(*self),
    {
        match self {
            ValidationError::InvalidLength => String::from_str("ISBNの文字数が不正です"),
            ValidationError::InvalidFormat => String::from_str("ISBNの形式が不正です"),
        }
    }
}

/// A book identifier: a valid ISBN-10 or ISBN-13 code, kept exactly as given.
#[derive(Debug)]
pub struct BookId {
    value: String,
}

impl View for BookId {
    type V = Seq<char>;

    closed spec fn view(&self) -> Seq<char> {
        self.value@
    }
}

impl BookId {
    #[verifier::type_invariant]
    spec fn inv(&self) -> bool {
        is_valid_isbn(self.value@)
    }

    /// Creates a book identifier from a compact ISBN-10 or ISBN-13 code.
    pub fn new(value: String) -> (r: Result<Self, ValidationError>)
        ensures
            book_id_outcome(value@, r),
            value@.len() != 10 && value@.len() != 13 ==> r == Err::<Self, ValidationError>(
                ValidationError::InvalidLength,
            ),
            (value@.len() == 10 && exists|i: int|
                0 <= i < 10 && !is_decimal_digit(#[trigger] value@[i]) && value@[i] != 'X')
                || (value@.len() == 13 && exists|i: int|
                0 <= i < 13 && !is_decimal_digit(#[trigger] value@[i]))
                ==> r == Err::<Self, ValidationError>(ValidationError::InvalidFormat),
    {
        match Self::validate(value.as_str()) {
            Ok(()) => Ok(Self { value }),
            Err(e) => Err(e),
        }
    }

    fn validate(isbn: &str) -> (r: Result<(), ValidationError>)
        ensures
            r == match isbn_error(isbn@) {
                Some(e) => Err(e),
                None => Ok(()),
            },
    {
        let len = isbn.unicode_len();
        if len != 10 && len != 13 {
            return Err(ValidationError::InvalidLength);
        }
        if !Self::is_valid_isbn10(isbn) && !Self::is_valid_isbn13(isbn) {
            return Err(ValidationError::InvalidFormat);
        }
        Ok(())
    }

    /// Checks an ISBN-10 and its check digit.
    fn is_valid_isbn10(isbn: &str) -> (r: bool)
        ensures
            r == is_valid_isbn10(isbn@),
    {
        if isbn.unicode_len() != 10 {
            return false;
        }
        let mut sum: u32 = 0;
        let mut i: usize = 0;
        while i < 10
            invariant
                isbn@.len() == 10,
                0 <= i <= 10,
                forall|j: int| 0 <= j < i && j < 9 ==> #[trigger] is_decimal_digit(isbn@[j]),
                i == 10 ==> (is_decimal_digit(isbn@[9]) || isbn@[9] == 'X'),
                sum == isbn10_sum(isbn@, i as int),
                sum <= 100 * i,
            decreases 10 - i,
        {
            let c = isbn.get_char(i);
            let value: u32;
            if c == 'X' && i == 9 {
                value = 10;
            } else if '0' <= c && c <= '9' {
                value = (c as u32) - ('0' as u32);
            } else {
                proof {
                    assert(!is_decimal_digit(isbn@[i as int]));
                }
                return false;
            }
            assert(value as int == isbn10_char_value(isbn@[i as int]) && value <= 10);
            let weight: u32 = 10 - i as u32;
            assert(weight * value <= 100) by (nonlinear_arith)
                requires
                    value <= 10,
                    weight <= 10,
            ;
            sum = sum + weight * value;
            i = i + 1;
        }
        sum % 11 == 0
    }

    /// Checks an ISBN-13 and its check digit.
    fn is_valid_isbn13(isbn: &str) -> (r: bool)
        ensures
            r == is_valid_isbn13(isbn@),
    {
        if isbn.unicode_len() != 13 {
            return false;
        }
        let mut sum: u32 = 0;
        let mut i: usize = 0;
        while i < 13
            invariant
                isbn@.len() == 13,
                0 <= i <= 13,
                forall|j: int| 0 <= j < i ==> #[trigger] is_decimal_digit(isbn@[j]),
                sum == isbn13_sum(isbn@, i as int),
                sum <= 27 * i,
            decreases 13 - i,
        {
            let c = isbn.get_char(i);
            if !('0' <= c && c <= '9') {
                proof {
                    assert(!is_decimal_digit(isbn@[i as int]));
                }
                return false;
            }
            let value: u32 = (c as u32) - ('0' as u32);
            assert(value as int == digit_value(isbn@[i as int]) && value <= 9);
            if i % 2 == 0 {
                sum = sum + value;
            } else {
                sum = sum + value * 3;
            }
            i = i + 1;
        }
        sum % 10 == 0
    }

    /// The identifier exactly as it was validated.
    pub fn value(&self) -> (r: &String)
        ensures
            r@ == self@,
            is_valid_isbn(self@),
    {
        proof {
            use_type_invariant(self);
        }
        &self.value
    }

    /// Renders the identifier in its hyphenated display form.
    pub fn to_isbn(&self) -> (r: String)
        ensures
            r@ == display_form(self@),
    {
        proof {
            use_type_invariant(self);
        }
        if self.value.as_str().unicode_len() == 10 {
            self.to_isbn_10()
        } else {
            self.to_isbn_13()
        }
    }

    fn to_isbn_10(&self) -> (r: String)
        requires
            self@.len() == 10,
        ensures
            r@ == display_form(self@),
    {
        let isbn = self.value.as_str();
        let mut out = String::from_str("ISBN");
        out.append(isbn.substring_char(0, 1));
        out.append("-");
        out.append(isbn.substring_char(1, 3));
        out.append("-");
        out.append(isbn.substring_char(3, 9));
        out.append("-");
        out.append(isbn.substring_char(9, 10));
        proof {
            reveal_strlit("ISBN");
            reveal_strlit("-");
            assert("ISBN"@ =~= seq!['I', 'S', 'B', 'N']);
            assert("-"@ =~= seq!['-']);
            assert(out@ =~= display_form(self@));
        }
        out
    }

    fn to_isbn_13(&self) -> (r: String)
        requires
            self@.len() == 13,
        ensures
            r@ == display_form(self@),
    {
        let isbn = self.value.as_str();
        let mut out = String::from_str("ISBN");
        out.append(isbn.substring_char(0, 3));
        out.append("-");
        out.append(isbn.substring_char(3, 4));
        out.append("-");
        out.append(isbn.substring_char(4, 6));
        out.append("-");
        out.append(isbn.substring_char(6, 12));
        out.append("-");
        out.append(isbn.substring_char(12, 13));
        proof {
            reveal_strlit("ISBN");
            reveal_strlit("-");
            assert("ISBN"@ =~= seq!['I', 'S', 'B', 'N']);
            assert("-"@ =~= seq!['-']);
            assert(out@ =~= display_form(self@));
        }
        out
    }
}

impl Clone for BookId {
    fn clone(&self) -> (r: Self)
        ensures
            r@ == self@,
    {
        proof {
            use_type_invariant(self);
        }
        BookId { value: self.value.clone() }
    }
}

impl PartialEq for BookId {
    fn eq(&self, other: &BookId) -> (r: bool) {
        self.value == other.value
    }
}

impl vstd::std_specs::cmp::PartialEqSpecImpl for BookId {
    open spec fn obeys_eq_spec() -> bool {
        true
    }

    open spec fn eq_spec(&self, other: &BookId) -> bool {
        self@ == other@
    }
}

impl Eq for BookId {
}

/// Two book identifiers created from raw strings `s` and `t` are equal
/// exactly when `s` and `t` are the same string.
pub proof fn lemma_book_id_equality(s: Seq<char>, t: Seq<char>, a: BookId, b: BookId)
    requires
        book_id_outcome(s, Ok(a)),
        book_id_outcome(t, Ok(b)),
    ensures
        a.eq_spec(&b) <==> s == t,
{
}

/// Creating a book identifier is deterministic: two creations from the
/// same raw string both succeed with equal identifiers, or both fail with
/// the same error.
pub proof fn lemma_book_id_creation_deterministic(
    s: Seq<char>,
    r1: Result<BookId, ValidationError>,
    r2: Result<BookId, ValidationError>,
)
    requires
        book_id_outcome(s, r1),
        book_id_outcome(s, r2),
    ensures
        r1 is Ok <==> r2 is Ok,
        r1 is Ok ==> r1->Ok_0.eq_spec(&r2->Ok_0),
        r1 is Err ==> r1->Err_0 == r2->Err_0,
{
}

} // verus!
