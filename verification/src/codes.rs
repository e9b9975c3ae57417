//! Currency codes and the check of what the user typed.
//!
//! A currency pair is typed as two codes of three letters with one space between
//! them, in either case: `usd chf`. The codes are put in upper case and then
//! looked up in the list of known codes.

use vstd::prelude::*;

verus! {

/// Which of the two codes of a well-formed input is not in the list.
#[derive(Clone, Copy, Debug, PartialEq, Eq, Structural)]
pub enum UnknownToken {
    /// The first code, the one that is converted from.
    Base,
    /// The second code, the one that is converted to.
    Quote,
    /// Neither code is known.
    Both,
}

/// Why an input names no currency pair.
#[derive(Clone, Copy, Debug, PartialEq, Eq, Structural)]
pub enum ValidationError {
    /// The input is not two three-letter words with one space between them.
    MalformedInput,
    /// The input has the right shape, but a code is missing from the list.
    UnknownCode(UnknownToken),
}

/// A letter of the Latin alphabet, in either case.
pub open spec fn is_letter(c: char) -> bool {
    ('a' <= c && c <= 'z') || ('A' <= c && c <= 'Z')
}

/// The upper-case form of a lower-case Latin letter; any other character is kept.
pub open spec fn upper(c: char) -> char {
    if 'a' <= c && c <= 'z' {
        ((c as u8) - 32) as char
    } else {
        c
    }
}

/// Three letters, a space, three letters, and nothing else.
pub open spec fn has_pair_shape(input: Seq<char>) -> bool {
    &&& input.len() == 7
    &&& is_letter(input[0])
    &&& is_letter(input[1])
    &&& is_letter(input[2])
    &&& input[3] == ' '
    &&& is_letter(input[4])
    &&& is_letter(input[5])
    &&& is_letter(input[6])
}

/// The three characters of `input` from `start` on, in upper case.
pub open spec fn code_at(input: Seq<char>, start: int) -> Seq<char> {
    seq![upper(input[start]), upper(input[start + 1]), upper(input[start + 2])]
}

/// The first code of a well-formed input, in upper case.
pub open spec fn base_code(input: Seq<char>) -> Seq<char> {
    code_at(input, 0)
}

/// The second code of a well-formed input, in upper case.
pub open spec fn quote_code(input: Seq<char>) -> Seq<char> {
    code_at(input, 4)
}

/// Three upper-case Latin letters.
pub open spec fn is_code(code: Seq<char>) -> bool {
    &&& code.len() == 3
    &&& forall|i: int| 0 <= i < 3 ==> 'A' <= #[trigger] code[i] && code[i] <= 'Z'
}

/// `code` is one of `codes`.
pub open spec fn is_listed(codes: Seq<String>, code: Seq<char>) -> bool {
    exists|i: int| 0 <= i < codes.len() && (#[trigger] codes[i])@ == code
}

/// What the check of `input` against `codes` gives: the pair in upper case, or
/// the reason there is none.
pub open spec fn validation(input: Seq<char>, codes: Seq<String>) -> Result<
    (Seq<char>, Seq<char>),
    ValidationError,
> {
    if !has_pair_shape(input) {
        Err(ValidationError::MalformedInput)
    } else {
        let base_known = is_listed(codes, base_code(input));
        let quote_known = is_listed(codes, quote_code(input));
        if base_known && quote_known {
            Ok((base_code(input), quote_code(input)))
        } else if quote_known {
            Err(ValidationError::UnknownCode(UnknownToken::Base))
        } else if base_known {
            Err(ValidationError::UnknownCode(UnknownToken::Quote))
        } else {
            Err(ValidationError::UnknownCode(UnknownToken::Both))
        }
    }
}

/// `input` with every Latin letter in upper case.
pub open spec fn in_upper_case(input: Seq<char>) -> Seq<char> {
    input.map_values(|c: char| upper(c))
}

/// The case of the letters does not matter: an input and its upper-case form
/// are both well-shaped or both not, and name the same two codes.
pub proof fn lemma_case_does_not_matter(input: Seq<char>, codes: Seq<String>)
    ensures
        has_pair_shape(in_upper_case(input)) == has_pair_shape(input),
        validation(in_upper_case(input), codes) == validation(input, codes),
{
    let shouted = in_upper_case(input);
    assert(shouted.len() == input.len());
    if input.len() == 7 {
        assert forall|i: int| 0 <= i < 7 implies {
            &&& is_letter(#[trigger] shouted[i]) == is_letter(input[i])
            &&& (shouted[i] == ' ') == (input[i] == ' ')
            &&& upper(shouted[i]) == upper(input[i])
        } by {
            assert(shouted[i] == upper(input[i]));
        }
        assert(base_code(shouted) =~= base_code(input));
        assert(quote_code(shouted) =~= quote_code(input));
    }
}

/// `String::push` of the standard library: puts one character at the end of
/// the string and leaves the rest as it was.
#[verifier::external_body]
fn push_char(text: &mut String, c: char)
    ensures
        final(text)@ == old(text)@.push(c),
{
    text.push(c);
}

/// Tells whether `c` is a Latin letter.
pub fn check_letter(c: char) -> (letter: bool)
    ensures
        letter == is_letter(c),
{
    (c >= 'a' && c <= 'z') || (c >= 'A' && c <= 'Z')
}

/// Puts a Latin letter in upper case and keeps any other character.
pub fn to_upper(c: char) -> (u: char)
    ensures
        u == upper(c),
        is_letter(c) ==> 'A' <= u && u <= 'Z',
{
    if c >= 'a' && c <= 'z' {
        let byte: u8 = c as u8;
        (byte - 32) as char
    } else {
        c
    }
}

/// Builds the upper-case code of three letters.
fn make_code(a: char, b: char, c: char) -> (code: String)
    ensures
        code@ == seq![upper(a), upper(b), upper(c)],
{
    let mut code = String::new();
    push_char(&mut code, to_upper(a));
    push_char(&mut code, to_upper(b));
    push_char(&mut code, to_upper(c));
    code
}

/// Reads a currency pair out of what the user typed.
///
/// Returns the two codes in upper case if the input is three letters, one
/// space and three letters, and `None` for every other input.
pub fn is_input_in_valid_format(user_input: &str) -> (result: Option<(String, String)>)
    ensures
        result is Some <==> has_pair_shape(user_input@),
        result matches Some(pair) ==> {
            &&& pair.0@ == base_code(user_input@)
            &&& pair.1@ == quote_code(user_input@)
            &&& is_code(pair.0@)
            &&& is_code(pair.1@)
        },
{
    if user_input.unicode_len() != 7 {
        return None;
    }
    let c0 = user_input.get_char(0);
    let c1 = user_input.get_char(1);
    let c2 = user_input.get_char(2);
    let c3 = user_input.get_char(3);
    let c4 = user_input.get_char(4);
    let c5 = user_input.get_char(5);
    let c6 = user_input.get_char(6);
    if check_letter(c0) && check_letter(c1) && check_letter(c2) && c3 == ' ' && check_letter(c4)
        && check_letter(c5) && check_letter(c6) {
        let base = make_code(c0, c1, c2);
        let quote = make_code(c4, c5, c6);
        Some((base, quote))
    } else {
        None
    }
}

/// Tells whether `code` is in the list of known codes.
pub fn is_known_code(currency_vector: &Vec<String>, code: &String) -> (known: bool)
    ensures
        known == is_listed(currency_vector@, code@),
{
    let mut i: usize = 0;
    while i < currency_vector.len()
        invariant
            i <= currency_vector.len(),
            forall|j: int| 0 <= j < i ==> currency_vector@[j]@ != code@,
        decreases currency_vector.len() - i,
    {
        if currency_vector[i] == *code {
            return true;
        }
        i += 1;
    }
    false
}

/// Checks what the user typed against the list of known currency codes.
///
/// An input that is not shaped as a pair is `MalformedInput`, whatever the list
/// holds. A well-shaped input whose codes, in upper case, are both in the list
/// gives those two codes. Otherwise the error says which code is unknown.
pub fn is_input_valid_currency_pair(user_input: &str, currency_vector: &Vec<String>) -> (result:
    Result<(String, String), ValidationError>)
    ensures
        match result {
            Ok(pair) => validation(user_input@, currency_vector@) == Ok::<
                (Seq<char>, Seq<char>),
                ValidationError,
            >((pair.0@, pair.1@)),
            Err(e) => validation(user_input@, currency_vector@) == Err::<
                (Seq<char>, Seq<char>),
                ValidationError,
            >(e),
        },
        !has_pair_shape(user_input@) <==> result == Err::<(String, String), ValidationError>(
            ValidationError::MalformedInput,
        ),
        (result matches Err(ValidationError::UnknownCode(_))) <==> {
            &&& has_pair_shape(user_input@)
            &&& !(is_listed(currency_vector@, base_code(user_input@)) && is_listed(
                currency_vector@,
                quote_code(user_input@),
            ))
        },
        result is Ok <==> {
            &&& has_pair_shape(user_input@)
            &&& is_listed(currency_vector@, base_code(user_input@))
            &&& is_listed(currency_vector@, quote_code(user_input@))
        },
        result matches Ok(pair) ==> {
            &&& pair.0@ == base_code(user_input@)
            &&& pair.1@ == quote_code(user_input@)
            &&& is_code(pair.0@)
            &&& is_code(pair.1@)
        },
{
    match is_input_in_valid_format(user_input) {
        None => Err(ValidationError::MalformedInput),
        Some(pair) => {
            let base_known = is_known_code(currency_vector, &pair.0);
            let quote_known = is_known_code(currency_vector, &pair.1);
            if base_known && quote_known {
                Ok(pair)
            } else if quote_known {
                Err(ValidationError::UnknownCode(UnknownToken::Base))
            } else if base_known {
                Err(ValidationError::UnknownCode(UnknownToken::Quote))
            } else {
                Err(ValidationError::UnknownCode(UnknownToken::Both))
            }
        },
    }
}

} // verus!
