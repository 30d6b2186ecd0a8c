//! The one-time code of a verification session, and the check that a message
//! names a mailbox under the organization's domain.

use crate::text::{
    all_digits, decimal_value, digit_value, ends_in, ends_with, is_blank, is_blank_text,
    is_digit, parse_unsigned, replace_all, replaced, unsigned_digits,
};
use crate::verification_discord::{Notice, NoticeView};
use rand::Rng;
use std::str::FromStr;
use vstd::prelude::*;
use vstd::string::*;

verus! {

/// The least code that is issued.
pub const CODE_MIN: u64 = 1000000;

/// The greatest code that is issued.
pub const CODE_MAX: u64 = 9999999;

/// `code` has seven decimal digits.
pub open spec fn is_seven_digit_code(code: u64) -> bool {
    1000000 <= code <= 9999999
}

/// Draws a number with `gen_range` of `rand::Rng`, on the operating system's
/// generator `rand::rngs::OsRng`, over the inclusive range from `low` to
/// `high`. `gen_range` panics on an empty range, which `requires` leaves out,
/// and where the operating system's generator fails, which nothing can leave
/// out; of the number only that it lies in the range is claimed.
#[verifier::external_body]
fn os_random_in_range(low: u64, high: u64) -> (n: u64)
    requires
        low <= high,
    ensures
        low <= n <= high,
{
    rand::rngs::OsRng.gen_range(low..=high)
}

/// Generates a 7 digit code, drawn from the operating system's generator.
pub fn generate_code() -> (code: u64)
    ensures
        is_seven_digit_code(code),
{
    os_random_in_range(CODE_MIN, CODE_MAX)
}

/// The text that `str::to_lowercase` returns for `text`.
pub uninterp spec fn lowercase_of(text: Seq<char>) -> Seq<char>;

/// Lower-cases `text` with `str::to_lowercase` of the standard library.
#[verifier::external_body]
pub(crate) fn to_lowercase(text: &str) -> (lower: String)
    ensures
        lower@ == lowercase_of(text@),
{
    text.to_lowercase()
}

/// What `lettre::message::Mailbox::from_str` returns for `text`: nothing where
/// it reports an error, else the mailbox's display name and its address.
pub uninterp spec fn mailbox_of(text: Seq<char>) -> Option<(Option<Seq<char>>, Seq<char>)>;

/// Parses `text` as one mailbox with `lettre::message::Mailbox::from_str`, and
/// hands out the two fields of the mailbox that it returns: the display name
/// as it stands, and the address as the text that `lettre::Address` prints.
#[verifier::external_body]
fn parse_mailbox(text: &str) -> (parts: Option<(Option<String>, String)>)
    ensures
        parts.deep_view() == mailbox_of(text@),
{
    match lettre::message::Mailbox::from_str(text) {
        Ok(mailbox) => Some((mailbox.name, mailbox.email.to_string())),
        Err(_) => None,
    }
}

/// A mailbox's display name says nothing: there is none, or it is blank.
pub open spec fn is_nameless(name: Option<Seq<char>>) -> bool {
    match name {
        Some(text) => is_blank_text(text),
        None => true,
    }
}

/// What is decided of a parsed mailbox: an address under the organization's
/// domain, without a display name or with a blank one, is accepted, and is
/// the email that a session is keyed by; an address under another domain, or
/// one with a display name that is not blank, is turned away with the
/// address; no mailbox at all is an invalid email.
pub open spec fn mailbox_verdict(
    parts: Option<(Option<Seq<char>>, Seq<char>)>,
) -> Result<Seq<char>, NoticeView> {
    match parts {
        None => Err(NoticeView::InvalidEmail),
        Some((name, address)) => if is_nameless(name) && ends_in(address, "@uoguelph.ca"@) {
            Ok(address)
        } else {
            Err(NoticeView::WrongDomain { address })
        },
    }
}

/// Decides on a parsed mailbox.
pub fn check_mailbox(parts: Option<(Option<String>, String)>) -> (verdict: Result<String, Notice>)
    ensures
        match verdict {
            Ok(email) => mailbox_verdict(parts.deep_view()) == Ok::<Seq<char>, NoticeView>(email@),
            Err(notice) => mailbox_verdict(parts.deep_view()) == Err::<Seq<char>, NoticeView>(
                notice@,
            ),
        },
{
    match parts {
        None => Err(Notice::InvalidEmail),
        Some((name, address)) => {
            let nameless = match &name {
                Some(text) => is_blank(text.as_str()),
                None => true,
            };
            if nameless && ends_with(address.as_str(), "@uoguelph.ca") {
                Ok(address)
            } else {
                Err(Notice::WrongDomain { address })
            }
        },
    }
}

/// What is decided of a message that should name an email: its text is
/// lower-cased, parsed as a mailbox, and the mailbox judged.
pub open spec fn address_verdict(content: Seq<char>) -> Result<Seq<char>, NoticeView> {
    mailbox_verdict(mailbox_of(lowercase_of(content)))
}

/// Validates a message as a mailbox address under the organization's domain.
/// The email that comes back is lower-cased.
pub fn validate_address(content: &str) -> (verdict: Result<String, Notice>)
    ensures
        match verdict {
            Ok(email) => address_verdict(content@) == Ok::<Seq<char>, NoticeView>(email@),
            Err(notice) => address_verdict(content@) == Err::<Seq<char>, NoticeView>(notice@),
        },
{
    let lower = to_lowercase(content);
    check_mailbox(parse_mailbox(lower.as_str()))
}

/// The subject of the email that carries a code.
pub const EMAIL_SUBJECT: &'static str = "Gryphon FSAE Discord verification code";

/// The place in the email's template where the code goes.
pub const CODE_PLACEHOLDER: &'static str = "{{code}}";

/// The character of a decimal digit.
pub open spec fn digit_char(digit: nat) -> char {
    ('0' as u8 + digit) as char
}

/// A number in decimal digits, without leading zeros.
pub open spec fn decimal_digits(number: nat) -> Seq<char>
    decreases number,
{
    if number < 10 {
        seq![digit_char(number)]
    } else {
        decimal_digits(number / 10).push(digit_char(number % 10))
    }
}

/// The digits of a number spell the number.
pub proof fn lemma_decimal_digits_spell(number: nat)
    ensures
        decimal_digits(number).len() > 0,
        all_digits(decimal_digits(number)),
        decimal_value(decimal_digits(number)) == number,
        decimal_digits(number)[0] != '+',
    decreases number,
{
    let digits = decimal_digits(number);
    if number < 10 {
        assert(digits.drop_last() =~= Seq::<char>::empty());
        assert(decimal_value(digits.drop_last()) == 0);
        assert(is_digit(digits[0]));
        assert(digit_value(digits.last()) == number);
    } else {
        let upper = decimal_digits(number / 10);
        lemma_decimal_digits_spell(number / 10);
        assert(digits.drop_last() =~= upper);
        assert(is_digit(digits.last()));
        assert(digit_value(digits.last()) == number % 10);
        assert forall|i: int| 0 <= i < digits.len() implies is_digit(#[trigger] digits[i]) by {
            if i < upper.len() {
                assert(digits[i] == upper[i]);
            }
        }
        assert(digits[0] == upper[0]);
    }
}

/// The code that an email shows is the code that confirms: its digits, typed
/// back, spell it.
pub proof fn lemma_sent_code_confirms(code: u64)
    ensures
        parse_unsigned(decimal_digits(code as nat)) == Some(code),
{
    lemma_decimal_digits_spell(code as nat);
    assert(unsigned_digits(decimal_digits(code as nat)) == decimal_digits(code as nat));
}

/// The text of one decimal digit.
fn digit_text(digit: u64) -> (text: &'static str)
    requires
        digit < 10,
    ensures
        text@ == seq![digit_char(digit as nat)],
{
    proof {
        reveal_strlit("0");
        reveal_strlit("1");
        reveal_strlit("2");
        reveal_strlit("3");
        reveal_strlit("4");
        reveal_strlit("5");
        reveal_strlit("6");
        reveal_strlit("7");
        reveal_strlit("8");
        reveal_strlit("9");
    }
    let text = if digit == 0 {
        "0"
    } else if digit == 1 {
        "1"
    } else if digit == 2 {
        "2"
    } else if digit == 3 {
        "3"
    } else if digit == 4 {
        "4"
    } else if digit == 5 {
        "5"
    } else if digit == 6 {
        "6"
    } else if digit == 7 {
        "7"
    } else if digit == 8 {
        "8"
    } else {
        "9"
    };
    assert(text@ =~= seq![digit_char(digit as nat)]);
    text
}

/// Writes a number in decimal digits, without a sign and without leading
/// zeros.
pub fn decimal_text(number: u64) -> (text: String)
    ensures
        text@ == decimal_digits(number as nat),
    decreases number,
{
    if number < 10 {
        digit_text(number).to_owned()
    } else {
        let mut text = decimal_text(number / 10);
        text.append(digit_text(number % 10));
        assert(text@ =~= decimal_digits((number / 10) as nat).push(
            digit_char((number % 10) as nat),
        ));
        text
    }
}

/// The body of the email that carries a code: the template with the code's
/// decimal digits in the place of every `{{code}}`.
pub fn email_body(template: &str, code: u64) -> (body: String)
    ensures
        body@ == replaced(template@, "{{code}}"@, decimal_digits(code as nat)),
{
    let digits = decimal_text(code);
    replace_all(template, "{{code}}", digits.as_str())
}

} // verus!
