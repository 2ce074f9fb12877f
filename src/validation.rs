use crate::dates::{date_not_after, today, Date};
use vstd::prelude::*;
use vstd::utf8::encode_utf8;

verus! {

/// The shape that an e-mail address must have.
pub const EMAIL_PATTERN: &'static str = r"^\w+([-+.']\w+)*@\w+([-.]\w+)*\.\w+([-.]\w+)*$";

/// Whether the `regex` crate finds a match of `pattern` in `text`.
pub uninterp spec fn regex_finds(pattern: Seq<char>, text: Seq<char>) -> bool;

/// Relies on `regex::Regex::new`, which compiles the address pattern (a
/// valid pattern well under the size limit), and `Regex::is_match`, whose
/// answer depends on the pattern and the text alone.
#[verifier::external_body]
fn regex_is_match(pattern: &str, text: &str) -> (r: bool)
    requires
        pattern@ == EMAIL_PATTERN@,
    ensures
        r == regex_finds(pattern@, text@),
{
    regex::Regex::new(pattern).unwrap().is_match(text)
}

/// Length of a string in bytes of UTF-8.
pub open spec fn byte_len(s: Seq<char>) -> int {
    encode_utf8(s).len() as int
}

/// A name is at most 100 bytes long.
pub fn check_name(name: &String) -> (r: bool)
    ensures
        r == (byte_len(name@) <= 100),
{
    name.as_str().as_bytes().len() <= 100
}

/// An address is accepted when it is at most 254 bytes long and `matched`,
/// the answer of the address pattern, holds.
pub fn email_accepted(email: &String, matched: bool) -> (r: bool)
    ensures
        r == (byte_len(email@) <= 254 && matched),
{
    email.as_str().as_bytes().len() <= 254 && matched
}

/// An e-mail address is at most 254 bytes long and has the shape of
/// `EMAIL_PATTERN`.
pub fn check_email(email: &String) -> (r: bool)
    ensures
        r == (byte_len(email@) <= 254 && regex_finds(EMAIL_PATTERN@, email@)),
{
    let m = regex_is_match(EMAIL_PATTERN, email.as_str());
    email_accepted(email, m)
}

/// A gender code is `M` or `F`.
pub fn check_gender(gender: char) -> (r: bool)
    ensures
        r == (gender == 'M' || gender == 'F'),
{
    gender == 'M' || gender == 'F'
}

/// A weight is positive.
pub fn check_weight(weight: u64) -> (r: bool)
    ensures
        r == (weight > 0),
{
    weight > 0
}

/// Whether the date exists in the calendar.
pub fn is_valid_date(date: &Date) -> (r: bool)
    ensures
        r == date.valid(),
{
    if date.month < 1 || date.month > 12 || date.day < 1 {
        return false;
    }
    let leap: bool = (date.year % 4 == 0 && date.year % 100 != 0) || date.year % 400 == 0;
    let days: u32 = if date.month == 2 {
        if leap {
            29
        } else {
            28
        }
    } else if date.month == 4 || date.month == 6 || date.month == 9 || date.month == 11 {
        30
    } else {
        31
    };
    date.day <= days
}

/// A birthdate is a date of the calendar that is not after `today`.
pub fn birthdate_acceptable(date: &Date, today: &Date) -> (r: bool)
    ensures
        r == (date.valid() && date.not_after(*today)),
{
    is_valid_date(date) && date_not_after(date, today)
}

/// A birthdate is a date of the calendar that is not in the future.
pub fn check_birthdate(date: &Date) -> (r: bool)
    ensures
        exists|t: Date| t.valid() && r == (date.valid() && date.not_after(t)),
{
    let t = today();
    birthdate_acceptable(date, &t)
}

/// A password is at most 255 bytes long.
pub fn check_password(password: &String) -> (r: bool)
    ensures
        r == (byte_len(password@) <= 255),
{
    password.as_str().as_bytes().len() <= 255
}

/// The fields of a registration.
#[derive(Clone, Debug)]
pub struct RegisterForm {
    pub name: String,
    pub birthdate: Date,
    pub email: String,
    pub password: String,
    pub gender: char,
    pub weight: u64,
}

/// A registration is acceptable on the day `today` when each of its fields
/// passes its check.
pub open spec fn registration_ok(form: RegisterForm, today: Date) -> bool {
    &&& byte_len(form.name@) <= 100
    &&& form.birthdate.valid()
    &&& form.birthdate.not_after(today)
    &&& byte_len(form.email@) <= 254
    &&& regex_finds(EMAIL_PATTERN@, form.email@)
    &&& byte_len(form.password@) <= 255
    &&& (form.gender == 'M' || form.gender == 'F')
    &&& form.weight > 0
}

/// Whether a registration passes every check on the day `today`.
pub fn registration_acceptable(form: &RegisterForm, today: &Date) -> (r: bool)
    ensures
        r == registration_ok(*form, *today),
{
    check_name(&form.name) && birthdate_acceptable(&form.birthdate, today) && check_email(
        &form.email,
    ) && check_password(&form.password) && check_gender(form.gender) && check_weight(form.weight)
}

/// Whether a registration passes every check as of the current date.
pub fn validate_registration(form: &RegisterForm) -> (r: bool)
    ensures
        exists|t: Date| t.valid() && r == registration_ok(*form, t),
{
    let t = today();
    registration_acceptable(form, &t)
}

} // verus!
