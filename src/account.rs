//! Account decisions: how a sign-in is looked up and judged, whether a
//! visitor is signed in, and which single-field updates an administrator
//! may make.

use vstd::prelude::*;
use crate::text::{lower_of, lowercase, trim_text, trimmed, is_unset, is_unset_marker, same_text};

verus! {

/// Relies on regex's `Regex::new("(@)")` and `Regex::is_match`: the pattern
/// matches wherever an `@` occurs in the text.
#[verifier::external_body]
fn contains_at_sign(s: &str) -> (r: bool)
    ensures
        r == s@.contains('@'),
{
    regex::Regex::new(r"(@)").map_or(false, |re| re.is_match(s))
}

/// Which account a sign-in names: by e-mail when the signature holds an
/// `@`, else by username; either way lower-cased.
#[derive(Clone, Debug)]
pub enum SignInLookup {
    ByEmail(String),
    ByUsername(String),
}

pub fn sign_in_lookup(signature: &str) -> (r: SignInLookup)
    ensures
        lower_of(signature@).contains('@') ==> r is ByEmail && r->ByEmail_0@ == lower_of(signature@),
        !lower_of(signature@).contains('@') ==> r is ByUsername && r->ByUsername_0@ == lower_of(
            signature@,
        ),
{
    let lowered = lowercase(signature);
    if contains_at_sign(lowered.as_str()) {
        SignInLookup::ByEmail(lowered)
    } else {
        SignInLookup::ByUsername(lowered)
    }
}

/// The stored form of an e-mail address or username: trimmed and
/// lower-cased, so that lookups ignore case and surrounding space.
pub fn account_key(s: &str) -> (r: String)
    ensures
        r@ == lower_of(trimmed(s@)),
{
    lowercase(trim_text(s))
}

/// Why a sign-in is refused.
#[derive(Clone, Copy, Debug, PartialEq, Eq, Structural)]
pub enum SignInError {
    /// No account has that e-mail or username.
    NotRegistered,
    /// The password does not match.
    Incorrect,
    /// The account was never activated (status 0).
    NotActivated,
    /// The account is banned (status -1).
    Banned,
    /// The account's status is outside every known range.
    SecurityProblem,
}

impl SignInError {
    pub open spec fn key_spec(self) -> Seq<char> {
        match self {
            SignInError::NotRegistered => "sign-in-not-registration"@,
            SignInError::Incorrect => "sign-in-incorrect"@,
            SignInError::NotActivated => "sign-in-not-activation"@,
            SignInError::Banned => "sign-in-banned"@,
            SignInError::SecurityProblem => "sign-in-security-problem"@,
        }
    }

    /// The message key the frontend translates.
    pub fn message_key(&self) -> (r: &'static str)
        ensures
            r@ == self.key_spec(),
    {
        match self {
            SignInError::NotRegistered => "sign-in-not-registration",
            SignInError::Incorrect => "sign-in-incorrect",
            SignInError::NotActivated => "sign-in-not-activation",
            SignInError::Banned => "sign-in-banned",
            SignInError::SecurityProblem => "sign-in-security-problem",
        }
    }
}

/// The judgement on a sign-in to an account with this status, once the
/// password has been checked.
pub open spec fn sign_in_outcome_of(status: int, password_ok: bool) -> Result<(), SignInError> {
    if 1 <= status <= 10 {
        if password_ok {
            Ok(())
        } else {
            Err(SignInError::Incorrect)
        }
    } else if status == 0 {
        Err(SignInError::NotActivated)
    } else if status == -1 {
        Err(SignInError::Banned)
    } else {
        Err(SignInError::SecurityProblem)
    }
}

/// Judges a sign-in: active accounts (status 1 to 10) need the right
/// password; inactive, banned and unknown states are refused.
pub fn sign_in_outcome(status: i8, password_ok: bool) -> (r: Result<(), SignInError>)
    ensures
        r == sign_in_outcome_of(status as int, password_ok),
{
    if 1 <= status && status <= 10 {
        if password_ok {
            Ok(())
        } else {
            Err(SignInError::Incorrect)
        }
    } else if status == 0 {
        Err(SignInError::NotActivated)
    } else if status == -1 {
        Err(SignInError::Banned)
    } else {
        Err(SignInError::SecurityProblem)
    }
}

/// A visitor's sign-in state, as the username and token cookies give it.
#[derive(Clone, Debug)]
pub struct SignStatus {
    pub sign_in: bool,
    pub username: String,
    pub token: String,
}

/// The sign-in state from the cookies' values (`"-"` for a missing cookie):
/// signed in when the username, trimmed, is neither empty nor a dash.
pub fn sign_status(username: String, token: String) -> (r: SignStatus)
    ensures
        r.sign_in == !is_unset_marker(trimmed(username@)),
        r.username == username,
        r.token == token,
{
    let sign_in = !is_unset(trim_text(username.as_str()));
    SignStatus { sign_in, username, token }
}

pub open spec fn is_digit(c: char) -> bool {
    '0' as u32 <= c as u32 && c as u32 <= '9' as u32
}

/// The number a string of decimal digits spells.
pub open spec fn digits_value(s: Seq<char>) -> nat
    decreases s.len(),
{
    if s.len() == 0 {
        0
    } else {
        digits_value(s.drop_last()) * 10 + (s.last() as u32 - '0' as u32) as nat
    }
}

pub open spec fn all_digits(s: Seq<char>) -> bool {
    s.len() > 0 && forall|i: int| 0 <= i < s.len() ==> is_digit(#[trigger] s[i])
}

/// The integer a text spells in Rust's `FromStr` form for integers: an
/// optional `+` or `-`, then at least one decimal digit.
pub open spec fn integer_of(s: Seq<char>) -> Option<int> {
    if s.len() > 0 && s[0] == '-' && all_digits(s.skip(1)) {
        Some(-digits_value(s.skip(1)))
    } else if s.len() > 0 && s[0] == '+' && all_digits(s.skip(1)) {
        Some(digits_value(s.skip(1)) as int)
    } else if all_digits(s) {
        Some(digits_value(s) as int)
    } else {
        None
    }
}

/// Relies on `i32`'s `FromStr`: an optional sign and decimal digits, and an
/// error when the text has another form or the value does not fit.
#[verifier::external_body]
fn parse_i32(s: &str) -> (r: Option<i32>)
    ensures
        r is Some <==> (integer_of(s@) is Some && i32::MIN <= integer_of(s@)->Some_0 <= i32::MAX),
        r is Some ==> r->Some_0 == integer_of(s@)->Some_0,
{
    s.parse::<i32>().ok()
}

/// Relies on `i64`'s `FromStr`: an optional sign and decimal digits, and an
/// error when the text has another form or the value does not fit.
#[verifier::external_body]
fn parse_i64(s: &str) -> (r: Option<i64>)
    ensures
        r is Some <==> (integer_of(s@) is Some && i64::MIN <= integer_of(s@)->Some_0 <= i64::MAX),
        r is Some ==> r->Some_0 == integer_of(s@)->Some_0,
{
    s.parse::<i64>().ok()
}

/// A counter of a project that an administrator may bump.
#[derive(Clone, Copy, Debug, PartialEq, Eq, Structural)]
pub enum Counter {
    Hits,
    Applicants,
}

/// A single-field update of a record.
#[derive(Clone, Copy, Debug, PartialEq, Eq, Structural)]
pub enum FieldUpdate {
    /// Set `status` (and, for projects, stamp `updated_at`).
    SetStatus(i32),
    /// Add to a counter.
    Increment(Counter, i64),
    /// The field may not be changed this way; the record stays as it is.
    NoChange,
}

/// The value given for a field is not a number of the field's kind.
#[derive(Clone, Copy, Debug, PartialEq, Eq, Structural)]
pub struct BadFieldValue;

/// The update that a project field name and value ask for.
pub fn project_field_update(field_name: &str, field_val: &str) -> (r: Result<
    FieldUpdate,
    BadFieldValue,
>)
    ensures
        field_name@ == "status"@ ==> match integer_of(field_val@) {
            Some(v) if i32::MIN <= v <= i32::MAX => r == Ok::<FieldUpdate, BadFieldValue>(
                FieldUpdate::SetStatus(v as i32),
            ),
            _ => r == Err::<FieldUpdate, BadFieldValue>(BadFieldValue),
        },
        (field_name@ == "hits"@ || field_name@ == "applicants"@) ==> match integer_of(field_val@) {
            Some(v) if i64::MIN <= v <= i64::MAX => r == Ok::<FieldUpdate, BadFieldValue>(
                FieldUpdate::Increment(
                    if field_name@ == "hits"@ {
                        Counter::Hits
                    } else {
                        Counter::Applicants
                    },
                    v as i64,
                ),
            ),
            _ => r == Err::<FieldUpdate, BadFieldValue>(BadFieldValue),
        },
        field_name@ != "status"@ && field_name@ != "hits"@ && field_name@ != "applicants"@ ==> r
            == Ok::<FieldUpdate, BadFieldValue>(FieldUpdate::NoChange),
{
    proof {
        reveal_strlit("status");
        reveal_strlit("hits");
        reveal_strlit("applicants");
        assert("hits"@.len() != "status"@.len());
        assert("applicants"@.len() != "status"@.len());
        assert("applicants"@.len() != "hits"@.len());
    }
    if same_text(field_name, "status") {
        match parse_i32(field_val) {
            Some(v) => Ok(FieldUpdate::SetStatus(v)),
            None => Err(BadFieldValue),
        }
    } else if same_text(field_name, "hits") || same_text(field_name, "applicants") {
        let counter = if same_text(field_name, "hits") {
            Counter::Hits
        } else {
            Counter::Applicants
        };
        match parse_i64(field_val) {
            Some(v) => Ok(FieldUpdate::Increment(counter, v)),
            None => Err(BadFieldValue),
        }
    } else {
        Ok(FieldUpdate::NoChange)
    }
}

/// The update that a user field name and value ask for: only `status` may
/// be set this way.
pub fn user_field_update(field_name: &str, field_val: &str) -> (r: Result<
    FieldUpdate,
    BadFieldValue,
>)
    ensures
        field_name@ == "status"@ ==> match integer_of(field_val@) {
            Some(v) if i32::MIN <= v <= i32::MAX => r == Ok::<FieldUpdate, BadFieldValue>(
                FieldUpdate::SetStatus(v as i32),
            ),
            _ => r == Err::<FieldUpdate, BadFieldValue>(BadFieldValue),
        },
        field_name@ != "status"@ ==> r == Ok::<FieldUpdate, BadFieldValue>(FieldUpdate::NoChange),
{
    if same_text(field_name, "status") {
        match parse_i32(field_val) {
            Some(v) => Ok(FieldUpdate::SetStatus(v)),
            None => Err(BadFieldValue),
        }
    } else {
        Ok(FieldUpdate::NoChange)
    }
}

} // verus!
