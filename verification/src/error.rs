//! The ways in which a reservation request can be rejected.

use vstd::prelude::*;
use vstd::string::*;

verus! {

/// Why a reservation request was rejected.  Each variant keeps the input
/// that caused the rejection, where there is one worth showing.
#[derive(Debug, Clone, PartialEq, Eq)]
pub enum ReservationError {
    /// The name has no first token.
    InvalidName(String),
    /// The email address is empty.
    EmailRequired,
    /// The email address holds no `@`.
    EmailMissingAt(String),
    /// The part of the email address behind the first `@` holds no `.`.
    DomainMissingDot(String),
    /// One of the two labels around the first `.` of the domain is empty.
    InvalidDomain(String),
    /// The phone number does not hold exactly ten digits.
    InvalidPhoneLength(String),
    /// The party has no guests.
    GuestsRequired,
    /// The party is larger than the largest that can be booked.
    TooManyGuests(u8),
    /// The weekday is not an English weekday name.
    InvalidDay(String),
    /// The time is not a time on the twelve-hour clock.
    InvalidTime(String),
}

/// The mathematical content of a [`ReservationError`].
pub enum Rejection {
    InvalidName(Seq<char>),
    EmailRequired,
    EmailMissingAt(Seq<char>),
    DomainMissingDot(Seq<char>),
    InvalidDomain(Seq<char>),
    InvalidPhoneLength(Seq<char>),
    GuestsRequired,
    TooManyGuests(u8),
    InvalidDay(Seq<char>),
    InvalidTime(Seq<char>),
}

impl View for ReservationError {
    type V = Rejection;

    open spec fn view(&self) -> Rejection {
        match self {
            ReservationError::InvalidName(s) => Rejection::InvalidName(s@),
            ReservationError::EmailRequired => Rejection::EmailRequired,
            ReservationError::EmailMissingAt(s) => Rejection::EmailMissingAt(s@),
            ReservationError::DomainMissingDot(s) => Rejection::DomainMissingDot(s@),
            ReservationError::InvalidDomain(s) => Rejection::InvalidDomain(s@),
            ReservationError::InvalidPhoneLength(s) => Rejection::InvalidPhoneLength(s@),
            ReservationError::GuestsRequired => Rejection::GuestsRequired,
            ReservationError::TooManyGuests(n) => Rejection::TooManyGuests(*n),
            ReservationError::InvalidDay(s) => Rejection::InvalidDay(s@),
            ReservationError::InvalidTime(s) => Rejection::InvalidTime(s@),
        }
    }
}

impl Rejection {
    /// The sentence that tells the party what is wrong.  Where the input is
    /// shown it stands behind the sentence, a name, an email address and a
    /// phone number between quotation marks.
    pub open spec fn sentence(self) -> Seq<char> {
        match self {
            Rejection::InvalidName(s) => "Invalid name: '"@ + s + "'"@,
            Rejection::EmailRequired => "Email is required"@,
            Rejection::EmailMissingAt(_) => "Email must contain an @"@,
            Rejection::DomainMissingDot(_) => "Email domain must contain a ."@,
            Rejection::InvalidDomain(s) => "Invalid email: '"@ + s + "'"@,
            Rejection::InvalidPhoneLength(s) => "Invalid phone number: '"@ + s + "'"@,
            Rejection::GuestsRequired => "Guests must be greater than 0"@,
            Rejection::TooManyGuests(_) =>
                "Ambitious, are we? Try doing this manually for more than 10 guests."@,
            Rejection::InvalidDay(s) => "Invalid day: "@ + s,
            Rejection::InvalidTime(s) => "Invalid time: "@ + s,
        }
    }
}

/// Puts `shown` behind `lead` and `close` behind both.
fn framed(lead: &str, shown: &String, close: &str) -> (text: String)
    ensures
        text@ == lead@ + shown@ + close@,
{
    let mut text = String::from_str(lead);
    text.append(shown.as_str());
    text.append(close);
    text
}

impl ReservationError {
    /// The sentence that tells the party what is wrong.
    pub fn message(&self) -> (text: String)
        ensures
            text@ == self@.sentence(),
    {
        match self {
            ReservationError::InvalidName(s) => framed("Invalid name: '", s, "'"),
            ReservationError::EmailRequired => String::from_str("Email is required"),
            ReservationError::EmailMissingAt(_) => String::from_str("Email must contain an @"),
            ReservationError::DomainMissingDot(_) => String::from_str(
                "Email domain must contain a .",
            ),
            ReservationError::InvalidDomain(s) => framed("Invalid email: '", s, "'"),
            ReservationError::InvalidPhoneLength(s) => framed("Invalid phone number: '", s, "'"),
            ReservationError::GuestsRequired => String::from_str("Guests must be greater than 0"),
            ReservationError::TooManyGuests(_) => String::from_str(
                "Ambitious, are we? Try doing this manually for more than 10 guests.",
            ),
            ReservationError::InvalidDay(s) => {
                let mut text = String::from_str("Invalid day: ");
                text.append(s.as_str());
                text
            },
            ReservationError::InvalidTime(s) => {
                let mut text = String::from_str("Invalid time: ");
                text.append(s.as_str());
                text
            },
        }
    }
}

/// The rejection that a check reports, if any: `None` for a check that passed.
pub open spec fn rejection_of<T>(outcome: Result<T, ReservationError>) -> Option<Rejection> {
    match outcome {
        Ok(_) => None,
        Err(e) => Some(e@),
    }
}

} // verus!
