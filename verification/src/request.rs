//! The reservation request: the raw input of a party, the document that is
//! submitted for it, and the address that the document is sent to.

use vstd::prelude::*;
use vstd::string::*;
use crate::calendar::{
    clock_reading, clock_text, format_clock, weekday_named, Date, DateTime,
};
use crate::contact::{
    canonical_phone, email_fault, guests_fault, name_parts, split_name, standardize_phone,
    validate_email, validate_guests,
};
use crate::error::{Rejection, ReservationError};
use crate::occurrence::{first_on_or_after, get_next_occurrence, is_tomorrow};
use crate::text::{decimal, decimal_text};

verus! {

/// What a party enters to ask for a table.
#[derive(Clone, Debug, PartialEq, Eq)]
pub struct RawReservationInput {
    /// The full name of the party.
    pub name: String,
    /// The number of guests.
    pub guests: u8,
    /// The email address of the party.
    pub email: String,
    /// The phone number of the party, in any punctuation.
    pub phone: String,
    /// The weekday asked for.
    pub day: String,
    /// The time asked for, on the twelve-hour clock.
    pub time: String,
    /// Anything the party wants the restaurant to know.
    pub instructions: Option<String>,
}

/// The time of a reservation as it is submitted.
#[derive(Clone, Debug, PartialEq, Eq)]
pub struct TimeSlot {
    /// The time on the twelve-hour clock.
    pub time: String,
    /// Whether the reservation is for the day after the request.
    pub next_day: bool,
}

/// The fields of the form that is submitted.
#[derive(Clone, Debug, PartialEq, Eq)]
pub struct FormFields {
    pub number_of_guests: u8,
    pub first_name: String,
    pub last_name: String,
    pub email: String,
    pub phone: String,
    pub year: i32,
    pub month: u32,
    pub date: u32,
    pub time: TimeSlot,
    pub space: String,
    pub instructions: Option<String>,
    pub texting_permission: bool,
}

/// The document that is submitted for a reservation.
#[derive(Clone, Debug, PartialEq, Eq)]
pub struct ReservationPayload {
    pub form_category: String,
    pub form_fields: FormFields,
}

/// What a party cannot choose yet, with the value that stands in for each
/// choice.
#[derive(Clone, Debug, PartialEq, Eq)]
pub struct RequestDefaults {
    /// Where the party is seated.
    pub space: String,
    /// Whether the restaurant may send the party text messages.
    pub texting_permission: bool,
}

impl RequestDefaults {
    /// The values in use: a table indoors, and no permission to text.
    pub fn standard() -> (defaults: RequestDefaults)
        ensures
            defaults.space@ == "Indoors"@,
            defaults.texting_permission == false,
    {
        RequestDefaults { space: String::from_str("Indoors"), texting_permission: false }
    }
}

/// The text of optional instructions.
pub open spec fn optional_text(text: Option<String>) -> Option<Seq<char>> {
    match text {
        Some(s) => Some(s@),
        None => None,
    }
}

impl ReservationPayload {
    /// Whether this is the document for a party with the given details, a
    /// table at `found`, and the given seating and permission to text.
    pub open spec fn holds(
        self,
        guests: u8,
        first: Seq<char>,
        last: Seq<char>,
        email: Seq<char>,
        phone: Seq<char>,
        found: DateTime,
        next_day: bool,
        instructions: Option<Seq<char>>,
        space: Seq<char>,
        texting_permission: bool,
    ) -> bool {
        &&& self.form_category@ == "Reservation"@
        &&& self.form_fields.number_of_guests == guests
        &&& self.form_fields.first_name@ == first
        &&& self.form_fields.last_name@ == last
        &&& self.form_fields.email@ == email
        &&& self.form_fields.phone@ == phone
        &&& self.form_fields.year == found.date.year
        &&& self.form_fields.month == found.date.month
        &&& self.form_fields.date == found.date.day
        &&& self.form_fields.time.time@ == clock_text(found.time)
        &&& self.form_fields.time.next_day == next_day
        &&& self.form_fields.space@ == space
        &&& optional_text(self.form_fields.instructions) == instructions
        &&& self.form_fields.texting_permission == texting_permission
    }
}

/// Puts the checked details of a party and the table found for it into the
/// document that is submitted.
pub fn assemble(
    guests: u8,
    first: &str,
    last: &str,
    email: &str,
    phone: String,
    found: &DateTime,
    next_day: bool,
    instructions: &Option<String>,
    defaults: &RequestDefaults,
) -> (payload: ReservationPayload)
    requires
        found.time.is_valid(),
    ensures
        payload.holds(
            guests,
            first@,
            last@,
            email@,
            phone@,
            *found,
            next_day,
            optional_text(*instructions),
            defaults.space@,
            defaults.texting_permission,
        ),
{
    let note = match instructions {
        Some(text) => Some(text.clone()),
        None => None,
    };
    ReservationPayload {
        form_category: String::from_str("Reservation"),
        form_fields: FormFields {
            number_of_guests: guests,
            first_name: String::from_str(first),
            last_name: String::from_str(last),
            email: String::from_str(email),
            phone,
            year: found.date.year,
            month: found.date.month,
            date: found.date.day,
            time: TimeSlot { time: format_clock(&found.time), next_day },
            space: defaults.space.clone(),
            instructions: note,
            texting_permission: defaults.texting_permission,
        },
    }
}

/// The first thing that is wrong with a request, if anything.  The checks
/// are made in this order: the name, the email address, the weekday, the
/// time, the number of guests, the phone number.
pub open spec fn first_fault(input: RawReservationInput) -> Option<Rejection> {
    if name_parts(input.name@).is_none() {
        Some(Rejection::InvalidName(input.name@))
    } else if email_fault(input.email@).is_some() {
        email_fault(input.email@)
    } else if weekday_named(input.day@).is_none() {
        Some(Rejection::InvalidDay(input.day@))
    } else if clock_reading(input.time@).is_none() {
        Some(Rejection::InvalidTime(input.time@))
    } else if guests_fault(input.guests).is_some() {
        guests_fault(input.guests)
    } else if canonical_phone(input.phone@).is_none() {
        Some(Rejection::InvalidPhoneLength(input.phone@))
    } else {
        None
    }
}

/// The table that a request without fault asks for, counted from `today`.
pub open spec fn requested_table(input: RawReservationInput, today: Date) -> DateTime {
    DateTime {
        date: first_on_or_after(today, weekday_named(input.day@).unwrap()),
        time: clock_reading(input.time@).unwrap(),
    }
}

/// Checks a request and builds the document to submit for it, with the
/// standard seating and permission to text.  The first fault found rejects
/// the request, and nothing is built.
pub fn create_body(input: &RawReservationInput, today: &Date) -> (result: Result<
    ReservationPayload,
    ReservationError,
>)
    requires
        today.is_valid(),
        today.has_week_ahead(),
    ensures
        match result {
            Ok(payload) => first_fault(*input).is_none() && payload.holds(
                input.guests,
                name_parts(input.name@).unwrap().0,
                name_parts(input.name@).unwrap().1,
                input.email@,
                canonical_phone(input.phone@).unwrap(),
                requested_table(*input, *today),
                requested_table(*input, *today).date == today.next(),
                optional_text(input.instructions),
                "Indoors"@,
                false,
            ),
            Err(e) => first_fault(*input) == Some(e@),
        },
{
    let (first, last) = match split_name(input.name.as_str()) {
        Ok(parts) => parts,
        Err(e) => {
            return Err(e);
        },
    };
    match validate_email(input.email.as_str()) {
        Ok(_) => {},
        Err(e) => {
            return Err(e);
        },
    }
    let found = match get_next_occurrence(today, input.day.as_str(), input.time.as_str()) {
        Ok(found) => found,
        Err(e) => {
            return Err(e);
        },
    };
    match validate_guests(input.guests) {
        Ok(_) => {},
        Err(e) => {
            return Err(e);
        },
    }
    let phone = match standardize_phone(input.phone.as_str()) {
        Ok(phone) => phone,
        Err(e) => {
            return Err(e);
        },
    };
    let next_day = is_tomorrow(today, &found);
    Ok(
        assemble(
            input.guests,
            first,
            last,
            input.email.as_str(),
            phone,
            &found,
            next_day,
            &input.instructions,
            &RequestDefaults::standard(),
        ),
    )
}

/// The restaurants that take reservations through the service.
#[derive(Clone, Copy, Debug, PartialEq, Eq, Structural)]
pub enum SpothopperRestaurants {
    Slainte,
}

impl SpothopperRestaurants {
    /// The number by which the service knows the restaurant.
    pub open spec fn spec_code(self) -> u16 {
        match self {
            SpothopperRestaurants::Slainte => 2990,
        }
    }

    /// The number by which the service knows the restaurant.
    #[verifier::when_used_as_spec(spec_code)]
    pub fn code(self) -> (code: u16)
        ensures
            code == self.spec_code(),
    {
        match self {
            SpothopperRestaurants::Slainte => 2990,
        }
    }
}

/// The address that the reservations of `restaurant` are submitted to: the
/// service's address for reservation requests, with the number of the
/// restaurant in decimal.
pub open spec fn request_url(restaurant: SpothopperRestaurants) -> Seq<char> {
    "https://www.spothopperapp.com/api/spots/"@ + decimal(restaurant.spec_code() as int)
        + "/reservation_requests/add_from_tmt"@
}

/// Writes the address that the reservations of `restaurant` are submitted
/// to.
pub fn make_spothopper_request_url(restaurant: SpothopperRestaurants) -> (url: String)
    ensures
        url@ == request_url(restaurant),
{
    let mut url = String::from_str("https://www.spothopperapp.com/api/spots/");
    let number = decimal_text(restaurant.code());
    url.append(number.as_str());
    url.append("/reservation_requests/add_from_tmt");
    url
}

} // verus!
