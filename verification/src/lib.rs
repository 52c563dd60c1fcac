//! Validation and normalisation of restaurant reservation requests.
//!
//! The crate checks the contact details of a party, resolves the next
//! occurrence of a requested weekday and time, and assembles the document
//! that is submitted to the reservation service.  The functions carry
//! contracts that Verus proves; the calls into `chrono`, in the module
//! `calendar`, carry contracts that are taken on trust.

pub mod error;
pub mod text;
pub mod contact;
pub mod calendar;
pub mod occurrence;
pub mod request;

pub use crate::calendar::{Date, DateTime, TimeOfDay, Weekday};
pub use crate::contact::{split_name, standardize_phone, validate_email, validate_guests};
pub use crate::error::ReservationError;
pub use crate::occurrence::{get_next_occurrence, is_tomorrow, resolve};
pub use crate::request::{
    create_body, make_spothopper_request_url, RawReservationInput, RequestDefaults,
    ReservationPayload, SpothopperRestaurants,
};
