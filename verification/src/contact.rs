//! Checks and normal forms of the contact details of a party: the name,
//! the email address, the phone number and the number of guests.

use vstd::prelude::*;
use vstd::string::*;
use crate::error::{rejection_of, Rejection, ReservationError};
use crate::text::{
    digit_char, find_first, first_of, is_digit, is_space, lemma_first_of_is_least,
    lemma_first_of_without, CharClass,
};

verus! {

/// The largest party that can be booked.
pub const MAX_GUESTS: u8 = 10;

/// The number of digits of a phone number.
pub const PHONE_DIGITS: usize = 10;

/// The first and last name that `name` splits into: the text before the
/// first whitespace, and the text behind the whitespace that follows it.
/// `None` where no text stands before the first whitespace, which includes
/// the empty name.
pub open spec fn name_parts(name: Seq<char>) -> Option<(Seq<char>, Seq<char>)> {
    let end = first_of(name, 0, CharClass::Space);
    let next = first_of(name, end, CharClass::NonSpace);
    if end == 0 {
        None
    } else {
        Some((name.subrange(0, end), name.subrange(next, name.len() as int)))
    }
}

/// Splits a full name at its first run of whitespace into first and last
/// name.  The last name is empty where nothing follows the first token.
pub fn split_name(name: &str) -> (result: Result<(&str, &str), ReservationError>)
    ensures
        match result {
            Ok((first, last)) => name_parts(name@) == Some((first@, last@)) && first@.len() > 0,
            Err(e) => name_parts(name@).is_none() && e@ == Rejection::InvalidName(name@),
        },
{
    let len = name.unicode_len();
    let end = find_first(name, 0, len, CharClass::Space);
    if end == 0 {
        return Err(ReservationError::InvalidName(name.to_owned()));
    }
    let next = find_first(name, end, len, CharClass::NonSpace);
    Ok((name.substring_char(0, end), name.substring_char(next, len)))
}

/// A first name holds no whitespace and is not empty; the last name does
/// not begin with whitespace.
pub proof fn lemma_name_parts_shape(name: Seq<char>)
    requires
        name_parts(name).is_some(),
    ensures
        name_parts(name).unwrap().0.len() > 0,
        forall|k: int|
            0 <= k < name_parts(name).unwrap().0.len() ==> !is_space(
                #[trigger] name_parts(name).unwrap().0[k],
            ),
        name_parts(name).unwrap().1.len() > 0 ==> !is_space(name_parts(name).unwrap().1[0]),
        name_parts(name).unwrap().0.is_prefix_of(name),
        name_parts(name).unwrap().1.is_suffix_of(name),
{
    let end = first_of(name, 0, CharClass::Space);
    lemma_first_of_is_least(name, 0, CharClass::Space);
    lemma_first_of_is_least(name, end, CharClass::NonSpace);
    let next = first_of(name, end, CharClass::NonSpace);
    let first = name.subrange(0, end);
    let last = name.subrange(next, name.len() as int);
    assert forall|k: int| 0 <= k < first.len() implies !is_space(#[trigger] first[k]) by {
        assert(first[k] == name[k]);
        assert(!CharClass::Space.holds(name[k]));
    }
    if last.len() > 0 {
        assert(last[0] == name[next]);
        assert(CharClass::NonSpace.holds(name[next]));
    }
    assert(first =~= name.subrange(0, first.len() as int));
    assert(last =~= name.subrange(name.len() - last.len(), name.len() as int));
}

/// Splitting stops at the end of the first token: a first name splits into
/// itself and an empty last name, with or without a space behind it.
pub proof fn lemma_split_first_name_again(name: Seq<char>)
    requires
        name_parts(name).is_some(),
    ensures
        name_parts(name_parts(name).unwrap().0) == Some(
            (name_parts(name).unwrap().0, Seq::<char>::empty()),
        ),
        name_parts(name_parts(name).unwrap().0.push(' ')) == Some(
            (name_parts(name).unwrap().0, Seq::<char>::empty()),
        ),
{
    lemma_name_parts_shape(name);
    let first = name_parts(name).unwrap().0;
    assert forall|k: int| 0 <= k < first.len() implies !CharClass::Space.holds(
        #[trigger] first[k],
    ) by {
        assert(!is_space(first[k]));
    }
    lemma_first_of_without(first, 0, CharClass::Space);
    assert(first_of(first, first.len() as int, CharClass::NonSpace) == first.len());
    assert(first.subrange(0, first.len() as int) =~= first);
    assert(first.subrange(first.len() as int, first.len() as int) =~= Seq::<char>::empty());

    let spaced = first.push(' ');
    let n = first.len() as int;
    lemma_first_of_is_least(spaced, 0, CharClass::Space);
    let end = first_of(spaced, 0, CharClass::Space);
    assert(end == n) by {
        if end < n {
            assert(spaced[end] == first[end]);
            assert(!is_space(first[end]));
        } else if end > n {
            assert(CharClass::Space.holds(spaced[n]));
        }
    }
    assert(first_of(spaced, n, CharClass::NonSpace) == n + 1) by {
        assert(!CharClass::NonSpace.holds(spaced[n]));
        assert(first_of(spaced, n + 1, CharClass::NonSpace) == n + 1);
    }
    assert(spaced.subrange(0, n) =~= first);
    assert(spaced.subrange(n + 1, n + 1) =~= Seq::<char>::empty());
}

/// The part of an email address behind its first `@`; empty where it holds
/// none.
pub open spec fn email_domain(email: Seq<char>) -> Seq<char> {
    let at = first_of(email, 0, CharClass::Exactly('@'));
    if at < email.len() {
        email.subrange(at + 1, email.len() as int)
    } else {
        Seq::empty()
    }
}

/// What is wrong with an email address, if anything.  The checks are made
/// in this order: the address is not empty; it holds an `@`; the domain
/// behind the first `@` holds a `.`; text stands on both sides of the first
/// `.` of the domain.
pub open spec fn email_fault(email: Seq<char>) -> Option<Rejection> {
    let at = first_of(email, 0, CharClass::Exactly('@'));
    let domain = email_domain(email);
    let dot = first_of(domain, 0, CharClass::Exactly('.'));
    if email.len() == 0 {
        Some(Rejection::EmailRequired)
    } else if at == email.len() {
        Some(Rejection::EmailMissingAt(email))
    } else if dot == domain.len() {
        Some(Rejection::DomainMissingDot(email))
    } else if dot == 0 || dot + 1 == domain.len() {
        Some(Rejection::InvalidDomain(email))
    } else {
        None
    }
}

/// Checks the structure of an email address: a local part, an `@`, and a
/// domain of at least two non-empty labels.
pub fn validate_email(email: &str) -> (result: Result<(), ReservationError>)
    ensures
        rejection_of(result) == email_fault(email@),
{
    let len = email.unicode_len();
    if len == 0 {
        return Err(ReservationError::EmailRequired);
    }
    let at = find_first(email, 0, len, CharClass::Exactly('@'));
    if at == len {
        return Err(ReservationError::EmailMissingAt(email.to_owned()));
    }
    let domain = email.substring_char(at + 1, len);
    let domain_len = len - at - 1;
    let dot = find_first(domain, 0, domain_len, CharClass::Exactly('.'));
    if dot == domain_len {
        return Err(ReservationError::DomainMissingDot(email.to_owned()));
    }
    if dot == 0 || dot + 1 == domain_len {
        return Err(ReservationError::InvalidDomain(email.to_owned()));
    }
    Ok(())
}

/// An accepted email address holds an `@`, and the domain behind the first
/// one holds a `.` with at least one character on each side of it.
pub proof fn lemma_accepted_email_shape(email: Seq<char>)
    requires
        email_fault(email).is_none(),
    ensures
        exists|at: int, dot: int|
            0 <= at < dot - 1 && dot < email.len() - 1 && email[at] == '@' && email[dot] == '.',
{
    let at = first_of(email, 0, CharClass::Exactly('@'));
    let domain = email_domain(email);
    let dot = first_of(domain, 0, CharClass::Exactly('.'));
    lemma_first_of_is_least(email, 0, CharClass::Exactly('@'));
    lemma_first_of_is_least(domain, 0, CharClass::Exactly('.'));
    assert(domain[dot] == email[at + 1 + dot]);
    let d = at + 1 + dot;
    assert(0 <= at < d - 1 && d < email.len() - 1 && email[at] == '@' && email[d] == '.');
}

/// The digits of `s`, in their order.
pub open spec fn digits_of(s: Seq<char>) -> Seq<char>
    decreases s.len(),
{
    if s.len() == 0 {
        Seq::empty()
    } else if is_digit(s.last()) {
        digits_of(s.drop_last()).push(s.last())
    } else {
        digits_of(s.drop_last())
    }
}

/// Ten digits laid out as a phone number: the area code in parentheses, a
/// space, the exchange, a hyphen, and the line number.
pub open spec fn phone_layout(d: Seq<char>) -> Seq<char> {
    seq!['('] + d.subrange(0, 3) + seq![')', ' '] + d.subrange(3, 6) + seq!['-'] + d.subrange(
        6,
        10,
    )
}

/// The canonical form of a phone number: the layout of its digits where
/// there are exactly ten of them, and `None` otherwise.
pub open spec fn canonical_phone(phone: Seq<char>) -> Option<Seq<char>> {
    if digits_of(phone).len() == PHONE_DIGITS {
        Some(phone_layout(digits_of(phone)))
    } else {
        None
    }
}

/// Collects the digits of `phone`.
fn collect_digits(phone: &str) -> (r: (String, usize))
    ensures
        r.0@ == digits_of(phone@),
        r.1 == r.0@.len(),
{
    let len = phone.unicode_len();
    let mut digits = String::new();
    let mut count: usize = 0;
    let mut i: usize = 0;
    while i < len
        invariant
            len == phone@.len(),
            i <= len,
            count <= i,
            count == digits@.len(),
            digits@ == digits_of(phone@.subrange(0, i as int)),
        decreases len - i,
    {
        proof {
            assert(phone@.subrange(0, i + 1).drop_last() == phone@.subrange(0, i as int));
        }
        if digit_char(phone.get_char(i)) {
            let one = phone.substring_char(i, i + 1);
            proof {
                assert(one@ == seq![phone@[i as int]]);
                assert(digits@ + one@ == digits@.push(phone@[i as int]));
            }
            digits.append(one);
            count += 1;
        }
        i += 1;
    }
    proof {
        assert(phone@.subrange(0, len as int) == phone@);
    }
    (digits, count)
}

/// Brings a phone number into the form `(AAA) BBB-CCCC`.  Every character
/// that is not a digit is ignored; exactly ten digits must remain.
pub fn standardize_phone(phone: &str) -> (result: Result<String, ReservationError>)
    ensures
        match result {
            Ok(text) => canonical_phone(phone@) == Some(text@),
            Err(e) => canonical_phone(phone@).is_none() && e@ == Rejection::InvalidPhoneLength(
                phone@,
            ),
        },
{
    let (digits, count) = collect_digits(phone);
    if count != PHONE_DIGITS {
        return Err(ReservationError::InvalidPhoneLength(phone.to_owned()));
    }
    let d = digits.as_str();
    let mut text = String::new();
    proof {
        reveal_strlit("(");
        reveal_strlit(") ");
        reveal_strlit("-");
        assert("("@ == seq!['(']);
        assert(") "@ == seq![')', ' ']);
        assert("-"@ == seq!['-']);
    }
    text.append("(");
    text.append(d.substring_char(0, 3));
    text.append(") ");
    text.append(d.substring_char(3, 6));
    text.append("-");
    text.append(d.substring_char(6, 10));
    proof {
        assert(text@ == phone_layout(digits@));
    }
    Ok(text)
}

/// Adding a character that is no digit anywhere in a text leaves its digits
/// as they were.
pub proof fn lemma_digits_ignore_punctuation(s: Seq<char>, at: int, c: char)
    requires
        0 <= at <= s.len(),
        !is_digit(c),
    ensures
        digits_of(s.insert(at, c)) == digits_of(s),
    decreases s.len(),
{
    let t = s.insert(at, c);
    if at == s.len() {
        assert(t.drop_last() == s);
    } else {
        assert(t.last() == s.last());
        assert(t.drop_last() == s.drop_last().insert(at, c));
        lemma_digits_ignore_punctuation(s.drop_last(), at, c);
    }
}

/// The canonical form depends on the digits alone: two phone numbers with
/// the same digits have the same canonical form, whatever stands between
/// the digits, and a phone number that has one has exactly ten digits.
pub proof fn lemma_canonical_phone_by_digits(a: Seq<char>, b: Seq<char>)
    requires
        digits_of(a) == digits_of(b),
    ensures
        canonical_phone(a) == canonical_phone(b),
        canonical_phone(a).is_some() <==> digits_of(a).len() == 10,
        canonical_phone(a).is_some() ==> canonical_phone(a).unwrap().len() == 14,
{
}

/// What is wrong with a number of guests, if anything: a party has at
/// least one guest and at most [`MAX_GUESTS`].
pub open spec fn guests_fault(guests: u8) -> Option<Rejection> {
    if guests == 0 {
        Some(Rejection::GuestsRequired)
    } else if guests > MAX_GUESTS {
        Some(Rejection::TooManyGuests(guests))
    } else {
        None
    }
}

/// Checks that the number of guests lies between one and [`MAX_GUESTS`].
pub fn validate_guests(guests: u8) -> (result: Result<(), ReservationError>)
    ensures
        rejection_of(result) == guests_fault(guests),
        result.is_ok() <==> 1 <= guests <= 10,
{
    if guests == 0 {
        return Err(ReservationError::GuestsRequired);
    }
    if guests > MAX_GUESTS {
        return Err(ReservationError::TooManyGuests(guests));
    }
    Ok(())
}

} // verus!
