//! Scanning of text for the first character of a given class.

use vstd::prelude::*;
use vstd::string::*;

verus! {

/// A class of characters that a scan stops at.
#[derive(Clone, Copy, Debug)]
pub enum CharClass {
    /// The ASCII whitespace characters.
    Space,
    /// Every character that is not ASCII whitespace.
    NonSpace,
    /// One given character.
    Exactly(char),
}

/// Whether `c` is ASCII whitespace: space, tab, line feed, form feed or
/// carriage return.
pub open spec fn is_space(c: char) -> bool {
    c == ' ' || c == '\t' || c == '\n' || c == '\x0C' || c == '\r'
}

/// Whether `c` is one of the ASCII digits `0` to `9`.
pub open spec fn is_digit(c: char) -> bool {
    '0' <= c && c <= '9'
}

/// The decimal digit that stands for `k`, a number below ten.
pub open spec fn digit_of(k: int) -> char {
    (('0' as int + k) as u8) as char
}

/// The decimal numeral of `n`, a natural number, without leading zeros.
pub open spec fn decimal(n: int) -> Seq<char>
    decreases n,
{
    if n < 10 {
        seq![digit_of(n)]
    } else {
        decimal(n / 10).push(digit_of(n % 10))
    }
}

/// The numeral of one decimal digit.
pub fn digit_text(k: u16) -> (text: &'static str)
    requires
        k < 10,
    ensures
        text@ == seq![digit_of(k as int)],
{
    proof {
        reveal_strlit("0");
        reveal_strlit("1");
        reveal_strlit("2");
        reveal_strlit("3");
        reveal_strlit("4");
        reveal_strlit("5");
        reveal_strlit("6");
        reveal_strlit("7");
        reveal_strlit("8");
        reveal_strlit("9");
    }
    let text = match k {
        0 => "0",
        1 => "1",
        2 => "2",
        3 => "3",
        4 => "4",
        5 => "5",
        6 => "6",
        7 => "7",
        8 => "8",
        _ => "9",
    };
    assert(text@ =~= seq![digit_of(k as int)]);
    text
}

/// Writes a number as a decimal numeral.
pub fn decimal_text(n: u16) -> (text: String)
    ensures
        text@ == decimal(n as int),
    decreases n,
{
    if n < 10 {
        String::from_str(digit_text(n))
    } else {
        let mut text = decimal_text(n / 10);
        text.append(digit_text(n % 10));
        assert(text@ =~= decimal(n as int));
        text
    }
}

impl CharClass {
    /// Whether `c` belongs to the class.
    pub open spec fn holds(self, c: char) -> bool {
        match self {
            CharClass::Space => is_space(c),
            CharClass::NonSpace => !is_space(c),
            CharClass::Exactly(x) => c == x,
        }
    }

    /// Decides whether `c` belongs to the class.
    pub fn contains(&self, c: char) -> (r: bool)
        ensures
            r == self.holds(c),
    {
        match self {
            CharClass::Space => space_char(c),
            CharClass::NonSpace => !space_char(c),
            CharClass::Exactly(x) => c == *x,
        }
    }
}

/// Decides whether `c` is ASCII whitespace.
pub fn space_char(c: char) -> (r: bool)
    ensures
        r == is_space(c),
{
    c == ' ' || c == '\t' || c == '\n' || c == '\x0C' || c == '\r'
}

/// Decides whether `c` is an ASCII digit.
pub fn digit_char(c: char) -> (r: bool)
    ensures
        r == is_digit(c),
{
    '0' <= c && c <= '9'
}

/// The index of the first character of `s` at or behind `from` that belongs
/// to `class`, or the length of `s` where there is none.
pub open spec fn first_of(s: Seq<char>, from: int, class: CharClass) -> int
    decreases s.len() - from,
{
    if from < 0 || from >= s.len() {
        s.len() as int
    } else if class.holds(s[from]) {
        from
    } else {
        first_of(s, from + 1, class)
    }
}

/// `first_of` is the least index at or behind `from` whose character
/// belongs to the class: nothing before it does, and it lies within `s`
/// exactly when its own character does.
pub proof fn lemma_first_of_is_least(s: Seq<char>, from: int, class: CharClass)
    requires
        0 <= from <= s.len(),
    ensures
        from <= first_of(s, from, class) <= s.len(),
        forall|k: int| from <= k < first_of(s, from, class) ==> !class.holds(#[trigger] s[k]),
        first_of(s, from, class) < s.len() ==> class.holds(s[first_of(s, from, class)]),
    decreases s.len() - from,
{
    if from < s.len() && !class.holds(s[from]) {
        lemma_first_of_is_least(s, from + 1, class);
    }
}

/// Where no character at or behind `from` belongs to the class, `first_of`
/// is the length of the text.
pub proof fn lemma_first_of_without(s: Seq<char>, from: int, class: CharClass)
    requires
        0 <= from <= s.len(),
        forall|k: int| from <= k < s.len() ==> !class.holds(#[trigger] s[k]),
    ensures
        first_of(s, from, class) == s.len(),
    decreases s.len() - from,
{
    if from < s.len() {
        lemma_first_of_without(s, from + 1, class);
    }
}

/// Finds the first character of `s` at or behind `from` that belongs to
/// `class`.  `len` is the number of characters of `s`.
pub fn find_first(s: &str, from: usize, len: usize, class: CharClass) -> (i: usize)
    requires
        len == s@.len(),
        from <= len,
    ensures
        i == first_of(s@, from as int, class),
        from <= i <= len,
{
    let mut i: usize = from;
    while i < len
        invariant
            len == s@.len(),
            from <= i <= len,
            first_of(s@, from as int, class) == first_of(s@, i as int, class),
        decreases len - i,
    {
        if class.contains(s.get_char(i)) {
            return i;
        }
        i += 1;
    }
    i
}

} // verus!
