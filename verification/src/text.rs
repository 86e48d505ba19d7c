//! Building the texts that the engine and the dashboard need.

use vstd::prelude::*;
use vstd::string::*;
use vstd::utf8::*;

verus! {

/// The texts of a sequence of strings.
pub open spec fn texts(strings: Seq<String>) -> Seq<Seq<char>> {
    Seq::new(strings.len(), |i: int| strings[i]@)
}

/// The parts in order, with the separator between each two neighbours.
pub open spec fn joined(parts: Seq<Seq<char>>, sep: Seq<char>) -> Seq<char>
    decreases parts.len(),
{
    if parts.len() == 0 {
        Seq::empty()
    } else if parts.len() == 1 {
        parts[0]
    } else {
        joined(parts.drop_last(), sep) + sep + parts.last()
    }
}

/// The parts in order, one after the other.
pub open spec fn concat(parts: Seq<Seq<char>>) -> Seq<char>
    decreases parts.len(),
{
    if parts.len() == 0 {
        Seq::empty()
    } else {
        concat(parts.drop_last()) + parts.last()
    }
}

/// The character of one decimal digit.
pub open spec fn digit(d: nat) -> char {
    if d == 0 {
        '0'
    } else if d == 1 {
        '1'
    } else if d == 2 {
        '2'
    } else if d == 3 {
        '3'
    } else if d == 4 {
        '4'
    } else if d == 5 {
        '5'
    } else if d == 6 {
        '6'
    } else if d == 7 {
        '7'
    } else if d == 8 {
        '8'
    } else {
        '9'
    }
}

/// A number in decimal, without leading zeros.
pub open spec fn decimal(n: nat) -> Seq<char>
    decreases n,
{
    if n < 10 {
        seq![digit(n)]
    } else {
        decimal(n / 10).push(digit(n % 10))
    }
}

/// Joins the strings with the separator between each two neighbours.
pub fn join(parts: &Vec<String>, sep: &str) -> (text: String)
    ensures
        text@ == joined(texts(parts@), sep@),
{
    let mut text = String::new();
    let mut i: usize = 0;
    while i < parts.len()
        invariant
            i <= parts.len(),
            text@ == joined(texts(parts@).take(i as int), sep@),
        decreases parts.len() - i,
    {
        let ghost before = texts(parts@).take(i as int);
        let ghost now = texts(parts@).take(i + 1);
        assert(now.drop_last() =~= before);
        assert(now.last() == parts@[i as int]@);
        if i > 0 {
            text.append(sep);
        }
        text.append(parts[i].as_str());
        assert(text@ =~= joined(now, sep@));
        i += 1;
    }
    assert(texts(parts@).take(parts.len() as int) =~= texts(parts@));
    text
}

/// Puts the strings one after the other.
pub fn concat_all(parts: &Vec<String>) -> (text: String)
    ensures
        text@ == concat(texts(parts@)),
{
    let mut text = String::new();
    let mut i: usize = 0;
    while i < parts.len()
        invariant
            i <= parts.len(),
            text@ == concat(texts(parts@).take(i as int)),
        decreases parts.len() - i,
    {
        let ghost now = texts(parts@).take(i + 1);
        assert(now.drop_last() =~= texts(parts@).take(i as int));
        assert(now.last() == parts@[i as int]@);
        text.append(parts[i].as_str());
        i += 1;
    }
    assert(texts(parts@).take(parts.len() as int) =~= texts(parts@));
    text
}

fn digit_str(d: usize) -> (text: &'static str)
    requires
        d < 10,
    ensures
        text@ == seq![digit(d as nat)],
{
    proof {
        reveal_strlit("0");
        reveal_strlit("1");
        reveal_strlit("2");
        reveal_strlit("3");
        reveal_strlit("4");
        reveal_strlit("5");
        reveal_strlit("6");
        reveal_strlit("7");
        reveal_strlit("8");
        reveal_strlit("9");
    }
    let text = if d == 0 {
        "0"
    } else if d == 1 {
        "1"
    } else if d == 2 {
        "2"
    } else if d == 3 {
        "3"
    } else if d == 4 {
        "4"
    } else if d == 5 {
        "5"
    } else if d == 6 {
        "6"
    } else if d == 7 {
        "7"
    } else if d == 8 {
        "8"
    } else {
        "9"
    };
    assert(text@ =~= seq![digit(d as nat)]);
    text
}

/// Writes a number in decimal.
pub fn decimal_string(n: usize) -> (text: String)
    ensures
        text@ == decimal(n as nat),
    decreases n,
{
    if n < 10 {
        String::from_str(digit_str(n))
    } else {
        let mut text = decimal_string(n / 10);
        text.append(digit_str(n % 10));
        assert(text@ =~= decimal(n as nat));
        text
    }
}

/// What `{:?}` prints for a string: the text between double quotes, with the
/// characters that need it escaped.
pub uninterp spec fn debug_text(text: Seq<char>) -> Seq<char>;

/// Formats a string with `{:?}`, as `<str as core::fmt::Debug>::fmt` writes
/// it. Trusted: the result is named, nothing more is said of it.
#[verifier::external_body]
pub(crate) fn to_debug_string(text: &str) -> (quoted: String)
    ensures
        quoted@ == debug_text(text@),
{
    format!("{:?}", text)
}

/// Decodes bytes as UTF-8 with `String::from_utf8`. Trusted: there is a
/// string exactly when the bytes are valid UTF-8, and it is their decoding.
#[verifier::external_body]
pub(crate) fn from_utf8(bytes: Vec<u8>) -> (text: Option<String>)
    ensures
        text is Some <==> valid_utf8(bytes@),
        text matches Some(t) ==> t@ == decode_utf8(bytes@),
{
    String::from_utf8(bytes).ok()
}

} // verus!
