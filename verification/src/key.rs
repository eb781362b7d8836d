//! Store keys. A record's key is its id in decimal; a key found in a request
//! path is read back into an id.

use vstd::prelude::*;

verus! {

/// The character of a decimal digit.
pub open spec fn digit_char(d: int) -> char {
    if d == 0 {
        '0'
    } else if d == 1 {
        '1'
    } else if d == 2 {
        '2'
    } else if d == 3 {
        '3'
    } else if d == 4 {
        '4'
    } else if d == 5 {
        '5'
    } else if d == 6 {
        '6'
    } else if d == 7 {
        '7'
    } else if d == 8 {
        '8'
    } else {
        '9'
    }
}

/// The number that a decimal digit stands for; `None` for any other
/// character.
pub open spec fn digit_value(c: char) -> Option<int> {
    if c == '0' {
        Some(0int)
    } else if c == '1' {
        Some(1int)
    } else if c == '2' {
        Some(2int)
    } else if c == '3' {
        Some(3int)
    } else if c == '4' {
        Some(4int)
    } else if c == '5' {
        Some(5int)
    } else if c == '6' {
        Some(6int)
    } else if c == '7' {
        Some(7int)
    } else if c == '8' {
        Some(8int)
    } else if c == '9' {
        Some(9int)
    } else {
        None
    }
}

/// The key of the record with the given id: the id in decimal, without
/// leading zeros.
pub open spec fn key_of(id: u8) -> Seq<char> {
    if id < 10 {
        seq![digit_char(id as int)]
    } else if id < 100 {
        seq![digit_char(id as int / 10), digit_char(id as int % 10)]
    } else {
        seq![digit_char(id as int / 100), digit_char(id as int / 10 % 10), digit_char(id as int % 10)]
    }
}

/// The number that a run of decimal digits denotes; `None` if a character
/// of the run is no digit. The empty run denotes 0.
pub open spec fn digits_value(s: Seq<char>) -> Option<int>
    decreases s.len(),
{
    if s.len() == 0 {
        Some(0int)
    } else {
        match (digits_value(s.drop_last()), digit_value(s.last())) {
            (Some(v), Some(d)) => Some(10 * v + d),
            _ => None,
        }
    }
}

/// The part of a key that must consist of digits: the key without one
/// leading plus sign.
pub open spec fn unsigned_part(s: Seq<char>) -> Seq<char> {
    if s.len() > 0 && s[0] == '+' {
        s.subrange(1, s.len() as int)
    } else {
        s
    }
}

/// The id that a key denotes: an optional plus sign, then at least one
/// decimal digit, the whole not above 255. Leading zeros are accepted.
pub open spec fn id_of(s: Seq<char>) -> Option<u8> {
    let body = unsigned_part(s);
    if body.len() == 0 {
        None
    } else {
        match digits_value(body) {
            Some(v) => if v <= 255 {
                Some(v as u8)
            } else {
                None
            },
            None => None,
        }
    }
}

/// A run of digits denotes at least what any of its prefixes denotes.
pub proof fn lemma_digits_value_grows(s: Seq<char>, n: int)
    requires
        0 <= n <= s.len(),
    ensures
        digits_value(s) is Some ==> digits_value(s.take(n)) is Some,
        digits_value(s) is Some ==> 0 <= digits_value(s.take(n))->0 <= digits_value(s)->0,
    decreases s.len(),
{
    if n == s.len() {
        assert(s.take(n) =~= s);
        if s.len() > 0 {
            lemma_digits_value_grows(s.drop_last(), 0);
        }
    } else {
        assert(s.drop_last().take(n) =~= s.take(n));
        lemma_digits_value_grows(s.drop_last(), n);
    }
}

fn digit_text(d: u8) -> (text: &'static str)
    requires
        d < 10,
    ensures
        text@ == seq![digit_char(d as int)],
{
    proof {
        reveal_strlit("0");
        reveal_strlit("1");
        reveal_strlit("2");
        reveal_strlit("3");
        reveal_strlit("4");
        reveal_strlit("5");
        reveal_strlit("6");
        reveal_strlit("7");
        reveal_strlit("8");
        reveal_strlit("9");
    }
    let text = if d == 0 {
        "0"
    } else if d == 1 {
        "1"
    } else if d == 2 {
        "2"
    } else if d == 3 {
        "3"
    } else if d == 4 {
        "4"
    } else if d == 5 {
        "5"
    } else if d == 6 {
        "6"
    } else if d == 7 {
        "7"
    } else if d == 8 {
        "8"
    } else {
        "9"
    };
    assert(text@ =~= seq![digit_char(d as int)]);
    text
}

fn digit_of(c: char) -> (d: Option<u8>)
    ensures
        match d {
            Some(v) => digit_value(c) == Some(v as int) && v < 10,
            None => digit_value(c) is None,
        },
{
    if c == '0' {
        Some(0)
    } else if c == '1' {
        Some(1)
    } else if c == '2' {
        Some(2)
    } else if c == '3' {
        Some(3)
    } else if c == '4' {
        Some(4)
    } else if c == '5' {
        Some(5)
    } else if c == '6' {
        Some(6)
    } else if c == '7' {
        Some(7)
    } else if c == '8' {
        Some(8)
    } else if c == '9' {
        Some(9)
    } else {
        None
    }
}

/// Writes an id as its key.
pub fn todo_key(id: u8) -> (key: String)
    ensures
        key@ == key_of(id),
{
    let mut key = String::new();
    if id >= 100 {
        key.append(digit_text(id / 100));
    }
    if id >= 10 {
        key.append(digit_text(id / 10 % 10));
    }
    key.append(digit_text(id % 10));
    assert(key@ =~= key_of(id));
    key
}

/// Reads a key back into an id, if it denotes one.
pub fn parse_id(key: &str) -> (id: Option<u8>)
    ensures
        id == id_of(key@),
{
    let len: usize = key.unicode_len();
    let mut at: usize = 0;
    if len > 0 && key.get_char(0) == '+' {
        at = 1;
    }
    let start: usize = at;
    let ghost body = unsigned_part(key@);
    if at == len {
        return None;
    }
    let mut value: u16 = 0;
    while at < len
        invariant
            start <= at <= len,
            len == key@.len(),
            body == unsigned_part(key@),
            body.len() == len - start,
            forall|i: int| 0 <= i < body.len() ==> body[i] == key@[start + i],
            digits_value(body.take(at - start)) == Some(value as int),
            value <= 255,
        decreases len - at,
    {
        let c = key.get_char(at);
        let ghost seen = body.take(at - start + 1);
        proof {
            assert(seen.drop_last() =~= body.take(at - start));
            assert(seen.last() == c);
            lemma_digits_value_grows(body, at - start + 1);
        }
        match digit_of(c) {
            None => {
                return None;
            },
            Some(d) => {
                let next: u16 = value * 10 + d as u16;
                if next > 255 {
                    return None;
                }
                value = next;
            },
        }
        at += 1;
    }
    proof {
        assert(body.take(at - start) =~= body);
    }
    Some(value as u8)
}

/// Reading the key that was written for an id gives that id back.
pub proof fn lemma_key_round_trip(id: u8)
    ensures
        id_of(key_of(id)) == Some(id),
{
    let k = key_of(id);
    assert(unsigned_part(k) == k);
    reveal_with_fuel(digits_value, 5);
    if id < 10 {
        assert(k.drop_last() =~= Seq::<char>::empty());
    } else if id < 100 {
        assert(k.drop_last() =~= seq![digit_char(id as int / 10)]);
        assert(k.drop_last().drop_last() =~= Seq::<char>::empty());
    } else {
        assert(k.drop_last() =~= seq![digit_char(id as int / 100), digit_char(id as int / 10 % 10)]);
        assert(k.drop_last().drop_last() =~= seq![digit_char(id as int / 100)]);
        assert(k.drop_last().drop_last().drop_last() =~= Seq::<char>::empty());
    }
}

} // verus!
