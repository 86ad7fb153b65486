//! Texts of messages.

use vstd::prelude::*;
use vstd::string::StringExecFns;

verus! {

/// The decimal digit of a number below ten.
pub open spec fn digit(value: nat) -> char {
    (48 + value) as char
}

/// A number in decimal digits.
pub open spec fn decimal_text(value: nat) -> Seq<char>
    decreases value,
{
    if value < 10 {
        seq![digit(value)]
    } else {
        decimal_text(value / 10).push(digit(value % 10))
    }
}

fn digit_text(value: u32) -> (r: &'static str)
    requires
        value < 10,
    ensures
        r@ == seq![digit(value as nat)],
{
    proof {
        reveal_strlit("0");
        reveal_strlit("1");
        reveal_strlit("2");
        reveal_strlit("3");
        reveal_strlit("4");
        reveal_strlit("5");
        reveal_strlit("6");
        reveal_strlit("7");
        reveal_strlit("8");
        reveal_strlit("9");
    }
    match value {
        0 => "0",
        1 => "1",
        2 => "2",
        3 => "3",
        4 => "4",
        5 => "5",
        6 => "6",
        7 => "7",
        8 => "8",
        _ => "9",
    }
}

/// Writes a number in decimal digits.
pub fn decimal(value: u32) -> (r: String)
    ensures
        r@ == decimal_text(value as nat),
    decreases value,
{
    if value < 10 {
        digit_text(value).to_owned()
    } else {
        let mut text = decimal(value / 10);
        text.append(digit_text(value % 10));
        assert(text@ =~= decimal_text(value as nat));
        text
    }
}

/// Texts one after the other, with a separator between them.
pub open spec fn joined(parts: Seq<Seq<char>>, separator: Seq<char>) -> Seq<char>
    decreases parts.len(),
{
    if parts.len() == 0 {
        Seq::empty()
    } else if parts.len() == 1 {
        parts[0]
    } else {
        joined(parts.drop_last(), separator) + separator + parts.last()
    }
}

/// The texts as sequences of characters.
pub open spec fn texts(parts: Seq<String>) -> Seq<Seq<char>> {
    parts.map_values(|part: String| part@)
}

/// The literal texts as sequences of characters.
pub open spec fn literals(parts: Seq<&'static str>) -> Seq<Seq<char>> {
    parts.map_values(|part: &'static str| part@)
}

/// Joins texts.
pub fn join(parts: &Vec<String>, separator: &str) -> (r: String)
    ensures
        r@ == joined(texts(parts@), separator@),
{
    let ghost all = texts(parts@);
    let mut text = String::new();
    let mut index: usize = 0;
    assert(text@ =~= joined(all.take(0), separator@));
    while index < parts.len()
        invariant
            index <= parts@.len(),
            all == texts(parts@),
            text@ == joined(all.take(index as int), separator@),
        decreases parts@.len() - index,
    {
        assert(all.take(index + 1).drop_last() =~= all.take(index as int));
        assert(all.take(index + 1).last() == parts@[index as int]@);
        if index > 0 {
            text.append(separator);
        }
        text.append(parts[index].as_str());
        index = index + 1;
        assert(text@ =~= joined(all.take(index as int), separator@));
    }
    assert(all.take(index as int) =~= all);
    text
}

/// Joins literal texts.
pub fn join_literals(parts: &Vec<&'static str>, separator: &str) -> (r: String)
    ensures
        r@ == joined(literals(parts@), separator@),
{
    let ghost all = literals(parts@);
    let mut text = String::new();
    let mut index: usize = 0;
    assert(text@ =~= joined(all.take(0), separator@));
    while index < parts.len()
        invariant
            index <= parts@.len(),
            all == literals(parts@),
            text@ == joined(all.take(index as int), separator@),
        decreases parts@.len() - index,
    {
        assert(all.take(index + 1).drop_last() =~= all.take(index as int));
        assert(all.take(index + 1).last() == parts@[index as int]@);
        if index > 0 {
            text.append(separator);
        }
        text.append(parts[index]);
        index = index + 1;
        assert(text@ =~= joined(all.take(index as int), separator@));
    }
    assert(all.take(index as int) =~= all);
    text
}

/// A text in front of another.
pub fn concat(first: &str, second: &str) -> (r: String)
    ensures
        r@ == first@ + second@,
{
    let mut text = first.to_owned();
    text.append(second);
    text
}

/// Whether a name is among others.
pub fn contains_name(names: &Vec<String>, name: &str) -> (r: bool)
    ensures
        r == texts(names@).contains(name@),
{
    let wanted = name.to_owned();
    let ghost all = texts(names@);
    let mut index: usize = 0;
    while index < names.len()
        invariant
            index <= names@.len(),
            all == texts(names@),
            wanted@ == name@,
            forall|i: int| 0 <= i < index ==> all[i] != name@,
        decreases names@.len() - index,
    {
        if names[index] == wanted {
            assert(all[index as int] == name@);
            return true;
        }
        index = index + 1;
    }
    false
}

} // verus!
