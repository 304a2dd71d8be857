use vstd::prelude::*;

verus! {

/// Letter grade for a score: `A` from 90 up, `B` from 80, `C` from 70,
/// `F` below that.
pub fn grade(score: i32) -> (g: &'static str)
    ensures
        score >= 90 ==> g@ == "A"@,
        80 <= score < 90 ==> g@ == "B"@,
        70 <= score < 80 ==> g@ == "C"@,
        score < 70 ==> g@ == "F"@,
{
    if score >= 90 {
        "A"
    } else if score >= 80 {
        "B"
    } else if score >= 70 {
        "C"
    } else {
        "F"
    }
}

/// Greeting for an hour of the day: before 18 it is still day.
pub fn greeting_for_time(time: i32) -> (g: &'static str)
    ensures
        time < 18 ==> g@ == "Good day."@,
        time >= 18 ==> g@ == "Good evening."@,
{
    if time < 18 {
        "Good day."
    } else {
        "Good evening."
    }
}

/// Name of a day of the week, counted from 1 for Monday.
pub fn day_name(day: i32) -> (name: &'static str)
    ensures
        day == 1 ==> name@ == "Monday"@,
        day == 2 ==> name@ == "Tuesday"@,
        day == 3 ==> name@ == "Wednesday"@,
        day == 4 ==> name@ == "Thursday"@,
        day == 5 ==> name@ == "Friday"@,
        day == 6 ==> name@ == "Saturday"@,
        day == 7 ==> name@ == "Sunday"@,
        day < 1 || day > 7 ==> name@ == "Invalid day."@,
{
    match day {
        1 => "Monday",
        2 => "Tuesday",
        3 => "Wednesday",
        4 => "Thursday",
        5 => "Friday",
        6 => "Saturday",
        7 => "Sunday",
        _ => "Invalid day.",
    }
}

/// Whether a day of the week, counted from 1 for Monday, falls in the
/// working week or the weekend.
pub fn day_kind(day: i32) -> (kind: &'static str)
    ensures
        1 <= day <= 5 ==> kind@ == "Weekday"@,
        day == 6 || day == 7 ==> kind@ == "Weekend"@,
        day < 1 || day > 7 ==> kind@ == "Invalid day"@,
{
    match day {
        1 | 2 | 3 | 4 | 5 => "Weekday",
        6 | 7 => "Weekend",
        _ => "Invalid day",
    }
}

/// English word for a small number; anything past four is unknown.
pub fn number_description(number: i32) -> (d: &'static str)
    ensures
        number == 1 ==> d@ == "One"@,
        number == 2 ==> d@ == "Two"@,
        number == 3 ==> d@ == "Three"@,
        number == 4 ==> d@ == "Four"@,
        number < 1 || number > 4 ==> d@ == "Unknown"@,
{
    match number {
        1 => "One",
        2 => "Two",
        3 => "Three",
        4 => "Four",
        _ => "Unknown",
    }
}

/// Bounded lookup: the element at `n`, or `None` where the index is out
/// of range.
pub fn get_nth_element(vec: &Vec<i32>, n: usize) -> (r: Option<i32>)
    ensures
        n < vec@.len() ==> r == Some(vec@[n as int]),
        n >= vec@.len() ==> r is None,
{
    if n < vec.len() {
        Some(vec[n])
    } else {
        None
    }
}

/// A fixed person record, returned as a tuple of name, age and whether
/// they are a student.
pub fn get_person() -> (p: (&'static str, i32, bool))
    ensures
        p.0@ == "Charlie"@,
        p.1 == 35,
        p.2 == true,
{
    ("Charlie", 35, true)
}

} // verus!
