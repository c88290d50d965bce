use crate::date::Date;
use vstd::prelude::*;

verus! {

/// The timetable variant that starts on the reference day numbered `day`,
/// for every reference day of the school's calendar: the first school day
/// of each term week, holiday weeks left out. Each line gives a Julian day
/// number, the variant, and the calendar date that the number stands for.
pub open spec fn reference_iteration(day: int) -> Option<u8> {
    if day < i32::MIN || day > i32::MAX {
        None
    } else {
        match day as i32 {
            2459464 => Some(1),  // 2021-09-06
            2459471 => Some(2),  // 2021-09-13
            2459478 => Some(1),  // 2021-09-20
            2459485 => Some(2),  // 2021-09-27
            2459492 => Some(1),  // 2021-10-04
            2459499 => Some(2),  // 2021-10-11
            2459520 => Some(1),  // 2021-11-01
            2459527 => Some(2),  // 2021-11-08
            2459534 => Some(1),  // 2021-11-15
            2459541 => Some(2),  // 2021-11-22
            2459548 => Some(1),  // 2021-11-29
            2459555 => Some(2),  // 2021-12-06
            2459562 => Some(1),  // 2021-12-13
            2459569 => Some(2),  // 2021-12-20
            2459583 => Some(1),  // 2022-01-03
            2459590 => Some(2),  // 2022-01-10
            2459597 => Some(1),  // 2022-01-17
            2459604 => Some(2),  // 2022-01-24
            2459611 => Some(1),  // 2022-01-31
            2459618 => Some(2),  // 2022-02-07
            2459639 => Some(1),  // 2022-02-28
            2459646 => Some(2),  // 2022-03-07
            2459653 => Some(1),  // 2022-03-14
            2459660 => Some(2),  // 2022-03-21
            2459667 => Some(1),  // 2022-03-28
            2459674 => Some(2),  // 2022-04-04
            2459681 => Some(1),  // 2022-04-11
            2459695 => Some(2),  // 2022-04-25
            2459702 => Some(1),  // 2022-05-02
            2459709 => Some(2),  // 2022-05-09
            2459716 => Some(1),  // 2022-05-16
            2459723 => Some(2),  // 2022-05-23
            2459730 => Some(1),  // 2022-05-30
            2459738 => Some(2),  // 2022-06-07
            2459744 => Some(1),  // 2022-06-13
            2459751 => Some(2),  // 2022-06-20
            2459758 => Some(1),  // 2022-06-27
            2459765 => Some(2),  // 2022-07-04
            2459772 => Some(1),  // 2022-07-11
            2459821 => Some(1),  // 2022-08-29
            2459828 => Some(2),  // 2022-09-05
            2459835 => Some(1),  // 2022-09-12
            2459842 => Some(2),  // 2022-09-19
            2459849 => Some(1),  // 2022-09-26
            2459856 => Some(2),  // 2022-10-03
            2459863 => Some(1),  // 2022-10-10
            2459884 => Some(2),  // 2022-10-31
            2459891 => Some(1),  // 2022-11-07
            2459898 => Some(2),  // 2022-11-14
            2459905 => Some(1),  // 2022-11-21
            2459912 => Some(2),  // 2022-11-28
            2459919 => Some(1),  // 2022-12-05
            2459926 => Some(2),  // 2022-12-12
            2459933 => Some(1),  // 2022-12-19
            2459947 => Some(2),  // 2023-01-02
            2459954 => Some(1),  // 2023-01-09
            2459961 => Some(2),  // 2023-01-16
            2459968 => Some(1),  // 2023-01-23
            2459975 => Some(2),  // 2023-01-30
            2459982 => Some(1),  // 2023-02-06
            2459996 => Some(2),  // 2023-02-20
            2460010 => Some(1),  // 2023-03-06
            2460017 => Some(2),  // 2023-03-13
            2460024 => Some(1),  // 2023-03-20
            2460031 => Some(2),  // 2023-03-27
            2460038 => Some(1),  // 2023-04-03
            2460052 => Some(2),  // 2023-04-17
            2460059 => Some(1),  // 2023-04-24
            2460066 => Some(2),  // 2023-05-01
            2460073 => Some(1),  // 2023-05-08
            2460080 => Some(2),  // 2023-05-15
            2460087 => Some(1),  // 2023-05-22
            2460094 => Some(2),  // 2023-05-29
            2460101 => Some(1),  // 2023-06-05
            2460108 => Some(2),  // 2023-06-12
            2460115 => Some(1),  // 2023-06-19
            2460122 => Some(2),  // 2023-06-26
            2460129 => Some(1),  // 2023-07-03
            2460178 => Some(1),  // 2023-08-21
            2460185 => Some(2),  // 2023-08-28
            2460192 => Some(1),  // 2023-09-04
            2460199 => Some(2),  // 2023-09-11
            2460206 => Some(1),  // 2023-09-18
            2460213 => Some(2),  // 2023-09-25
            2460234 => Some(1),  // 2023-10-16
            2460241 => Some(2),  // 2023-10-23
            2460248 => Some(1),  // 2023-10-30
            2460255 => Some(2),  // 2023-11-06
            2460262 => Some(1),  // 2023-11-13
            2460269 => Some(2),  // 2023-11-20
            2460276 => Some(1),  // 2023-11-27
            2460283 => Some(2),  // 2023-12-04
            2460290 => Some(1),  // 2023-12-11
            2460297 => Some(2),  // 2023-12-18
            2460311 => Some(1),  // 2024-01-01
            2460318 => Some(2),  // 2024-01-08
            2460325 => Some(1),  // 2024-01-15
            2460332 => Some(2),  // 2024-01-22
            2460339 => Some(1),  // 2024-01-29
            2460346 => Some(2),  // 2024-02-05
            2460367 => Some(1),  // 2024-02-26
            2460374 => Some(2),  // 2024-03-04
            2460381 => Some(1),  // 2024-03-11
            2460388 => Some(2),  // 2024-03-18
            2460395 => Some(1),  // 2024-03-25
            2460409 => Some(2),  // 2024-04-08
            2460416 => Some(1),  // 2024-04-15
            2460423 => Some(2),  // 2024-04-22
            2460430 => Some(1),  // 2024-04-29
            2460437 => Some(2),  // 2024-05-06
            2460444 => Some(1),  // 2024-05-13
            2460451 => Some(2),  // 2024-05-20
            2460458 => Some(1),  // 2024-05-27
            2460465 => Some(2),  // 2024-06-03
            2460472 => Some(1),  // 2024-06-10
            2460479 => Some(2),  // 2024-06-17
            _ => None,
        }
    }
}

/// The variant in force `offset` or more days back from `day`, looking no
/// further back than six days: that of the nearest reference day at or
/// before `day - offset`.
pub open spec fn iteration_from(day: int, offset: int) -> Option<u8>
    decreases 7 - offset,
{
    if offset < 0 || offset >= 7 {
        None
    } else if reference_iteration(day - offset) is Some {
        reference_iteration(day - offset)
    } else {
        iteration_from(day, offset + 1)
    }
}

/// The timetable variant in force on the day numbered `day`: that of the
/// nearest reference day among `day` and the six days before it, `None`
/// where none of the seven is a reference day.
pub open spec fn iteration_on(day: int) -> Option<u8> {
    iteration_from(day, 0)
}

/// The variant that starts on the reference day numbered `day`.
fn lookup_reference(day: i64) -> (iteration: Option<u8>)
    ensures
        iteration == reference_iteration(day as int),
{
    match day {
        2459464 => Some(1),  // 2021-09-06
        2459471 => Some(2),  // 2021-09-13
        2459478 => Some(1),  // 2021-09-20
        2459485 => Some(2),  // 2021-09-27
        2459492 => Some(1),  // 2021-10-04
        2459499 => Some(2),  // 2021-10-11
        2459520 => Some(1),  // 2021-11-01
        2459527 => Some(2),  // 2021-11-08
        2459534 => Some(1),  // 2021-11-15
        2459541 => Some(2),  // 2021-11-22
        2459548 => Some(1),  // 2021-11-29
        2459555 => Some(2),  // 2021-12-06
        2459562 => Some(1),  // 2021-12-13
        2459569 => Some(2),  // 2021-12-20
        2459583 => Some(1),  // 2022-01-03
        2459590 => Some(2),  // 2022-01-10
        2459597 => Some(1),  // 2022-01-17
        2459604 => Some(2),  // 2022-01-24
        2459611 => Some(1),  // 2022-01-31
        2459618 => Some(2),  // 2022-02-07
        2459639 => Some(1),  // 2022-02-28
        2459646 => Some(2),  // 2022-03-07
        2459653 => Some(1),  // 2022-03-14
        2459660 => Some(2),  // 2022-03-21
        2459667 => Some(1),  // 2022-03-28
        2459674 => Some(2),  // 2022-04-04
        2459681 => Some(1),  // 2022-04-11
        2459695 => Some(2),  // 2022-04-25
        2459702 => Some(1),  // 2022-05-02
        2459709 => Some(2),  // 2022-05-09
        2459716 => Some(1),  // 2022-05-16
        2459723 => Some(2),  // 2022-05-23
        2459730 => Some(1),  // 2022-05-30
        2459738 => Some(2),  // 2022-06-07
        2459744 => Some(1),  // 2022-06-13
        2459751 => Some(2),  // 2022-06-20
        2459758 => Some(1),  // 2022-06-27
        2459765 => Some(2),  // 2022-07-04
        2459772 => Some(1),  // 2022-07-11
        2459821 => Some(1),  // 2022-08-29
        2459828 => Some(2),  // 2022-09-05
        2459835 => Some(1),  // 2022-09-12
        2459842 => Some(2),  // 2022-09-19
        2459849 => Some(1),  // 2022-09-26
        2459856 => Some(2),  // 2022-10-03
        2459863 => Some(1),  // 2022-10-10
        2459884 => Some(2),  // 2022-10-31
        2459891 => Some(1),  // 2022-11-07
        2459898 => Some(2),  // 2022-11-14
        2459905 => Some(1),  // 2022-11-21
        2459912 => Some(2),  // 2022-11-28
        2459919 => Some(1),  // 2022-12-05
        2459926 => Some(2),  // 2022-12-12
        2459933 => Some(1),  // 2022-12-19
        2459947 => Some(2),  // 2023-01-02
        2459954 => Some(1),  // 2023-01-09
        2459961 => Some(2),  // 2023-01-16
        2459968 => Some(1),  // 2023-01-23
        2459975 => Some(2),  // 2023-01-30
        2459982 => Some(1),  // 2023-02-06
        2459996 => Some(2),  // 2023-02-20
        2460010 => Some(1),  // 2023-03-06
        2460017 => Some(2),  // 2023-03-13
        2460024 => Some(1),  // 2023-03-20
        2460031 => Some(2),  // 2023-03-27
        2460038 => Some(1),  // 2023-04-03
        2460052 => Some(2),  // 2023-04-17
        2460059 => Some(1),  // 2023-04-24
        2460066 => Some(2),  // 2023-05-01
        2460073 => Some(1),  // 2023-05-08
        2460080 => Some(2),  // 2023-05-15
        2460087 => Some(1),  // 2023-05-22
        2460094 => Some(2),  // 2023-05-29
        2460101 => Some(1),  // 2023-06-05
        2460108 => Some(2),  // 2023-06-12
        2460115 => Some(1),  // 2023-06-19
        2460122 => Some(2),  // 2023-06-26
        2460129 => Some(1),  // 2023-07-03
        2460178 => Some(1),  // 2023-08-21
        2460185 => Some(2),  // 2023-08-28
        2460192 => Some(1),  // 2023-09-04
        2460199 => Some(2),  // 2023-09-11
        2460206 => Some(1),  // 2023-09-18
        2460213 => Some(2),  // 2023-09-25
        2460234 => Some(1),  // 2023-10-16
        2460241 => Some(2),  // 2023-10-23
        2460248 => Some(1),  // 2023-10-30
        2460255 => Some(2),  // 2023-11-06
        2460262 => Some(1),  // 2023-11-13
        2460269 => Some(2),  // 2023-11-20
        2460276 => Some(1),  // 2023-11-27
        2460283 => Some(2),  // 2023-12-04
        2460290 => Some(1),  // 2023-12-11
        2460297 => Some(2),  // 2023-12-18
        2460311 => Some(1),  // 2024-01-01
        2460318 => Some(2),  // 2024-01-08
        2460325 => Some(1),  // 2024-01-15
        2460332 => Some(2),  // 2024-01-22
        2460339 => Some(1),  // 2024-01-29
        2460346 => Some(2),  // 2024-02-05
        2460367 => Some(1),  // 2024-02-26
        2460374 => Some(2),  // 2024-03-04
        2460381 => Some(1),  // 2024-03-11
        2460388 => Some(2),  // 2024-03-18
        2460395 => Some(1),  // 2024-03-25
        2460409 => Some(2),  // 2024-04-08
        2460416 => Some(1),  // 2024-04-15
        2460423 => Some(2),  // 2024-04-22
        2460430 => Some(1),  // 2024-04-29
        2460437 => Some(2),  // 2024-05-06
        2460444 => Some(1),  // 2024-05-13
        2460451 => Some(2),  // 2024-05-20
        2460458 => Some(1),  // 2024-05-27
        2460465 => Some(2),  // 2024-06-03
        2460472 => Some(1),  // 2024-06-10
        2460479 => Some(2),  // 2024-06-17
        _ => None,
    }
}

/// The timetable variant, 1 or 2, in force on `date`, or `None` where the
/// date lies outside every known term.
pub fn get_iteration(date: Date) -> (iteration: Option<u8>)
    ensures
        iteration == iteration_on(date.julian_day as int),
{
    let day: i64 = date.julian_day as i64;
    let mut offset: i64 = 0;
    while offset < 7
        invariant
            0 <= offset <= 7,
            day == date.julian_day,
            iteration_on(day as int) == iteration_from(day as int, offset as int),
        decreases 7 - offset,
    {
        let found = lookup_reference(day - offset);
        if found.is_some() {
            return found;
        }
        offset += 1;
    }
    None
}

/// A reference day starts variant 1 or variant 2.
pub proof fn lemma_reference_iteration_is_one_or_two(day: int)
    ensures
        reference_iteration(day) matches Some(iteration) ==> iteration == 1 || iteration == 2,
{
}

/// The variant in force on any day is 1 or 2.
pub proof fn lemma_iteration_is_one_or_two(day: int)
    ensures
        iteration_on(day) matches Some(iteration) ==> iteration == 1 || iteration == 2,
{
    reveal_with_fuel(iteration_from, 8);
    lemma_reference_iteration_is_one_or_two(day);
    lemma_reference_iteration_is_one_or_two(day - 1);
    lemma_reference_iteration_is_one_or_two(day - 2);
    lemma_reference_iteration_is_one_or_two(day - 3);
    lemma_reference_iteration_is_one_or_two(day - 4);
    lemma_reference_iteration_is_one_or_two(day - 5);
    lemma_reference_iteration_is_one_or_two(day - 6);
}

/// The Julian day number of 7 June 2022, a Tuesday: the one reference day
/// that another reference day follows within less than a week.
pub open spec fn short_week() -> int {
    2459738
}

/// No reference day follows another within five days, and only the short
/// week's successor follows within six.
pub proof fn lemma_reference_days_are_apart(day: int, gap: int)
    requires
        reference_iteration(day) is Some,
        1 <= gap <= 6,
        !(day == short_week() && gap == 6),
    ensures
        reference_iteration(day + gap) is None,
{
}

/// The variant that begins on a reference day is in force on that day and
/// on each of the six days that follow it. The one exception is left out:
/// the sixth day after the short week's reference day is itself a
/// reference day.
pub proof fn lemma_iteration_lasts_the_week(day: int, offset: int)
    requires
        reference_iteration(day) is Some,
        0 <= offset <= 6,
        !(day == short_week() && offset == 6),
    ensures
        iteration_on(day + offset) == reference_iteration(day),
{
    reveal_with_fuel(iteration_from, 8);
    if offset >= 1 {
        lemma_reference_days_are_apart(day, 1);
    }
    if offset >= 2 {
        lemma_reference_days_are_apart(day, 2);
    }
    if offset >= 3 {
        lemma_reference_days_are_apart(day, 3);
    }
    if offset >= 4 {
        lemma_reference_days_are_apart(day, 4);
    }
    if offset >= 5 {
        lemma_reference_days_are_apart(day, 5);
    }
    if offset >= 6 {
        lemma_reference_days_are_apart(day, 6);
    }
}

/// On the seventh day after a reference day the variant, where one is in
/// force at all, is the other one.
pub proof fn lemma_iteration_flips_after_a_week(day: int)
    requires
        reference_iteration(day) is Some,
    ensures
        iteration_on(day + 7) is Some ==> iteration_on(day + 7) != reference_iteration(day),
{
    reveal_with_fuel(iteration_from, 8);
}

} // verus!
