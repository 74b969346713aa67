use mytool_core::recurrence::{Day, DayOfWeek, Recurrence, RecurrencePattern, TaskRecurrence};

fn rec(
    monday: bool,
    tuesday: bool,
    wednesday: bool,
    thursday: bool,
    friday: bool,
    saturday: bool,
    sunday: bool,
) -> Recurrence {
    Recurrence { monday, tuesday, wednesday, thursday, friday, saturday, sunday }
}

#[test]
fn day_abbreviations() {
    assert_eq!(Day::Monday.to_string(), "Mon");
    assert_eq!(Day::Tuesday.to_string(), "Tue");
    assert_eq!(Day::Wednesday.to_string(), "Wed");
    assert_eq!(Day::Thursday.to_string(), "Thu");
    assert_eq!(Day::Friday.to_string(), "Fri");
    assert_eq!(Day::Saturday.to_string(), "Sat");
    assert_eq!(Day::Sunday.to_string(), "Sun");
}

#[test]
fn parse_mon_wed_fri() {
    let r = Recurrence::from_string(String::from("Mon, Wed, Fri"));
    assert_eq!(r, rec(true, false, true, false, true, false, false));
}

#[test]
fn render_mon_wed_fri() {
    let r = rec(true, false, true, false, true, false, false);
    assert_eq!(r.to_string(), "Mon, Wed, Fri");
}

#[test]
fn empty_recurrence_renders_empty() {
    let r = Recurrence::default();
    assert_eq!(r, rec(false, false, false, false, false, false, false));
    assert_eq!(r.to_string(), "");
}

#[test]
fn full_recurrence_renders_all_days() {
    let r = rec(true, true, true, true, true, true, true);
    assert_eq!(r.to_string(), "Mon, Tue, Wed, Thu, Fri, Sat, Sun");
}

#[test]
fn round_trip_every_subset() {
    for bits in 0u32..128 {
        let r = rec(
            bits & 1 != 0,
            bits & 2 != 0,
            bits & 4 != 0,
            bits & 8 != 0,
            bits & 16 != 0,
            bits & 32 != 0,
            bits & 64 != 0,
        );
        assert_eq!(Recurrence::from_string(r.to_string()), r);
    }
}

#[test]
fn parse_ignores_unknown_tokens() {
    let r = Recurrence::from_string(String::from("every Tue and Sat, maybe"));
    assert_eq!(r, rec(false, true, false, false, false, true, false));
}

#[test]
fn parse_is_order_and_separator_independent() {
    let r = Recurrence::from_string(String::from("SunMon;Fri"));
    assert_eq!(r, rec(true, false, false, false, true, false, true));
}

#[test]
fn parse_ignores_ascii_case() {
    let r = Recurrence::from_string(String::from("monday tue WED"));
    assert_eq!(r, rec(true, true, true, false, false, false, false));
    let r = Recurrence::from_string(String::from("mON, sAt"));
    assert_eq!(r, rec(true, false, false, false, false, true, false));
}

#[test]
fn parse_rejects_other_words() {
    let r = Recurrence::from_string(String::from("tomorrow, next week"));
    assert_eq!(r, rec(false, false, false, false, false, false, false));
}

#[test]
fn parse_empty_string() {
    let r = Recurrence::from_string(String::new());
    assert_eq!(r, Recurrence::default());
}

#[test]
fn external_pattern_conversion() {
    let value = TaskRecurrence {
        pattern: RecurrencePattern {
            days_of_week: vec![DayOfWeek::Monday, DayOfWeek::Thursday, DayOfWeek::Sunday],
        },
    };
    let r = Recurrence::from(value);
    assert_eq!(r, rec(true, false, false, true, false, false, true));
}

#[test]
fn external_pattern_empty() {
    let value = TaskRecurrence { pattern: RecurrencePattern { days_of_week: vec![] } };
    assert_eq!(Recurrence::from(value), Recurrence::default());
}

#[test]
fn external_pattern_every_subset() {
    let days = [
        DayOfWeek::Monday,
        DayOfWeek::Tuesday,
        DayOfWeek::Wednesday,
        DayOfWeek::Thursday,
        DayOfWeek::Friday,
        DayOfWeek::Saturday,
        DayOfWeek::Sunday,
    ];
    for bits in 0u32..128 {
        let mut set = Vec::new();
        for (i, d) in days.iter().enumerate() {
            if bits & (1 << i) != 0 {
                set.push(*d);
            }
        }
        let value = TaskRecurrence { pattern: RecurrencePattern { days_of_week: set } };
        let r = Recurrence::from(value);
        let expected = rec(
            bits & 1 != 0,
            bits & 2 != 0,
            bits & 4 != 0,
            bits & 8 != 0,
            bits & 16 != 0,
            bits & 32 != 0,
            bits & 64 != 0,
        );
        assert_eq!(r, expected);
    }
}
