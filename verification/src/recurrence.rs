//! The recurrence model: a membership set over the seven days of the week,
//! with conversion to and from the textual day-abbreviation format and from
//! the external day-of-week pattern representation.

use vstd::prelude::*;

verus! {

/// A day of the week.
#[derive(Clone, Copy, Debug, PartialEq, Eq, Hash, PartialOrd, Ord, Structural)]
pub enum Day {
    Monday,
    Tuesday,
    Wednesday,
    Thursday,
    Friday,
    Saturday,
    Sunday,
}

/// The canonical three-letter abbreviation of a day, as a character sequence.
pub open spec fn day_abbrev(d: Day) -> Seq<char> {
    match d {
        Day::Monday => seq!['M', 'o', 'n'],
        Day::Tuesday => seq!['T', 'u', 'e'],
        Day::Wednesday => seq!['W', 'e', 'd'],
        Day::Thursday => seq!['T', 'h', 'u'],
        Day::Friday => seq!['F', 'r', 'i'],
        Day::Saturday => seq!['S', 'a', 't'],
        Day::Sunday => seq!['S', 'u', 'n'],
    }
}

/// The code point of `c`, with an ASCII capital letter folded to its small
/// form; any other character keeps its own code point. Two characters are
/// the same letter up to ASCII case exactly when their folded code points
/// agree.
pub open spec fn fold_char(c: char) -> int {
    if 'A' as int <= c as int && c as int <= 'Z' as int {
        c as int + 32
    } else {
        c as int
    }
}

/// `p` is spelled out at position `i` of `s`, compared without regard to
/// ASCII case.
pub open spec fn matches_at_ci(s: Seq<char>, p: Seq<char>, i: int) -> bool {
    forall|j: int| 0 <= j < p.len() ==> fold_char(s[i + j]) == #[trigger] fold_char(p[j])
}

/// `p` occurs as a contiguous substring of `s`, without regard to ASCII
/// case.
pub open spec fn contains_ci(s: Seq<char>, p: Seq<char>) -> bool {
    exists|i: int| 0 <= i && i + p.len() <= s.len() && #[trigger] matches_at_ci(s, p, i)
}

/// Every abbreviation is three characters long, and each of its characters
/// folds to a small ASCII letter; in particular none folds to the comma or
/// the space of the separator.
pub proof fn lemma_abbrev_shape(d: Day)
    ensures
        day_abbrev(d).len() == 3,
        forall|j: int| 0 <= j < 3 ==> 97 <= #[trigger] fold_char(day_abbrev(d)[j]) <= 122,
{
    match d {
        Day::Monday => {
            assert(forall|j: int| 0 <= j < 3 ==> 97 <= #[trigger] fold_char(day_abbrev(d)[j])
                <= 122) by {
                assert(day_abbrev(d)[0] == 'M');
                assert(day_abbrev(d)[1] == 'o');
                assert(day_abbrev(d)[2] == 'n');
            }
        },
        Day::Tuesday => {
            assert(forall|j: int| 0 <= j < 3 ==> 97 <= #[trigger] fold_char(day_abbrev(d)[j])
                <= 122) by {
                assert(day_abbrev(d)[0] == 'T');
                assert(day_abbrev(d)[1] == 'u');
                assert(day_abbrev(d)[2] == 'e');
            }
        },
        Day::Wednesday => {
            assert(forall|j: int| 0 <= j < 3 ==> 97 <= #[trigger] fold_char(day_abbrev(d)[j])
                <= 122) by {
                assert(day_abbrev(d)[0] == 'W');
                assert(day_abbrev(d)[1] == 'e');
                assert(day_abbrev(d)[2] == 'd');
            }
        },
        Day::Thursday => {
            assert(forall|j: int| 0 <= j < 3 ==> 97 <= #[trigger] fold_char(day_abbrev(d)[j])
                <= 122) by {
                assert(day_abbrev(d)[0] == 'T');
                assert(day_abbrev(d)[1] == 'h');
                assert(day_abbrev(d)[2] == 'u');
            }
        },
        Day::Friday => {
            assert(forall|j: int| 0 <= j < 3 ==> 97 <= #[trigger] fold_char(day_abbrev(d)[j])
                <= 122) by {
                assert(day_abbrev(d)[0] == 'F');
                assert(day_abbrev(d)[1] == 'r');
                assert(day_abbrev(d)[2] == 'i');
            }
        },
        Day::Saturday => {
            assert(forall|j: int| 0 <= j < 3 ==> 97 <= #[trigger] fold_char(day_abbrev(d)[j])
                <= 122) by {
                assert(day_abbrev(d)[0] == 'S');
                assert(day_abbrev(d)[1] == 'a');
                assert(day_abbrev(d)[2] == 't');
            }
        },
        Day::Sunday => {
            assert(forall|j: int| 0 <= j < 3 ==> 97 <= #[trigger] fold_char(day_abbrev(d)[j])
                <= 122) by {
                assert(day_abbrev(d)[0] == 'S');
                assert(day_abbrev(d)[1] == 'u');
                assert(day_abbrev(d)[2] == 'n');
            }
        },
    }
}

/// Distinct days have abbreviations that differ even up to ASCII case.
pub proof fn lemma_abbrev_injective(d1: Day, d2: Day)
    requires
        fold_char(day_abbrev(d1)[0]) == fold_char(day_abbrev(d2)[0]),
        fold_char(day_abbrev(d1)[1]) == fold_char(day_abbrev(d2)[1]),
        fold_char(day_abbrev(d1)[2]) == fold_char(day_abbrev(d2)[2]),
    ensures
        d1 == d2,
{
    if d1 != d2 {
        assert(false);
    }
}

impl Day {
    /// The canonical three-letter abbreviation of the day.
    pub fn to_string(&self) -> (s: String)
        ensures
            s@ == day_abbrev(*self),
    {
        proof {
            reveal_strlit("Mon");
            reveal_strlit("Tue");
            reveal_strlit("Wed");
            reveal_strlit("Thu");
            reveal_strlit("Fri");
            reveal_strlit("Sat");
            reveal_strlit("Sun");
        }
        let s: &str = match self {
            Day::Monday => "Mon",
            Day::Tuesday => "Tue",
            Day::Wednesday => "Wed",
            Day::Thursday => "Thu",
            Day::Friday => "Fri",
            Day::Saturday => "Sat",
            Day::Sunday => "Sun",
        };
        proof {
            assert(s@ =~= day_abbrev(*self));
        }
        String::from_str(s)
    }
}

/// Whether two characters agree up to ASCII case.
fn chars_eq_ci(a: char, b: char) -> (r: bool)
    ensures
        r == (fold_char(a) == fold_char(b)),
{
    let x = a as u32;
    let y = b as u32;
    let xf = if x >= 65 && x <= 90 {
        x + 32
    } else {
        x
    };
    let yf = if y >= 65 && y <= 90 {
        y + 32
    } else {
        y
    };
    xf == yf
}

/// Whether the characters of `s` starting at `i` spell out `p` up to ASCII
/// case.
fn match_at(s: &str, p: &str, i: usize) -> (r: bool)
    requires
        i + p@.len() <= s@.len(),
        s@.len() <= usize::MAX,
    ensures
        r == matches_at_ci(s@, p@, i as int),
{
    let m = p.unicode_len();
    let mut j: usize = 0;
    while j < m
        invariant
            0 <= j <= m,
            m == p@.len(),
            i + m <= s@.len(),
            s@.len() <= usize::MAX,
            forall|k: int| 0 <= k < j ==> fold_char(s@[i + k]) == #[trigger] fold_char(p@[k]),
        decreases m - j,
    {
        if !chars_eq_ci(s.get_char(i + j), p.get_char(j)) {
            proof {
                assert(fold_char(s@[i + j]) != fold_char(p@[j as int]));
            }
            return false;
        }
        j += 1;
    }
    true
}

/// Whether `p` occurs as a contiguous substring of `s` up to ASCII case.
fn contains_str(s: &str, p: &str) -> (r: bool)
    ensures
        r == contains_ci(s@, p@),
{
    let n = s.unicode_len();
    let m = p.unicode_len();
    if m > n {
        proof {
            assert(!contains_ci(s@, p@));
        }
        return false;
    }
    if m == 0 {
        proof {
            assert(0 + p@.len() <= s@.len());
            assert(matches_at_ci(s@, p@, 0));
        }
        return true;
    }
    let mut i: usize = 0;
    loop
        invariant
            0 <= i <= n - m + 1,
            n == s@.len(),
            m == p@.len(),
            1 <= m <= n,
            forall|k: int| 0 <= k < i ==> !#[trigger] matches_at_ci(s@, p@, k),
        decreases n - m + 1 - i,
    {
        if i > n - m {
            proof {
                assert(forall|k: int|
                    0 <= k && k + p@.len() <= s@.len() ==> !#[trigger] matches_at_ci(s@, p@, k));
            }
            return false;
        }
        if match_at(s, p, i) {
            return true;
        }
        i += 1;
    }
}

/// A recurring schedule: one independent membership flag for each of the
/// seven days of the week.
#[derive(Clone, Copy, Debug, PartialEq, Eq, Hash, PartialOrd, Ord, Structural)]
pub struct Recurrence {
    pub monday: bool,
    pub tuesday: bool,
    pub wednesday: bool,
    pub thursday: bool,
    pub friday: bool,
    pub saturday: bool,
    pub sunday: bool,
}

impl Default for Recurrence {
    /// The empty recurrence: no day is active.
    fn default() -> (r: Recurrence)
        ensures
            r == empty_recurrence(),
    {
        Recurrence {
            monday: false,
            tuesday: false,
            wednesday: false,
            thursday: false,
            friday: false,
            saturday: false,
            sunday: false,
        }
    }
}

/// The recurrence with every flag false.
pub open spec fn empty_recurrence() -> Recurrence {
    Recurrence {
        monday: false,
        tuesday: false,
        wednesday: false,
        thursday: false,
        friday: false,
        saturday: false,
        sunday: false,
    }
}

/// The flag of `r` that belongs to day `d`.
pub open spec fn day_flag(r: Recurrence, d: Day) -> bool {
    match d {
        Day::Monday => r.monday,
        Day::Tuesday => r.tuesday,
        Day::Wednesday => r.wednesday,
        Day::Thursday => r.thursday,
        Day::Friday => r.friday,
        Day::Saturday => r.saturday,
        Day::Sunday => r.sunday,
    }
}

/// The recurrence parsed from a text: each flag is set exactly when the
/// day's canonical abbreviation occurs somewhere in the text, without
/// regard to ASCII case.
pub open spec fn from_string_spec(s: Seq<char>) -> Recurrence {
    Recurrence {
        monday: contains_ci(s, day_abbrev(Day::Monday)),
        tuesday: contains_ci(s, day_abbrev(Day::Tuesday)),
        wednesday: contains_ci(s, day_abbrev(Day::Wednesday)),
        thursday: contains_ci(s, day_abbrev(Day::Thursday)),
        friday: contains_ci(s, day_abbrev(Day::Friday)),
        saturday: contains_ci(s, day_abbrev(Day::Saturday)),
        sunday: contains_ci(s, day_abbrev(Day::Sunday)),
    }
}

impl Recurrence {
    /// Best-effort parse of a free-text recurrence: a day is active exactly
    /// when its canonical three-letter abbreviation occurs as a substring
    /// of `value`, independent of the separators and ordering around it and
    /// of ASCII case; anything else in the text is silently ignored.
    pub fn from_string(value: String) -> (r: Recurrence)
        ensures
            r == from_string_spec(value@),
    {
        proof {
            reveal_strlit("Mon");
            reveal_strlit("Tue");
            reveal_strlit("Wed");
            reveal_strlit("Thu");
            reveal_strlit("Fri");
            reveal_strlit("Sat");
            reveal_strlit("Sun");
            assert(("Mon")@ =~= day_abbrev(Day::Monday));
            assert(("Tue")@ =~= day_abbrev(Day::Tuesday));
            assert(("Wed")@ =~= day_abbrev(Day::Wednesday));
            assert(("Thu")@ =~= day_abbrev(Day::Thursday));
            assert(("Fri")@ =~= day_abbrev(Day::Friday));
            assert(("Sat")@ =~= day_abbrev(Day::Saturday));
            assert(("Sun")@ =~= day_abbrev(Day::Sunday));
        }
        let s = value.as_str();
        Recurrence {
            monday: contains_str(s, "Mon"),
            tuesday: contains_str(s, "Tue"),
            wednesday: contains_str(s, "Wed"),
            thursday: contains_str(s, "Thu"),
            friday: contains_str(s, "Fri"),
            saturday: contains_str(s, "Sat"),
            sunday: contains_str(s, "Sun"),
        }
    }
}

/// The separator written between two day abbreviations.
pub open spec fn sep() -> Seq<char> {
    seq![',', ' ']
}

/// The seven days in the fixed Monday-to-Sunday rendering order.
pub open spec fn all_days() -> Seq<Day> {
    seq![
        Day::Monday,
        Day::Tuesday,
        Day::Wednesday,
        Day::Thursday,
        Day::Friday,
        Day::Saturday,
        Day::Sunday,
    ]
}

/// The days of `days` whose flag is active in `r`, in the order given.
pub open spec fn active_from(r: Recurrence, days: Seq<Day>) -> Seq<Day>
    decreases days.len(),
{
    if days.len() == 0 {
        Seq::empty()
    } else if day_flag(r, days[0]) {
        seq![days[0]] + active_from(r, days.drop_first())
    } else {
        active_from(r, days.drop_first())
    }
}

/// The active days of `r` in Monday-to-Sunday order.
pub open spec fn active_days(r: Recurrence) -> Seq<Day> {
    active_from(r, all_days())
}

/// The abbreviations of `days` joined with the separator.
pub open spec fn join_days(days: Seq<Day>) -> Seq<char>
    decreases days.len(),
{
    if days.len() == 0 {
        Seq::empty()
    } else if days.len() == 1 {
        day_abbrev(days[0])
    } else {
        day_abbrev(days[0]) + sep() + join_days(days.drop_first())
    }
}

/// The textual rendering of `r`: the abbreviations of its active days, in
/// Monday-to-Sunday order, joined with a comma and a space.
pub open spec fn to_string_spec(r: Recurrence) -> Seq<char> {
    join_days(active_days(r))
}

/// Extending the scanned day list by one day extends the active list by that
/// day exactly when its flag is set.
proof fn lemma_active_from_push(r: Recurrence, days: Seq<Day>, d: Day)
    ensures
        active_from(r, days.push(d)) == active_from(r, days) + (if day_flag(r, d) {
            seq![d]
        } else {
            Seq::<Day>::empty()
        }),
    decreases days.len(),
{
    let tail = (if day_flag(r, d) {
        seq![d]
    } else {
        Seq::<Day>::empty()
    });
    if days.len() == 0 {
        assert(days.push(d)[0] == d);
        assert(days.push(d).drop_first() =~= Seq::<Day>::empty());
        assert(active_from(r, Seq::<Day>::empty()) =~= Seq::<Day>::empty());
        assert(days =~= Seq::<Day>::empty());
        if day_flag(r, d) {
            assert(active_from(r, days.push(d)) =~= active_from(r, days) + tail);
        } else {
            assert(active_from(r, days.push(d)) =~= active_from(r, days) + tail);
        }
    } else {
        assert(days.push(d)[0] == days[0]);
        assert(days.push(d).drop_first() =~= days.drop_first().push(d));
        lemma_active_from_push(r, days.drop_first(), d);
        if day_flag(r, days[0]) {
            assert(active_from(r, days.push(d)) == seq![days[0]] + active_from(
                r,
                days.drop_first().push(d),
            ));
            assert(seq![days[0]] + (active_from(r, days.drop_first()) + tail) =~= (seq![days[0]]
                + active_from(r, days.drop_first())) + tail);
        } else {
            assert(active_from(r, days.push(d)) == active_from(r, days.drop_first().push(d)));
        }
    }
}

/// Joining after appending one more day appends the separator and that day's
/// abbreviation, unless the list was empty.
proof fn lemma_join_push(days: Seq<Day>, d: Day)
    ensures
        days.len() == 0 ==> join_days(days.push(d)) == day_abbrev(d),
        days.len() > 0 ==> join_days(days.push(d)) == join_days(days) + sep() + day_abbrev(d),
    decreases days.len(),
{
    if days.len() == 0 {
        assert(days.push(d)[0] == d);
    } else if days.len() == 1 {
        assert(days.push(d)[0] == days[0]);
        assert(days.push(d).drop_first() =~= seq![d]);
        assert(join_days(days.push(d)) == day_abbrev(days[0]) + sep() + join_days(seq![d]));
        assert(join_days(seq![d]) == day_abbrev(d));
    } else {
        assert(days.push(d)[0] == days[0]);
        assert(days.push(d).drop_first() =~= days.drop_first().push(d));
        lemma_join_push(days.drop_first(), d);
        assert(join_days(days.push(d)) == day_abbrev(days[0]) + sep() + join_days(
            days.drop_first().push(d),
        ));
        assert(day_abbrev(days[0]) + sep() + (join_days(days.drop_first()) + sep() + day_abbrev(d))
            =~= (day_abbrev(days[0]) + sep() + join_days(days.drop_first())) + sep() + day_abbrev(
            d,
        ));
    }
}

/// The abbreviation of every day of `days` occurs in their joined rendering.
proof fn lemma_join_contains(days: Seq<Day>, d: Day)
    requires
        days.contains(d),
    ensures
        contains_ci(join_days(days), day_abbrev(d)),
    decreases days.len(),
{
    let s = join_days(days);
    let p = day_abbrev(d);
    lemma_abbrev_shape(d);
    lemma_abbrev_shape(days[0]);
    if days[0] == d {
        if days.len() >= 2 {
            assert(s == day_abbrev(days[0]) + sep() + join_days(days.drop_first()));
        }
        assert forall|j: int| 0 <= j < p.len() implies fold_char(s[0 + j]) == #[trigger] fold_char(
            p[j],
        ) by {
            assert(s[0 + j] == p[j]);
        }
        assert(matches_at_ci(s, p, 0));
        assert(0 + p.len() <= s.len());
    } else {
        let rest = days.drop_first();
        assert(rest.contains(d)) by {
            let j = choose|j: int| 0 <= j < days.len() && days[j] == d;
            assert(rest[j - 1] == d);
        }
        lemma_join_contains(rest, d);
        let i = choose|i: int|
            0 <= i && i + p.len() <= join_days(rest).len() && #[trigger] matches_at_ci(
                join_days(rest),
                p,
                i,
            );
        assert(days.len() >= 2);
        assert(s == day_abbrev(days[0]) + sep() + join_days(rest));
        assert forall|j: int| 0 <= j < p.len() implies fold_char(s[(i + 5) + j])
            == #[trigger] fold_char(p[j]) by {
            assert(s[(i + 5) + j] == join_days(rest)[i + j]);
        }
        assert(matches_at_ci(s, p, i + 5));
        assert(0 <= i + 5 && (i + 5) + p.len() <= s.len());
    }
}

/// An abbreviation that occurs in the joined rendering belongs to one of the
/// joined days: no abbreviation character folds to a separator character,
/// so a match can only stand exactly where a day was written.
proof fn lemma_join_only_listed(days: Seq<Day>, d: Day)
    requires
        contains_ci(join_days(days), day_abbrev(d)),
    ensures
        days.contains(d),
    decreases days.len(),
{
    let s = join_days(days);
    let p = day_abbrev(d);
    lemma_abbrev_shape(d);
    let i = choose|i: int| 0 <= i && i + p.len() <= s.len() && #[trigger] matches_at_ci(s, p, i);
    assert(fold_char(s[i + 0]) == fold_char(p[0]));
    assert(fold_char(s[i + 1]) == fold_char(p[1]));
    assert(fold_char(s[i + 2]) == fold_char(p[2]));
    if days.len() == 0 {
        assert(false);
    } else {
        lemma_abbrev_shape(days[0]);
        if days.len() == 1 {
            assert(s == day_abbrev(days[0]));
            assert(i == 0);
            lemma_abbrev_injective(d, days[0]);
            assert(days[0] == d);
        } else {
            let rest = days.drop_first();
            assert(s == day_abbrev(days[0]) + sep() + join_days(rest));
            assert(s[3] == ',' && s[4] == ' ');
            if i == 0 {
                lemma_abbrev_injective(d, days[0]);
                assert(days[0] == d);
            } else if i <= 3 {
                // the comma at position 3 would sit inside the abbreviation
                assert(fold_char(s[i + (3 - i)]) == fold_char(p[3 - i]));
                assert(fold_char(',') == 44);
                assert(false);
            } else if i == 4 {
                // the space at position 4 would begin the abbreviation
                assert(fold_char(s[i + 0]) == fold_char(p[0]));
                assert(fold_char(' ') == 32);
                assert(false);
            } else {
                // the match lies wholly inside the joined tail
                assert forall|j: int| 0 <= j < p.len() implies fold_char(
                    join_days(rest)[(i - 5) + j],
                ) == #[trigger] fold_char(p[j]) by {
                    assert(join_days(rest)[(i - 5) + j] == s[i + j]);
                    assert(fold_char(s[i + j]) == fold_char(p[j]));
                }
                assert(matches_at_ci(join_days(rest), p, i - 5));
                lemma_join_only_listed(rest, d);
                let j = choose|j: int| 0 <= j < rest.len() && rest[j] == d;
                assert(days[j + 1] == d);
            }
        }
    }
}

/// A day is listed among the active days exactly when its flag is set.
proof fn lemma_active_from_contains(r: Recurrence, days: Seq<Day>, d: Day)
    ensures
        active_from(r, days).contains(d) <==> days.contains(d) && day_flag(r, d),
    decreases days.len(),
{
    if days.len() == 0 {
    } else {
        let rest = days.drop_first();
        lemma_active_from_contains(r, rest, d);
        assert(rest.contains(d) ==> days.contains(d)) by {
            if rest.contains(d) {
                let j = choose|j: int| 0 <= j < rest.len() && rest[j] == d;
                assert(days[j + 1] == d);
            }
        }
        if day_flag(r, days[0]) {
            let a = seq![days[0]] + active_from(r, rest);
            assert(active_from(r, days) == a);
            if days.contains(d) && day_flag(r, d) {
                if days[0] == d {
                    assert(a[0] == d);
                } else {
                    let j = choose|j: int| 0 <= j < days.len() && days[j] == d;
                    assert(rest[j - 1] == d);
                    let k = choose|k: int|
                        0 <= k < active_from(r, rest).len() && active_from(r, rest)[k] == d;
                    assert(a[k + 1] == d);
                }
            }
            if a.contains(d) {
                let k = choose|k: int| 0 <= k < a.len() && a[k] == d;
                if k == 0 {
                    assert(days[0] == d);
                } else {
                    assert(active_from(r, rest)[k - 1] == d);
                }
            }
        } else {
            if days.contains(d) && day_flag(r, d) {
                let j = choose|j: int| 0 <= j < days.len() && days[j] == d;
                assert(j != 0);
                assert(rest[j - 1] == d);
            }
        }
    }
}

/// Each of the seven days is listed in `all_days`.
proof fn lemma_all_days_contains(d: Day)
    ensures
        all_days().contains(d),
{
    match d {
        Day::Monday => assert(all_days()[0] == d),
        Day::Tuesday => assert(all_days()[1] == d),
        Day::Wednesday => assert(all_days()[2] == d),
        Day::Thursday => assert(all_days()[3] == d),
        Day::Friday => assert(all_days()[4] == d),
        Day::Saturday => assert(all_days()[5] == d),
        Day::Sunday => assert(all_days()[6] == d),
    }
}

/// A day's abbreviation occurs in the rendering of `r` exactly when that
/// day's flag is set: the separator never makes one abbreviation out of
/// pieces of others.
pub proof fn lemma_rendering_contains(r: Recurrence, d: Day)
    ensures
        contains_ci(to_string_spec(r), day_abbrev(d)) <==> day_flag(r, d),
{
    lemma_all_days_contains(d);
    lemma_active_from_contains(r, all_days(), d);
    if day_flag(r, d) {
        lemma_join_contains(active_days(r), d);
    }
    if contains_ci(to_string_spec(r), day_abbrev(d)) {
        lemma_join_only_listed(active_days(r), d);
    }
}

/// The round-trip law: parsing the rendering of any recurrence reproduces it
/// exactly, for every subset of the seven days.
pub proof fn lemma_recurrence_round_trip(r: Recurrence)
    ensures
        from_string_spec(to_string_spec(r)) == r,
{
    lemma_rendering_contains(r, Day::Monday);
    lemma_rendering_contains(r, Day::Tuesday);
    lemma_rendering_contains(r, Day::Wednesday);
    lemma_rendering_contains(r, Day::Thursday);
    lemma_rendering_contains(r, Day::Friday);
    lemma_rendering_contains(r, Day::Saturday);
    lemma_rendering_contains(r, Day::Sunday);
}

impl Recurrence {
    /// Whether the flag of day `d` is set.
    pub fn flag(&self, d: Day) -> (b: bool)
        ensures
            b == day_flag(*self, d),
    {
        match d {
            Day::Monday => self.monday,
            Day::Tuesday => self.tuesday,
            Day::Wednesday => self.wednesday,
            Day::Thursday => self.thursday,
            Day::Friday => self.friday,
            Day::Saturday => self.saturday,
            Day::Sunday => self.sunday,
        }
    }

    /// The comma-and-space-joined list of the active days' abbreviations in
    /// fixed Monday-to-Sunday order; the empty recurrence renders as the
    /// empty string.
    pub fn to_string(&self) -> (s: String)
        ensures
            s@ == to_string_spec(*self),
    {
        let days: Vec<Day> = vec![
            Day::Monday,
            Day::Tuesday,
            Day::Wednesday,
            Day::Thursday,
            Day::Friday,
            Day::Saturday,
            Day::Sunday,
        ];
        proof {
            assert(days@ =~= all_days());
        }
        let mut s = String::new();
        let mut any = false;
        let mut i: usize = 0;
        while i < days.len()
            invariant
                0 <= i <= days@.len(),
                days@ == all_days(),
                s@ == join_days(active_from(*self, all_days().take(i as int))),
                any == (active_from(*self, all_days().take(i as int)).len() != 0),
            decreases days@.len() - i,
        {
            let ghost prefix = all_days().take(i as int);
            let ghost active = active_from(*self, prefix);
            proof {
                assert(all_days().take(i + 1) =~= prefix.push(all_days()[i as int]));
                lemma_active_from_push(*self, prefix, all_days()[i as int]);
                reveal_strlit(", ");
                assert((", ")@ =~= sep());
            }
            let d = days[i];
            if self.flag(d) {
                proof {
                    lemma_join_push(active, d);
                    assert(active.push(d) =~= active + seq![d]);
                }
                if any {
                    s.append(", ");
                } else {
                    proof {
                        assert(active.len() == 0);
                        assert(active_from(*self, all_days().take(i + 1)) =~= seq![d]);
                    }
                }
                let part = d.to_string();
                s.append(part.as_str());
                any = true;
                proof {
                    assert(active_from(*self, all_days().take(i + 1)) =~= active.push(d));
                    assert(active.push(d).len() != 0);
                }
            } else {
                proof {
                    assert(active_from(*self, all_days().take(i + 1)) =~= active);
                }
            }
            i += 1;
        }
        proof {
            assert(all_days().take(7) =~= all_days());
        }
        s
    }
}

/// A day of the week as the external task service writes it in a recurrence
/// pattern.
#[derive(Clone, Copy, Debug, PartialEq, Eq, Structural)]
pub enum DayOfWeek {
    Monday,
    Tuesday,
    Wednesday,
    Thursday,
    Friday,
    Saturday,
    Sunday,
}

/// The day-of-week set of an external recurrence pattern.
#[derive(Clone, Debug)]
pub struct RecurrencePattern {
    pub days_of_week: Vec<DayOfWeek>,
}

/// A recurrence as the external task service represents it: a pattern whose
/// day-of-week set is the only part the recurrence model reads.
#[derive(Clone, Debug)]
pub struct TaskRecurrence {
    pub pattern: RecurrencePattern,
}

/// The recurrence whose flags mirror membership in the external pattern's
/// day-of-week set.
pub open spec fn from_pattern_spec(value: TaskRecurrence) -> Recurrence {
    Recurrence {
        monday: value.pattern.days_of_week@.contains(DayOfWeek::Monday),
        tuesday: value.pattern.days_of_week@.contains(DayOfWeek::Tuesday),
        wednesday: value.pattern.days_of_week@.contains(DayOfWeek::Wednesday),
        thursday: value.pattern.days_of_week@.contains(DayOfWeek::Thursday),
        friday: value.pattern.days_of_week@.contains(DayOfWeek::Friday),
        saturday: value.pattern.days_of_week@.contains(DayOfWeek::Saturday),
        sunday: value.pattern.days_of_week@.contains(DayOfWeek::Sunday),
    }
}

/// Whether `d` is a member of `days`.
fn days_of_week_contains(days: &Vec<DayOfWeek>, d: DayOfWeek) -> (r: bool)
    ensures
        r == days@.contains(d),
{
    let mut i: usize = 0;
    while i < days.len()
        invariant
            0 <= i <= days@.len(),
            forall|k: int| 0 <= k < i ==> days@[k] != d,
        decreases days@.len() - i,
    {
        if days[i] == d {
            return true;
        }
        i += 1;
    }
    false
}

impl From<TaskRecurrence> for Recurrence {
    /// Each day's flag is set exactly when that day is a member of the
    /// external pattern's day-of-week set; no other field of the pattern is
    /// consulted.
    fn from(value: TaskRecurrence) -> (r: Recurrence)
        ensures
            r == from_pattern_spec(value),
    {
        let days = &value.pattern.days_of_week;
        Recurrence {
            monday: days_of_week_contains(days, DayOfWeek::Monday),
            tuesday: days_of_week_contains(days, DayOfWeek::Tuesday),
            wednesday: days_of_week_contains(days, DayOfWeek::Wednesday),
            thursday: days_of_week_contains(days, DayOfWeek::Thursday),
            friday: days_of_week_contains(days, DayOfWeek::Friday),
            saturday: days_of_week_contains(days, DayOfWeek::Saturday),
            sunday: days_of_week_contains(days, DayOfWeek::Sunday),
        }
    }
}

impl vstd::std_specs::convert::FromSpecImpl<TaskRecurrence> for Recurrence {
    open spec fn obeys_from_spec() -> bool {
        true
    }

    open spec fn from_spec(value: TaskRecurrence) -> Recurrence {
        from_pattern_spec(value)
    }
}

} // verus!
