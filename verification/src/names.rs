//! The closed sets of names that stand for a field's value: weekdays,
//! months and the two halves of the day.

use vstd::prelude::*;

verus! {

/// One of the sets of names.
#[derive(Clone, Copy, Debug, PartialEq, Eq, Structural)]
pub enum Names {
    /// `Sunday` to `Saturday`.
    Weekday,
    /// `Sun` to `Sat`.
    WeekdayShort,
    /// `January` to `December`.
    Month,
    /// `Jan` to `Dec`.
    MonthShort,
    /// `am` and `pm`.
    HalfLower,
    /// `AM` and `PM`.
    HalfUpper,
}

impl Names {
    /// How many names the set has.
    pub open spec fn count(self) -> int {
        match self {
            Names::Weekday | Names::WeekdayShort => 7,
            Names::Month | Names::MonthShort => 12,
            Names::HalfLower | Names::HalfUpper => 2,
        }
    }

    /// The name at index `i`, for `0 <= i < self.count()`.
    pub open spec fn name(self, i: int) -> Seq<char> {
        match self {
            Names::Weekday => if i == 0 {
                "Sunday"@
            } else if i == 1 {
                "Monday"@
            } else if i == 2 {
                "Tuesday"@
            } else if i == 3 {
                "Wednesday"@
            } else if i == 4 {
                "Thursday"@
            } else if i == 5 {
                "Friday"@
            } else {
                "Saturday"@
            },
            Names::WeekdayShort => if i == 0 {
                "Sun"@
            } else if i == 1 {
                "Mon"@
            } else if i == 2 {
                "Tue"@
            } else if i == 3 {
                "Wed"@
            } else if i == 4 {
                "Thu"@
            } else if i == 5 {
                "Fri"@
            } else {
                "Sat"@
            },
            Names::Month => if i == 0 {
                "January"@
            } else if i == 1 {
                "February"@
            } else if i == 2 {
                "March"@
            } else if i == 3 {
                "April"@
            } else if i == 4 {
                "May"@
            } else if i == 5 {
                "June"@
            } else if i == 6 {
                "July"@
            } else if i == 7 {
                "August"@
            } else if i == 8 {
                "September"@
            } else if i == 9 {
                "October"@
            } else if i == 10 {
                "November"@
            } else {
                "December"@
            },
            Names::MonthShort => if i == 0 {
                "Jan"@
            } else if i == 1 {
                "Feb"@
            } else if i == 2 {
                "Mar"@
            } else if i == 3 {
                "Apr"@
            } else if i == 4 {
                "May"@
            } else if i == 5 {
                "Jun"@
            } else if i == 6 {
                "Jul"@
            } else if i == 7 {
                "Aug"@
            } else if i == 8 {
                "Sep"@
            } else if i == 9 {
                "Oct"@
            } else if i == 10 {
                "Nov"@
            } else {
                "Dec"@
            },
            Names::HalfLower => if i == 0 {
                "am"@
            } else {
                "pm"@
            },
            Names::HalfUpper => if i == 0 {
                "AM"@
            } else {
                "PM"@
            },
        }
    }

    /// The number that the name at index `i` stands for: the index itself,
    /// but for the halves of the day the hours that the half adds.
    pub open spec fn value(self, i: int) -> int {
        match self {
            Names::HalfLower | Names::HalfUpper => 12 * i,
            _ => i,
        }
    }

    /// How many names the set has.
    pub(crate) fn len(self) -> (n: usize)
        ensures
            n == self.count(),
    {
        match self {
            Names::Weekday | Names::WeekdayShort => 7,
            Names::Month | Names::MonthShort => 12,
            Names::HalfLower | Names::HalfUpper => 2,
        }
    }

    /// The name at index `i`.
    pub(crate) fn get(self, i: usize) -> (name: &'static str)
        requires
            i < self.count(),
        ensures
            name@ == self.name(i as int),
    {
        match self {
            Names::Weekday => if i == 0 {
                "Sunday"
            } else if i == 1 {
                "Monday"
            } else if i == 2 {
                "Tuesday"
            } else if i == 3 {
                "Wednesday"
            } else if i == 4 {
                "Thursday"
            } else if i == 5 {
                "Friday"
            } else {
                "Saturday"
            },
            Names::WeekdayShort => if i == 0 {
                "Sun"
            } else if i == 1 {
                "Mon"
            } else if i == 2 {
                "Tue"
            } else if i == 3 {
                "Wed"
            } else if i == 4 {
                "Thu"
            } else if i == 5 {
                "Fri"
            } else {
                "Sat"
            },
            Names::Month => if i == 0 {
                "January"
            } else if i == 1 {
                "February"
            } else if i == 2 {
                "March"
            } else if i == 3 {
                "April"
            } else if i == 4 {
                "May"
            } else if i == 5 {
                "June"
            } else if i == 6 {
                "July"
            } else if i == 7 {
                "August"
            } else if i == 8 {
                "September"
            } else if i == 9 {
                "October"
            } else if i == 10 {
                "November"
            } else {
                "December"
            },
            Names::MonthShort => if i == 0 {
                "Jan"
            } else if i == 1 {
                "Feb"
            } else if i == 2 {
                "Mar"
            } else if i == 3 {
                "Apr"
            } else if i == 4 {
                "May"
            } else if i == 5 {
                "Jun"
            } else if i == 6 {
                "Jul"
            } else if i == 7 {
                "Aug"
            } else if i == 8 {
                "Sep"
            } else if i == 9 {
                "Oct"
            } else if i == 10 {
                "Nov"
            } else {
                "Dec"
            },
            Names::HalfLower => if i == 0 {
                "am"
            } else {
                "pm"
            },
            Names::HalfUpper => if i == 0 {
                "AM"
            } else {
                "PM"
            },
        }
    }
}

/// `needle` stands in `s` at position `pos`.
pub open spec fn occurs_at(s: Seq<char>, pos: int, needle: Seq<char>) -> bool {
    &&& 0 <= pos
    &&& pos + needle.len() <= s.len()
    &&& s.subrange(pos, pos + needle.len()) == needle
}

/// The index of the first name of `table`, from index `from` on, that stands
/// in `s` at position `pos`.
pub open spec fn first_name_at(s: Seq<char>, pos: int, table: Names, from: int) -> Option<int>
    decreases table.count() - from,
{
    if from >= table.count() {
        None
    } else if occurs_at(s, pos, table.name(from)) {
        Some(from)
    } else {
        first_name_at(s, pos, table, from + 1)
    }
}

/// Whether `needle` stands in `s` at position `pos`.
pub(crate) fn starts_at(s: &Vec<char>, pos: usize, needle: &str) -> (found: bool)
    requires
        pos <= s.len(),
    ensures
        found == occurs_at(s@, pos as int, needle@),
{
    let n: usize = needle.unicode_len();
    if n > s.len() - pos {
        return false;
    }
    let mut i: usize = 0;
    while i < n
        invariant
            i <= n,
            n == needle@.len(),
            pos + n <= s.len(),
            s@.subrange(pos as int, pos + i) == needle@.subrange(0, i as int),
        decreases n - i,
    {
        if s[pos + i] != needle.get_char(i) {
            return false;
        }
        i = i + 1;
    }
    assert(needle@.subrange(0, n as int) == needle@);
    true
}

/// Looks for a name of `table` at position `pos`: the index of the first one
/// that stands there, and the position behind it.
pub(crate) fn match_names(s: &Vec<char>, pos: usize, table: Names) -> (found: Option<(usize, usize)>)
    requires
        pos <= s.len(),
    ensures
        match found {
            Some((i, next)) => first_name_at(s@, pos as int, table, 0) == Some(i as int) && i
                < table.count() && next == pos + table.name(i as int).len() && next <= s.len(),
            None => first_name_at(s@, pos as int, table, 0) is None,
        },
{
    let count: usize = table.len();
    let mut i: usize = 0;
    while i < count
        invariant
            i <= count,
            count == table.count(),
            pos <= s.len(),
            first_name_at(s@, pos as int, table, 0) == first_name_at(s@, pos as int, table, i as int),
        decreases count - i,
    {
        let name = table.get(i);
        if starts_at(s, pos, name) {
            return Some((i, pos + name.unicode_len()));
        }
        i = i + 1;
    }
    None
}

/// Where `needle` stands in `s`, the characters of `s` are those of `needle`.
pub proof fn lemma_occurs_char(s: Seq<char>, pos: int, needle: Seq<char>, i: int)
    requires
        occurs_at(s, pos, needle),
        0 <= i < needle.len(),
    ensures
        s[pos + i] == needle[i],
{
}

/// The two sequences differ in the character at index `k`, which both have.
pub open spec fn differ_at(a: Seq<char>, b: Seq<char>, k: int) -> bool {
    k < a.len() && k < b.len() && a[k] != b[k]
}

/// Two names of one set differ within their first three characters, so
/// that none begins with another.
pub proof fn lemma_names_differ(table: Names, i: int, j: int)
    requires
        0 <= i < table.count(),
        0 <= j < table.count(),
        i != j,
    ensures
        differ_at(table.name(i), table.name(j), 0) || differ_at(table.name(i), table.name(j), 1)
            || differ_at(table.name(i), table.name(j), 2),
        table.name(i).len() > 0,
{
    reveal_strlit("Sunday");
    reveal_strlit("Monday");
    reveal_strlit("Tuesday");
    reveal_strlit("Wednesday");
    reveal_strlit("Thursday");
    reveal_strlit("Friday");
    reveal_strlit("Saturday");
    reveal_strlit("Sun");
    reveal_strlit("Mon");
    reveal_strlit("Tue");
    reveal_strlit("Wed");
    reveal_strlit("Thu");
    reveal_strlit("Fri");
    reveal_strlit("Sat");
    reveal_strlit("January");
    reveal_strlit("February");
    reveal_strlit("March");
    reveal_strlit("April");
    reveal_strlit("May");
    reveal_strlit("June");
    reveal_strlit("July");
    reveal_strlit("August");
    reveal_strlit("September");
    reveal_strlit("October");
    reveal_strlit("November");
    reveal_strlit("December");
    reveal_strlit("Jan");
    reveal_strlit("Feb");
    reveal_strlit("Mar");
    reveal_strlit("Apr");
    reveal_strlit("Jun");
    reveal_strlit("Jul");
    reveal_strlit("Aug");
    reveal_strlit("Sep");
    reveal_strlit("Oct");
    reveal_strlit("Nov");
    reveal_strlit("Dec");
    reveal_strlit("am");
    reveal_strlit("pm");
    reveal_strlit("AM");
    reveal_strlit("PM");
}

/// Where one name of a set stands, no other name of the set stands.
pub proof fn lemma_one_name(s: Seq<char>, pos: int, table: Names, i: int, j: int)
    requires
        0 <= i < table.count(),
        0 <= j < table.count(),
        i != j,
        occurs_at(s, pos, table.name(i)),
    ensures
        !occurs_at(s, pos, table.name(j)),
{
    lemma_names_differ(table, i, j);
    let a = table.name(i);
    let b = table.name(j);
    if occurs_at(s, pos, b) {
        if differ_at(a, b, 0) {
            lemma_occurs_char(s, pos, a, 0);
            lemma_occurs_char(s, pos, b, 0);
        } else if differ_at(a, b, 1) {
            lemma_occurs_char(s, pos, a, 1);
            lemma_occurs_char(s, pos, b, 1);
        } else {
            lemma_occurs_char(s, pos, a, 2);
            lemma_occurs_char(s, pos, b, 2);
        }
    }
}

/// Where the name at index `i` stands, the search from index `from` on
/// finds it.
proof fn lemma_finds_name_from(s: Seq<char>, pos: int, table: Names, i: int, from: int)
    requires
        0 <= from <= i < table.count(),
        occurs_at(s, pos, table.name(i)),
    ensures
        first_name_at(s, pos, table, from) == Some(i),
    decreases i - from,
{
    if from < i {
        lemma_one_name(s, pos, table, i, from);
        lemma_finds_name_from(s, pos, table, i, from + 1);
    }
}

/// The first name found at a position is the only one that stands there,
/// and so the longest: where the name at index `i` stands, the search
/// finds it, and it is not empty.
pub proof fn lemma_name_found(s: Seq<char>, pos: int, table: Names, i: int)
    requires
        0 <= i < table.count(),
        occurs_at(s, pos, table.name(i)),
    ensures
        first_name_at(s, pos, table, 0) == Some(i),
        table.name(i).len() > 0,
{
    lemma_finds_name_from(s, pos, table, i, 0);
    lemma_names_differ(
        table,
        i,
        if i == 0 {
            1
        } else {
            0
        },
    );
}

} // verus!
