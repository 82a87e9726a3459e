//! The dashboard's small decisions: the greeting, the span of the profit
//! trend and the health buckets of the data sources.
use vstd::prelude::*;
use crate::text::str_eq;
use crate::timestamps::{hour_of_day, utc_now};

verus! {

/// The greeting for an hour of the day: morning from 5 to 11, noon at 12 and
/// 13, afternoon from 14 to 18, evening otherwise.
pub open spec fn spec_greeting(hour: u32) -> Seq<char> {
    if 5 <= hour <= 11 {
        "早上好"@
    } else if 12 <= hour <= 13 {
        "中午好"@
    } else if 14 <= hour <= 18 {
        "下午好"@
    } else {
        "晚上好"@
    }
}

/// The greeting for `hour`.
pub fn greeting_for_hour(hour: u32) -> (g: &'static str)
    ensures
        g@ == spec_greeting(hour),
{
    if 5 <= hour && hour <= 11 {
        "早上好"
    } else if 12 <= hour && hour <= 13 {
        "中午好"
    } else if 14 <= hour && hour <= 18 {
        "下午好"
    } else {
        "晚上好"
    }
}

/// The greeting for the current hour in UTC; a clock that cannot be read
/// (set before 1970) is greeted as at midnight.
pub fn current_greeting() -> (g: &'static str)
    ensures
        exists|h: u32| h < 24 && g@ == spec_greeting(h),
{
    let h = match utc_now() {
        Some(now) => hour_of_day(now),
        None => 0,
    };
    greeting_for_hour(h)
}

/// The span of the profit trend: a week, a month, else a day.
pub fn profit_trend_interval(period: Option<&str>) -> (i: &'static str)
    ensures
        i@ == match period {
            Some(p) => if p@ == "week"@ {
                "7 days"@
            } else if p@ == "month"@ {
                "30 days"@
            } else {
                "1 day"@
            },
            None => "1 day"@,
        },
{
    match period {
        Some(p) => if str_eq(p, "week") {
            "7 days"
        } else if str_eq(p, "month") {
            "30 days"
        } else {
            "1 day"
        },
        None => "1 day",
    }
}

/// How many grades in `grades` satisfy `pred`.
pub open spec fn grade_count(grades: Seq<Option<Seq<char>>>, pred: spec_fn(Option<Seq<char>>) -> bool) -> nat
    decreases grades.len(),
{
    if grades.len() == 0 {
        0
    } else {
        grade_count(grades.drop_last(), pred) + if pred(grades.last()) {
            1nat
        } else {
            0nat
        }
    }
}

/// A source graded A or B is healthy.
pub open spec fn is_healthy(g: Option<Seq<char>>) -> bool {
    g == Some("A"@) || g == Some("B"@)
}

/// A source graded C needs attention.
pub open spec fn is_warning(g: Option<Seq<char>>) -> bool {
    g == Some("C"@)
}

/// A source graded D is critical.
pub open spec fn is_critical(g: Option<Seq<char>>) -> bool {
    g == Some("D"@)
}

/// The view of optional grades.
pub open spec fn grades_view(grades: Seq<Option<String>>) -> Seq<Option<Seq<char>>> {
    grades.map_values(|g: Option<String>| match g {
        Some(s) => Some(s@),
        None => None,
    })
}

/// How many sources are healthy, need attention and are critical, from their
/// grades (`None` for a source without one).
pub fn quality_buckets(grades: &Vec<Option<String>>) -> (r: (usize, usize, usize))
    ensures
        r.0 == grade_count(grades_view(grades@), |g| is_healthy(g)),
        r.1 == grade_count(grades_view(grades@), |g| is_warning(g)),
        r.2 == grade_count(grades_view(grades@), |g| is_critical(g)),
{
    let mut healthy: usize = 0;
    let mut warning: usize = 0;
    let mut critical: usize = 0;
    let mut i: usize = 0;
    while i < grades.len()
        invariant
            i <= grades.len(),
            healthy == grade_count(grades_view(grades@.take(i as int)), |g| is_healthy(g)),
            warning == grade_count(grades_view(grades@.take(i as int)), |g| is_warning(g)),
            critical == grade_count(grades_view(grades@.take(i as int)), |g| is_critical(g)),
            healthy <= i,
            warning <= i,
            critical <= i,
        decreases grades.len() - i,
    {
        assert(grades_view(grades@.take(i + 1)).drop_last() =~= grades_view(grades@.take(i as int)));
        proof {
            reveal_strlit("A");
            reveal_strlit("B");
            reveal_strlit("C");
            reveal_strlit("D");
            assert("A"@[0] != "C"@[0]);
            assert("B"@[0] != "C"@[0]);
            assert("A"@[0] != "D"@[0]);
            assert("B"@[0] != "D"@[0]);
            assert("C"@[0] != "D"@[0]);
        }
        match &grades[i] {
            Some(g) => {
                if str_eq(g.as_str(), "A") || str_eq(g.as_str(), "B") {
                    healthy = healthy + 1;
                } else if str_eq(g.as_str(), "C") {
                    warning = warning + 1;
                } else if str_eq(g.as_str(), "D") {
                    critical = critical + 1;
                }
            },
            None => {},
        }
        i = i + 1;
    }
    assert(grades@.take(i as int) =~= grades@);
    (healthy, warning, critical)
}

} // verus!
