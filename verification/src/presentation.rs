//! The achievements as rows of text, for a table.

use vstd::prelude::*;
use vstd::string::StringExecFns;
use chrono::{DateTime, Utc};
use crate::steam::{Achievement, AchievementView};

verus! {

/// The text that chrono shows for the moment `seconds` seconds after the
/// Unix epoch, in UTC, and `None` where chrono has no such moment.
pub uninterp spec fn utc_text(seconds: i64) -> Option<Seq<char>>;

/// Calls chrono's `DateTime::<Utc>::from_timestamp_secs` and, where that
/// gives a moment, the `to_string` that chrono's `Display` for
/// `DateTime<Utc>` provides. Trusted: the outcome is what `utc_text` names,
/// `None` exactly where chrono has no moment for `seconds`.
#[verifier::external_body]
fn render_utc(seconds: i64) -> (text: Option<String>)
    ensures
        text.deep_view() == utc_text(seconds),
{
    match DateTime::<Utc>::from_timestamp_secs(seconds) {
        Some(moment) => Some(moment.to_string()),
        None => None,
    }
}

/// The titles of the four columns.
pub open spec fn header() -> Seq<Seq<char>> {
    seq!["Name"@, "Description"@, "Achieved?"@, "Achieved at"@]
}

/// The row of an achievement, given the text of the moment at which it was
/// reached, if it was: its name, its description or `Hidden`, whether it
/// was reached, and that text or `Not achieved... yet`.
pub open spec fn row_with(achievement: AchievementView, achieved_at: Option<Seq<char>>) -> Seq<
    Seq<char>,
> {
    seq![
        achievement.display_name,
        match achievement.description {
            Some(description) => description,
            None => "Hidden"@,
        },
        if achievement.achieved {
            "true"@
        } else {
            "false"@
        },
        match achieved_at {
            Some(text) => text,
            None => "Not achieved... yet"@,
        },
    ]
}

/// The row of an achievement, and `None` where it was reached at a moment
/// that chrono cannot show.
pub open spec fn row(achievement: AchievementView) -> Option<Seq<Seq<char>>> {
    match achievement.achieved_at {
        Some(seconds) => match utc_text(seconds) {
            Some(text) => Some(row_with(achievement, Some(text))),
            None => None,
        },
        None => Some(row_with(achievement, None)),
    }
}

/// The rows of the achievements, in their order, and `None` where one of
/// them has no row.
pub open spec fn rows(achievements: Seq<AchievementView>) -> Option<Seq<Seq<Seq<char>>>> {
    if forall|i: int| 0 <= i < achievements.len() ==> (#[trigger] row(achievements[i])) is Some {
        Some(Seq::new(achievements.len(), |i: int| row(achievements[i])->0))
    } else {
        None
    }
}

/// The titles of the four columns.
pub fn table_header() -> (titles: Vec<String>)
    ensures
        titles.deep_view() == header(),
{
    let mut titles: Vec<String> = Vec::new();
    titles.push(String::from_str("Name"));
    titles.push(String::from_str("Description"));
    titles.push(String::from_str("Achieved?"));
    titles.push(String::from_str("Achieved at"));
    assert(titles.deep_view() =~= header());
    titles
}

/// The row of an achievement, given the text of the moment at which it was
/// reached, if it was.
pub fn format_row(achievement: &Achievement, achieved_at: Option<String>) -> (cells: Vec<String>)
    ensures
        cells.deep_view() == row_with(achievement@, achieved_at.deep_view()),
{
    let mut cells: Vec<String> = Vec::new();
    cells.push(achievement.display_name.clone());
    cells.push(
        match &achievement.description {
            Some(description) => description.clone(),
            None => String::from_str("Hidden"),
        },
    );
    cells.push(
        if achievement.achieved {
            String::from_str("true")
        } else {
            String::from_str("false")
        },
    );
    cells.push(
        match achieved_at {
            Some(text) => text,
            None => String::from_str("Not achieved... yet"),
        },
    );
    assert(cells.deep_view() =~= row_with(achievement@, achieved_at.deep_view()));
    cells
}

/// The row of an achievement, and `None` where it was reached at a moment
/// that chrono cannot show.
pub fn achievement_row(achievement: &Achievement) -> (cells: Option<Vec<String>>)
    ensures
        cells.deep_view() == row(achievement@),
{
    match achievement.achieved_at {
        Some(seconds) => match render_utc(seconds) {
            Some(text) => Some(format_row(achievement, Some(text))),
            None => None,
        },
        None => Some(format_row(achievement, None)),
    }
}

/// The rows of the achievements, in their order, and `None` where one of
/// them has no row.
pub fn format_achievements(achievements: &Vec<Achievement>) -> (table: Option<Vec<Vec<String>>>)
    ensures
        table.deep_view() == rows(achievements.deep_view()),
{
    let ghost views = achievements.deep_view();
    let mut table: Vec<Vec<String>> = Vec::new();
    let mut i: usize = 0;
    while i < achievements.len()
        invariant
            i <= achievements.len(),
            views == achievements.deep_view(),
            table.len() == i,
            forall|j: int| 0 <= j < i ==> row(views[j]) == Some(#[trigger] table[j].deep_view()),
        decreases achievements.len() - i,
    {
        match achievement_row(&achievements[i]) {
            Some(cells) => {
                table.push(cells);
            },
            None => {
                assert(row(views[i as int]) is None);
                return None;
            },
        }
        i += 1;
    }
    assert forall|j: int| 0 <= j < views.len() implies (#[trigger] row(views[j])) is Some by {
        assert(row(views[j]) == Some(table[j].deep_view()));
    }
    assert(table.deep_view() =~= rows(views)->0);
    Some(table)
}

} // verus!
