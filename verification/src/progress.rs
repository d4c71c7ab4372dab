//! The weekly progress report: its week, and what goes into it.

use vstd::prelude::*;
use crate::classifier::{lemma_lex_lt_transitive, lex_lt};
use crate::github_types::GithubProjectItem;
use crate::patterns::{capture, capture_view, pattern_capture};
use crate::search::{split_chars, split_on, views};
use crate::text::{
    append_decimal, chars_of, decimal, same_text, string_of_range, trim, trim_bounds,
};
use vstd::string::StringExecFns;

verus! {

/// A day of the week.
#[derive(Debug, Clone, Copy, PartialEq, Eq, Structural)]
pub enum Weekday {
    Mon,
    Tue,
    Wed,
    Thu,
    Fri,
    Sat,
    Sun,
}

/// A day: its number in the proleptic Gregorian calendar, where 1 January of
/// the year 1 is day 1, and its day of the week.
#[derive(Debug, Clone, Copy, PartialEq, Eq, Structural)]
pub struct Today {
    pub day: i32,
    pub weekday: Weekday,
}

/// How many days a day of the week lies after Monday.
pub open spec fn days_after_monday(weekday: Weekday) -> int {
    match weekday {
        Weekday::Mon => 0,
        Weekday::Tue => 1,
        Weekday::Wed => 2,
        Weekday::Thu => 3,
        Weekday::Fri => 4,
        Weekday::Sat => 5,
        Weekday::Sun => 6,
    }
}

impl Today {
    /// Whether the day of the week is the one of the day number: day 1 is a
    /// Monday, and the days of the week follow each other from there.
    pub open spec fn consistent(self) -> bool {
        days_after_monday(self.weekday) == (self.day - 1) % 7
    }
}

/// The local date of the machine's clock.
///
/// Trusted: reads the clock with `chrono::Local::now`, takes its date with
/// `chrono::DateTime::date_naive`, the day number with
/// `chrono::Datelike::num_days_from_ce` and the day of the week with
/// `chrono::Datelike::weekday`. The date depends on the clock and on the time
/// zone of the machine, so nothing is claimed of which day it is. What is
/// claimed holds of every date of the calendar: `num_days_from_ce` counts
/// the days with 1 January of the year 1 as day 1, that day is a Monday in
/// chrono's calendar, and the day of the week moves on by one with every day.
#[verifier::external_body]
pub(crate) fn today() -> (r: Today)
    ensures
        r.consistent(),
{
    let date = chrono::Local::now().date_naive();
    let weekday = match chrono::Datelike::weekday(&date) {
        chrono::Weekday::Mon => Weekday::Mon,
        chrono::Weekday::Tue => Weekday::Tue,
        chrono::Weekday::Wed => Weekday::Wed,
        chrono::Weekday::Thu => Weekday::Thu,
        chrono::Weekday::Fri => Weekday::Fri,
        chrono::Weekday::Sat => Weekday::Sat,
        chrono::Weekday::Sun => Weekday::Sun,
    };
    Today { day: chrono::Datelike::num_days_from_ce(&date), weekday }
}

/// The date with the given day number, written as year, month and day, as
/// `chrono::NaiveDate::format` writes it for `%Y-%m-%d`; `None` where the
/// calendar holds no such day.
pub uninterp spec fn text_of_day(day: int) -> Option<Seq<char>>;

/// The date with the given day number, written as year, month and day.
///
/// Trusted: makes the date with `chrono::NaiveDate::from_num_days_from_ce_opt`,
/// which gives none for a number outside the calendar, as does a number that
/// no `i32` holds, and writes it with `chrono::NaiveDate::format`. Both depend
/// on their arguments alone, so the text is the named outcome `text_of_day`;
/// nothing more is claimed of it.
#[verifier::external_body]
pub(crate) fn day_text(day: i64) -> (r: Option<String>)
    ensures
        match r {
            Some(t) => text_of_day(day as int) == Some(t@),
            None => text_of_day(day as int) is None,
        },
{
    let number = match i32::try_from(day) {
        Ok(n) => n,
        Err(_) => return None,
    };
    match chrono::NaiveDate::from_num_days_from_ce_opt(number) {
        Some(date) => Some(date.format("%Y-%m-%d").to_string()),
        None => None,
    }
}

/// The day number of a date written as year, month and day, as
/// `chrono::NaiveDate::parse_from_str` reads it for `%Y-%m-%d`; `None` where
/// the text is no such date.
pub uninterp spec fn day_of_text(text: Seq<char>) -> Option<int>;

/// The day number of a date written as year, month and day.
///
/// Trusted: reads the text with `chrono::NaiveDate::parse_from_str` and takes
/// the day number with `chrono::Datelike::num_days_from_ce`. Both depend on
/// their arguments alone, so the number is the named outcome `day_of_text`;
/// nothing more is claimed of it.
#[verifier::external_body]
pub(crate) fn parse_day(text: &str) -> (r: Option<i64>)
    ensures
        match r {
            Some(d) => day_of_text(text@) == Some(d as int),
            None => day_of_text(text@) is None,
        },
{
    match chrono::NaiveDate::parse_from_str(text, "%Y-%m-%d") {
        Ok(date) => Some(i64::from(chrono::Datelike::num_days_from_ce(&date))),
        Err(_) => None,
    }
}

/// The Monday of the week of `today`.
pub open spec fn monday_of(today: Today) -> int {
    today.day - days_after_monday(today.weekday)
}

/// The Thursday of the week of `today`: three days after its Monday.
pub open spec fn this_thursday_of(today: Today) -> int {
    monday_of(today) + 3
}

/// The Thursday of the week before: four days before this week's Monday.
pub open spec fn last_thursday_of(today: Today) -> int {
    monday_of(today) - 4
}

/// The Thursday of the week after.
pub open spec fn next_thursday_of(today: Today) -> int {
    this_thursday_of(today) + 7
}

fn monday(today: Today) -> (r: i64)
    ensures
        r == monday_of(today),
{
    let back: i64 = match today.weekday {
        Weekday::Mon => 0,
        Weekday::Tue => 1,
        Weekday::Wed => 2,
        Weekday::Thu => 3,
        Weekday::Fri => 4,
        Weekday::Sat => 5,
        Weekday::Sun => 6,
    };
    today.day as i64 - back
}

/// The Thursday of the week before the week of `today`.
pub fn last_thursday_from(today: Today) -> (r: i64)
    ensures
        r == last_thursday_of(today),
{
    monday(today) - 4
}

/// The Thursday of the week of `today`.
pub fn this_thursday_from(today: Today) -> (r: i64)
    ensures
        r == this_thursday_of(today),
{
    monday(today) + 3
}

/// The Thursday of the week after the week of `today`.
pub fn next_thursday_from(today: Today) -> (r: i64)
    ensures
        r == next_thursday_of(today),
{
    this_thursday_from(today) + 7
}

/// Whether a day is a Thursday: day 1 is a Monday.
pub open spec fn is_thursday(day: int) -> bool {
    (day - 1) % 7 == 3
}

/// Where the day of the week fits the day number, the three Thursdays are
/// Thursdays: this week's lies within three days of today, last week's and
/// next week's a week before and after it.
pub proof fn lemma_thursdays(today: Today)
    requires
        today.consistent(),
    ensures
        is_thursday(this_thursday_of(today)),
        is_thursday(last_thursday_of(today)),
        is_thursday(next_thursday_of(today)),
        today.day - 3 <= this_thursday_of(today) <= today.day + 3,
        last_thursday_of(today) == this_thursday_of(today) - 7,
        next_thursday_of(today) == this_thursday_of(today) + 7,
{
}

/// The Thursday of last week, by the machine's clock.
pub fn last_thursday() -> (r: i64)
    ensures
        is_thursday(r as int),
        exists|today: Today| today.consistent() && r == #[trigger] last_thursday_of(today),
{
    let now = today();
    proof {
        lemma_thursdays(now);
    }
    last_thursday_from(now)
}

/// The Thursday of this week, by the machine's clock.
pub fn this_thursday() -> (r: i64)
    ensures
        is_thursday(r as int),
        exists|today: Today| today.consistent() && r == #[trigger] this_thursday_of(today),
{
    let now = today();
    proof {
        lemma_thursdays(now);
    }
    this_thursday_from(now)
}

/// The Thursday of next week, by the machine's clock.
pub fn next_thursday() -> (r: i64)
    ensures
        is_thursday(r as int),
        exists|today: Today| today.consistent() && r == #[trigger] next_thursday_of(today),
{
    let now = today();
    proof {
        lemma_thursdays(now);
    }
    next_thursday_from(now)
}

/// Whether `r` is the written date of day `day`.
pub open spec fn is_text_of_day(r: Option<String>, day: int) -> bool {
    match r {
        Some(t) => text_of_day(day) == Some(t@),
        None => text_of_day(day) is None,
    }
}

/// The Thursday of this week, written as year, month and day; `None` where
/// the calendar does not reach that far.
pub fn this_thursday_string() -> (r: Option<String>)
    ensures
        exists|today: Today|
            today.consistent() && #[trigger] is_text_of_day(r, this_thursday_of(today)),
{
    let now = today();
    let r = day_text(this_thursday_from(now));
    assert(is_text_of_day(r, this_thursday_of(now)));
    r
}

/// The Thursday of last week, written as year, month and day; `None` where
/// the calendar does not reach that far.
pub fn last_thursday_string() -> (r: Option<String>)
    ensures
        exists|today: Today|
            today.consistent() && #[trigger] is_text_of_day(r, last_thursday_of(today)),
{
    let now = today();
    let r = day_text(last_thursday_from(now));
    assert(is_text_of_day(r, last_thursday_of(now)));
    r
}

/// Of two texts one comes before the other, or they are the same.
pub proof fn lemma_lex_total(a: Seq<char>, b: Seq<char>)
    ensures
        lex_lt(a, b) || lex_lt(b, a) || a == b,
    decreases a.len(),
{
    if a.len() == 0 || b.len() == 0 {
        if a.len() == 0 && b.len() == 0 {
            assert(a =~= b);
        }
    } else if a[0] == b[0] {
        lemma_lex_total(a.drop_first(), b.drop_first());
        if a.drop_first() == b.drop_first() {
            assert(a =~= seq![a[0]] + a.drop_first());
            assert(b =~= seq![b[0]] + b.drop_first());
        }
    } else {
        let u = a[0] as u32;
        let v = b[0] as u32;
        vstd::utf8::char_u32_cast(a[0], u);
        vstd::utf8::char_u32_cast(b[0], v);
        assert(u != v);
    }
}

/// Whether `a` comes before `b` in lexical order.
pub fn comes_before(a: &str, b: &str) -> (r: bool)
    ensures
        r == lex_lt(a@, b@),
{
    let x = chars_of(a);
    let y = chars_of(b);
    let mut i: usize = 0;
    assert(x@.skip(0) == x@ && y@.skip(0) == y@);
    loop
        invariant
            i <= x.len(),
            i <= y.len(),
            x@ == a@,
            y@ == b@,
            lex_lt(a@, b@) == lex_lt(x@.skip(i as int), y@.skip(i as int)),
        decreases x.len() - i,
    {
        if i == y.len() {
            return false;
        }
        if i == x.len() {
            return true;
        }
        proof {
            assert(x@.skip(i as int)[0] == x@[i as int]);
            assert(y@.skip(i as int)[0] == y@[i as int]);
            assert(x@.skip(i as int).drop_first() == x@.skip(i + 1));
            assert(y@.skip(i as int).drop_first() == y@.skip(i + 1));
        }
        if x[i] != y[i] {
            return (x[i] as u32) < (y[i] as u32);
        }
        i += 1;
    }
}

/// The milestone titles of a list of items.
pub open spec fn titles_of(items: Seq<GithubProjectItem>) -> Seq<Seq<char>> {
    items.map_values(|item: GithubProjectItem| item.milestone_title())
}

/// Whether the item at index `a` is listed before the one at index `b`: its
/// title comes first, or the titles are the same and it stood first.
pub open spec fn listed_before(titles: Seq<Seq<char>>, a: int, b: int) -> bool {
    lex_lt(titles[a], titles[b]) || (titles[a] == titles[b] && a < b)
}

/// Whether `order` names every index below `n` once.
pub open spec fn is_arrangement(order: Seq<int>, n: nat) -> bool {
    &&& order.len() == n
    &&& forall|i: int| 0 <= i < n ==> 0 <= #[trigger] order[i] < n
    &&& forall|i: int, j: int| 0 <= i < j < n ==> #[trigger] order[i] != #[trigger] order[j]
}

/// Whether `sorted` holds the items of `items` in the order `order`, which
/// sorts them by milestone title and keeps items of one title as they stood.
pub open spec fn sorted_by_title(
    items: Seq<GithubProjectItem>,
    sorted: Seq<GithubProjectItem>,
    order: Seq<int>,
) -> bool {
    &&& is_arrangement(order, items.len())
    &&& sorted.len() == items.len()
    &&& forall|i: int| 0 <= i < sorted.len() ==> #[trigger] sorted[i] == items[order[i]]
    &&& forall|i: int, j: int|
        0 <= i < j < order.len() ==> listed_before(
            titles_of(items),
            #[trigger] order[i],
            #[trigger] order[j],
        )
}

/// Sorts items by the title of their milestone. Items of one title stay in
/// the order in which they stood.
pub fn sort_by_milestone(items: Vec<GithubProjectItem>) -> (r: Vec<GithubProjectItem>)
    ensures
        exists|order: Seq<int>| sorted_by_title(items@, r@, order),
{
    let mut rest = items;
    let ghost all = rest@;
    let ghost titles = titles_of(all);
    let mut out: Vec<GithubProjectItem> = Vec::new();
    let ghost mut order: Seq<int> = Seq::empty();
    while rest.len() > 0
        invariant
            all == items@,
            titles == titles_of(all),
            out.len() + rest.len() == all.len(),
            rest@ == all.skip(out.len() as int),
            order.len() == out.len(),
            forall|i: int| 0 <= i < order.len() ==> 0 <= #[trigger] order[i] < out.len(),
            forall|i: int, j: int|
                0 <= i < j < order.len() ==> #[trigger] order[i] != #[trigger] order[j],
            forall|i: int| 0 <= i < out.len() ==> #[trigger] out@[i] == all[order[i]],
            forall|i: int, j: int|
                0 <= i < j < order.len() ==> listed_before(
                    titles,
                    #[trigger] order[i],
                    #[trigger] order[j],
                ),
        decreases rest.len(),
    {
        let ghost k = out.len() as int;
        let item = rest.remove(0);
        assert(item == all[k]);
        assert(rest@ == all.skip(k + 1));
        let mut pos: usize = 0;
        while pos < out.len() && !comes_before(item.milestone_name(), out[pos].milestone_name())
            invariant
                pos <= out.len(),
                k == out.len(),
                order.len() == out.len(),
                item == all[k],
                0 <= k < all.len(),
                titles == titles_of(all),
                forall|i: int| 0 <= i < order.len() ==> 0 <= #[trigger] order[i] < out.len(),
                forall|i: int| 0 <= i < out.len() ==> #[trigger] out@[i] == all[order[i]],
                forall|q: int| 0 <= q < pos ==> !lex_lt(titles[k], titles[#[trigger] order[q]]),
            decreases out.len() - pos,
        {
            pos += 1;
        }
        let ghost before = order;
        let ghost p = pos as int;
        proof {
            if p < k {
                assert(out@[p] == all[before[p]]);
                assert(lex_lt(titles[k], titles[before[p]]));
            }
            order = before.insert(p, k);
            assert forall|i: int, j: int| 0 <= i < j < order.len() implies listed_before(
                titles,
                #[trigger] order[i],
                #[trigger] order[j],
            ) by {
                if j < p {
                    assert(order[i] == before[i] && order[j] == before[j]);
                } else if j == p {
                    assert(order[i] == before[i]);
                    lemma_lex_total(titles[before[i]], titles[k]);
                } else if i == p {
                    assert(order[j] == before[j - 1]);
                    if j - 1 > p {
                        assert(listed_before(titles, before[p], before[j - 1]));
                        if lex_lt(titles[before[p]], titles[before[j - 1]]) {
                            lemma_lex_lt_transitive(
                                titles[k],
                                titles[before[p]],
                                titles[before[j - 1]],
                            );
                        }
                    }
                } else if i < p {
                    assert(order[i] == before[i] && order[j] == before[j - 1]);
                } else {
                    assert(order[i] == before[i - 1] && order[j] == before[j - 1]);
                }
            }
            assert forall|i: int, j: int| 0 <= i < j < order.len() implies #[trigger] order[i]
                != #[trigger] order[j] by {
                if i == p {
                    assert(order[j] == before[j - 1]);
                } else if j == p {
                    assert(order[i] == before[i]);
                } else {
                    let a = if i < p {
                        i
                    } else {
                        i - 1
                    };
                    let b = if j < p {
                        j
                    } else {
                        j - 1
                    };
                    assert(order[i] == before[a] && order[j] == before[b]);
                }
            }
        }
        out.insert(pos, item);
        proof {
            assert forall|i: int| 0 <= i < out.len() implies #[trigger] out@[i] == all[order[i]] by {
                if i < p {
                    assert(order[i] == before[i]);
                } else if i > p {
                    assert(order[i] == before[i - 1]);
                }
            }
            assert forall|i: int| 0 <= i < order.len() implies 0 <= #[trigger] order[i]
                < out.len() by {
                if i < p {
                    assert(order[i] == before[i]);
                } else if i > p {
                    assert(order[i] == before[i - 1]);
                }
            }
        }
    }
    proof {
        assert(sorted_by_title(items@, out@, order));
    }
    out
}

/// How the report begins.
pub const REPORT_OPEN: &'static str = "```{markdown}";

/// How the heading of the week begins.
pub const WEEK_OPEN: &'static str = "\n## Week of ";

/// How the heading of the week ends, with the heading of what shipped.
pub const WEEK_CLOSE: &'static str = "\n### 🚢 Shipped Features\n";

/// The heading of the work in progress.
pub const IN_PROGRESS_HEADING: &'static str = "\n### 🏗️ In Progress\n";

/// The heading of what is blocked.
pub const BLOCKED_HEADING: &'static str = "\n### 🚧 Blockers/Needs\n";

/// The heading of next week's work.
pub const NEXT_WEEK_HEADING: &'static str = "\n### 🎯 Next Week Focus\n";

/// The heading of the numbers.
pub const METRICS_HEADING: &'static str = "\n### 📊 Metrics\n";

/// How the report ends.
pub const REPORT_CLOSE: &'static str = "```\n";

/// The part of an issue's text that is written for the business.
pub const WRITE_UP_PATTERN: &'static str = "(?s)BUSINESS WRITE UP START.*?-->(.*?)<!--.*?BUSINESS WRITE UP END";

/// The title of an item without a title.
pub const NO_TITLE: &'static str = "No title";

/// The address of an item without an address.
pub const NO_URL: &'static str = "No URL";

/// The title of an item, or `NO_TITLE`.
pub open spec fn title_of(item: GithubProjectItem) -> Seq<char> {
    match item.title {
        Some(t) => t@,
        None => NO_TITLE@,
    }
}

/// The number of the issue behind an item, or zero.
pub open spec fn number_of(item: GithubProjectItem) -> nat {
    match item.content {
        Some(c) => match c.number {
            Some(n) => n as nat,
            None => 0,
        },
        None => 0,
    }
}

/// The address of the issue behind an item, or `NO_URL`.
pub open spec fn url_of(item: GithubProjectItem) -> Seq<char> {
    match item.content {
        Some(c) => match c.url {
            Some(u) => u@,
            None => NO_URL@,
        },
        None => NO_URL@,
    }
}

/// The text of the issue behind an item.
pub open spec fn body_of(item: GithubProjectItem) -> Option<Seq<char>> {
    match item.content {
        Some(c) => match c.body {
            Some(b) => Some(b@),
            None => None,
        },
        None => None,
    }
}

/// The line that lists an item: its milestone, its title, and the number of
/// its issue as a link.
pub open spec fn issue_line(item: GithubProjectItem) -> Seq<char> {
    "- ["@ + item.milestone_title() + "] "@ + title_of(item) + " - [#"@ + decimal(number_of(item))
        + "]("@ + url_of(item) + ")\n"@
}

/// The lines of a text as a quotation: every line without white space at
/// its ends, and without the lines that are then empty.
pub open spec fn quoted(lines: Seq<Seq<char>>) -> Seq<char>
    decreases lines.len(),
{
    if lines.len() == 0 {
        Seq::empty()
    } else if trim(lines.last()).len() == 0 {
        quoted(lines.drop_last())
    } else {
        quoted(lines.drop_last()) + "> "@ + trim(lines.last()) + "\n"@
    }
}

/// The quotation of a write-up that was found, or nothing.
pub open spec fn write_up_of(found: Option<Option<Seq<char>>>) -> Seq<char> {
    match found {
        Some(Some(text)) => quoted(split_on(text, '\n')),
        _ => Seq::empty(),
    }
}

/// How an item is listed, given the write-up found in its text.
pub open spec fn display_of(item: GithubProjectItem, found: Option<Option<Seq<char>>>) -> Seq<char> {
    issue_line(item) + if body_of(item) is Some {
        write_up_of(found)
    } else {
        Seq::empty()
    }
}

/// The write-up in the text of an item, as the pattern finds it.
pub open spec fn write_up_in(item: GithubProjectItem) -> Option<Option<Seq<char>>> {
    match body_of(item) {
        Some(b) => pattern_capture(WRITE_UP_PATTERN@, b, 1),
        None => None,
    }
}

fn append_quoted(out: &mut String, text: &str)
    ensures
        final(out)@ == old(out)@ + quoted(split_on(text@, '\n')),
{
    let lines = split_chars(&chars_of(text), '\n');
    let ghost all = views(lines@);
    let mut i: usize = 0;
    assert(all.take(0) =~= Seq::<Seq<char>>::empty());
    while i < lines.len()
        invariant
            i <= lines.len(),
            all == views(lines@),
            out@ == old(out)@ + quoted(all.take(i as int)),
        decreases lines.len() - i,
    {
        proof {
            assert(all.take(i + 1).drop_last() == all.take(i as int));
            assert(all.take(i + 1).last() == lines@[i as int]@);
        }
        let chars = chars_of(lines[i].as_str());
        let (a, b) = trim_bounds(&chars);
        if b > a {
            let line = string_of_range(&chars, a, b);
            out.append("> ");
            out.append(line.as_str());
            out.append("\n");
            assert(out@ == old(out)@ + (quoted(all.take(i as int)) + "> "@ + line@ + "\n"@));
        }
        i += 1;
    }
    assert(all.take(lines.len() as int) == all);
}

fn append_issue_line(out: &mut String, item: &GithubProjectItem)
    ensures
        final(out)@ == old(out)@ + issue_line(*item),
{
    let title = match &item.title {
        Some(t) => t.as_str(),
        None => NO_TITLE,
    };
    let number: u32 = match &item.content {
        Some(c) => match c.number {
            Some(n) => n,
            None => 0,
        },
        None => 0,
    };
    let url = match &item.content {
        Some(c) => match &c.url {
            Some(u) => u.as_str(),
            None => NO_URL,
        },
        None => NO_URL,
    };
    out.append("- [");
    out.append(item.milestone_name());
    out.append("] ");
    out.append(title);
    out.append(" - [#");
    append_decimal(out, number as u64);
    out.append("](");
    out.append(url);
    out.append(")\n");
    assert(out@ == old(out)@ + issue_line(*item));
}

/// Appends how an item is listed, given the write-up found in its text.
pub fn append_display(out: &mut String, item: &GithubProjectItem, found: Option<Option<String>>)
    ensures
        final(out)@ == old(out)@ + display_of(*item, capture_view(found)),
{
    append_issue_line(out, item);
    let ghost a = out@;
    let has_body = match &item.content {
        Some(c) => c.body.is_some(),
        None => false,
    };
    if has_body {
        match found {
            Some(Some(text)) => {
                append_quoted(out, text.as_str());
            },
            _ => {
                assert(out@ == a + Seq::<char>::empty());
            },
        }
    } else {
        assert(out@ == a + Seq::<char>::empty());
    }
    assert(out@ == old(out)@ + (issue_line(*item) + if body_of(*item) is Some {
        write_up_of(capture_view(found))
    } else {
        Seq::empty()
    }));
}

fn find_write_up(item: &GithubProjectItem) -> (r: Option<Option<String>>)
    ensures
        capture_view(r) == write_up_in(*item),
{
    match &item.content {
        Some(c) => match &c.body {
            Some(b) => capture(WRITE_UP_PATTERN, b.as_str(), 1),
            None => None,
        },
        None => None,
    }
}

/// How an item is listed: its line, and below it the write-up for the
/// business where its text holds one.
pub fn format_issue_display(item: &GithubProjectItem) -> (r: String)
    ensures
        r@ == display_of(*item, write_up_in(*item)),
{
    let mut out = String::new();
    let found = find_write_up(item);
    append_display(&mut out, item, found);
    assert(out@ == Seq::<char>::empty() + display_of(*item, write_up_in(*item)));
    out
}

/// How a list of items is listed.
pub open spec fn listing(items: Seq<GithubProjectItem>) -> Seq<char>
    decreases items.len(),
{
    if items.len() == 0 {
        Seq::empty()
    } else {
        listing(items.drop_last()) + display_of(items.last(), write_up_in(items.last()))
    }
}

fn append_listing(out: &mut String, items: &Vec<GithubProjectItem>)
    ensures
        final(out)@ == old(out)@ + listing(items@),
{
    let mut i: usize = 0;
    assert(items@.take(0) =~= Seq::<GithubProjectItem>::empty());
    while i < items.len()
        invariant
            i <= items.len(),
            out@ == old(out)@ + listing(items@.take(i as int)),
        decreases items.len() - i,
    {
        proof {
            assert(items@.take(i + 1).drop_last() == items@.take(i as int));
            assert(items@.take(i + 1).last() == items@[i as int]);
        }
        let found = find_write_up(&items[i]);
        let ghost a = out@;
        append_display(out, &items[i], found);
        assert(out@ == old(out)@ + (listing(items@.take(i as int)) + display_of(
            items@[i as int],
            write_up_in(items@[i as int]),
        )));
        i += 1;
    }
    assert(items@.take(items.len() as int) == items@);
}

/// How many items fell under each status.
#[derive(Debug, Clone, Copy, PartialEq, Eq, Structural)]
pub struct StatusCounts {
    pub closed: usize,
    pub shipped: usize,
    pub progress: usize,
    pub blocked: usize,
    pub support: usize,
}

/// One line of the numbers, for a count above zero.
pub open spec fn metric_line(value: nat, label: Seq<char>) -> Seq<char> {
    if value == 0 {
        Seq::empty()
    } else {
        "- "@ + decimal(value) + " "@ + label + "\n"@
    }
}

/// The numbers: one line for every count above zero.
pub open spec fn metrics_of(counts: StatusCounts) -> Seq<char> {
    metric_line(counts.closed as nat, "issues closed"@) + metric_line(
        counts.shipped as nat,
        "features shipped"@,
    ) + metric_line(counts.progress as nat, "issues being worked on"@) + metric_line(
        counts.blocked as nat,
        "issues blocked"@,
    ) + metric_line(counts.support as nat, "customer issues addressed"@)
}

fn append_metric(out: &mut String, value: usize, label: &str)
    ensures
        final(out)@ == old(out)@ + metric_line(value as nat, label@),
{
    if value != 0 {
        out.append("- ");
        append_decimal(out, value as u64);
        out.append(" ");
        out.append(label);
        out.append("\n");
        assert(out@ == old(out)@ + ("- "@ + decimal(value as nat) + " "@ + label@ + "\n"@));
    } else {
        assert(out@ == old(out)@ + Seq::<char>::empty());
    }
}

/// The largest count that the note on closed issues reckons with; a larger
/// one counts as zero.
pub const NOTE_LIMIT: usize = 127;

/// A count as the note on closed issues reckons with it.
pub open spec fn noted(count: nat) -> nat {
    if count <= NOTE_LIMIT {
        count
    } else {
        0
    }
}

/// The note on closed issues that are not listed: it stands where fewer
/// items are listed as shipped than issues were closed.
pub open spec fn closed_note(listed: nat, closed: nat) -> Seq<char> {
    if noted(listed) < noted(closed) {
        "> [!NOTE]\n"@ + "> Not displaying "@ + decimal((noted(closed) - noted(listed)) as nat)
            + " closed issues not considered user facing features\n"@
    } else {
        Seq::empty()
    }
}

fn append_closed_note(out: &mut String, listed: usize, closed: usize)
    ensures
        final(out)@ == old(out)@ + closed_note(listed as nat, closed as nat),
{
    let a: usize = if listed <= NOTE_LIMIT {
        listed
    } else {
        0
    };
    let b: usize = if closed <= NOTE_LIMIT {
        closed
    } else {
        0
    };
    if a < b {
        out.append("> [!NOTE]\n");
        out.append("> Not displaying ");
        append_decimal(out, (b - a) as u64);
        out.append(" closed issues not considered user facing features\n");
        assert(out@ == old(out)@ + ("> [!NOTE]\n"@ + "> Not displaying "@ + decimal((b - a) as nat)
            + " closed issues not considered user facing features\n"@));
    } else {
        assert(out@ == old(out)@ + Seq::<char>::empty());
    }
}

/// The report of a week: what shipped, what is in progress, what is blocked,
/// what comes next, and the numbers.
pub open spec fn report_of(
    week: Seq<char>,
    shipped: Seq<GithubProjectItem>,
    in_progress: Seq<GithubProjectItem>,
    blocked: Seq<GithubProjectItem>,
    next_week: Seq<GithubProjectItem>,
    counts: StatusCounts,
) -> Seq<char> {
    REPORT_OPEN@ + WEEK_OPEN@ + week + WEEK_CLOSE@ + listing(shipped) + closed_note(
        shipped.len(),
        counts.closed as nat,
    ) + IN_PROGRESS_HEADING@ + listing(in_progress) + BLOCKED_HEADING@ + listing(blocked)
        + NEXT_WEEK_HEADING@ + listing(next_week) + METRICS_HEADING@ + metrics_of(counts)
        + REPORT_CLOSE@
}

/// Writes the report of a week from its lists, each in the order in which it
/// is to be shown.
pub fn progress(
    week: &str,
    shipped: &Vec<GithubProjectItem>,
    in_progress: &Vec<GithubProjectItem>,
    blocked: &Vec<GithubProjectItem>,
    next_week: &Vec<GithubProjectItem>,
    counts: StatusCounts,
) -> (r: String)
    ensures
        r@ == report_of(week@, shipped@, in_progress@, blocked@, next_week@, counts),
{
    let mut out = String::from_str(REPORT_OPEN);
    out.append(WEEK_OPEN);
    out.append(week);
    out.append(WEEK_CLOSE);
    append_listing(&mut out, shipped);
    append_closed_note(&mut out, shipped.len(), counts.closed);
    out.append(IN_PROGRESS_HEADING);
    append_listing(&mut out, in_progress);
    out.append(BLOCKED_HEADING);
    append_listing(&mut out, blocked);
    out.append(NEXT_WEEK_HEADING);
    append_listing(&mut out, next_week);
    out.append(METRICS_HEADING);
    let ghost before = out@;
    append_metric(&mut out, counts.closed, "issues closed");
    append_metric(&mut out, counts.shipped, "features shipped");
    append_metric(&mut out, counts.progress, "issues being worked on");
    append_metric(&mut out, counts.blocked, "issues blocked");
    append_metric(&mut out, counts.support, "customer issues addressed");
    assert(out@ == before + metrics_of(counts));
    out.append(REPORT_CLOSE);
    out
}

/// The three Thursdays that a report looks at, as day numbers.
#[derive(Debug, Clone, Copy, PartialEq, Eq, Structural)]
pub struct Week {
    pub last_thursday: i64,
    pub this_thursday: i64,
    pub next_thursday: i64,
}

/// The week of a day.
pub fn week_of(today: Today) -> (r: Week)
    ensures
        r.last_thursday == last_thursday_of(today),
        r.this_thursday == this_thursday_of(today),
        r.next_thursday == next_thursday_of(today),
{
    Week {
        last_thursday: last_thursday_from(today),
        this_thursday: this_thursday_from(today),
        next_thursday: next_thursday_from(today),
    }
}

/// The week of today, by the machine's clock.
pub fn this_week() -> (r: Week)
    ensures
        is_thursday(r.this_thursday as int),
        r.last_thursday == r.this_thursday - 7,
        r.next_thursday == r.this_thursday + 7,
        exists|today: Today|
            today.consistent() && r.this_thursday == #[trigger] this_thursday_of(today),
{
    let now = today();
    proof {
        lemma_thursdays(now);
    }
    let r = week_of(now);
    assert(r.this_thursday == this_thursday_of(now));
    r
}

/// The lists and counts that an item adds to.
#[derive(Debug, Clone, Copy, PartialEq, Eq, Structural)]
pub struct Placement {
    /// Listed and counted as blocked.
    pub blocked: bool,
    /// Listed and counted as in progress.
    pub in_progress: bool,
    /// Listed and counted as shipped.
    pub shipped: bool,
    /// Counted as closed.
    pub closed: bool,
    /// Counted as customer support.
    pub support: bool,
    /// Listed for next week.
    pub next_week: bool,
}

/// Why a report cannot be written.
#[derive(Debug, Clone, Copy, PartialEq, Eq, Structural)]
pub enum ProgressError {
    /// The shipped date of a finished item is no date.
    ShippedDate,
}

/// The label of what is blocked.
pub const BLOCKED_LABEL: &'static str = "blocked";

/// The label of customer support.
pub const SUPPORT_LABEL: &'static str = "support";

/// The status of what is worked on.
pub const STATUS_IN_PROGRESS: &'static str = "In Progress";

/// The status of what is finished.
pub const STATUS_DONE: &'static str = "Done";

/// Whether an item carries a label.
pub open spec fn labelled(item: GithubProjectItem, label: Seq<char>) -> bool {
    item.labels matches Some(labels) && exists|i: int|
        0 <= i < labels@.len() && (#[trigger] labels@[i])@ == label
}

/// A date of an item, read as a day number: `None` where the item has no
/// such date, `Some(None)` where its text is no date.
pub open spec fn day_in(date: Option<String>) -> Option<Option<int>> {
    match date {
        None => None,
        Some(text) => Some(day_of_text(text@)),
    }
}

/// The view of a date that was read.
pub open spec fn day_view(day: Option<Option<i64>>) -> Option<Option<int>> {
    match day {
        None => None,
        Some(None) => Some(None),
        Some(Some(d)) => Some(Some(d as int)),
    }
}

/// Whether a date lies in the week after this Thursday, up to next Thursday.
/// A date that is missing, or that is no date, does not.
pub open spec fn falls_next_week(day: Option<Option<int>>, week: Week) -> bool {
    day matches Some(Some(d)) && week.this_thursday < d <= week.next_thursday
}

/// Whether a day lies between last Thursday and this one, both included.
pub open spec fn falls_this_week(day: int, week: Week) -> bool {
    week.last_thursday <= day <= week.this_thursday
}

/// The placement that adds to nothing.
pub open spec fn nowhere() -> Placement {
    Placement {
        blocked: false,
        in_progress: false,
        shipped: false,
        closed: false,
        support: false,
        next_week: false,
    }
}

/// The placement of an item that is neither blocked nor settled as
/// finished: it is listed for next week where it ends or starts then.
pub open spec fn open_placement(
    week: Week,
    in_progress: bool,
    end: Option<Option<int>>,
    start: Option<Option<int>>,
) -> Placement {
    Placement {
        in_progress: in_progress,
        next_week: falls_next_week(end, week) || falls_next_week(start, week),
        ..nowhere()
    }
}

/// Where an item of the board goes, given its dates as they were read. A
/// blocked item is only blocked. A finished item is shipped where its
/// shipped date lies between last Thursday and this one, closed where it
/// has no shipped date, and customer support where it carries that label; a
/// shipped date that is no date is an error. Every other item is listed as
/// in progress where that is its status, and for next week where it ends or
/// starts then.
pub open spec fn placement_with(
    item: GithubProjectItem,
    week: Week,
    shipped: Option<Option<int>>,
    end: Option<Option<int>>,
    start: Option<Option<int>>,
) -> Result<Placement, ProgressError> {
    if labelled(item, BLOCKED_LABEL@) {
        Ok(Placement { blocked: true, ..nowhere() })
    } else {
        match item.status {
            None => Ok(open_placement(week, false, end, start)),
            Some(status) => if status@ == STATUS_DONE@ {
                match shipped {
                    None => Ok(Placement { closed: true, ..nowhere() }),
                    Some(None) => Err(ProgressError::ShippedDate),
                    Some(Some(day)) => if falls_this_week(day, week) {
                        Ok(Placement { shipped: true, ..nowhere() })
                    } else if labelled(item, SUPPORT_LABEL@) {
                        Ok(Placement { support: true, ..nowhere() })
                    } else {
                        Ok(open_placement(week, false, end, start))
                    },
                }
            } else {
                Ok(open_placement(week, status@ == STATUS_IN_PROGRESS@, end, start))
            },
        }
    }
}

/// Where an item of the board goes: its placement for its dates as the
/// calendar reads them.
pub open spec fn placement_of(item: GithubProjectItem, week: Week) -> Result<Placement, ProgressError> {
    placement_with(
        item,
        week,
        day_in(item.shipped_date),
        day_in(item.end_date),
        day_in(item.start_date),
    )
}

fn has_label(item: &GithubProjectItem, label: &str) -> (r: bool)
    ensures
        r == labelled(*item, label@),
{
    match &item.labels {
        None => false,
        Some(labels) => {
            let mut i: usize = 0;
            while i < labels.len()
                invariant
                    i <= labels.len(),
                    item.labels == Some(*labels),
                    forall|k: int| 0 <= k < i ==> (#[trigger] labels@[k])@ != label@,
                decreases labels.len() - i,
            {
                if same_text(labels[i].as_str(), label) {
                    assert(item.labels->0@[i as int]@ == label@);
                    return true;
                }
                i += 1;
            }
            false
        },
    }
}

fn read_day(date: &Option<String>) -> (r: Option<Option<i64>>)
    ensures
        day_view(r) == day_in(*date),
{
    match date {
        None => None,
        Some(text) => Some(parse_day(text.as_str())),
    }
}

/// Whether a date that was read lies in the week after this Thursday, up to
/// next Thursday.
pub fn next_week_date(day: Option<Option<i64>>, week: Week) -> (r: bool)
    ensures
        r == falls_next_week(day_view(day), week),
{
    match day {
        Some(Some(d)) => week.this_thursday < d && d <= week.next_thursday,
        _ => false,
    }
}

/// Where an item of the board goes, given its dates as they were read.
pub fn place_with(
    item: &GithubProjectItem,
    week: Week,
    shipped: Option<Option<i64>>,
    end: Option<Option<i64>>,
    start: Option<Option<i64>>,
) -> (r: Result<Placement, ProgressError>)
    ensures
        r == placement_with(*item, week, day_view(shipped), day_view(end), day_view(start)),
{
    let none = Placement {
        blocked: false,
        in_progress: false,
        shipped: false,
        closed: false,
        support: false,
        next_week: false,
    };
    let next_week = next_week_date(end, week) || next_week_date(start, week);
    if has_label(item, BLOCKED_LABEL) {
        return Ok(Placement { blocked: true, ..none });
    }
    match &item.status {
        None => Ok(Placement { next_week, ..none }),
        Some(status) => {
            if same_text(status.as_str(), STATUS_DONE) {
                match shipped {
                    None => Ok(Placement { closed: true, ..none }),
                    Some(None) => Err(ProgressError::ShippedDate),
                    Some(Some(day)) => {
                        if week.last_thursday <= day && day <= week.this_thursday {
                            Ok(Placement { shipped: true, ..none })
                        } else if has_label(item, SUPPORT_LABEL) {
                            Ok(Placement { support: true, ..none })
                        } else {
                            Ok(Placement { next_week, ..none })
                        }
                    },
                }
            } else {
                let in_progress = same_text(status.as_str(), STATUS_IN_PROGRESS);
                Ok(Placement { in_progress, next_week, ..none })
            }
        },
    }
}

/// Where an item of the board goes.
pub fn place(item: &GithubProjectItem, week: Week) -> (r: Result<Placement, ProgressError>)
    ensures
        r == placement_of(*item, week),
{
    let shipped = read_day(&item.shipped_date);
    let end = read_day(&item.end_date);
    let start = read_day(&item.start_date);
    place_with(item, week, shipped, end, start)
}

/// Where every item of the board goes, or the error of the first item that
/// cannot be placed.
pub fn place_all(items: &Vec<GithubProjectItem>, week: Week) -> (r: Result<
    Vec<Placement>,
    ProgressError,
>)
    ensures
        match r {
            Ok(placements) => placements.len() == items.len() && forall|i: int|
                0 <= i < items.len() ==> placement_of(#[trigger] items@[i], week) == Ok::<
                    Placement,
                    ProgressError,
                >(placements@[i]),
            Err(e) => exists|i: int|
                0 <= i < items.len() && placement_of(#[trigger] items@[i], week) == Err::<
                    Placement,
                    ProgressError,
                >(e),
        },
{
    let mut out: Vec<Placement> = Vec::new();
    let mut i: usize = 0;
    while i < items.len()
        invariant
            i <= items.len(),
            out.len() == i,
            forall|k: int|
                0 <= k < i ==> placement_of(#[trigger] items@[k], week) == Ok::<
                    Placement,
                    ProgressError,
                >(out@[k]),
        decreases items.len() - i,
    {
        match place(&items[i], week) {
            Ok(p) => out.push(p),
            Err(e) => {
                assert(placement_of(items@[i as int], week) == Err::<Placement, ProgressError>(e));
                return Err(e);
            },
        }
        i += 1;
    }
    Ok(out)
}

/// How many of the placements meet `which`.
pub open spec fn tally(placements: Seq<Placement>, which: spec_fn(Placement) -> bool) -> nat
    decreases placements.len(),
{
    if placements.len() == 0 {
        0
    } else {
        tally(placements.drop_last(), which) + if which(placements.last()) {
            1nat
        } else {
            0nat
        }
    }
}

/// A tally is no larger than the list.
pub proof fn lemma_tally_bound(placements: Seq<Placement>, which: spec_fn(Placement) -> bool)
    ensures
        tally(placements, which) <= placements.len(),
    decreases placements.len(),
{
    if placements.len() > 0 {
        lemma_tally_bound(placements.drop_last(), which);
    }
}

/// The counts of a list of placements.
pub fn count_statuses(placements: &Vec<Placement>) -> (r: StatusCounts)
    ensures
        r.closed == tally(placements@, |p: Placement| p.closed),
        r.shipped == tally(placements@, |p: Placement| p.shipped),
        r.progress == tally(placements@, |p: Placement| p.in_progress),
        r.blocked == tally(placements@, |p: Placement| p.blocked),
        r.support == tally(placements@, |p: Placement| p.support),
{
    let mut counts = StatusCounts { closed: 0, shipped: 0, progress: 0, blocked: 0, support: 0 };
    let mut i: usize = 0;
    assert(placements@.take(0) =~= Seq::<Placement>::empty());
    while i < placements.len()
        invariant
            i <= placements.len(),
            counts.closed == tally(placements@.take(i as int), |p: Placement| p.closed),
            counts.shipped == tally(placements@.take(i as int), |p: Placement| p.shipped),
            counts.progress == tally(placements@.take(i as int), |p: Placement| p.in_progress),
            counts.blocked == tally(placements@.take(i as int), |p: Placement| p.blocked),
            counts.support == tally(placements@.take(i as int), |p: Placement| p.support),
        decreases placements.len() - i,
    {
        proof {
            let before = placements@.take(i as int);
            assert(placements@.take(i + 1).drop_last() == before);
            assert(placements@.take(i + 1).last() == placements@[i as int]);
            lemma_tally_bound(before, |p: Placement| p.closed);
            lemma_tally_bound(before, |p: Placement| p.shipped);
            lemma_tally_bound(before, |p: Placement| p.in_progress);
            lemma_tally_bound(before, |p: Placement| p.blocked);
            lemma_tally_bound(before, |p: Placement| p.support);
        }
        let p = placements[i];
        if p.closed {
            counts.closed += 1;
        }
        if p.shipped {
            counts.shipped += 1;
        }
        if p.in_progress {
            counts.progress += 1;
        }
        if p.blocked {
            counts.blocked += 1;
        }
        if p.support {
            counts.support += 1;
        }
        i += 1;
    }
    assert(placements@.take(placements.len() as int) == placements@);
    counts
}

} // verus!
