use commit_tool::progress::{
    last_thursday, last_thursday_from, last_thursday_string, next_thursday, next_thursday_from,
    this_thursday, this_thursday_from, this_thursday_string, Today, Weekday,
};

#[test]
fn thursdays_around_a_day() {
    // 2024-05-15 is a Wednesday and day 739021
    let wed = Today { day: 739021, weekday: Weekday::Wed };
    assert_eq!(this_thursday_from(wed), 739022);
    assert_eq!(last_thursday_from(wed), 739015);
    assert_eq!(next_thursday_from(wed), 739029);
    let mon = Today { day: 739019, weekday: Weekday::Mon };
    assert_eq!(this_thursday_from(mon), 739022);
    assert_eq!(last_thursday_from(mon), 739015);
    let sun = Today { day: 739025, weekday: Weekday::Sun };
    assert_eq!(this_thursday_from(sun), 739022);
    assert_eq!(next_thursday_from(sun), 739029);
    let thu = Today { day: 739022, weekday: Weekday::Thu };
    assert_eq!(this_thursday_from(thu), 739022);
    let edge = Today { day: i32::MAX, weekday: Weekday::Mon };
    assert_eq!(next_thursday_from(edge), i32::MAX as i64 + 10);
    let edge = Today { day: i32::MIN, weekday: Weekday::Sun };
    assert_eq!(last_thursday_from(edge), i32::MIN as i64 - 10);
}

#[test]
fn thursdays_of_the_clock_are_a_week_apart() {
    let this = this_thursday();
    assert_eq!(last_thursday() + 7, this);
    assert_eq!(next_thursday() - 7, this);
    assert!(this > 700_000);
}

#[test]
fn thursdays_of_the_clock_are_thursdays() {
    use_chrono_to_check(this_thursday());
    use_chrono_to_check(last_thursday());
    use_chrono_to_check(next_thursday());
    let today = i64::from(chrono::Datelike::num_days_from_ce(&chrono::Local::now().date_naive()));
    let this = this_thursday();
    assert!(today - 4 <= this && this <= today + 4);
    let week = commit_tool::progress::this_week();
    assert_eq!(week.this_thursday, this);
    assert_eq!(week.last_thursday, this - 7);
    assert_eq!(week.next_thursday, this + 7);
}

fn use_chrono_to_check(day: i64) {
    assert_eq!((day - 1).rem_euclid(7), 3);
    let date = chrono::NaiveDate::from_num_days_from_ce_opt(day as i32).unwrap();
    assert_eq!(chrono::Datelike::weekday(&date), chrono::Weekday::Thu);
}

#[test]
fn day_of_the_week_follows_the_day_number() {
    let mut day: i32 = -800_000;
    while day <= 800_000 {
        let date = chrono::NaiveDate::from_num_days_from_ce_opt(day).unwrap();
        let after_monday = chrono::Datelike::weekday(&date).num_days_from_monday();
        assert_eq!(i64::from(after_monday), i64::from(day - 1).rem_euclid(7), "day {}", day);
        day += 1;
    }
    for day in [i32::MIN / 8192 * 365, -90_000_000, 90_000_000] {
        if let Some(date) = chrono::NaiveDate::from_num_days_from_ce_opt(day) {
            let after_monday = chrono::Datelike::weekday(&date).num_days_from_monday();
            assert_eq!(i64::from(after_monday), i64::from(day - 1).rem_euclid(7), "day {}", day);
        }
    }
}

#[test]
fn thursday_strings_are_dates() {
    let this = this_thursday_string().unwrap();
    let last = last_thursday_string().unwrap();
    for text in [&this, &last] {
        assert_eq!(text.len(), 10);
        assert_eq!(text.as_bytes()[4], b'-');
        assert_eq!(text.as_bytes()[7], b'-');
        let date = chrono::NaiveDate::parse_from_str(text, "%Y-%m-%d").unwrap();
        assert_eq!(chrono::Datelike::weekday(&date), chrono::Weekday::Thu);
    }
    assert!(last < this);
}

fn item(title: &str, milestone: Option<&str>) -> commit_tool::github_types::GithubProjectItem {
    commit_tool::github_types::GithubProjectItem {
        assignees: None,
        content: None,
        end_date: None,
        id: None,
        labels: None,
        milestone: milestone.map(|m| commit_tool::github_types::ProjectMilestone {
            description: None,
            due_on: None,
            title: Some(m.to_string()),
        }),
        repository: None,
        start_date: None,
        status: None,
        title: Some(title.to_string()),
        shipped_date: None,
    }
}

fn titles(items: &[commit_tool::github_types::GithubProjectItem]) -> Vec<String> {
    items.iter().map(|i| i.title.clone().unwrap()).collect()
}

#[test]
fn items_sort_by_milestone_and_keep_their_order() {
    let items = vec![
        item("a", Some("M2")),
        item("b", None),
        item("c", Some("M1")),
        item("d", Some("M2")),
        item("e", Some("m1")),
        item("f", Some("M1")),
        item("g", None),
        item("h", Some("")),
    ];
    let sorted = commit_tool::progress::sort_by_milestone(items);
    assert_eq!(titles(&sorted), vec!["h", "c", "f", "a", "d", "b", "g", "e"]);
    assert_eq!(sorted[5].milestone_name(), "No milestone");
    assert_eq!(commit_tool::progress::sort_by_milestone(vec![]).len(), 0);
}

#[test]
fn texts_compare_as_std_does() {
    let words = ["", "a", "ab", "b", "B", "é", "e", "zz", "z", "No milestone", "M1", "\u{10000}", "\u{ffff}"];
    for a in words {
        for b in words {
            assert_eq!(commit_tool::progress::comes_before(a, b), a < b, "{:?} {:?}", a, b);
        }
    }
}

fn week() -> commit_tool::progress::Week {
    // Thursdays 2024-05-09, 2024-05-16 and 2024-05-23
    commit_tool::progress::Week { last_thursday: 739015, this_thursday: 739022, next_thursday: 739029 }
}

fn placed(i: &commit_tool::github_types::GithubProjectItem) -> commit_tool::progress::Placement {
    commit_tool::progress::place(i, week()).unwrap()
}

fn nowhere() -> commit_tool::progress::Placement {
    commit_tool::progress::Placement {
        blocked: false,
        in_progress: false,
        shipped: false,
        closed: false,
        support: false,
        next_week: false,
    }
}

#[test]
fn items_are_placed() {
    let mut blocked = item("x", None);
    blocked.labels = Some(vec!["bug".to_string(), "blocked".to_string()]);
    blocked.status = Some("Done".to_string());
    assert_eq!(placed(&blocked), commit_tool::progress::Placement { blocked: true, ..nowhere() });

    let mut working = item("x", None);
    working.status = Some("In Progress".to_string());
    assert_eq!(placed(&working), commit_tool::progress::Placement { in_progress: true, ..nowhere() });
    working.end_date = Some("2024-05-23".to_string());
    assert_eq!(placed(&working), commit_tool::progress::Placement { in_progress: true, next_week: true, ..nowhere() });
    working.end_date = Some("2024-05-16".to_string());
    assert_eq!(placed(&working), commit_tool::progress::Placement { in_progress: true, ..nowhere() });
    working.start_date = Some("2024-05-17".to_string());
    assert_eq!(placed(&working), commit_tool::progress::Placement { in_progress: true, next_week: true, ..nowhere() });
    working.start_date = Some("not a date".to_string());
    working.end_date = Some("2024-05-24".to_string());
    assert_eq!(placed(&working), commit_tool::progress::Placement { in_progress: true, ..nowhere() });

    let mut done = item("x", None);
    done.status = Some("Done".to_string());
    assert_eq!(placed(&done), commit_tool::progress::Placement { closed: true, ..nowhere() });
    for day in ["2024-05-09", "2024-05-12", "2024-05-16"] {
        done.shipped_date = Some(day.to_string());
        assert_eq!(placed(&done), commit_tool::progress::Placement { shipped: true, ..nowhere() });
    }
    done.shipped_date = Some("2024-05-08".to_string());
    assert_eq!(placed(&done), nowhere());
    done.labels = Some(vec!["support".to_string()]);
    assert_eq!(placed(&done), commit_tool::progress::Placement { support: true, ..nowhere() });
    done.labels = None;
    done.end_date = Some("2024-05-20".to_string());
    assert_eq!(placed(&done), commit_tool::progress::Placement { next_week: true, ..nowhere() });
    done.shipped_date = Some("soon".to_string());
    assert_eq!(
        commit_tool::progress::place(&done, week()),
        Err(commit_tool::progress::ProgressError::ShippedDate)
    );

    let mut todo = item("x", None);
    todo.status = Some("Todo".to_string());
    assert_eq!(placed(&todo), nowhere());
    assert_eq!(placed(&item("x", None)), nowhere());
}

#[test]
fn placements_are_counted() {
    let mut shipped = item("s", None);
    shipped.status = Some("Done".to_string());
    shipped.shipped_date = Some("2024-05-10".to_string());
    let mut closed = item("c", None);
    closed.status = Some("Done".to_string());
    let mut working = item("w", None);
    working.status = Some("In Progress".to_string());
    let mut blocked = item("b", None);
    blocked.labels = Some(vec!["blocked".to_string()]);
    let items = vec![shipped, closed.clone(), working, blocked, closed, item("n", None)];
    let placements = commit_tool::progress::place_all(&items, week()).unwrap();
    assert_eq!(placements.len(), 6);
    let counts = commit_tool::progress::count_statuses(&placements);
    assert_eq!(
        counts,
        commit_tool::progress::StatusCounts { closed: 2, shipped: 1, progress: 1, blocked: 1, support: 0 }
    );
    let mut bad = item("bad", None);
    bad.status = Some("Done".to_string());
    bad.shipped_date = Some("x".to_string());
    assert!(commit_tool::progress::place_all(&vec![item("ok", None), bad], week()).is_err());
    assert_eq!(commit_tool::progress::week_of(Today { day: 739021, weekday: Weekday::Wed }), week());
    let now = commit_tool::progress::this_week();
    assert_eq!(now.this_thursday, this_thursday());
    assert_eq!(now.next_thursday - now.last_thursday, 14);
}

fn with_body(title: &str, body: Option<&str>) -> commit_tool::github_types::GithubProjectItem {
    let mut i = item(title, Some("M1"));
    i.content = Some(commit_tool::github_types::ProjectContent {
        body: body.map(|b| b.to_string()),
        number: Some(17),
        repository: None,
        title: None,
        content_type: None,
        url: Some("https://x/17".to_string()),
    });
    i
}

#[test]
fn items_are_listed_with_their_write_up() {
    let plain = item("Title", None);
    assert_eq!(
        commit_tool::progress::format_issue_display(&plain),
        "- [No milestone] Title - [#0](No URL)\n"
    );
    let mut untitled = with_body("x", None);
    untitled.title = None;
    assert_eq!(commit_tool::progress::format_issue_display(&untitled), "- [M1] No title - [#17](https://x/17)\n");
    let body = "intro\n<!-- BUSINESS WRITE UP START -->\n  First line  \n\n second\r\n<!-- BUSINESS WRITE UP END -->\nrest";
    assert_eq!(
        commit_tool::progress::format_issue_display(&with_body("T", Some(body))),
        "- [M1] T - [#17](https://x/17)\n> First line\n> second\n"
    );
    assert_eq!(
        commit_tool::progress::format_issue_display(&with_body("T", Some("no write up"))),
        "- [M1] T - [#17](https://x/17)\n"
    );
    let mut out = String::from(">>");
    commit_tool::progress::append_display(&mut out, &with_body("T", Some("b")), Some(Some(" a \n\nb".to_string())));
    assert_eq!(out, ">>- [M1] T - [#17](https://x/17)\n> a\n> b\n");
    let mut out = String::new();
    commit_tool::progress::append_display(&mut out, &with_body("T", None), Some(Some("a".to_string())));
    assert_eq!(out, "- [M1] T - [#17](https://x/17)\n");
}

#[test]
fn report_of_a_week() {
    let counts = commit_tool::progress::StatusCounts { closed: 3, shipped: 1, progress: 0, blocked: 12, support: 0 };
    let report = commit_tool::progress::progress(
        "2024-05-16",
        &vec![item("S", None)],
        &vec![],
        &vec![item("B1", Some("M")), item("B2", None)],
        &vec![],
        counts,
    );
    let expected = "```{markdown}\n## Week of 2024-05-16\n### 🚢 Shipped Features\n- [No milestone] S - [#0](No URL)\n> [!NOTE]\n> Not displaying 2 closed issues not considered user facing features\n\n### 🏗️ In Progress\n\n### 🚧 Blockers/Needs\n- [M] B1 - [#0](No URL)\n- [No milestone] B2 - [#0](No URL)\n\n### 🎯 Next Week Focus\n\n### 📊 Metrics\n- 3 issues closed\n- 1 features shipped\n- 12 issues blocked\n```\n";
    assert_eq!(report, expected);
    let quiet = commit_tool::progress::StatusCounts { closed: 128, shipped: 0, progress: 2, blocked: 0, support: 5 };
    let report = commit_tool::progress::progress("w", &vec![], &vec![], &vec![], &vec![], quiet);
    let expected = "```{markdown}\n## Week of w\n### 🚢 Shipped Features\n\n### 🏗️ In Progress\n\n### 🚧 Blockers/Needs\n\n### 🎯 Next Week Focus\n\n### 📊 Metrics\n- 128 issues closed\n- 2 issues being worked on\n- 5 customer issues addressed\n```\n";
    assert_eq!(report, expected);
}

#[test]
fn items_are_placed_by_the_days_that_were_read() {
    let place_with = commit_tool::progress::place_with;
    let next_week_date = commit_tool::progress::next_week_date;
    assert!(!next_week_date(None, week()));
    assert!(!next_week_date(Some(None), week()));
    assert!(!next_week_date(Some(Some(739022)), week()));
    assert!(next_week_date(Some(Some(739023)), week()));
    assert!(next_week_date(Some(Some(739029)), week()));
    assert!(!next_week_date(Some(Some(739030)), week()));

    let mut done = item("x", None);
    done.status = Some("Done".to_string());
    let shipped = commit_tool::progress::Placement { shipped: true, ..nowhere() };
    let closed = commit_tool::progress::Placement { closed: true, ..nowhere() };
    let next = commit_tool::progress::Placement { next_week: true, ..nowhere() };
    assert_eq!(place_with(&done, week(), None, Some(Some(739025)), None), Ok(closed));
    assert_eq!(
        place_with(&done, week(), Some(None), None, None),
        Err(commit_tool::progress::ProgressError::ShippedDate)
    );
    for day in [739015, 739018, 739022] {
        assert_eq!(place_with(&done, week(), Some(Some(day)), Some(Some(739025)), None), Ok(shipped));
    }
    for day in [739014, 739023] {
        assert_eq!(place_with(&done, week(), Some(Some(day)), None, None), Ok(nowhere()));
        assert_eq!(place_with(&done, week(), Some(Some(day)), None, Some(Some(739024))), Ok(next));
    }
    done.labels = Some(vec!["support".to_string()]);
    let support = commit_tool::progress::Placement { support: true, ..nowhere() };
    assert_eq!(place_with(&done, week(), Some(Some(739014)), Some(Some(739025)), None), Ok(support));
    done.labels = Some(vec!["blocked".to_string()]);
    let blocked = commit_tool::progress::Placement { blocked: true, ..nowhere() };
    assert_eq!(place_with(&done, week(), Some(None), None, None), Ok(blocked));

    let mut working = item("x", None);
    working.status = Some("In Progress".to_string());
    let in_progress = commit_tool::progress::Placement { in_progress: true, ..nowhere() };
    assert_eq!(place_with(&working, week(), Some(None), Some(None), None), Ok(in_progress));
    assert_eq!(
        place_with(&working, week(), None, Some(Some(739029)), Some(Some(1))),
        Ok(commit_tool::progress::Placement { in_progress: true, next_week: true, ..nowhere() })
    );
    // the dates that are handed over decide, not the texts of the item
    working.end_date = Some("2024-05-20".to_string());
    assert_eq!(place_with(&working, week(), None, None, None), Ok(in_progress));
    assert_eq!(place_with(&item("x", None), week(), None, None, Some(Some(739023))), Ok(next));
}
