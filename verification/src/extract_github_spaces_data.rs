//! What is read from the answers of GitHub.

use vstd::prelude::*;
use vstd::string::StringExecFns;
use crate::json::{text_or_default, text_or_empty, Json};
use crate::workspace_config::GithubSpace;

verus! {

/// Every item of a list read with `read`, or the first failure.
pub open spec fn each<T, E>(items: Seq<Json>, read: spec_fn(Json) -> Result<T, E>) -> Result<Seq<T>, E>
    decreases items.len(),
{
    if items.len() == 0 {
        Ok(Seq::empty())
    } else {
        match each(items.drop_last(), read) {
            Err(e) => Err(e),
            Ok(before) => match read(items.last()) {
                Err(e) => Err(e),
                Ok(item) => Ok(before.push(item)),
            },
        }
    }
}

/// The text of a member that must be there and must be a text; else the
/// complaint that fits.
pub open spec fn required_text(value: Json, key: Seq<char>, missing: Seq<char>, wrong: Seq<char>) -> Result<
    Seq<char>,
    Seq<char>,
> {
    match value.member(key) {
        None => Err(missing),
        Some(v) => match v.text() {
            None => Err(wrong),
            Some(t) => Ok(t),
        },
    }
}

/// The number of a member that must be there and must be a whole number;
/// else the complaint that fits.
pub open spec fn required_integer(value: Json, key: Seq<char>, missing: Seq<char>, wrong: Seq<char>) -> Result<
    i64,
    Seq<char>,
> {
    match value.member(key) {
        None => Err(missing),
        Some(v) => match v.integer() {
            None => Err(wrong),
            Some(n) => Ok(n),
        },
    }
}

/// Whether `r` is `expected`, by view.
pub open spec fn is_text_result(r: Result<String, String>, expected: Result<Seq<char>, Seq<char>>) -> bool {
    match expected {
        Ok(t) => r matches Ok(s) && s@ == t,
        Err(e) => r matches Err(m) && m@ == e,
    }
}

/// The text of a member that must be there and must be a text.
pub fn text_member(value: &Json, key: &str, missing: &str, wrong: &str) -> (r: Result<String, String>)
    ensures
        is_text_result(r, required_text(*value, key@, missing@, wrong@)),
{
    match value.get(key) {
        None => Err(String::from_str(missing)),
        Some(v) => match v.as_str() {
            None => Err(String::from_str(wrong)),
            Some(s) => Ok(s.to_owned()),
        },
    }
}

/// The number of a member that must be there and must be a whole number.
pub fn integer_member(value: &Json, key: &str, missing: &str, wrong: &str) -> (r: Result<i64, String>)
    ensures
        match required_integer(*value, key@, missing@, wrong@) {
            Ok(n) => r matches Ok(m) && m == n,
            Err(e) => r matches Err(m) && m@ == e,
        },
{
    match value.get(key) {
        None => Err(String::from_str(missing)),
        Some(v) => match v.as_i64() {
            None => Err(String::from_str(wrong)),
            Some(n) => Ok(n),
        },
    }
}

/// What a repository record holds.
pub struct Repository {
    pub id: i64,
    pub name: Seq<char>,
    pub full_name: Seq<char>,
    pub url: Seq<char>,
    pub description: Seq<char>,
}

impl View for GithubSpace {
    type V = Repository;

    open spec fn view(&self) -> Repository {
        Repository {
            id: self.id,
            name: self.name@,
            full_name: self.full_name@,
            url: self.url@,
            description: self.description@,
        }
    }
}

/// The repository in one item of GitHub's answer: its id, name, full name
/// and address must be there; a description that is missing is empty.
pub open spec fn repository_of(space: Json) -> Result<Repository, Seq<char>> {
    match required_integer(space, "id"@, "Space missing id"@, "Space id is not an integer"@) {
        Err(e) => Err(e),
        Ok(id) => match required_text(
            space,
            "name"@,
            "Space missing name"@,
            "Space name is not a string"@,
        ) {
            Err(e) => Err(e),
            Ok(name) => match required_text(
                space,
                "full_name"@,
                "Space missing full name"@,
                "Space full name is not a string"@,
            ) {
                Err(e) => Err(e),
                Ok(full_name) => match required_text(
                    space,
                    "url"@,
                    "Space missing url"@,
                    "Space url is not a string"@,
                ) {
                    Err(e) => Err(e),
                    Ok(url) => Ok(
                        Repository {
                            id,
                            name,
                            full_name,
                            url,
                            description: text_or_empty(space, "description"@),
                        },
                    ),
                },
            },
        },
    }
}

/// The repositories in GitHub's answer, or the complaint about the first
/// item that is not one.
pub open spec fn repositories_of(answer: Json) -> Result<Seq<Repository>, Seq<char>> {
    match answer.items() {
        None => Err("Spaces is not an array"@),
        Some(items) => each(items, |space: Json| repository_of(space)),
    }
}

fn repository(space: &Json) -> (r: Result<GithubSpace, String>)
    ensures
        match repository_of(*space) {
            Ok(repo) => r matches Ok(found) && found@ == repo,
            Err(e) => r matches Err(m) && m@ == e,
        },
{
    let id = match integer_member(space, "id", "Space missing id", "Space id is not an integer") {
        Ok(id) => id,
        Err(e) => {
            return Err(e);
        },
    };
    let name = match text_member(space, "name", "Space missing name", "Space name is not a string") {
        Ok(t) => t,
        Err(e) => {
            return Err(e);
        },
    };
    let full_name = match text_member(
        space,
        "full_name",
        "Space missing full name",
        "Space full name is not a string",
    ) {
        Ok(t) => t,
        Err(e) => {
            return Err(e);
        },
    };
    let description = text_or_default(space, "description");
    let url = match text_member(space, "url", "Space missing url", "Space url is not a string") {
        Ok(t) => t,
        Err(e) => {
            return Err(e);
        },
    };
    Ok(GithubSpace { id, name, full_name, url, description })
}

/// The views of a list of repositories.
pub open spec fn repositories(spaces: Seq<GithubSpace>) -> Seq<Repository> {
    spaces.map_values(|s: GithubSpace| s@)
}

/// The repositories in GitHub's answer.
pub fn extract_github_spaces_data(answer: &Json) -> (r: Result<Vec<GithubSpace>, String>)
    ensures
        match repositories_of(*answer) {
            Ok(repos) => r matches Ok(found) && repositories(found@) == repos,
            Err(e) => r matches Err(m) && m@ == e,
        },
{
    let items = match answer.as_array() {
        Some(items) => items,
        None => {
            return Err(String::from_str("Spaces is not an array"));
        },
    };
    let ghost read = |space: Json| repository_of(space);
    let mut out: Vec<GithubSpace> = Vec::new();
    let mut i: usize = 0;
    assert(items@.take(0) =~= Seq::<Json>::empty());
    assert(repositories(out@) =~= Seq::<Repository>::empty());
    while i < items.len()
        invariant
            i <= items.len(),
            read == |space: Json| repository_of(space),
            answer.items() == Some(items@),
            each(items@.take(i as int), read) == Ok::<Seq<Repository>, Seq<char>>(
                repositories(out@),
            ),
        decreases items.len() - i,
    {
        proof {
            assert(items@.take(i + 1).drop_last() == items@.take(i as int));
            assert(items@.take(i + 1).last() == items@[i as int]);
        }
        match repository(&items[i]) {
            Ok(space) => {
                proof {
                    assert(read(items@[i as int]) == repository_of(items@[i as int]));
                    assert(repositories(out@.push(space)) == repositories(out@).push(space@));
                }
                out.push(space);
            },
            Err(e) => {
                proof {
                    assert(read(items@[i as int]) == repository_of(items@[i as int]));
                    assert(each(items@.take(i + 1), read) == Err::<Seq<Repository>, Seq<char>>(e@));
                    lemma_each_fails(items@, read, i + 1);
                }
                return Err(e);
            },
        }
        i += 1;
    }
    assert(items@.take(items.len() as int) == items@);
    Ok(out)
}

/// Once a prefix of a list fails to be read, the whole list fails in the
/// same way.
pub proof fn lemma_each_fails<T, E>(items: Seq<Json>, read: spec_fn(Json) -> Result<T, E>, k: int)
    requires
        0 <= k <= items.len(),
        each(items.take(k), read) is Err,
    ensures
        each(items, read) == each(items.take(k), read),
    decreases items.len() - k,
{
    if k < items.len() {
        assert(items.take(k + 1).drop_last() == items.take(k));
        lemma_each_fails(items, read, k + 1);
    } else {
        assert(items.take(k) == items);
    }
}

/// An issue assigned to the user.
#[derive(Debug, Clone)]
pub struct GithubIssue {
    pub id: i64,
    pub title: String,
    pub body: String,
    pub repository: String,
}

/// What an issue holds.
pub struct Issue {
    pub id: i64,
    pub title: Seq<char>,
    pub body: Seq<char>,
    pub repository: Seq<char>,
}

impl View for GithubIssue {
    type V = Issue;

    open spec fn view(&self) -> Issue {
        Issue { id: self.id, title: self.title@, body: self.body@, repository: self.repository@ }
    }
}

/// The name of the repository of an issue, or an empty text.
pub open spec fn repository_name(issue: Json) -> Seq<char> {
    match issue.member("repository"@) {
        Some(repo) => text_or_empty(repo, "name"@),
        None => Seq::empty(),
    }
}

/// The issue in one item of GitHub's answer: its id and title must be there;
/// a text or a repository name that is missing is empty.
pub open spec fn issue_of(issue: Json) -> Result<Issue, Seq<char>> {
    match required_integer(issue, "id"@, "Issue missing id"@, "Issue id is not an integer"@) {
        Err(e) => Err(e),
        Ok(id) => match required_text(
            issue,
            "title"@,
            "Issue missing title"@,
            "Issue title is not a string"@,
        ) {
            Err(e) => Err(e),
            Ok(title) => Ok(
                Issue {
                    id,
                    title,
                    body: text_or_empty(issue, "body"@),
                    repository: repository_name(issue),
                },
            ),
        },
    }
}

/// The issues in GitHub's answer, or the complaint about the first item that
/// is not one.
pub open spec fn issues_of(answer: Json) -> Result<Seq<Issue>, Seq<char>> {
    match answer.items() {
        None => Err("Response is not an array"@),
        Some(items) => each(items, |issue: Json| issue_of(issue)),
    }
}

fn issue(item: &Json) -> (r: Result<GithubIssue, String>)
    ensures
        match issue_of(*item) {
            Ok(issue) => r matches Ok(found) && found@ == issue,
            Err(e) => r matches Err(m) && m@ == e,
        },
{
    let id = match integer_member(item, "id", "Issue missing id", "Issue id is not an integer") {
        Ok(id) => id,
        Err(e) => {
            return Err(e);
        },
    };
    let title = match text_member(item, "title", "Issue missing title", "Issue title is not a string") {
        Ok(t) => t,
        Err(e) => {
            return Err(e);
        },
    };
    let body = text_or_default(item, "body");
    let repository = match item.get("repository") {
        Some(repo) => text_or_default(repo, "name"),
        None => String::new(),
    };
    Ok(GithubIssue { id, title, body, repository })
}

/// The views of a list of issues.
pub open spec fn issues(list: Seq<GithubIssue>) -> Seq<Issue> {
    list.map_values(|i: GithubIssue| i@)
}

/// The issues in GitHub's answer.
pub fn get_github_user_issues(answer: &Json) -> (r: Result<Vec<GithubIssue>, String>)
    ensures
        match issues_of(*answer) {
            Ok(list) => r matches Ok(found) && issues(found@) == list,
            Err(e) => r matches Err(m) && m@ == e,
        },
{
    let items = match answer.as_array() {
        Some(items) => items,
        None => {
            return Err(String::from_str("Response is not an array"));
        },
    };
    let ghost read = |issue: Json| issue_of(issue);
    let mut out: Vec<GithubIssue> = Vec::new();
    let mut i: usize = 0;
    assert(items@.take(0) =~= Seq::<Json>::empty());
    assert(issues(out@) =~= Seq::<Issue>::empty());
    while i < items.len()
        invariant
            i <= items.len(),
            read == |issue: Json| issue_of(issue),
            answer.items() == Some(items@),
            each(items@.take(i as int), read) == Ok::<Seq<Issue>, Seq<char>>(issues(out@)),
        decreases items.len() - i,
    {
        proof {
            assert(items@.take(i + 1).drop_last() == items@.take(i as int));
            assert(items@.take(i + 1).last() == items@[i as int]);
        }
        match issue(&items[i]) {
            Ok(found) => {
                proof {
                    assert(read(items@[i as int]) == issue_of(items@[i as int]));
                    assert(issues(out@.push(found)) == issues(out@).push(found@));
                }
                out.push(found);
            },
            Err(e) => {
                proof {
                    assert(read(items@[i as int]) == issue_of(items@[i as int]));
                    assert(each(items@.take(i + 1), read) == Err::<Seq<Issue>, Seq<char>>(e@));
                    lemma_each_fails(items@, read, i + 1);
                }
                return Err(e);
            },
        }
        i += 1;
    }
    assert(items@.take(items.len() as int) == items@);
    Ok(out)
}

/// How an issue is offered in a list.
pub open spec fn issue_option(issue: Issue) -> Seq<char> {
    crate::text::signed_decimal(issue.id as int) + " - "@ + issue.repository + " - "@ + issue.title
}

/// How an issue is offered in a list.
pub fn issue_label(issue: &GithubIssue) -> (r: String)
    ensures
        r@ == issue_option(issue@),
{
    let mut out = String::new();
    crate::text::append_signed(&mut out, issue.id);
    out.append(" - ");
    out.append(issue.repository.as_str());
    out.append(" - ");
    out.append(issue.title.as_str());
    out
}

} // verus!
