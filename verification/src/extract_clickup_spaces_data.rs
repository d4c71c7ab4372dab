//! What is read from the answers of ClickUp.

use vstd::prelude::*;
use vstd::string::StringExecFns;
use crate::extract_github_spaces_data::{
    each, is_text_result, lemma_each_fails, required_text, text_member,
};
use crate::json::{text_at, Json};
use crate::workspace_config::{ClickupMember, ClickupPriority, ClickupSpace, ClickupStatus};

verus! {

/// Why an answer could not be read.
#[derive(Debug)]
pub enum ExtractError {
    /// The answer lacks what the message names.
    Message(String),
    /// The answer is not of the shape that ClickUp gives.
    Broken,
}

/// Why an answer could not be read.
pub enum Failure {
    Message(Seq<char>),
    Broken,
}

impl View for ExtractError {
    type V = Failure;

    open spec fn view(&self) -> Failure {
        match self {
            ExtractError::Message(m) => Failure::Message(m@),
            ExtractError::Broken => Failure::Broken,
        }
    }
}

/// What a priority holds.
pub struct Priority {
    pub id: Seq<char>,
    pub priority: Seq<char>,
}

/// What a status holds.
pub struct Status {
    pub id: Seq<char>,
    pub status: Seq<char>,
    pub status_type: Seq<char>,
}

/// What a member holds.
pub struct Member {
    pub id: i64,
    pub username: Seq<char>,
    pub initials: Seq<char>,
}

/// What a space holds.
pub struct Space {
    pub id: Seq<char>,
    pub name: Seq<char>,
    pub priorities: Option<Seq<Priority>>,
    pub members: Option<Seq<Member>>,
    pub statuses: Option<Seq<Status>>,
}

impl View for ClickupPriority {
    type V = Priority;

    open spec fn view(&self) -> Priority {
        Priority { id: self.id@, priority: self.priority@ }
    }
}

impl View for ClickupStatus {
    type V = Status;

    open spec fn view(&self) -> Status {
        Status { id: self.id@, status: self.status@, status_type: self.status_type@ }
    }
}

impl View for ClickupMember {
    type V = Member;

    open spec fn view(&self) -> Member {
        Member { id: self.id, username: self.username@, initials: self.initials@ }
    }
}

/// The views of a list of priorities.
pub open spec fn priorities(list: Seq<ClickupPriority>) -> Seq<Priority> {
    list.map_values(|p: ClickupPriority| p@)
}

/// The views of a list of statuses.
pub open spec fn statuses(list: Seq<ClickupStatus>) -> Seq<Status> {
    list.map_values(|s: ClickupStatus| s@)
}

/// The views of a list of members.
pub open spec fn members(list: Seq<ClickupMember>) -> Seq<Member> {
    list.map_values(|m: ClickupMember| m@)
}

impl View for ClickupSpace {
    type V = Space;

    open spec fn view(&self) -> Space {
        Space {
            id: self.id@,
            name: self.name@,
            priorities: match self.priorities {
                Some(list) => Some(priorities(list@)),
                None => None,
            },
            members: match self.members {
                Some(list) => Some(members(list@)),
                None => None,
            },
            statuses: match self.statuses {
                Some(list) => Some(statuses(list@)),
                None => None,
            },
        }
    }
}

/// The views of a list of spaces.
pub open spec fn spaces(list: Seq<ClickupSpace>) -> Seq<Space> {
    list.map_values(|s: ClickupSpace| s@)
}

/// The text of a member that the shape of the answer promises.
pub open spec fn promised_text(value: Json, key: Seq<char>) -> Result<Seq<char>, Failure> {
    match text_at(value, key) {
        Some(t) => Ok(t),
        None => Err(Failure::Broken),
    }
}

fn promised(value: &Json, key: &str) -> (r: Result<String, ExtractError>)
    ensures
        match promised_text(*value, key@) {
            Ok(t) => r matches Ok(s) && s@ == t,
            Err(e) => r matches Err(f) && f@ == e,
        },
{
    match value.get(key) {
        Some(v) => match v.as_str() {
            Some(s) => Ok(s.to_owned()),
            None => Err(ExtractError::Broken),
        },
        None => Err(ExtractError::Broken),
    }
}

/// The member in one item of a space's members: the id, the initials and
/// the user name of its user.
pub open spec fn member_of(item: Json) -> Result<Member, Failure> {
    match item.member("user"@) {
        None => Err(Failure::Broken),
        Some(user) => match user.member("id"@) {
            None => Err(Failure::Broken),
            Some(id) => match id.integer() {
                None => Err(Failure::Broken),
                Some(id) => match promised_text(user, "initials"@) {
                    Err(e) => Err(e),
                    Ok(initials) => match promised_text(user, "username"@) {
                        Err(e) => Err(e),
                        Ok(username) => Ok(Member { id, username, initials }),
                    },
                },
            },
        },
    }
}

fn read_member(item: &Json) -> (r: Result<ClickupMember, ExtractError>)
    ensures
        match member_of(*item) {
            Ok(m) => r matches Ok(found) && found@ == m,
            Err(e) => r matches Err(f) && f@ == e,
        },
{
    let user = match item.get("user") {
        Some(user) => user,
        None => {
            return Err(ExtractError::Broken);
        },
    };
    let id = match user.get("id") {
        Some(id) => match id.as_i64() {
            Some(id) => id,
            None => {
                return Err(ExtractError::Broken);
            },
        },
        None => {
            return Err(ExtractError::Broken);
        },
    };
    let initials = match promised(user, "initials") {
        Ok(t) => t,
        Err(e) => {
            return Err(e);
        },
    };
    let username = match promised(user, "username") {
        Ok(t) => t,
        Err(e) => {
            return Err(e);
        },
    };
    Ok(ClickupMember { id, username, initials })
}

/// The status in one item of a space's statuses.
pub open spec fn status_of(item: Json) -> Result<Status, Failure> {
    match promised_text(item, "id"@) {
        Err(e) => Err(e),
        Ok(id) => match promised_text(item, "status"@) {
            Err(e) => Err(e),
            Ok(status) => match promised_text(item, "type"@) {
                Err(e) => Err(e),
                Ok(status_type) => Ok(Status { id, status, status_type }),
            },
        },
    }
}

fn read_status(item: &Json) -> (r: Result<ClickupStatus, ExtractError>)
    ensures
        match status_of(*item) {
            Ok(s) => r matches Ok(found) && found@ == s,
            Err(e) => r matches Err(f) && f@ == e,
        },
{
    let id = match promised(item, "id") {
        Ok(t) => t,
        Err(e) => {
            return Err(e);
        },
    };
    let status = match promised(item, "status") {
        Ok(t) => t,
        Err(e) => {
            return Err(e);
        },
    };
    let status_type = match promised(item, "type") {
        Ok(t) => t,
        Err(e) => {
            return Err(e);
        },
    };
    Ok(ClickupStatus { id, status, status_type })
}

/// The priority in one item of a space's priorities.
pub open spec fn priority_of(item: Json) -> Result<Priority, Failure> {
    match promised_text(item, "id"@) {
        Err(e) => Err(e),
        Ok(id) => match promised_text(item, "priority"@) {
            Err(e) => Err(e),
            Ok(priority) => Ok(Priority { id, priority }),
        },
    }
}

fn read_priority(item: &Json) -> (r: Result<ClickupPriority, ExtractError>)
    ensures
        match priority_of(*item) {
            Ok(p) => r matches Ok(found) && found@ == p,
            Err(e) => r matches Err(f) && f@ == e,
        },
{
    let id = match promised(item, "id") {
        Ok(t) => t,
        Err(e) => {
            return Err(e);
        },
    };
    let priority = match promised(item, "priority") {
        Ok(t) => t,
        Err(e) => {
            return Err(e);
        },
    };
    Ok(ClickupPriority { id, priority })
}

fn read_members(items: &Vec<Json>) -> (r: Result<Vec<ClickupMember>, ExtractError>)
    ensures
        match each(items@, |item: Json| member_of(item)) {
            Ok(list) => r matches Ok(found) && members(found@) == list,
            Err(e) => r matches Err(f) && f@ == e,
        },
{
    let ghost read = |item: Json| member_of(item);
    let mut out: Vec<ClickupMember> = Vec::new();
    let mut i: usize = 0;
    assert(items@.take(0) =~= Seq::<Json>::empty());
    assert(members(out@) =~= Seq::<Member>::empty());
    while i < items.len()
        invariant
            i <= items.len(),
            read == |item: Json| member_of(item),
            each(items@.take(i as int), read) == Ok::<Seq<Member>, Failure>(members(out@)),
        decreases items.len() - i,
    {
        proof {
            assert(items@.take(i + 1).drop_last() == items@.take(i as int));
            assert(items@.take(i + 1).last() == items@[i as int]);
            assert(read(items@[i as int]) == member_of(items@[i as int]));
        }
        match read_member(&items[i]) {
            Ok(found) => {
                proof {
                    assert(members(out@.push(found)) == members(out@).push(found@));
                }
                out.push(found);
            },
            Err(e) => {
                proof {
                    assert(each(items@.take(i + 1), read) == Err::<Seq<Member>, Failure>(e@));
                    lemma_each_fails(items@, read, i + 1);
                }
                return Err(e);
            },
        }
        i += 1;
    }
    assert(items@.take(items.len() as int) == items@);
    Ok(out)
}

fn read_statuses(items: &Vec<Json>) -> (r: Result<Vec<ClickupStatus>, ExtractError>)
    ensures
        match each(items@, |item: Json| status_of(item)) {
            Ok(list) => r matches Ok(found) && statuses(found@) == list,
            Err(e) => r matches Err(f) && f@ == e,
        },
{
    let ghost read = |item: Json| status_of(item);
    let mut out: Vec<ClickupStatus> = Vec::new();
    let mut i: usize = 0;
    assert(items@.take(0) =~= Seq::<Json>::empty());
    assert(statuses(out@) =~= Seq::<Status>::empty());
    while i < items.len()
        invariant
            i <= items.len(),
            read == |item: Json| status_of(item),
            each(items@.take(i as int), read) == Ok::<Seq<Status>, Failure>(statuses(out@)),
        decreases items.len() - i,
    {
        proof {
            assert(items@.take(i + 1).drop_last() == items@.take(i as int));
            assert(items@.take(i + 1).last() == items@[i as int]);
            assert(read(items@[i as int]) == status_of(items@[i as int]));
        }
        match read_status(&items[i]) {
            Ok(found) => {
                proof {
                    assert(statuses(out@.push(found)) == statuses(out@).push(found@));
                }
                out.push(found);
            },
            Err(e) => {
                proof {
                    assert(each(items@.take(i + 1), read) == Err::<Seq<Status>, Failure>(e@));
                    lemma_each_fails(items@, read, i + 1);
                }
                return Err(e);
            },
        }
        i += 1;
    }
    assert(items@.take(items.len() as int) == items@);
    Ok(out)
}

fn read_priorities(items: &Vec<Json>) -> (r: Result<Vec<ClickupPriority>, ExtractError>)
    ensures
        match each(items@, |item: Json| priority_of(item)) {
            Ok(list) => r matches Ok(found) && priorities(found@) == list,
            Err(e) => r matches Err(f) && f@ == e,
        },
{
    let ghost read = |item: Json| priority_of(item);
    let mut out: Vec<ClickupPriority> = Vec::new();
    let mut i: usize = 0;
    assert(items@.take(0) =~= Seq::<Json>::empty());
    assert(priorities(out@) =~= Seq::<Priority>::empty());
    while i < items.len()
        invariant
            i <= items.len(),
            read == |item: Json| priority_of(item),
            each(items@.take(i as int), read) == Ok::<Seq<Priority>, Failure>(priorities(out@)),
        decreases items.len() - i,
    {
        proof {
            assert(items@.take(i + 1).drop_last() == items@.take(i as int));
            assert(items@.take(i + 1).last() == items@[i as int]);
            assert(read(items@[i as int]) == priority_of(items@[i as int]));
        }
        match read_priority(&items[i]) {
            Ok(found) => {
                proof {
                    assert(priorities(out@.push(found)) == priorities(out@).push(found@));
                }
                out.push(found);
            },
            Err(e) => {
                proof {
                    assert(each(items@.take(i + 1), read) == Err::<Seq<Priority>, Failure>(e@));
                    lemma_each_fails(items@, read, i + 1);
                }
                return Err(e);
            },
        }
        i += 1;
    }
    assert(items@.take(items.len() as int) == items@);
    Ok(out)
}

/// The list in a member that may be missing; one that is there must be a
/// list of items that `read` reads.
pub open spec fn optional_list<T>(value: Option<Json>, read: spec_fn(Json) -> Result<T, Failure>) -> Result<
    Option<Seq<T>>,
    Failure,
> {
    match value {
        None => Ok(None),
        Some(v) => match v.items() {
            None => Err(Failure::Broken),
            Some(items) => match each(items, read) {
                Err(e) => Err(e),
                Ok(list) => Ok(Some(list)),
            },
        },
    }
}

/// The priorities of a space: those listed among its features, where they
/// are enabled.
pub open spec fn priorities_of(space: Json) -> Result<Option<Seq<Priority>>, Failure> {
    match space.member("features"@) {
        None => Ok(None),
        Some(features) => match features.member("priorities"@) {
            None => Ok(None),
            Some(p) => if p.member("enabled"@) matches Some(Json::Bool(enabled)) && enabled {
                match p.member("priorities"@) {
                    None => Err(Failure::Broken),
                    Some(list) => optional_list(Some(list), |item: Json| priority_of(item)),
                }
            } else {
                Ok(None)
            },
        },
    }
}

/// The text of a member that must be there and must be a text; else the
/// complaint that fits.
pub open spec fn demanded_text(value: Json, key: Seq<char>, missing: Seq<char>, wrong: Seq<char>) -> Result<
    Seq<char>,
    Failure,
> {
    match required_text(value, key, missing, wrong) {
        Ok(t) => Ok(t),
        Err(m) => Err(Failure::Message(m)),
    }
}

/// The space in one item of ClickUp's answer: its id and name, which must be
/// there, and its members, statuses and priorities, where it lists them.
pub open spec fn space_of(space: Json) -> Result<Space, Failure> {
    match demanded_text(space, "id"@, "Space missing id"@, "Space id is not a string"@) {
        Err(e) => Err(e),
        Ok(id) => match demanded_text(
            space,
            "name"@,
            "Space missing name"@,
            "Space name is not a string"@,
        ) {
            Err(e) => Err(e),
            Ok(name) => match optional_list(space.member("members"@), |item: Json| member_of(item)) {
                Err(e) => Err(e),
                Ok(members) => match optional_list(
                    space.member("statuses"@),
                    |item: Json| status_of(item),
                ) {
                    Err(e) => Err(e),
                    Ok(statuses) => match priorities_of(space) {
                        Err(e) => Err(e),
                        Ok(priorities) => Ok(Space { id, name, priorities, members, statuses }),
                    },
                },
            },
        },
    }
}

/// The spaces in ClickUp's answer, or why the first item that is not one is
/// none.
pub open spec fn spaces_of(answer: Json) -> Result<Seq<Space>, Failure> {
    match answer.member("spaces"@) {
        None => Err(Failure::Message("No spaces found in response"@)),
        Some(list) => match list.items() {
            None => Err(Failure::Message("Spaces is not an array"@)),
            Some(items) => each(items, |space: Json| space_of(space)),
        },
    }
}

fn demanded(value: &Json, key: &str, missing: &str, wrong: &str) -> (r: Result<String, ExtractError>)
    ensures
        match demanded_text(*value, key@, missing@, wrong@) {
            Ok(t) => r matches Ok(s) && s@ == t,
            Err(e) => r matches Err(f) && f@ == e,
        },
{
    match text_member(value, key, missing, wrong) {
        Ok(t) => Ok(t),
        Err(m) => Err(ExtractError::Message(m)),
    }
}

fn read_space_priorities(space: &Json) -> (r: Result<Option<Vec<ClickupPriority>>, ExtractError>)
    ensures
        match priorities_of(*space) {
            Ok(Some(list)) => r matches Ok(Some(found)) && priorities(found@) == list,
            Ok(None) => r matches Ok(None),
            Err(e) => r matches Err(f) && f@ == e,
        },
{
    let features = match space.get("features") {
        Some(f) => f,
        None => {
            return Ok(None);
        },
    };
    let p = match features.get("priorities") {
        Some(p) => p,
        None => {
            return Ok(None);
        },
    };
    let enabled = match p.get("enabled") {
        Some(e) => e.is_true(),
        None => false,
    };
    if !enabled {
        return Ok(None);
    }
    let items = match p.get("priorities") {
        Some(list) => match list.as_array() {
            Some(items) => items,
            None => {
                return Err(ExtractError::Broken);
            },
        },
        None => {
            return Err(ExtractError::Broken);
        },
    };
    match read_priorities(items) {
        Ok(list) => Ok(Some(list)),
        Err(e) => Err(e),
    }
}

fn read_space(space: &Json) -> (r: Result<ClickupSpace, ExtractError>)
    ensures
        match space_of(*space) {
            Ok(s) => r matches Ok(found) && found@ == s,
            Err(e) => r matches Err(f) && f@ == e,
        },
{
    let id = match demanded(space, "id", "Space missing id", "Space id is not a string") {
        Ok(t) => t,
        Err(e) => {
            return Err(e);
        },
    };
    let name = match demanded(space, "name", "Space missing name", "Space name is not a string") {
        Ok(t) => t,
        Err(e) => {
            return Err(e);
        },
    };
    let members = match space.get("members") {
        None => None,
        Some(list) => match list.as_array() {
            None => {
                return Err(ExtractError::Broken);
            },
            Some(items) => match read_members(items) {
                Ok(found) => Some(found),
                Err(e) => {
                    return Err(e);
                },
            },
        },
    };
    let statuses = match space.get("statuses") {
        None => None,
        Some(list) => match list.as_array() {
            None => {
                return Err(ExtractError::Broken);
            },
            Some(items) => match read_statuses(items) {
                Ok(found) => Some(found),
                Err(e) => {
                    return Err(e);
                },
            },
        },
    };
    let priorities = match read_space_priorities(space) {
        Ok(found) => found,
        Err(e) => {
            return Err(e);
        },
    };
    Ok(ClickupSpace { id, name, priorities, members, statuses })
}

fn read_spaces(items: &Vec<Json>) -> (r: Result<Vec<ClickupSpace>, ExtractError>)
    ensures
        match each(items@, |item: Json| space_of(item)) {
            Ok(list) => r matches Ok(found) && spaces(found@) == list,
            Err(e) => r matches Err(f) && f@ == e,
        },
{
    let ghost read = |item: Json| space_of(item);
    let mut out: Vec<ClickupSpace> = Vec::new();
    let mut i: usize = 0;
    assert(items@.take(0) =~= Seq::<Json>::empty());
    assert(spaces(out@) =~= Seq::<Space>::empty());
    while i < items.len()
        invariant
            i <= items.len(),
            read == |item: Json| space_of(item),
            each(items@.take(i as int), read) == Ok::<Seq<Space>, Failure>(spaces(out@)),
        decreases items.len() - i,
    {
        proof {
            assert(items@.take(i + 1).drop_last() == items@.take(i as int));
            assert(items@.take(i + 1).last() == items@[i as int]);
            assert(read(items@[i as int]) == space_of(items@[i as int]));
        }
        match read_space(&items[i]) {
            Ok(found) => {
                proof {
                    assert(spaces(out@.push(found)) == spaces(out@).push(found@));
                }
                out.push(found);
            },
            Err(e) => {
                proof {
                    assert(each(items@.take(i + 1), read) == Err::<Seq<Space>, Failure>(e@));
                    lemma_each_fails(items@, read, i + 1);
                }
                return Err(e);
            },
        }
        i += 1;
    }
    assert(items@.take(items.len() as int) == items@);
    Ok(out)
}

/// The spaces in ClickUp's answer.
pub fn extract_clickup_spaces_data(answer: &Json) -> (r: Result<Vec<ClickupSpace>, ExtractError>)
    ensures
        match spaces_of(*answer) {
            Ok(list) => r matches Ok(found) && spaces(found@) == list,
            Err(e) => r matches Err(f) && f@ == e,
        },
{
    let list = match answer.get("spaces") {
        Some(list) => list,
        None => {
            return Err(ExtractError::Message(String::from_str("No spaces found in response")));
        },
    };
    let items = match list.as_array() {
        Some(items) => items,
        None => {
            return Err(ExtractError::Message(String::from_str("Spaces is not an array")));
        },
    };
    read_spaces(items)
}

/// The address that lists the spaces of a workspace.
pub open spec fn spaces_address(workspace_id: Seq<char>) -> Seq<char> {
    "https://api.clickup.com/api/v2/team/"@ + workspace_id + "/space"@
}

/// The address that lists the spaces of a workspace.
pub fn spaces_url(workspace_id: &str) -> (r: String)
    ensures
        r@ == spaces_address(workspace_id@),
{
    let mut out = String::from_str("https://api.clickup.com/api/v2/team/");
    out.append(workspace_id);
    out.append("/space");
    out
}

/// The address of a task, with its description as markdown.
pub open spec fn task_address(issue_id: Seq<char>) -> Seq<char> {
    "https://api.clickup.com/api/v2/task/"@ + issue_id + "?include_markdown_description=true"@
}

/// The address of a task.
pub fn task_url(issue_id: &str) -> (r: String)
    ensures
        r@ == task_address(issue_id@),
{
    let mut out = String::from_str("https://api.clickup.com/api/v2/task/");
    out.append(issue_id);
    out.append("?include_markdown_description=true");
    out
}

} // verus!
