//! The branch session store: one record per branch, merged on every save.

use vstd::prelude::*;
use vstd::hash_map::StringHashMap;
use vstd::string::StringExecFns;
use crate::search::views;
use crate::text::{append_wrapped, wrapped_lines};

verus! {

/// The view of an optional text.
pub open spec fn text_view(o: Option<String>) -> Option<Seq<char>> {
    match o {
        Some(s) => Some(s@),
        None => None,
    }
}

/// The view of an optional list of lines.
pub open spec fn lines_view(o: Option<Vec<String>>) -> Option<Seq<Seq<char>>> {
    match o {
        Some(v) => Some(views(v@)),
        None => None,
    }
}

/// A copy of a list of lines.
pub fn clone_lines(lines: &Vec<String>) -> (r: Vec<String>)
    ensures
        r@ == lines@,
{
    let mut out: Vec<String> = Vec::new();
    let mut i: usize = 0;
    while i < lines.len()
        invariant
            i <= lines.len(),
            out@ == lines@.take(i as int),
        decreases lines.len() - i,
    {
        out.push(lines[i].clone());
        i += 1;
    }
    assert(lines@.take(lines.len() as int) == lines@);
    out
}

/// A copy of an optional text.
pub fn clone_text(text: &Option<String>) -> (r: Option<String>)
    ensures
        r == *text,
{
    match text {
        Some(s) => Some(s.clone()),
        None => None,
    }
}

/// A copy of an optional list of lines.
pub fn clone_optional_lines(lines: &Option<Vec<String>>) -> (r: Option<Vec<String>>)
    ensures
        r is Some == lines is Some,
        r is Some ==> r->0@ == lines->0@,
        lines_view(r) == lines_view(*lines),
{
    match lines {
        Some(v) => Some(clone_lines(v)),
        None => None,
    }
}

/// The record kept for one branch.
#[derive(Debug)]
pub struct BranchYamlConfig {
    pub branch_name: String,
    pub created_at: String,
    pub updated_at: Option<String>,
    pub pr_template: Option<String>,
    pub commit_message: Option<String>,
    pub additional_message: Option<Vec<String>>,
    pub last_commit_exit_code: Option<i32>,
    pub issue_id: Option<String>,
    pub issue_name: Option<String>,
    pub issue_description: Option<String>,
    pub assistant_suggestion: Option<String>,
}

/// What a branch record holds.
pub struct BranchSession {
    pub branch_name: Seq<char>,
    pub created_at: Seq<char>,
    pub updated_at: Option<Seq<char>>,
    pub pr_template: Option<Seq<char>>,
    pub commit_message: Option<Seq<char>>,
    pub additional_message: Option<Seq<Seq<char>>>,
    pub last_commit_exit_code: Option<i32>,
    pub issue_id: Option<Seq<char>>,
    pub issue_name: Option<Seq<char>>,
    pub issue_description: Option<Seq<char>>,
    pub assistant_suggestion: Option<Seq<char>>,
}

impl View for BranchYamlConfig {
    type V = BranchSession;

    open spec fn view(&self) -> BranchSession {
        BranchSession {
            branch_name: self.branch_name@,
            created_at: self.created_at@,
            updated_at: text_view(self.updated_at),
            pr_template: text_view(self.pr_template),
            commit_message: text_view(self.commit_message),
            additional_message: lines_view(self.additional_message),
            last_commit_exit_code: self.last_commit_exit_code,
            issue_id: text_view(self.issue_id),
            issue_name: text_view(self.issue_name),
            issue_description: text_view(self.issue_description),
            assistant_suggestion: text_view(self.assistant_suggestion),
        }
    }
}

/// The fields that one save supplies. A field left at `None` keeps the value
/// that is stored.
#[derive(Debug)]
pub struct SessionUpdate {
    pub pr_template: Option<String>,
    pub commit_message: Option<String>,
    pub additional_message: Option<Vec<String>>,
    pub commit_exit_code: Option<i32>,
    pub issue_id: Option<String>,
    pub issue_name: Option<String>,
    pub issue_description: Option<String>,
    pub assistant_suggestion: Option<String>,
}

/// What an update holds.
pub struct SessionChange {
    pub pr_template: Option<Seq<char>>,
    pub commit_message: Option<Seq<char>>,
    pub additional_message: Option<Seq<Seq<char>>>,
    pub commit_exit_code: Option<i32>,
    pub issue_id: Option<Seq<char>>,
    pub issue_name: Option<Seq<char>>,
    pub issue_description: Option<Seq<char>>,
    pub assistant_suggestion: Option<Seq<char>>,
}

impl View for SessionUpdate {
    type V = SessionChange;

    open spec fn view(&self) -> SessionChange {
        SessionChange {
            pr_template: text_view(self.pr_template),
            commit_message: text_view(self.commit_message),
            additional_message: lines_view(self.additional_message),
            commit_exit_code: self.commit_exit_code,
            issue_id: text_view(self.issue_id),
            issue_name: text_view(self.issue_name),
            issue_description: text_view(self.issue_description),
            assistant_suggestion: text_view(self.assistant_suggestion),
        }
    }
}

impl SessionUpdate {
    /// The update that supplies nothing.
    pub open spec fn nothing() -> SessionChange {
        SessionChange {
            pr_template: None,
            commit_message: None,
            additional_message: None,
            commit_exit_code: None,
            issue_id: None,
            issue_name: None,
            issue_description: None,
            assistant_suggestion: None,
        }
    }

    /// An update that supplies nothing.
    pub fn new() -> (r: Self)
        ensures
            r@ == Self::nothing(),
    {
        SessionUpdate {
            pr_template: None,
            commit_message: None,
            additional_message: None,
            commit_exit_code: None,
            issue_id: None,
            issue_name: None,
            issue_description: None,
            assistant_suggestion: None,
        }
    }
}

/// The exit code that a record starts with: no commit has succeeded yet.
pub const NOT_YET_COMMITTED: i32 = 1;

/// The supplied value where there is one, else the stored one.
pub open spec fn supplied_or<T>(supplied: Option<T>, stored: Option<T>) -> Option<T> {
    if supplied is Some {
        supplied
    } else {
        stored
    }
}

/// The record that the first save for a branch creates.
pub open spec fn created(branch: Seq<char>, now: Seq<char>, change: SessionChange) -> BranchSession {
    BranchSession {
        branch_name: branch,
        created_at: now,
        updated_at: Some(now),
        pr_template: change.pr_template,
        commit_message: change.commit_message,
        additional_message: change.additional_message,
        last_commit_exit_code: supplied_or(change.commit_exit_code, Some(NOT_YET_COMMITTED)),
        issue_id: change.issue_id,
        issue_name: change.issue_name,
        issue_description: change.issue_description,
        assistant_suggestion: change.assistant_suggestion,
    }
}

/// The record after a save on a stored record: every supplied field replaces
/// the stored one, every other field stays, and the time of the update is
/// stamped.
pub open spec fn merged(stored: BranchSession, now: Seq<char>, change: SessionChange) -> BranchSession {
    BranchSession {
        branch_name: stored.branch_name,
        created_at: stored.created_at,
        updated_at: Some(now),
        pr_template: supplied_or(change.pr_template, stored.pr_template),
        commit_message: supplied_or(change.commit_message, stored.commit_message),
        additional_message: supplied_or(change.additional_message, stored.additional_message),
        last_commit_exit_code: supplied_or(change.commit_exit_code, stored.last_commit_exit_code),
        issue_id: supplied_or(change.issue_id, stored.issue_id),
        issue_name: supplied_or(change.issue_name, stored.issue_name),
        issue_description: supplied_or(change.issue_description, stored.issue_description),
        assistant_suggestion: supplied_or(change.assistant_suggestion, stored.assistant_suggestion),
    }
}

/// Whether the record shows a commit that failed and was not retried with
/// success: an exit code is stored and it is not zero.
pub open spec fn failed_commit(record: BranchSession) -> bool {
    record.last_commit_exit_code matches Some(code) && code != 0
}

fn text_or(supplied: Option<String>, stored: &Option<String>) -> (r: Option<String>)
    ensures
        text_view(r) == supplied_or(text_view(supplied), text_view(*stored)),
{
    match supplied {
        Some(s) => Some(s),
        None => clone_text(stored),
    }
}

impl BranchYamlConfig {
    /// The record that the first save for a branch creates.
    pub fn create(git_branch: &str, now: &str, update: SessionUpdate) -> (r: Self)
        ensures
            r@ == created(git_branch@, now@, update@),
    {
        let code = match update.commit_exit_code {
            Some(c) => Some(c),
            None => Some(NOT_YET_COMMITTED),
        };
        BranchYamlConfig {
            branch_name: String::from_str(git_branch),
            created_at: String::from_str(now),
            updated_at: Some(String::from_str(now)),
            pr_template: update.pr_template,
            commit_message: update.commit_message,
            additional_message: update.additional_message,
            last_commit_exit_code: code,
            issue_id: update.issue_id,
            issue_name: update.issue_name,
            issue_description: update.issue_description,
            assistant_suggestion: update.assistant_suggestion,
        }
    }

    /// The record after a save on this record.
    pub fn merge(&self, now: &str, update: SessionUpdate) -> (r: Self)
        ensures
            r@ == merged(self@, now@, update@),
    {
        let additional = match update.additional_message {
            Some(v) => Some(v),
            None => clone_optional_lines(&self.additional_message),
        };
        let code = match update.commit_exit_code {
            Some(c) => Some(c),
            None => self.last_commit_exit_code,
        };
        BranchYamlConfig {
            branch_name: self.branch_name.clone(),
            created_at: self.created_at.clone(),
            updated_at: Some(String::from_str(now)),
            pr_template: text_or(update.pr_template, &self.pr_template),
            commit_message: text_or(update.commit_message, &self.commit_message),
            additional_message: additional,
            last_commit_exit_code: code,
            issue_id: text_or(update.issue_id, &self.issue_id),
            issue_name: text_or(update.issue_name, &self.issue_name),
            issue_description: text_or(update.issue_description, &self.issue_description),
            assistant_suggestion: text_or(update.assistant_suggestion, &self.assistant_suggestion),
        }
    }

    /// A copy of the record.
    pub fn copy(&self) -> (r: Self)
        ensures
            r@ == self@,
    {
        BranchYamlConfig {
            branch_name: self.branch_name.clone(),
            created_at: self.created_at.clone(),
            updated_at: clone_text(&self.updated_at),
            pr_template: clone_text(&self.pr_template),
            commit_message: clone_text(&self.commit_message),
            additional_message: clone_optional_lines(&self.additional_message),
            last_commit_exit_code: self.last_commit_exit_code,
            issue_id: clone_text(&self.issue_id),
            issue_name: clone_text(&self.issue_name),
            issue_description: clone_text(&self.issue_description),
            assistant_suggestion: clone_text(&self.assistant_suggestion),
        }
    }

    /// Whether the record shows a failed commit.
    pub fn has_failed_commit(&self) -> (r: bool)
        ensures
            r == failed_commit(self@),
    {
        match self.last_commit_exit_code {
            Some(code) => code != 0,
            None => false,
        }
    }
}

/// What the store holds for a branch: a record, or a file that is there but
/// cannot be read as one.
#[derive(Debug)]
pub enum Stored {
    Record(BranchYamlConfig),
    Malformed,
}

/// What the store holds for a branch.
pub enum StoredSession {
    Record(BranchSession),
    Malformed,
}

impl View for Stored {
    type V = StoredSession;

    open spec fn view(&self) -> StoredSession {
        match self {
            Stored::Record(r) => StoredSession::Record(r@),
            Stored::Malformed => StoredSession::Malformed,
        }
    }
}

/// Why a session operation failed.
#[derive(Clone, Copy, Debug, PartialEq, Eq, Structural)]
pub enum SessionError {
    /// Nothing is stored for the branch.
    NotFound,
    /// What is stored for the branch cannot be read as a record.
    Malformed,
    /// The record shows a failed commit but holds no message to retry it with.
    Incomplete,
}

/// The sessions of a repository, keyed by branch name.
pub type Sessions = Map<Seq<char>, StoredSession>;

/// The record of a branch, where the store holds one that can be read.
pub open spec fn session_of(sessions: Sessions, branch: Seq<char>) -> Option<BranchSession> {
    if sessions.contains_key(branch) {
        match sessions[branch] {
            StoredSession::Record(r) => Some(r),
            StoredSession::Malformed => None,
        }
    } else {
        None
    }
}

/// Whether nothing is stored for the branch.
pub open spec fn new_branch(sessions: Sessions, branch: Seq<char>) -> bool {
    !sessions.contains_key(branch)
}

/// The store after a save at time `now`: the first save creates the record,
/// a later one merges into it, and a stored file that cannot be read is an
/// error.
pub open spec fn saved(sessions: Sessions, branch: Seq<char>, now: Seq<char>, change: SessionChange) -> Result<
    Sessions,
    SessionError,
> {
    if !sessions.contains_key(branch) {
        Ok(sessions.insert(branch, StoredSession::Record(created(branch, now, change))))
    } else {
        match sessions[branch] {
            StoredSession::Record(r) => Ok(
                sessions.insert(branch, StoredSession::Record(merged(r, now, change))),
            ),
            StoredSession::Malformed => Err(SessionError::Malformed),
        }
    }
}

/// Whether the store shows a failed commit for the branch.
pub open spec fn pending_failure(sessions: Sessions, branch: Seq<char>) -> bool {
    session_of(sessions, branch) matches Some(r) && failed_commit(r)
}

/// The store of branch sessions.
pub struct SessionStore {
    entries: StringHashMap<Stored>,
}

impl View for SessionStore {
    type V = Sessions;

    closed spec fn view(&self) -> Sessions {
        self.entries@.map_values(|e: Stored| e@)
    }
}

impl SessionStore {
    /// A store that holds nothing.
    pub fn new() -> (r: Self)
        ensures
            r@ == Map::<Seq<char>, StoredSession>::empty(),
    {
        let r = SessionStore { entries: StringHashMap::new() };
        assert(r@ =~= Map::<Seq<char>, StoredSession>::empty());
        r
    }

    /// Puts what was found for a branch into the store, in place of what the
    /// store held for it.
    pub fn put(&mut self, git_branch: &str, entry: Stored)
        ensures
            final(self)@ == old(self)@.insert(git_branch@, entry@),
    {
        self.entries.insert(String::from_str(git_branch), entry);
        assert(self@ =~= old(self)@.insert(git_branch@, entry@));
    }

    /// Whether the store holds something for the branch.
    pub fn contains(&self, git_branch: &str) -> (r: bool)
        ensures
            r == self@.contains_key(git_branch@),
    {
        self.entries.contains_key(git_branch)
    }

    /// Saves an update for a branch at time `now`.
    pub fn save_at(&mut self, git_branch: &str, update: SessionUpdate, now: &str) -> (r: Result<
        (),
        SessionError,
    >)
        ensures
            match saved(old(self)@, git_branch@, now@, update@) {
                Ok(sessions) => r is Ok && final(self)@ == sessions,
                Err(e) => r == Err::<(), SessionError>(e) && final(self)@ == old(self)@,
            },
    {
        let record = match self.entries.get(git_branch) {
            None => BranchYamlConfig::create(git_branch, now, update),
            Some(Stored::Record(stored)) => stored.merge(now, update),
            Some(Stored::Malformed) => {
                return Err(SessionError::Malformed);
            },
        };
        self.put(git_branch, Stored::Record(record));
        Ok(())
    }
}

/// Whether the branch is new: nothing is stored for it yet.
pub fn setup_branch_env(store: &SessionStore, git_branch: &str) -> (r: bool)
    ensures
        r == new_branch(store@, git_branch@),
{
    !store.contains(git_branch)
}

/// The record of a branch. What is missing, and what cannot be read, is no
/// record.
pub fn get_branch_config(store: &SessionStore, git_branch: &str) -> (r: Option<BranchYamlConfig>)
    ensures
        match session_of(store@, git_branch@) {
            Some(session) => r matches Some(record) && record@ == session,
            None => r is None,
        },
{
    match store.entries.get(git_branch) {
        Some(Stored::Record(stored)) => Some(stored.copy()),
        _ => None,
    }
}

/// Whether `after` and `r` are what a save at time `now` leaves and returns.
pub open spec fn save_outcome(
    before: Sessions,
    after: Sessions,
    r: Result<(), SessionError>,
    branch: Seq<char>,
    now: Seq<char>,
    change: SessionChange,
) -> bool {
    match saved(before, branch, now, change) {
        Ok(sessions) => r is Ok && after == sessions,
        Err(e) => r == Err::<(), SessionError>(e) && after == before,
    }
}

/// The local time, as it is stamped on a record.
///
/// Trusted: reads the clock with `chrono::Local::now` and writes it out with
/// `chrono::DateTime::format`. The text depends on the clock and on the time
/// zone of the machine, so nothing is claimed of it.
#[verifier::external_body]
pub(crate) fn local_timestamp() -> String {
    chrono::Local::now().format("%Y-%m-%d %H:%M:%S").to_string()
}

/// Saves an update for a branch, stamped with the local time. The first save
/// creates the record; a later one merges every supplied field into it and
/// keeps the others.
pub fn save_branch_config(store: &mut SessionStore, git_branch: &str, update: SessionUpdate) -> (r:
    Result<(), SessionError>)
    ensures
        exists|now: Seq<char>|
            #[trigger] save_outcome(old(store)@, final(store)@, r, git_branch@, now, update@),
{
    let now = local_timestamp();
    let r = store.save_at(git_branch, update, now.as_str());
    assert(save_outcome(old(store)@, store@, r, git_branch@, now@, update@));
    r
}

/// A failed commit, as it is offered for a retry.
#[derive(Debug)]
pub struct RetryPlan {
    pub commit_message: String,
    pub additional_messages: Vec<String>,
    pub pr_template: String,
}

/// What a retry holds.
pub struct Retry {
    pub commit_message: Seq<char>,
    pub additional_messages: Seq<Seq<char>>,
    pub pr_template: Seq<char>,
}

impl View for RetryPlan {
    type V = Retry;

    open spec fn view(&self) -> Retry {
        Retry {
            commit_message: self.commit_message@,
            additional_messages: views(self.additional_messages@),
            pr_template: self.pr_template@,
        }
    }
}

/// What is shown to the user before a retry is offered.
pub open spec fn retry_notice(retry: Retry) -> Seq<char> {
    "\x1b[1;33mFound a failed commit:\n"@ + "\n"@ + retry.commit_message + wrapped_lines(
        retry.additional_messages,
        "\n"@,
        Seq::empty(),
    ) + "\n"@
}

impl RetryPlan {
    /// What is shown to the user before the retry is offered.
    pub fn notice(&self) -> (r: String)
        ensures
            r@ == retry_notice(self@),
    {
        let mut out = String::from_str("\x1b[1;33mFound a failed commit:\n");
        out.append("\n");
        out.append(self.commit_message.as_str());
        proof {
            reveal_strlit("");
            assert(""@ =~= Seq::<char>::empty());
        }
        append_wrapped(&mut out, &self.additional_messages, "\n", "");
        out.append("\n");
        out
    }
}

/// The retry that a record asks for: none unless it shows a failed commit;
/// with one, the stored message, additional lines and template (empty where
/// none is stored). A failed commit without a stored message or without
/// stored additional lines cannot be retried.
pub open spec fn retry_of(record: BranchSession) -> Result<Option<Retry>, SessionError> {
    if !failed_commit(record) {
        Ok(None)
    } else if record.commit_message is None || record.additional_message is None {
        Err(SessionError::Incomplete)
    } else {
        Ok(
            Some(
                Retry {
                    commit_message: record.commit_message->0,
                    additional_messages: record.additional_message->0,
                    pr_template: match record.pr_template {
                        Some(t) => t,
                        None => Seq::empty(),
                    },
                },
            ),
        )
    }
}

/// The retry that the store asks for on a branch.
pub open spec fn resume_of(sessions: Sessions, branch: Seq<char>) -> Result<Option<Retry>, SessionError> {
    if !sessions.contains_key(branch) {
        Err(SessionError::NotFound)
    } else {
        match sessions[branch] {
            StoredSession::Malformed => Err(SessionError::Malformed),
            StoredSession::Record(r) => retry_of(r),
        }
    }
}

/// Whether `r` is `expected`, by view.
pub open spec fn is_resume(r: Result<Option<RetryPlan>, SessionError>, expected: Result<
    Option<Retry>,
    SessionError,
>) -> bool {
    match expected {
        Ok(Some(retry)) => r matches Ok(Some(plan)) && plan@ == retry,
        Ok(None) => r matches Ok(None),
        Err(e) => r matches Err(f) && f == e,
    }
}

impl BranchYamlConfig {
    /// The retry that the record asks for.
    pub fn retry(&self) -> (r: Result<Option<RetryPlan>, SessionError>)
        ensures
            is_resume(r, retry_of(self@)),
    {
        if !self.has_failed_commit() {
            return Ok(None);
        }
        let message = match &self.commit_message {
            Some(m) => m.clone(),
            None => {
                return Err(SessionError::Incomplete);
            },
        };
        let additional = match &self.additional_message {
            Some(lines) => clone_lines(lines),
            None => {
                return Err(SessionError::Incomplete);
            },
        };
        let template = match &self.pr_template {
            Some(t) => t.clone(),
            None => String::new(),
        };
        Ok(
            Some(
                RetryPlan {
                    commit_message: message,
                    additional_messages: additional,
                    pr_template: template,
                },
            ),
        )
    }
}

/// Loads the record of a branch and says whether a failed commit is to be
/// offered for a retry, and with what. A branch without a readable record is
/// an error.
pub fn load_branch_config(store: &SessionStore, git_branch: &str) -> (r: Result<
    Option<RetryPlan>,
    SessionError,
>)
    ensures
        is_resume(r, resume_of(store@, git_branch@)),
{
    match store.entries.get(git_branch) {
        None => Err(SessionError::NotFound),
        Some(Stored::Malformed) => Err(SessionError::Malformed),
        Some(Stored::Record(stored)) => stored.retry(),
    }
}

/// Whether the store shows a failed commit for the branch.
pub fn has_pending_failure(store: &SessionStore, git_branch: &str) -> (r: bool)
    ensures
        r == pending_failure(store@, git_branch@),
{
    match store.entries.get(git_branch) {
        Some(Stored::Record(stored)) => stored.has_failed_commit(),
        _ => false,
    }
}

/// What showing the stored PR template prints: the template, or a line that
/// says that none is stored.
pub open spec fn template_text(sessions: Sessions, branch: Seq<char>) -> Result<Seq<char>, SessionError> {
    if !sessions.contains_key(branch) {
        Ok("No previous file found."@)
    } else {
        match sessions[branch] {
            StoredSession::Malformed => Err(SessionError::Malformed),
            StoredSession::Record(r) => match r.pr_template {
                Some(t) => Ok(t),
                None => Ok("No saved commit template found"@),
            },
        }
    }
}

/// What showing the stored PR template of a branch prints.
pub fn load_commit_template(store: &SessionStore, git_branch: &str) -> (r: Result<String, SessionError>)
    ensures
        match template_text(store@, git_branch@) {
            Ok(text) => r matches Ok(t) && t@ == text,
            Err(e) => r matches Err(f) && f == e,
        },
{
    match store.entries.get(git_branch) {
        None => Ok(String::from_str("No previous file found.")),
        Some(Stored::Malformed) => Err(SessionError::Malformed),
        Some(Stored::Record(stored)) => match &stored.pr_template {
            Some(t) => Ok(t.clone()),
            None => Ok(String::from_str("No saved commit template found")),
        },
    }
}

/// A save round-trips and merges: after a save that supplies a commit
/// message, the record of the branch holds that message; a later save that
/// supplies none keeps it, and stores what it does supply.
pub proof fn lemma_save_round_trip(
    sessions: Sessions,
    branch: Seq<char>,
    first: SessionChange,
    now: Seq<char>,
    second: SessionChange,
    later: Seq<char>,
)
    requires
        first.commit_message is Some,
        second.commit_message is None,
        saved(sessions, branch, now, first) is Ok,
    ensures
        session_of(saved(sessions, branch, now, first)->Ok_0, branch) matches Some(r)
            && r.commit_message == first.commit_message,
        saved(saved(sessions, branch, now, first)->Ok_0, branch, later, second) matches Ok(after)
            && session_of(after, branch) matches Some(r) && r.commit_message
            == first.commit_message && (second.pr_template is Some ==> r.pr_template
            == second.pr_template),
{
}

/// A failed commit stays pending until a commit succeeds: after a save that
/// supplies an exit code other than zero, the store shows a failed commit
/// for the branch; after a following save that supplies the exit code zero,
/// it shows none and asks for no retry.
pub proof fn lemma_failure_pending_until_success(
    sessions: Sessions,
    branch: Seq<char>,
    failure: SessionChange,
    now: Seq<char>,
    success: SessionChange,
    later: Seq<char>,
)
    requires
        failure.commit_exit_code matches Some(code) && code != 0,
        success.commit_exit_code == Some(0i32),
        saved(sessions, branch, now, failure) is Ok,
    ensures
        pending_failure(saved(sessions, branch, now, failure)->Ok_0, branch),
        resume_of(saved(sessions, branch, now, failure)->Ok_0, branch) !is Ok || resume_of(
            saved(sessions, branch, now, failure)->Ok_0,
            branch,
        )->Ok_0 is Some,
        saved(saved(sessions, branch, now, failure)->Ok_0, branch, later, success) matches Ok(after)
            && !pending_failure(after, branch) && resume_of(after, branch) == Ok::<
            Option<Retry>,
            SessionError,
        >(None),
{
}

/// A branch is new until its first save: in a store that holds nothing
/// every branch is new, a save on a new branch succeeds, and after a save
/// that succeeded the branch is not new.
pub proof fn lemma_new_until_saved(
    sessions: Sessions,
    branch: Seq<char>,
    now: Seq<char>,
    change: SessionChange,
)
    ensures
        new_branch(Map::<Seq<char>, StoredSession>::empty(), branch),
        new_branch(sessions, branch) ==> saved(sessions, branch, now, change) is Ok,
        saved(sessions, branch, now, change) matches Ok(after) ==> !new_branch(after, branch),
{
}

} // verus!
