//! The change classifier: from staged file paths to one proposed commit type.

use vstd::prelude::*;
use crate::patterns::{is_match, pattern_match};
use crate::search::views;

verus! {

/// Paths of continuous-integration and infrastructure files.
pub const CI_PATTERN: &'static str = "^\\.|Dockerfile|/iac/";

/// Paths of test files.
pub const TEST_PATTERN: &'static str = "\\.spec\\.|\\.test\\.|\\.jest\\.|\\.config\\.|jest\\.unit";

/// Paths of documentation files.
pub const DOCS_PATTERN: &'static str = "\\.md$";

/// Paths of build manifests.
pub const BUILD_PATTERN: &'static str = "package\\.json|yarn\\.lock$";

/// A conventional-commit type.
#[derive(Clone, Copy, Debug, PartialEq, Eq, Structural)]
pub enum Tag {
    Test,
    Docs,
    Build,
    Ci,
    Feat,
    Fix,
    Style,
    Refactor,
    Perf,
    Chore,
    Revert,
}

impl Tag {
    /// The tag as it is written in a commit message.
    pub open spec fn label(self) -> Seq<char> {
        match self {
            Tag::Test => "test"@,
            Tag::Docs => "docs"@,
            Tag::Build => "build"@,
            Tag::Ci => "ci"@,
            Tag::Feat => "feat"@,
            Tag::Fix => "fix"@,
            Tag::Style => "style"@,
            Tag::Refactor => "refactor"@,
            Tag::Perf => "perf"@,
            Tag::Chore => "chore"@,
            Tag::Revert => "revert"@,
        }
    }

    /// The tag as it is written in a commit message.
    pub fn name(&self) -> (r: &'static str)
        ensures
            r@ == self.label(),
    {
        match self {
            Tag::Test => "test",
            Tag::Docs => "docs",
            Tag::Build => "build",
            Tag::Ci => "ci",
            Tag::Feat => "feat",
            Tag::Fix => "fix",
            Tag::Style => "style",
            Tag::Refactor => "refactor",
            Tag::Perf => "perf",
            Tag::Chore => "chore",
            Tag::Revert => "revert",
        }
    }
}

/// Which of the four path patterns a path matches.
#[derive(Clone, Copy, Debug, PartialEq, Eq, Structural)]
pub struct FileSignals {
    pub ci: bool,
    pub test: bool,
    pub docs: bool,
    pub build: bool,
}

/// The tag of a path with the given signals: the first rule that matches
/// decides, and a path that matches none is a feature.
pub open spec fn tag_for(m: FileSignals) -> Tag {
    if m.ci {
        Tag::Ci
    } else if m.test {
        Tag::Test
    } else if m.docs {
        Tag::Docs
    } else if m.build {
        Tag::Build
    } else {
        Tag::Feat
    }
}

/// The tag of a path with the given signals.
pub fn file_tag(m: FileSignals) -> (t: Tag)
    ensures
        t == tag_for(m),
{
    if m.ci {
        Tag::Ci
    } else if m.test {
        Tag::Test
    } else if m.docs {
        Tag::Docs
    } else if m.build {
        Tag::Build
    } else {
        Tag::Feat
    }
}

/// The signals of a path; `None` where one of the patterns does not compile.
pub open spec fn signals_of(path: Seq<char>) -> Option<FileSignals> {
    match (
        pattern_match(CI_PATTERN@, path),
        pattern_match(TEST_PATTERN@, path),
        pattern_match(DOCS_PATTERN@, path),
        pattern_match(BUILD_PATTERN@, path),
    ) {
        (Some(ci), Some(test), Some(docs), Some(build)) => Some(
            FileSignals { ci, test, docs, build },
        ),
        _ => None,
    }
}

/// Matches a path against the four path patterns.
pub fn file_signals(path: &str) -> (r: Option<FileSignals>)
    ensures
        r == signals_of(path@),
{
    let ci = is_match(CI_PATTERN, path);
    let test = is_match(TEST_PATTERN, path);
    let docs = is_match(DOCS_PATTERN, path);
    let build = is_match(BUILD_PATTERN, path);
    match (ci, test, docs, build) {
        (Some(ci), Some(test), Some(docs), Some(build)) => Some(
            FileSignals { ci, test, docs, build },
        ),
        _ => None,
    }
}

/// The paths that are not empty, in order.
pub open spec fn nonempty_paths(files: Seq<Seq<char>>) -> Seq<Seq<char>>
    decreases files.len(),
{
    if files.len() == 0 {
        Seq::empty()
    } else if files.last().len() == 0 {
        nonempty_paths(files.drop_last())
    } else {
        nonempty_paths(files.drop_last()).push(files.last())
    }
}

/// The tags of the paths that are not empty, in order; `None` where one of
/// the patterns does not compile.
pub open spec fn tags_of(files: Seq<Seq<char>>) -> Option<Seq<Tag>>
    decreases files.len(),
{
    if files.len() == 0 {
        Some(Seq::empty())
    } else {
        match tags_of(files.drop_last()) {
            None => None,
            Some(before) => if files.last().len() == 0 {
                Some(before)
            } else {
                match signals_of(files.last()) {
                    None => None,
                    Some(m) => Some(before.push(tag_for(m))),
                }
            },
        }
    }
}

/// Tags every path that is not empty.
pub fn file_tags(files: &Vec<String>) -> (r: Option<Vec<Tag>>)
    ensures
        match r {
            Some(tags) => tags_of(views(files@)) == Some(tags@),
            None => tags_of(views(files@)) is None,
        },
{
    let mut tags: Vec<Tag> = Vec::new();
    let mut i: usize = 0;
    while i < files.len()
        invariant
            i <= files.len(),
            tags_of(views(files@).take(i as int)) == Some(tags@),
        decreases files.len() - i,
    {
        proof {
            let all = views(files@);
            assert(all.take(i + 1).drop_last() == all.take(i as int));
            assert(all.take(i + 1).last() == files@[i as int]@);
        }
        let path = files[i].as_str();
        if !path.is_empty() {
            match file_signals(path) {
                Some(m) => tags.push(file_tag(m)),
                None => {
                    proof {
                        lemma_tags_fail_later(views(files@), i + 1);
                    }
                    return None;
                },
            }
        }
        i += 1;
    }
    assert(views(files@).take(files.len() as int) == views(files@));
    Some(tags)
}

/// Once a prefix of the paths cannot be tagged, the whole list cannot.
pub proof fn lemma_tags_fail_later(files: Seq<Seq<char>>, k: int)
    requires
        0 <= k <= files.len(),
        tags_of(files.take(k)) is None,
    ensures
        tags_of(files) is None,
    decreases files.len() - k,
{
    if k < files.len() {
        assert(files.take(k + 1).drop_last() == files.take(k));
        lemma_tags_fail_later(files, k + 1);
    } else {
        assert(files.take(k) == files);
    }
}

/// How often `t` stands in `tags`.
pub open spec fn occurrences(tags: Seq<Tag>, t: Tag) -> nat
    decreases tags.len(),
{
    if tags.len() == 0 {
        0
    } else {
        occurrences(tags.drop_last(), t) + if tags.last() == t {
            1nat
        } else {
            0nat
        }
    }
}

/// How many staged files fell under each tag.
#[derive(Clone, Copy, Debug)]
pub struct ChangeTypeCounts {
    pub test: usize,
    pub docs: usize,
    pub build: usize,
    pub ci: usize,
    pub feat: usize,
    pub fix: usize,
    pub style: usize,
    pub refactor: usize,
    pub perf: usize,
    pub chore: usize,
    pub revert: usize,
}

impl ChangeTypeCounts {
    /// The count of one tag.
    pub open spec fn count(self, t: Tag) -> nat {
        match t {
            Tag::Test => self.test as nat,
            Tag::Docs => self.docs as nat,
            Tag::Build => self.build as nat,
            Tag::Ci => self.ci as nat,
            Tag::Feat => self.feat as nat,
            Tag::Fix => self.fix as nat,
            Tag::Style => self.style as nat,
            Tag::Refactor => self.refactor as nat,
            Tag::Perf => self.perf as nat,
            Tag::Chore => self.chore as nat,
            Tag::Revert => self.revert as nat,
        }
    }

    /// The sum of all counts.
    pub open spec fn total(self) -> nat {
        (self.test + self.docs + self.build + self.ci + self.feat + self.fix + self.style
            + self.refactor + self.perf + self.chore + self.revert) as nat
    }

    /// The tags with a count above zero.
    pub open spec fn used(self) -> Set<Tag> {
        Set::new(|t: Tag| self.count(t) > 0)
    }

    /// All counts at zero.
    pub fn new() -> (r: Self)
        ensures
            forall|t: Tag| r.count(t) == 0,
            r.total() == 0,
    {
        ChangeTypeCounts {
            test: 0,
            docs: 0,
            build: 0,
            ci: 0,
            feat: 0,
            fix: 0,
            style: 0,
            refactor: 0,
            perf: 0,
            chore: 0,
            revert: 0,
        }
    }

    /// The count of one tag.
    pub fn get(&self, t: Tag) -> (r: usize)
        ensures
            r == self.count(t),
    {
        match t {
            Tag::Test => self.test,
            Tag::Docs => self.docs,
            Tag::Build => self.build,
            Tag::Ci => self.ci,
            Tag::Feat => self.feat,
            Tag::Fix => self.fix,
            Tag::Style => self.style,
            Tag::Refactor => self.refactor,
            Tag::Perf => self.perf,
            Tag::Chore => self.chore,
            Tag::Revert => self.revert,
        }
    }

    /// Counts one more file under `t`.
    pub fn record(&mut self, t: Tag)
        requires
            old(self).total() < usize::MAX,
        ensures
            final(self).count(t) == old(self).count(t) + 1,
            forall|u: Tag| u != t ==> final(self).count(u) == old(self).count(u),
            final(self).total() == old(self).total() + 1,
    {
        match t {
            Tag::Test => self.test += 1,
            Tag::Docs => self.docs += 1,
            Tag::Build => self.build += 1,
            Tag::Ci => self.ci += 1,
            Tag::Feat => self.feat += 1,
            Tag::Fix => self.fix += 1,
            Tag::Style => self.style += 1,
            Tag::Refactor => self.refactor += 1,
            Tag::Perf => self.perf += 1,
            Tag::Chore => self.chore += 1,
            Tag::Revert => self.revert += 1,
        }
    }
}

/// Counts the tags of a list.
pub fn count_tags(tags: &Vec<Tag>) -> (r: ChangeTypeCounts)
    ensures
        forall|t: Tag| r.count(t) == occurrences(tags@, t),
        r.total() == tags.len(),
{
    let mut counts = ChangeTypeCounts::new();
    let mut i: usize = 0;
    while i < tags.len()
        invariant
            i <= tags.len(),
            forall|t: Tag| counts.count(t) == occurrences(tags@.take(i as int), t),
            counts.total() == i,
        decreases tags.len() - i,
    {
        proof {
            assert(tags@.take(i + 1).drop_last() == tags@.take(i as int));
            assert(tags@.take(i + 1).last() == tags@[i as int]);
        }
        counts.record(tags[i]);
        i += 1;
    }
    assert(tags@.take(tags.len() as int) == tags@);
    counts
}

/// Whether `a` comes before `b` in lexical order.
pub open spec fn lex_lt(a: Seq<char>, b: Seq<char>) -> bool
    decreases a.len(),
{
    if b.len() == 0 {
        false
    } else if a.len() == 0 {
        true
    } else if a[0] != b[0] {
        (a[0] as u32) < (b[0] as u32)
    } else {
        lex_lt(a.drop_first(), b.drop_first())
    }
}

/// Lexical order is transitive.
pub proof fn lemma_lex_lt_transitive(a: Seq<char>, b: Seq<char>, c: Seq<char>)
    requires
        lex_lt(a, b),
        lex_lt(b, c),
    ensures
        lex_lt(a, c),
    decreases a.len(),
{
    if a.len() > 0 && a[0] == b[0] && b[0] == c[0] {
        lemma_lex_lt_transitive(a.drop_first(), b.drop_first(), c.drop_first());
    }
}

/// All tags, by descending lexical order of their labels.
pub open spec fn descending() -> Seq<Tag> {
    seq![
        Tag::Test,
        Tag::Style,
        Tag::Revert,
        Tag::Refactor,
        Tag::Perf,
        Tag::Fix,
        Tag::Feat,
        Tag::Docs,
        Tag::Ci,
        Tag::Chore,
        Tag::Build,
    ]
}

/// Whether the labels of `s` strictly descend in lexical order.
pub open spec fn labels_descend(s: Seq<Tag>) -> bool {
    forall|i: int, j: int| 0 <= i < j < s.len() ==> lex_lt(#[trigger] s[j].label(), #[trigger] s[i].label())
}

proof fn lemma_neighbours_descend(k: int)
    requires
        0 <= k < 10,
    ensures
        lex_lt(descending()[k + 1].label(), descending()[k].label()),
{
    reveal_with_fuel(lex_lt, 4);
    reveal_strlit("test");
    reveal_strlit("style");
    reveal_strlit("revert");
    reveal_strlit("refactor");
    reveal_strlit("perf");
    reveal_strlit("fix");
    reveal_strlit("feat");
    reveal_strlit("docs");
    reveal_strlit("ci");
    reveal_strlit("chore");
    reveal_strlit("build");
    if k == 0 {
        assert(lex_lt("style"@, "test"@));
    } else if k == 1 {
        assert(lex_lt("revert"@, "style"@));
    } else if k == 2 {
        assert("refactor"@.drop_first().drop_first()[0] == 'f');
        assert("revert"@.drop_first().drop_first()[0] == 'v');
        assert(lex_lt("refactor"@, "revert"@));
    } else if k == 3 {
        assert(lex_lt("perf"@, "refactor"@));
    } else if k == 4 {
        assert(lex_lt("fix"@, "perf"@));
    } else if k == 5 {
        assert("feat"@.drop_first()[0] == 'e');
        assert("fix"@.drop_first()[0] == 'i');
        assert(lex_lt("feat"@, "fix"@));
    } else if k == 6 {
        assert(lex_lt("docs"@, "feat"@));
    } else if k == 7 {
        assert(lex_lt("ci"@, "docs"@));
    } else if k == 8 {
        assert("chore"@.drop_first()[0] == 'h');
        assert("ci"@.drop_first()[0] == 'i');
        assert(lex_lt("chore"@, "ci"@));
    } else {
        assert(lex_lt("build"@, "chore"@));
    }
}

proof fn lemma_pair_descends(i: int, j: int)
    requires
        0 <= i < j < 11,
    ensures
        lex_lt(descending()[j].label(), descending()[i].label()),
    decreases j - i,
{
    lemma_neighbours_descend(j - 1);
    if j > i + 1 {
        lemma_pair_descends(i, j - 1);
        lemma_lex_lt_transitive(
            descending()[j].label(),
            descending()[j - 1].label(),
            descending()[i].label(),
        );
    }
}

/// The labels of `descending()` strictly descend, and every tag is in it.
pub proof fn lemma_descending()
    ensures
        labels_descend(descending()),
        forall|t: Tag| descending().contains(t),
{
    assert forall|i: int, j: int| 0 <= i < j < descending().len() implies lex_lt(
        #[trigger] descending()[j].label(),
        #[trigger] descending()[i].label(),
    ) by {
        lemma_pair_descends(i, j);
    }
    assert forall|t: Tag| descending().contains(t) by {
        let d = descending();
        match t {
            Tag::Test => assert(d[0] == t),
            Tag::Style => assert(d[1] == t),
            Tag::Revert => assert(d[2] == t),
            Tag::Refactor => assert(d[3] == t),
            Tag::Perf => assert(d[4] == t),
            Tag::Fix => assert(d[5] == t),
            Tag::Feat => assert(d[6] == t),
            Tag::Docs => assert(d[7] == t),
            Tag::Ci => assert(d[8] == t),
            Tag::Chore => assert(d[9] == t),
            Tag::Build => assert(d[10] == t),
        }
    }
}

/// The tags of `order` that are in `used`, in the order of `order`.
pub open spec fn kept(order: Seq<Tag>, used: Set<Tag>) -> Seq<Tag>
    decreases order.len(),
{
    if order.len() == 0 {
        Seq::empty()
    } else if used.contains(order.last()) {
        kept(order.drop_last(), used).push(order.last())
    } else {
        kept(order.drop_last(), used)
    }
}

/// The used types: the tags in `used`, by descending lexical order of their
/// labels.
pub open spec fn used_types_of(used: Set<Tag>) -> Seq<Tag> {
    kept(descending(), used)
}

/// `kept` holds exactly the tags of `order` that are used, and keeps a
/// descending order descending.
pub proof fn lemma_kept(order: Seq<Tag>, used: Set<Tag>)
    ensures
        forall|t: Tag|
            #![trigger kept(order, used).contains(t)]
            #![trigger used.contains(t)]
            kept(order, used).contains(t) <==> order.contains(t) && used.contains(t),
        kept(order, used).len() <= order.len(),
        labels_descend(order) ==> labels_descend(kept(order, used)),
    decreases order.len(),
{
    let r = kept(order, used);
    if order.len() > 0 {
        let front = order.drop_last();
        let last = order.last();
        let before = kept(front, used);
        lemma_kept(front, used);
        assert forall|t: Tag|
            #![trigger r.contains(t)]
            #![trigger used.contains(t)]
            r.contains(t) <==> order.contains(t) && used.contains(t) by {
            if r.contains(t) {
                let k = choose|k: int| 0 <= k < r.len() && r[k] == t;
                if k < before.len() {
                    assert(before[k] == t);
                    assert(before.contains(t));
                    let a = choose|a: int| 0 <= a < front.len() && front[a] == t;
                    assert(order[a] == t);
                } else {
                    assert(t == last);
                    assert(order[order.len() - 1] == t);
                }
            }
            if order.contains(t) && used.contains(t) {
                let a = choose|a: int| 0 <= a < order.len() && order[a] == t;
                if a < front.len() {
                    assert(front[a] == t);
                    assert(front.contains(t));
                    let k = choose|k: int| 0 <= k < before.len() && before[k] == t;
                    assert(r[k] == t);
                } else {
                    assert(r[r.len() - 1] == t);
                }
            }
        }
        if labels_descend(order) {
            assert(labels_descend(front)) by {
                assert forall|i: int, j: int| 0 <= i < j < front.len() implies lex_lt(
                    #[trigger] front[j].label(),
                    #[trigger] front[i].label(),
                ) by {
                    assert(front[i] == order[i] && front[j] == order[j]);
                }
            }
            assert forall|i: int, j: int| 0 <= i < j < r.len() implies lex_lt(
                #[trigger] r[j].label(),
                #[trigger] r[i].label(),
            ) by {
                if j < before.len() {
                    assert(r[i] == before[i] && r[j] == before[j]);
                } else {
                    assert(r[j] == last);
                    assert(r[i] == before[i]);
                    assert(before.contains(before[i]));
                    let a = choose|a: int| 0 <= a < front.len() && front[a] == before[i];
                    assert(order[a] == r[i]);
                    assert(order[order.len() - 1] == last);
                }
            }
        }
    } else {
        assert forall|t: Tag| !r.contains(t) by {}
    }
}

/// The used types are exactly the tags in `used`, each once, and their
/// labels strictly descend in lexical order.
pub proof fn lemma_used_types(used: Set<Tag>)
    ensures
        forall|t: Tag|
            #![trigger used_types_of(used).contains(t)]
            #![trigger used.contains(t)]
            used_types_of(used).contains(t) <==> used.contains(t),
        labels_descend(used_types_of(used)),
        used_types_of(used).len() <= 11,
{
    lemma_descending();
    lemma_kept(descending(), used);
}

impl ChangeTypeCounts {
    /// The tags with a count above zero, by descending lexical order of their
    /// labels.
    pub fn used_types(&self) -> (r: Vec<Tag>)
        ensures
            r@ == used_types_of(self.used()),
    {
        let order = [
            Tag::Test,
            Tag::Style,
            Tag::Revert,
            Tag::Refactor,
            Tag::Perf,
            Tag::Fix,
            Tag::Feat,
            Tag::Docs,
            Tag::Ci,
            Tag::Chore,
            Tag::Build,
        ];
        assert(order@ == descending());
        let mut out: Vec<Tag> = Vec::new();
        let mut i: usize = 0;
        while i < 11
            invariant
                i <= 11,
                order@ == descending(),
                out@ == kept(descending().take(i as int), self.used()),
            decreases 11 - i,
        {
            proof {
                assert(descending().take(i + 1).drop_last() == descending().take(i as int));
                assert(descending().take(i + 1).last() == order@[i as int]);
            }
            if self.get(order[i]) > 0 {
                out.push(order[i]);
            }
            i += 1;
        }
        assert(descending().take(11) == descending());
        out
    }
}

/// The proposed commit type for the given used types.
pub open spec fn suggestion(used: Seq<Tag>, is_new_branch: bool) -> Option<Tag> {
    if used.len() == 1 {
        if used[0] == Tag::Feat && !is_new_branch {
            Some(Tag::Refactor)
        } else {
            Some(used[0])
        }
    } else if used.len() > 1 {
        if is_new_branch {
            Some(Tag::Feat)
        } else if used[0] == Tag::Test {
            Some(Tag::Test)
        } else {
            Some(Tag::Refactor)
        }
    } else {
        None
    }
}

/// Proposes one commit type for the used types, given in descending lexical
/// order, or none where no type was used.
pub fn suggest_type(used_types: &Vec<Tag>, is_new_branch: &bool) -> (r: Option<Tag>)
    ensures
        r == suggestion(used_types@, *is_new_branch),
{
    if used_types.len() == 1 {
        let single_type = used_types[0];
        if single_type == Tag::Feat && !*is_new_branch {
            return Some(Tag::Refactor);
        }
        return Some(single_type);
    }
    if used_types.len() > 1 && *is_new_branch {
        return Some(Tag::Feat);
    }
    if used_types.len() > 1 && used_types[0] == Tag::Test {
        return Some(Tag::Test);
    }
    if used_types.len() > 1 {
        return Some(Tag::Refactor);
    }
    None
}

/// The proposal and the number of used types for a list of tags.
pub open spec fn classification(tags: Seq<Tag>, is_new_branch: bool) -> (Option<Tag>, nat) {
    let used = used_types_of(tags.to_set());
    (suggestion(used, is_new_branch), used.len())
}

/// A tag has a count above zero exactly when it stands in the list.
pub proof fn lemma_occurrences_contains(tags: Seq<Tag>, t: Tag)
    ensures
        occurrences(tags, t) > 0 <==> tags.contains(t),
    decreases tags.len(),
{
    if tags.len() > 0 {
        let front = tags.drop_last();
        lemma_occurrences_contains(front, t);
        if tags.contains(t) {
            let k = choose|k: int| 0 <= k < tags.len() && tags[k] == t;
            if k < front.len() {
                assert(front[k] == t);
            }
        }
        if front.contains(t) {
            let k = choose|k: int| 0 <= k < front.len() && front[k] == t;
            assert(tags[k] == t);
        }
        if tags.last() == t {
            assert(tags[tags.len() - 1] == t);
        }
    }
}

/// Proposes one commit type for the tags of the staged files and counts the
/// types in use.
pub fn classify_tags(tags: &Vec<Tag>, is_new_branch: &bool) -> (r: (Option<Tag>, usize))
    ensures
        (r.0, r.1 as nat) == classification(tags@, *is_new_branch),
{
    let counts = count_tags(tags);
    let used = counts.used_types();
    proof {
        assert forall|t: Tag| counts.used().contains(t) <==> tags@.to_set().contains(t) by {
            lemma_occurrences_contains(tags@, t);
        }
        assert(counts.used() == tags@.to_set());
    }
    (suggest_type(&used, is_new_branch), used.len())
}

/// Why staged files could not be classified.
#[derive(Clone, Copy, Debug, PartialEq, Eq, Structural)]
pub enum ClassifyError {
    /// One of the path patterns is not a regular expression.
    InvalidPattern,
}

/// Proposes one commit type for the staged files and counts the types in
/// use. Empty paths are skipped.
pub fn find_changed_file_types(files: &Vec<String>, is_new_branch: &bool) -> (r: Result<
    (Option<Tag>, usize),
    ClassifyError,
>)
    ensures
        match tags_of(views(files@)) {
            Some(tags) => r matches Ok(c) && (c.0, c.1 as nat) == classification(
                tags,
                *is_new_branch,
            ),
            None => r == Err::<(Option<Tag>, usize), ClassifyError>(ClassifyError::InvalidPattern),
        },
{
    match file_tags(files) {
        Some(tags) => Ok(classify_tags(&tags, is_new_branch)),
        None => Err(ClassifyError::InvalidPattern),
    }
}

/// Whether nothing is staged: no path at all, or one empty path.
pub open spec fn nothing_staged(files: Seq<Seq<char>>) -> bool {
    files.len() == 0 || (files.len() == 1 && files[0].len() == 0)
}

/// Whether nothing is staged, so that going on needs the user's confirmation.
pub fn no_staged_files(files: &Vec<String>) -> (r: bool)
    ensures
        r == nothing_staged(views(files@)),
{
    files.len() == 0 || (files.len() == 1 && files[0].as_str().is_empty())
}

/// The sum of the occurrences of all tags.
pub open spec fn occurrences_sum(tags: Seq<Tag>) -> nat {
    occurrences(tags, Tag::Test) + occurrences(tags, Tag::Docs) + occurrences(tags, Tag::Build)
        + occurrences(tags, Tag::Ci) + occurrences(tags, Tag::Feat) + occurrences(tags, Tag::Fix)
        + occurrences(tags, Tag::Style) + occurrences(tags, Tag::Refactor) + occurrences(
        tags,
        Tag::Perf,
    ) + occurrences(tags, Tag::Chore) + occurrences(tags, Tag::Revert)
}

/// Every element of a list of tags is counted under exactly one tag: the
/// counts of all tags sum to the length of the list.
pub proof fn lemma_occurrences_sum(tags: Seq<Tag>)
    ensures
        occurrences_sum(tags) == tags.len(),
    decreases tags.len(),
{
    if tags.len() > 0 {
        lemma_occurrences_sum(tags.drop_last());
    }
}

/// Classification is total and exclusive: where the staged files can be
/// tagged, every path that is not empty gets exactly one tag, the tag of its
/// signals, empty paths get none, and the tag counts sum to the number of
/// paths that are not empty.
pub proof fn lemma_one_tag_per_path(files: Seq<Seq<char>>)
    requires
        tags_of(files) is Some,
    ensures
        tags_of(files)->0.len() == nonempty_paths(files).len(),
        forall|k: int|
            0 <= k < nonempty_paths(files).len() ==> {
                &&& signals_of(#[trigger] nonempty_paths(files)[k]) is Some
                &&& tags_of(files)->0[k] == tag_for(signals_of(nonempty_paths(files)[k])->0)
            },
        occurrences_sum(tags_of(files)->0) == nonempty_paths(files).len(),
    decreases files.len(),
{
    if files.len() > 0 {
        lemma_one_tag_per_path(files.drop_last());
    }
    lemma_occurrences_sum(tags_of(files)->0);
}

/// Where nothing is staged there is nothing to tag: no type is in use and no
/// type is proposed, whether or not the branch is new.
pub proof fn lemma_nothing_staged(files: Seq<Seq<char>>, is_new_branch: bool)
    requires
        nothing_staged(files),
    ensures
        tags_of(files) == Some(Seq::<Tag>::empty()),
        classification(Seq::<Tag>::empty(), is_new_branch) == (None::<Tag>, 0nat),
{
    reveal_with_fuel(tags_of, 2);
    if files.len() == 1 {
        assert(files.drop_last().len() == 0);
        assert(files.last() == files[0]);
    }
    let none = Seq::<Tag>::empty().to_set();
    lemma_used_types(none);
    let used = used_types_of(none);
    if used.len() > 0 {
        assert(used.contains(used[0]));
        assert(none.contains(used[0]));
    }
}

} // verus!
