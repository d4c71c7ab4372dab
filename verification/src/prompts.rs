//! What the prompts ask, accept and assemble.

use vstd::prelude::*;
use vstd::string::StringExecFns;
use crate::search::{find_first, first_index, matches_at, starts_with};
use crate::storage::text_view;
use crate::text::{append_decimal, chars_of, decimal, given, same_text, string_of_range};

verus! {

/// The question before a commit.
pub const COMMIT_QUESTION: &'static str = "Commit this PR?";

/// The question before a push.
pub const PUSH_QUESTION: &'static str = "Push this branch?";

/// The question for the issue id.
pub const ISSUE_ID_QUESTION: &'static str = "Select issue ID";

/// The question for the team prefix.
pub const TEAM_PREFIX_QUESTION: &'static str = "Select team prefix";

/// The question for the change type.
pub const TYPE_QUESTION: &'static str = "Select change type";

/// The question for the commit message.
pub const MESSAGE_QUESTION: &'static str = "Enter commit message";

/// The question before an additional message.
pub const ADDITIONAL_QUESTION: &'static str = "Do you want to add an additional message?";

/// The question for the additional message.
pub const ADDITIONAL_ENTRY: &'static str = "Enter additional message";

/// The most characters that a commit message may have.
pub const MESSAGE_CHARS: usize = 55;

/// What an empty issue id is answered with.
pub const ID_REQUIRED: &'static str = "An id is required";

/// The complaint about an issue id, where there is one: an id may not be
/// empty.
pub open spec fn issue_id_complaint(input: Seq<char>) -> Option<Seq<char>> {
    if input.len() == 0 {
        Some(ID_REQUIRED@)
    } else {
        None
    }
}

/// Checks an issue id that the user entered.
pub fn issue_id_prompt(input: &str) -> (r: Option<String>)
    ensures
        text_view(r) == issue_id_complaint(input@),
{
    if input.is_empty() {
        Some(String::from_str(ID_REQUIRED))
    } else {
        None
    }
}

/// The complaint about a commit message, where there is one: a message may
/// have no more than `MESSAGE_CHARS` characters.
pub open spec fn message_complaint(input: Seq<char>) -> Option<Seq<char>> {
    if input.len() > MESSAGE_CHARS {
        Some(
            "Commit message limit is 55 characters. You have "@ + decimal(input.len()) + "."@,
        )
    } else {
        None
    }
}

/// Checks a commit message that the user entered.
pub fn select_message_prompt(input: &str) -> (r: Option<String>)
    ensures
        text_view(r) == message_complaint(input@),
{
    let length = chars_of(input).len();
    if length > MESSAGE_CHARS {
        let mut out = String::from_str("Commit message limit is 55 characters. You have ");
        append_decimal(&mut out, length as u64);
        out.append(".");
        Some(out)
    } else {
        None
    }
}

/// How a change type is set apart from its description.
pub const TYPE_SEPARATOR: &'static str = ": ";

/// The change types that are offered, each with its description.
pub open spec fn type_options() -> Seq<Seq<char>> {
    seq![
        "feat: A new feature"@,
        "fix: Bug (feature related) or code (linting, typecheck, etc) fixes"@,
        "test: Adding missing tests or correcting existing tests"@,
        "refactor: A code change that improves performance or code quality"@,
        "docs: Documentation only changes"@,
        "build: Changes that affect the build system or external dependencies (example scopes: gulp, broccoli, npm)"@,
        "ci: Changes to our CI configuration files and scripts (example scopes: Travis, Circle, BrowserStack, SauceLabs)"@,
        "revert: Reverts a previous commit"@,
    ]
}

/// The change types that are offered, each with its description.
pub fn select_types_prompt() -> (r: Vec<&'static str>)
    ensures
        r@.len() == type_options().len(),
        forall|i: int| 0 <= i < r@.len() ==> (#[trigger] r@[i])@ == type_options()[i],
{
    let mut out: Vec<&'static str> = Vec::new();
    out.push("feat: A new feature");
    out.push("fix: Bug (feature related) or code (linting, typecheck, etc) fixes");
    out.push("test: Adding missing tests or correcting existing tests");
    out.push("refactor: A code change that improves performance or code quality");
    out.push("docs: Documentation only changes");
    out.push("build: Changes that affect the build system or external dependencies (example scopes: gulp, broccoli, npm)");
    out.push("ci: Changes to our CI configuration files and scripts (example scopes: Travis, Circle, BrowserStack, SauceLabs)");
    out.push("revert: Reverts a previous commit");
    out
}

/// The change type of an option: what stands before the first separator, or
/// the whole option where it holds none.
pub open spec fn short_type(option: Seq<char>) -> Seq<char> {
    match first_index(option, TYPE_SEPARATOR@) {
        Some(i) => option.take(i),
        None => option,
    }
}

/// The change type of an option.
pub fn get_short_type(option: &str) -> (r: String)
    ensures
        r@ == short_type(option@),
{
    let chars = chars_of(option);
    let separator = chars_of(TYPE_SEPARATOR);
    match find_first(&chars, &separator) {
        Some(i) => string_of_range(&chars, 0, i),
        None => {
            assert(chars@.subrange(0, chars.len() as int) == chars@);
            string_of_range(&chars, 0, chars.len())
        },
    }
}

/// Whether `cursor` is where the cursor starts in a list of options: at the
/// first option that begins with the proposed type, or at the top where
/// there is none or none is proposed.
pub open spec fn is_cursor(options: Seq<Seq<char>>, proposed: Option<Seq<char>>, cursor: int) -> bool {
    match proposed {
        None => cursor == 0,
        Some(p) => if exists|i: int| 0 <= i < options.len() && starts_with(#[trigger] options[i], p) {
            &&& 0 <= cursor < options.len()
            &&& starts_with(options[cursor], p)
            &&& forall|k: int| 0 <= k < cursor ==> !starts_with(#[trigger] options[k], p)
        } else {
            cursor == 0
        },
    }
}

/// Where the cursor starts in the list of change types.
pub fn starting_cursor(proposed_type: Option<&str>) -> (r: usize)
    ensures
        is_cursor(type_options(), given(proposed_type), r as int),
        r < type_options().len(),
{
    let options = select_types_prompt();
    let p = match proposed_type {
        Some(p) => chars_of(p),
        None => {
            return 0;
        },
    };
    let ghost all = type_options();
    let mut i: usize = 0;
    while i < options.len()
        invariant
            i <= options.len(),
            options@.len() == all.len(),
            all == type_options(),
            all.len() == 8,
            proposed_type matches Some(q) && q@ == p@,
            forall|k: int| 0 <= k < options@.len() ==> (#[trigger] options@[k])@ == all[k],
            forall|k: int| 0 <= k < i ==> !starts_with(#[trigger] all[k], p@),
        decreases options.len() - i,
    {
        let option = chars_of(options[i]);
        if matches_at(&option, &p, 0) {
            assert(starts_with(all[i as int], p@));
            return i;
        }
        i += 1;
    }
    0
}

/// The heading word of a risk level, or none for a level that is not
/// offered.
pub open spec fn risk_label(level: Seq<char>) -> Option<Seq<char>> {
    if level == "High"@ {
        Some(RISK_HIGH@)
    } else if level == "Medium"@ {
        Some(RISK_MEDIUM@)
    } else if level == "Low"@ {
        Some(RISK_LOW@)
    } else if level == "Trivial"@ {
        Some(RISK_TRIVIAL@)
    } else {
        None
    }
}

/// The heading word of a risk level.
pub fn risk_factor(level: &str) -> (r: Option<&'static str>)
    ensures
        match r {
            Some(label) => risk_label(level@) == Some(label@),
            None => risk_label(level@) is None,
        },
{
    if same_text(level, "High") {
        Some(RISK_HIGH)
    } else if same_text(level, "Medium") {
        Some(RISK_MEDIUM)
    } else if same_text(level, "Low") {
        Some(RISK_LOW)
    } else if same_text(level, "Trivial") {
        Some(RISK_TRIVIAL)
    } else {
        None
    }
}

/// What a template is made of.
pub struct TemplateParts {
    pub description: Option<Seq<char>>,
    pub risk: Option<Seq<char>>,
    pub risk_reason: Option<Seq<char>>,
    pub test_steps: Option<Seq<char>>,
}

/// A text on lines of its own, or `fallback` where there is none.
pub open spec fn block_or(text: Option<Seq<char>>, fallback: Seq<char>) -> Seq<char> {
    match text {
        Some(t) => "\n"@ + t + "\n"@,
        None => fallback,
    }
}

/// The PR template: the description, the risk heading where a risk is given,
/// its reason, the test steps, and the check list, in which the description
/// is ticked where there is one and the issue is linked.
pub open spec fn template_of(parts: TemplateParts, issue_id: Seq<char>) -> Seq<char> {
    block_or(parts.description, "..."@) + match parts.risk {
        Some(r) => RISK_HEADING_OPEN@ + r + RISK_HEADING_CLOSE@,
        None => Seq::empty(),
    } + block_or(parts.risk_reason, "Because...\n"@) + TEST_HEADING@ + block_or(
        parts.test_steps,
        "1.\n"@,
    ) + "\n## Good PR check list\n"@ + DESCRIPTION_ITEM_OPEN@ + (if parts.description is Some {
        "x"@
    } else {
        " "@
    }) + DESCRIPTION_ITEM_CLOSE@ + LINK_ITEM@ + issue_id + CHECK_LIST_REST@
}

fn append_block(out: &mut String, text: Option<&str>, fallback: &str)
    ensures
        final(out)@ == old(out)@ + block_or(given(text), fallback@),
{
    match text {
        Some(t) => {
            out.append("\n");
            out.append(t);
            out.append("\n");
            assert(out@ == old(out)@ + ("\n"@ + t@ + "\n"@));
        },
        None => out.append(fallback),
    }
}

/// Assembles the PR template.
pub fn pr_template_prompt(
    description: Option<&str>,
    risk: Option<&str>,
    risk_reason: Option<&str>,
    test_steps: Option<&str>,
    issue_id: &str,
) -> (r: String)
    ensures
        r@ == template_of(
            TemplateParts {
                description: given(description),
                risk: given(risk),
                risk_reason: given(risk_reason),
                test_steps: given(test_steps),
            },
            issue_id@,
        ),
{
    let mut out = String::new();
    append_block(&mut out, description, "...");
    let ghost a = out@;
    match risk {
        Some(r) => {
            out.append(RISK_HEADING_OPEN);
            out.append(r);
            out.append(RISK_HEADING_CLOSE);
            assert(out@ == a + (RISK_HEADING_OPEN@ + r@ + RISK_HEADING_CLOSE@));
        },
        None => {
            assert(out@ == a + Seq::<char>::empty());
        },
    }
    append_block(&mut out, risk_reason, "Because...\n");
    out.append(TEST_HEADING);
    append_block(&mut out, test_steps, "1.\n");
    out.append("\n## Good PR check list\n");
    out.append(DESCRIPTION_ITEM_OPEN);
    if description.is_some() {
        out.append("x");
    } else {
        out.append(" ");
    }
    out.append(DESCRIPTION_ITEM_CLOSE);
    out.append(LINK_ITEM);
    out.append(issue_id);
    out.append(CHECK_LIST_REST);
    out
}

/// The command that asks the assistant, called as `assistant`, for the parts
/// of a template.
pub open spec fn template_request_line(assistant: Seq<char>, directory: Seq<char>) -> Seq<char> {
    "cd "@ + directory + " && "@ + assistant + TEMPLATE_REQUEST@
}

/// The command that asks the assistant for the parts of a template.
pub fn template_request(assistant: &str, directory: &str) -> (r: String)
    ensures
        r@ == template_request_line(assistant@, directory@),
{
    let mut out = String::from_str("cd ");
    out.append(directory);
    out.append(" && ");
    out.append(assistant);
    out.append(TEMPLATE_REQUEST);
    out
}

/// The heading word of a high risk.
pub const RISK_HIGH: &'static str =
    "🚨HIGH🚨";

/// The heading word of a medium risk.
pub const RISK_MEDIUM: &'static str =
    "⚠️MEDIUM⚠️";

/// The heading word of a low risk.
pub const RISK_LOW: &'static str =
    "👍LOW👍";

/// The heading word of a trivial risk.
pub const RISK_TRIVIAL: &'static str =
    "✅TRIVIAL✅";

/// How the risk heading begins.
pub const RISK_HEADING_OPEN: &'static str =
    "\n# 🚦 This is a ";

/// How the risk heading ends.
pub const RISK_HEADING_CLOSE: &'static str =
    " risk PR\n";

/// The heading of the test steps.
pub const TEST_HEADING: &'static str =
    "\n## 🧪 How to manually test this PR";

/// How the check-list item of the description begins.
pub const DESCRIPTION_ITEM_OPEN: &'static str =
    "- [";

/// How the check-list item of the description ends.
pub const DESCRIPTION_ITEM_CLOSE: &'static str =
    "] ✍️ I wrote an easy-to-read, short description at the top, with a good title\n";

/// The check-list item that links the issue.
pub const LINK_ITEM: &'static str =
    "- [x] 🔗 I linked this PR to an issue (which is in progress): fixes #";

/// The check-list items that the author ticks.
pub const CHECK_LIST_REST: &'static str =
    "\n- [ ] 📋 I filled out the risk level, how to test, impact, what the PR does\n- [ ] 🏷️ I added the right labels. [api? BENApp? someOtherApp?]\n- [ ] 🥸 I assigned myself to the PR and others (as needed)\n- [ ] 🚀 I moved the PR into ready state - it's ready to be reviewed!\n- [ ] 🤖 I enabled auto merge";

/// What the assistant is asked for a template, after its command.
pub const TEMPLATE_REQUEST: &'static str =
    " -p \"We have done several changes to this repository. Please compare the repository against the main branch and write and return the a json object with the following structure:\n\n                    pr_description: string,\n                    pr_risk_factor: string,\n                    pr_risk_factor_description: string,\n                    pr_test_steps: string,\n                    pr_scopes: [],\n\n                pr_description should be a short summary of the changes. Write a paragraph with the main changes and if needed a bullet list with the main changes.\n                pr_risk_factor: should be one of High  Medium  Low  Trivial; choose an option based on how complex the changes were, the potential to break CI/CD deployments, and changes to user experiences.\n                pr_risk_factor_description: based on the selected risk factor describe why the option was selected,\n                pr_test_steps: describe how to manually test this PR and what we should be aware of; ideally mention commands to run, curl requests, etc,\n                pr_scopes: an array of options from web  api  ci; select all applicable based on the cahnges: were they done to the backend code, the frontend code or the deployment process.\n                \" --output-format json ";

/// What is said about the editor before it is looked for.
pub const EDITOR_NOTE: &'static str =
    "\n\x1b[1;33mIn order to use multi-line text, we need the $EDITOR in the $PATH.\x1b[1;0m\n\n";

/// How an editor is set up.
pub const EDITOR_HELP: &'static str =
    "If you want to use VSCode, do the following:\n1. Open \x1b[1;32mVSCode\x1b[1;0m;\n2. Navigate to the Command Pallete and select \x1b[1;32m`Shell Command: Install ‘code’ command in PATH`\x1b[1;0m\n3. Add \x1b[1;32m`code`\x1b[1;0m as an editor: in your shell profile (tipically `~/.bashrc` , `~/.bash_profile` or ` ~/.zshrc`), add \x1b[1;32m`export EDITOR=\"code\"`\x1b[1;0m\n";

/// What is said where no editor is set.
pub const EDITOR_MISSING: &'static str =
    "\x1b[1;31mNo editor found in the $PATH.\x1b[1;0m\n\n";

/// What is advised where no editor is set or the one found is refused.
pub const EDITOR_ADVICE: &'static str =
    "Please configure your editor to use multi-line text. You can do this by following the instructions above and rerun the tool afterwards.";

/// What is said before the editor that was found.
pub const EDITOR_FOUND: &'static str =
    "Found an editor in the $PATH: ";

/// The question about the editor that was found.
pub const EDITOR_QUESTION: &'static str =
    "Do you want to use this editor?";

} // verus!
