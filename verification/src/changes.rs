//! Gerrit changes: their details as text, and the change list table and windows.
use crate::command::{push_command, views, Command, CommandView};
use crate::draw::winbox::{
    draw_winbox, has_inner, spec_draw_winbox, winbox_drawable, winbox_drawable_check,
};
use crate::change::ChangeColumn;
use crate::rect::Rect;
use crate::layout::{HorizontalAlignment, HorizontalMargin, LineNumberMode};
use crate::style::{
    colored_with2, content_style, plain, plain_with, plain_with2, spec_content_style,
    spec_with_attribute, spec_with_foreground, style_new, with_attribute, with_foreground,
    TextAttribute, TextColor, TextStyle,
};
use crate::table::{
    resolve_line_number_column_width, spec_line_number_column_width, Column, ColumnBuiltIn,
    ColumnValue, Columns, Row, Selection, Table, VerticalScroll,
};
use crate::term::TermUSize;
use crate::util::validate::{digits_value, parse_unsigned, parses_unsigned, unsigned_digits};
use crate::winbox::{BorderChars, BoxHint};
use crossterm::style::ContentStyle;
use crate::text::byte_len;
use crate::text::{decimal, push_char, push_repeated, repeated, usize_to_decimal};
use crate::winbox::WinBox;
use vstd::prelude::*;

verus! {

/// A Gerrit account.
#[derive(Debug, Clone)]
pub struct AccountInfo {
    pub account_id: u32,
    pub name: Option<String>,
    pub email: Option<String>,
    pub username: Option<String>,
}

/// The author or committer of a commit.
#[derive(Debug, Clone)]
pub struct GitPersonInfo {
    pub name: String,
    pub email: String,
}

#[derive(Debug, Clone)]
pub struct CommitInfo {
    pub author: Option<GitPersonInfo>,
    pub committer: Option<GitPersonInfo>,
    pub message: Option<String>,
}

#[derive(Debug, Clone, Copy, PartialEq, Eq, Structural)]
pub enum FileStatus {
    Added,
    Modified,
    Deleted,
    Renamed,
    Copied,
    Rewritten,
}

#[derive(Debug, Clone)]
pub struct FileInfo {
    pub status: FileStatus,
    pub lines_inserted: Option<u32>,
    pub lines_deleted: Option<u32>,
}

/// A patch set of a change.
#[derive(Debug, Clone)]
pub struct RevisionInfo {
    /// The patch set number.
    pub number: u32,
    pub commit: Option<CommitInfo>,
    /// The files of the patch set and their changes, by file name.
    pub files: Option<Vec<(String, FileInfo)>>,
}

/// A vote on a label.
#[derive(Debug, Clone)]
pub struct ApprovalInfo {
    pub value: Option<i32>,
    pub account: AccountInfo,
}

#[derive(Debug, Clone)]
pub struct LabelInfo {
    /// The texts of the values that the label takes (such as "-1", " 0", "+1").
    pub values: Option<Vec<String>>,
    pub all: Option<Vec<ApprovalInfo>>,
}

/// When a change was last updated, written in the short and in the long format of the
/// local time zone.
#[derive(Debug, Clone)]
pub struct Timestamp {
    pub short: String,
    pub long: String,
}

/// A Gerrit change, with what this program shows of it.
#[derive(Debug, Clone)]
pub struct ChangeInfo {
    pub number: u32,
    /// The status, as shown (such as "NEW" or "MERGED").
    pub status: String,
    pub work_in_progress: bool,
    pub total_comment_count: Option<u32>,
    pub unresolved_comment_count: Option<u32>,
    pub current_revision: Option<String>,
    /// The patch sets of the change, by revision (commit id).
    pub revisions: Option<Vec<(String, RevisionInfo)>>,
    pub owner: AccountInfo,
    pub updated: Timestamp,
    pub project: String,
    pub branch: String,
    pub topic: Option<String>,
    /// The submit strategy, as shown.
    pub submit_type: Option<String>,
    /// The labels of the change and their votes, by label name.
    pub labels: Option<Vec<(String, LabelInfo)>>,
    pub subject: String,
}

/// Decimal text of a number.
pub open spec fn dec(n: int) -> Seq<char> {
    decimal(n as nat)
}

/// Decimal text of a number, always with its sign ("+1", "-2", "+0").
pub open spec fn signed_dec(v: int) -> Seq<char> {
    if v >= 0 {
        seq!['+'] + decimal(v as nat)
    } else {
        seq!['-'] + decimal((-v) as nat)
    }
}

/// `prefix`, the text and `suffix` when there is a text, nothing otherwise.
pub open spec fn opt_line(prefix: Seq<char>, value: Option<String>, suffix: Seq<char>) -> Seq<char> {
    match value {
        Some(v) => prefix + v@ + suffix,
        None => Seq::empty(),
    }
}

/// The revision stored under `key`: the first one with that id.
pub open spec fn find_revision(revisions: Seq<(String, RevisionInfo)>, key: Seq<char>) -> Option<
    RevisionInfo,
>
    decreases revisions.len(),
{
    if revisions.len() == 0 {
        None
    } else if revisions[0].0@ == key {
        Some(revisions[0].1)
    } else {
        find_revision(revisions.drop_first(), key)
    }
}

/// The patch set of the current revision, when both are known.
pub open spec fn current_revision_info(change: ChangeInfo) -> Option<RevisionInfo> {
    match (change.revisions, change.current_revision) {
        (Some(revisions), Some(current)) => find_revision(revisions@, current@),
        _ => None,
    }
}

/// The commit of the current patch set.
pub open spec fn current_commit(change: ChangeInfo) -> Option<CommitInfo> {
    match current_revision_info(change) {
        Some(info) => info.commit,
        None => None,
    }
}

/// The comment counts of the first line.
pub open spec fn comments_text(change: ChangeInfo) -> Seq<char> {
    match change.total_comment_count {
        Some(total) => " > comments "@ + dec(total as int) + match change.unresolved_comment_count {
            Some(unresolved) => " [new: "@ + dec(unresolved as int) + "]"@,
            None => Seq::empty(),
        },
        None => Seq::empty(),
    }
}

/// The patch set of the first line.
pub open spec fn patch_set_text(change: ChangeInfo) -> Seq<char> {
    match current_revision_info(change) {
        Some(info) => "  [patch set: "@ + dec(info.number as int) + "/"@ + dec(info.number as int)
            + "]"@,
        None => Seq::empty(),
    }
}

/// First line: number, status, work in progress, comment counts and patch set.
pub open spec fn summary_text(change: ChangeInfo) -> Seq<char> {
    "Change "@ + dec(change.number as int) + " - "@ + change.status@ + (if change.work_in_progress {
        " (WIP)"@
    } else {
        Seq::empty()
    }) + comments_text(change) + patch_set_text(change) + "\n"@
}

/// The name of an account: its name, else its user name, else its id in brackets.
pub open spec fn account_text(account: AccountInfo) -> Seq<char> {
    match account.name {
        Some(name) => name@,
        None => match account.username {
            Some(username) => username@,
            None => "("@ + dec(account.account_id as int) + ")"@,
        },
    }
}

/// The owner line.
pub open spec fn owner_text(change: ChangeInfo) -> Seq<char> {
    "Owner:       "@ + account_text(change.owner) + opt_line(" <"@, change.owner.email, ">"@)
        + "\n"@
}

/// A line for the author or committer of the current commit.
pub open spec fn person_line(title: Seq<char>, person: Option<GitPersonInfo>) -> Seq<char> {
    match person {
        Some(p) => title + p.name@ + " <"@ + p.email@ + ">\n"@,
        None => Seq::empty(),
    }
}

/// Update time, project, branch, topic, author, committer, commit and strategy lines.
pub open spec fn details_text(change: ChangeInfo) -> Seq<char> {
    "Updated:     "@ + change.updated.long@ + "\n"@ + "Project:     "@ + change.project@ + "\n"@
        + "Branch:      "@ + change.branch@ + "\n"@ + opt_line("Topic:       "@, change.topic, "\n"@)
        + match current_commit(change) {
        Some(commit) => person_line("Author:      "@, commit.author) + person_line(
            "Committer:   "@,
            commit.committer,
        ),
        None => Seq::empty(),
    } + opt_line("Commit:      "@, change.current_revision, "\n"@) + opt_line(
        "Strategy:    "@,
        change.submit_type,
        "\n"@,
    )
}

/// The largest byte length of the names of the first `k` entries.
pub open spec fn max_name_len<T>(entries: Seq<(String, T)>, k: int) -> int
    decreases k,
{
    if k <= 0 {
        0
    } else {
        let m = max_name_len(entries, k - 1);
        let l = crate::text::byte_len(entries[k - 1].0@) as int;
        if l > m {
            l
        } else {
            m
        }
    }
}

/// `n` spaces when `n` is positive, nothing otherwise.
pub open spec fn padding(n: int) -> Seq<char> {
    if n > 0 {
        repeated(' ', n as nat)
    } else {
        Seq::empty()
    }
}

/// One vote of a label: padding, the signed value, the voter's name and email.
pub open spec fn vote_text(approval: ApprovalInfo, pad: int) -> Seq<char> {
    padding(pad) + " "@ + signed_dec(approval.value->0 as int) + opt_line(
        " "@,
        approval.account.name,
        Seq::empty(),
    ) + opt_line(" <"@, approval.account.email, ">"@) + "\n"@
}

/// A vote counts when it has a value other than 0.
pub open spec fn is_vote(approval: ApprovalInfo) -> bool {
    approval.value matches Some(v) && v != 0
}

/// The votes among the first `k` approvals: the first is padded to line up after the
/// label name, the others to line up under it.
pub open spec fn votes_text(all: Seq<ApprovalInfo>, k: int, first_pad: int, max_len: int) -> Seq<
    char,
>
    decreases k,
{
    if k <= 0 {
        Seq::empty()
    } else {
        let before = votes_text(all, k - 1, first_pad, max_len);
        if is_vote(all[k - 1]) {
            let pad = if any_vote(all, k - 1) {
                max_len + 1
            } else {
                first_pad
            };
            before + vote_text(all[k - 1], pad)
        } else {
            before
        }
    }
}

/// Some of the first `k` approvals is a vote.
pub open spec fn any_vote(all: Seq<ApprovalInfo>, k: int) -> bool {
    exists|i: int| 0 <= i < k && is_vote(#[trigger] all[i])
}

/// The text of one label: its name, its votes (or " -" when it has no approvals list),
/// ending with a new line.
pub open spec fn label_text(name: Seq<char>, label: LabelInfo, max_len: int) -> Seq<char> {
    let pad = max_len - crate::text::byte_len(name);
    name + ":"@ + match label.all {
        Some(all) => votes_text(all@, all@.len() as int, pad, max_len) + if any_vote(
            all@,
            all@.len() as int,
        ) {
            Seq::empty()
        } else {
            "\n"@
        },
        None => padding(pad) + " -"@ + "\n"@,
    }
}

pub open spec fn labels_lines(labels: Seq<(String, LabelInfo)>, k: int, max_len: int) -> Seq<char>
    decreases k,
{
    if k <= 0 {
        Seq::empty()
    } else {
        labels_lines(labels, k - 1, max_len) + label_text(labels[k - 1].0@, labels[k - 1].1, max_len)
    }
}

/// The labels section: one entry per label, then an empty line when there are labels.
pub open spec fn labels_text(change: ChangeInfo) -> Seq<char> {
    match change.labels {
        Some(labels) => {
            let l = labels@;
            labels_lines(l, l.len() as int, max_name_len(l, l.len() as int)) + if l.len() > 0 {
                "\n"@
            } else {
                Seq::empty()
            }
        },
        None => Seq::empty(),
    }
}

/// Index of the first '\n' at or after `i`, or the length.
pub open spec fn next_newline(s: Seq<char>, i: int) -> int
    decreases s.len() - i,
{
    if i >= s.len() || i < 0 {
        s.len() as int
    } else if s[i] == '\n' {
        i
    } else {
        next_newline(s, i + 1)
    }
}

pub proof fn lemma_next_newline_bounds(s: Seq<char>, i: int)
    requires
        0 <= i,
    ensures
        i <= next_newline(s, i) <= s.len() || (i > s.len() && next_newline(s, i) == s.len()),
        i < s.len() ==> i <= next_newline(s, i) <= s.len(),
        next_newline(s, i) < s.len() ==> s[next_newline(s, i)] == '\n',
        forall|j: int| i <= j < next_newline(s, i) ==> s[j] != '\n',
    decreases s.len() - i,
{
    if i < s.len() && s[i] != '\n' {
        lemma_next_newline_bounds(s, i + 1);
    }
}

/// A line without its carriage return at the end.
pub open spec fn strip_cr(line: Seq<char>) -> Seq<char> {
    if line.len() > 0 && line.last() == '\r' {
        line.drop_last()
    } else {
        line
    }
}

/// The lines of `s` from index `i`, as `str::lines` gives them: split at each '\n',
/// without a '\r' before it; a final '\n' ends the last line.
pub open spec fn lines_from(s: Seq<char>, i: int) -> Seq<Seq<char>>
    decreases s.len() - i,
{
    if i >= s.len() || i < 0 {
        Seq::empty()
    } else {
        let e = next_newline(s, i);
        proof {
            lemma_next_newline_bounds(s, i);
        }
        if e >= s.len() {
            seq![s.subrange(i, s.len() as int)]
        } else {
            seq![strip_cr(s.subrange(i, e))] + lines_from(s, e + 1)
        }
    }
}

pub open spec fn text_lines(s: Seq<char>) -> Seq<Seq<char>> {
    lines_from(s, 0)
}

/// The lines of the commit message, indented by four spaces.
pub open spec fn indented(lines: Seq<Seq<char>>, k: int) -> Seq<char>
    decreases k,
{
    if k <= 0 {
        Seq::empty()
    } else {
        indented(lines, k - 1) + "    "@ + lines[k - 1] + "\n"@
    }
}

/// The commit message section: its lines indented, then an empty line.
pub open spec fn message_text(change: ChangeInfo) -> Seq<char> {
    match current_commit(change) {
        Some(commit) => match commit.message {
            Some(message) => {
                let lines = text_lines(message@);
                indented(lines, lines.len() as int) + "\n"@
            },
            None => Seq::empty(),
        },
        None => Seq::empty(),
    }
}

/// The letter of a file status.
pub open spec fn spec_file_status_initial(status: FileStatus) -> char {
    match status {
        FileStatus::Added => 'A',
        FileStatus::Modified => 'M',
        FileStatus::Deleted => 'D',
        FileStatus::Renamed => 'R',
        FileStatus::Copied => 'C',
        FileStatus::Rewritten => 'W',
    }
}

/// The inserted and deleted line counts of a file.
pub open spec fn counts_text(file: FileInfo) -> Seq<char> {
    let inserted = match file.lines_inserted {
        Some(n) => " +"@ + dec(n as int),
        None => Seq::empty(),
    };
    let deleted = match file.lines_deleted {
        Some(n) => " -"@ + dec(n as int),
        None => Seq::empty(),
    };
    inserted + deleted
}

/// One file line: status letter, name padded to the longest name, inserted and deleted
/// line counts.
pub open spec fn file_text(name: Seq<char>, file: FileInfo, max_len: int) -> Seq<char> {
    " "@ + seq![spec_file_status_initial(file.status)] + " "@ + name + padding(
        max_len - crate::text::byte_len(name),
    ) + " |"@ + counts_text(file) + "\n"@
}

pub open spec fn files_lines(files: Seq<(String, FileInfo)>, k: int, max_len: int) -> Seq<char>
    decreases k,
{
    if k <= 0 {
        Seq::empty()
    } else {
        files_lines(files, k - 1, max_len) + file_text(files[k - 1].0@, files[k - 1].1, max_len)
    }
}

/// The files section of the current patch set.
pub open spec fn files_text(change: ChangeInfo) -> Seq<char> {
    match current_revision_info(change) {
        Some(info) => match info.files {
            Some(files) => {
                let f = files@;
                (if f.len() > 0 {
                    "Files:\n"@
                } else {
                    Seq::empty()
                }) + files_lines(f, f.len() as int, max_name_len(f, f.len() as int))
            },
            None => Seq::empty(),
        },
        None => Seq::empty(),
    }
}

/// The details of a change, as shown in its window.
pub open spec fn spec_change_info_text(change: ChangeInfo) -> Seq<char> {
    summary_text(change) + owner_text(change) + details_text(change) + labels_text(change)
        + message_text(change) + files_text(change)
}

/// Append a number in decimal.
fn append_dec(buf: &mut String, n: u32)
    ensures
        final(buf)@ == old(buf)@ + dec(n as int),
{
    let digits = usize_to_decimal(n as usize);
    buf.append(digits.as_str());
}

/// Append a number in decimal with its sign.
fn append_signed(buf: &mut String, v: i32)
    ensures
        final(buf)@ == old(buf)@ + signed_dec(v as int),
{
    let ghost start = buf@;
    if v >= 0 {
        push_char(buf, '+');
        let digits = usize_to_decimal(v as usize);
        buf.append(digits.as_str());
    } else {
        push_char(buf, '-');
        let magnitude: u64 = (0i64 - v as i64) as u64;
        let digits = usize_to_decimal(magnitude as usize);
        buf.append(digits.as_str());
    }
    assert(buf@ =~= start + signed_dec(v as int));
}

/// Append `prefix`, the text and `suffix` when there is a text.
fn append_opt(buf: &mut String, prefix: &str, value: &Option<String>, suffix: &str)
    ensures
        final(buf)@ == old(buf)@ + opt_line(prefix@, *value, suffix@),
{
    let ghost start = buf@;
    if let Some(v) = value {
        buf.append(prefix);
        buf.append(v.as_str());
        buf.append(suffix);
    }
    assert(buf@ =~= start + opt_line(prefix@, *value, suffix@));
}

/// The revision stored under `key`.
fn find_revision_exec<'a>(revisions: &'a Vec<(String, RevisionInfo)>, key: &String) -> (r: Option<
    &'a RevisionInfo,
>)
    ensures
        match r {
            Some(info) => find_revision(revisions@, key@) == Some(*info),
            None => find_revision(revisions@, key@) is None,
        },
{
    let mut i: usize = 0;
    assert(revisions@.subrange(0, revisions@.len() as int) =~= revisions@);
    while i < revisions.len()
        invariant
            0 <= i <= revisions@.len(),
            find_revision(revisions@, key@) == find_revision(
                revisions@.subrange(i as int, revisions@.len() as int),
                key@,
            ),
        decreases revisions@.len() - i,
    {
        let ghost rest = revisions@.subrange(i as int, revisions@.len() as int);
        if revisions[i].0 == *key {
            return Some(&revisions[i].1);
        }
        assert(rest.drop_first() =~= revisions@.subrange(i + 1, revisions@.len() as int));
        i = i + 1;
    }
    None
}

/// The patch set of the current revision.
fn current_revision_info_exec(change: &ChangeInfo) -> (r: Option<&RevisionInfo>)
    ensures
        match r {
            Some(info) => current_revision_info(*change) == Some(*info),
            None => current_revision_info(*change) is None,
        },
{
    match (&change.revisions, &change.current_revision) {
        (Some(revisions), Some(current)) => find_revision_exec(revisions, current),
        _ => None,
    }
}

/// Append the comment counts.
fn write_comments(buf: &mut String, change: &ChangeInfo)
    ensures
        final(buf)@ == old(buf)@ + comments_text(*change),
{
    let ghost start = buf@;
    if let Some(total_comment_count) = change.total_comment_count {
        buf.append(" > comments ");
        append_dec(buf, total_comment_count);
        if let Some(unresolved_comment_count) = change.unresolved_comment_count {
            buf.append(" [new: ");
            append_dec(buf, unresolved_comment_count);
            buf.append("]");
        }
        assert(buf@ =~= start + comments_text(*change));
    } else {
        assert(buf@ =~= start + comments_text(*change));
    }
}

/// Append the patch set.
fn write_patch_set(buf: &mut String, change: &ChangeInfo)
    ensures
        final(buf)@ == old(buf)@ + patch_set_text(*change),
{
    let ghost start = buf@;
    if let Some(info) = current_revision_info_exec(change) {
        buf.append("  [patch set: ");
        append_dec(buf, info.number);
        buf.append("/");
        append_dec(buf, info.number);
        buf.append("]");
    }
    assert(buf@ =~= start + patch_set_text(*change));
}

/// Append the first line of the details.
fn write_summary(buf: &mut String, change: &ChangeInfo)
    ensures
        final(buf)@ == old(buf)@ + summary_text(*change),
{
    let ghost start = buf@;
    buf.append("Change ");
    append_dec(buf, change.number);
    buf.append(" - ");
    buf.append(change.status.as_str());
    if change.work_in_progress {
        buf.append(" (WIP)");
    }
    write_comments(buf, change);
    write_patch_set(buf, change);
    buf.append("\n");
    assert(buf@ =~= start + summary_text(*change));
}

/// Append the owner line.
fn write_owner(buf: &mut String, change: &ChangeInfo)
    ensures
        final(buf)@ == old(buf)@ + owner_text(*change),
{
    let ghost start = buf@;
    buf.append("Owner:       ");
    if let Some(owner_name) = &change.owner.name {
        buf.append(owner_name.as_str());
    } else if let Some(owner_username) = &change.owner.username {
        buf.append(owner_username.as_str());
    } else {
        buf.append("(");
        append_dec(buf, change.owner.account_id);
        buf.append(")");
    }
    append_opt(buf, " <", &change.owner.email, ">");
    buf.append("\n");
    assert(buf@ =~= start + owner_text(*change));
}

/// Append a line for an author or committer.
fn write_person(buf: &mut String, title: &str, person: &Option<GitPersonInfo>)
    ensures
        final(buf)@ == old(buf)@ + person_line(title@, *person),
{
    let ghost start = buf@;
    if let Some(p) = person {
        buf.append(title);
        buf.append(p.name.as_str());
        buf.append(" <");
        buf.append(p.email.as_str());
        buf.append(">\n");
    }
    assert(buf@ =~= start + person_line(title@, *person));
}

/// Append the update time, project, branch, topic, commit and strategy lines.
#[verifier::rlimit(30)]
fn write_details(buf: &mut String, change: &ChangeInfo)
    ensures
        final(buf)@ == old(buf)@ + details_text(*change),
{
    let ghost start = buf@;
    buf.append("Updated:     ");
    buf.append(change.updated.long.as_str());
    buf.append("\n");
    buf.append("Project:     ");
    buf.append(change.project.as_str());
    buf.append("\n");
    buf.append("Branch:      ");
    buf.append(change.branch.as_str());
    buf.append("\n");
    append_opt(buf, "Topic:       ", &change.topic, "\n");
    let ghost before_commit = buf@;
    let info = current_revision_info_exec(change);
    if let Some(info) = info {
        if let Some(current_commit) = &info.commit {
            write_person(buf, "Author:      ", &current_commit.author);
            write_person(buf, "Committer:   ", &current_commit.committer);
        }
    }
    let ghost after_commit = buf@;
    assert(after_commit =~= before_commit + match current_commit(*change) {
        Some(commit) => person_line("Author:      "@, commit.author) + person_line(
            "Committer:   "@,
            commit.committer,
        ),
        None => Seq::empty(),
    });
    append_opt(buf, "Commit:      ", &change.current_revision, "\n");
    append_opt(buf, "Strategy:    ", &change.submit_type, "\n");
    assert(buf@ =~= start + details_text(*change));
}

/// The values of a label are numbers, after trimming whitespace.
pub open spec fn label_values_are_numbers(label: LabelInfo) -> bool {
    match label.values {
        Some(values) => forall|j: int|
            0 <= j < values@.len() ==> crate::util::validate::parses_i32(
                crate::util::validate::trimmed((#[trigger] values@[j])@),
            ),
        None => true,
    }
}

/// The label values of a change are numbers, after trimming whitespace.
pub open spec fn label_values_parse(change: ChangeInfo) -> bool {
    match change.labels {
        Some(labels) => forall|i: int|
            0 <= i < labels@.len() ==> label_values_are_numbers((#[trigger] labels@[i]).1),
        None => true,
    }
}

/// The label names are shorter than the largest `usize`.
pub open spec fn label_names_fit(change: ChangeInfo) -> bool {
    match change.labels {
        Some(labels) => forall|i: int|
            0 <= i < labels@.len() ==> crate::text::byte_len((#[trigger] labels@[i]).0@)
                < usize::MAX,
        None => true,
    }
}

/// The largest byte length of the names of the entries.
fn max_name_len_exec<T>(entries: &Vec<(String, T)>) -> (m: usize)
    ensures
        m == max_name_len(entries@, entries@.len() as int),
{
    let mut m: usize = 0;
    let mut i: usize = 0;
    while i < entries.len()
        invariant
            0 <= i <= entries@.len(),
            m == max_name_len(entries@, i as int),
        decreases entries@.len() - i,
    {
        let l = entries[i].0.as_str().as_bytes().len();
        if l > m {
            m = l;
        }
        i = i + 1;
    }
    m
}

proof fn lemma_max_name_len_bounds<T>(entries: Seq<(String, T)>, k: int, i: int)
    requires
        0 <= i < k <= entries.len(),
    ensures
        crate::text::byte_len(entries[i].0@) <= max_name_len(entries, k),
        max_name_len(entries, k) >= 0,
    decreases k,
{
    if i < k - 1 {
        lemma_max_name_len_bounds(entries, k - 1, i);
    }
}

proof fn lemma_max_name_len_is_one<T>(entries: Seq<(String, T)>, k: int)
    requires
        0 < k <= entries.len(),
    ensures
        exists|i: int| 0 <= i < k && max_name_len(entries, k) == crate::text::byte_len(#[trigger] entries[i].0@),
        max_name_len(entries, k) >= 0,
    decreases k,
{
    if k > 1 {
        lemma_max_name_len_is_one(entries, k - 1);
        let i = choose|i: int| 0 <= i < k - 1 && max_name_len(entries, k - 1) == crate::text::byte_len(#[trigger] entries[i].0@);
        if crate::text::byte_len(entries[k - 1].0@) > max_name_len(entries, k - 1) {
            assert(max_name_len(entries, k) == crate::text::byte_len(entries[k - 1].0@));
        } else {
            assert(max_name_len(entries, k) == crate::text::byte_len(entries[i].0@));
        }
    } else {
        assert(max_name_len(entries, 0) == 0);
        assert(max_name_len(entries, 1) == crate::text::byte_len(entries[0].0@));
    }
}

/// Append one vote of a label.
fn write_vote(buf: &mut String, approval: &ApprovalInfo, pad: usize)
    requires
        approval.value is Some,
    ensures
        final(buf)@ == old(buf)@ + vote_text(*approval, pad as int),
{
    let ghost start = buf@;
    if pad > 0 {
        push_repeated(buf, ' ', pad);
    }
    assert(buf@ =~= start + padding(pad as int));
    buf.append(" ");
    let ghost s1 = buf@;
    if let Some(value) = approval.value {
        append_signed(buf, value);
    }
    assert(buf@ =~= s1 + signed_dec(approval.value->0 as int));
    let ghost s2 = buf@;
    append_opt(buf, " ", &approval.account.name, "");
    let ghost s3 = buf@;
    append_opt(buf, " <", &approval.account.email, ">");
    buf.append("\n");
    assert(s3 == s2 + opt_line(" "@, approval.account.name, ""@));
    proof {
        reveal_strlit("");
    }
    assert(buf@ =~= start + vote_text(*approval, pad as int));
}

/// Append the text of one label.
fn write_label(buf: &mut String, name: &String, label: &LabelInfo, max_len: usize)
    requires
        crate::text::byte_len(name@) <= max_len < usize::MAX,
    ensures
        final(buf)@ == old(buf)@ + label_text(name@, *label, max_len as int),
{
    let ghost start = buf@;
    let first_pad = max_len - name.as_str().as_bytes().len();
    let mut padding = first_pad;
    buf.append(name.as_str());
    buf.append(":");
    let ghost head = buf@;
    let mut no_vote = true;
    match &label.all {
        Some(all) => {
            let mut j: usize = 0;
            while j < all.len()
                invariant
                    0 <= j <= all@.len(),
                    max_len < usize::MAX,
                    no_vote == !any_vote(all@, j as int),
                    padding == if any_vote(all@, j as int) {
                        max_len + 1
                    } else {
                        first_pad as int
                    },
                    buf@ == head + votes_text(all@, j as int, first_pad as int, max_len as int),
                decreases all@.len() - j,
            {
                let approval = &all[j];
                if let Some(value) = approval.value {
                    if value != 0 {
                        no_vote = false;
                        write_vote(buf, approval, padding);
                        padding = max_len + 1;
                    }
                }
                proof {
                    if is_vote(all@[j as int]) {
                        assert(any_vote(all@, j + 1));
                    } else {
                        assert(any_vote(all@, j + 1) == any_vote(all@, j as int)) by {
                            if any_vote(all@, j + 1) {
                                let i = choose|i: int| 0 <= i < j + 1 && is_vote(#[trigger] all@[i]);
                                assert(i < j);
                            }
                        }
                    }
                    reveal_strlit("");
                    assert(buf@ =~= head + votes_text(all@, j + 1, first_pad as int, max_len as int));
                }
                j = j + 1;
            }
        },
        None => {
            if padding > 0 {
                push_repeated(buf, ' ', padding);
            }
            buf.append(" -");
        },
    }
    if no_vote {
        buf.append("\n");
    }
    assert(buf@ =~= start + label_text(name@, *label, max_len as int));
}

/// Append the labels section.
fn write_labels(buf: &mut String, change: &ChangeInfo)
    requires
        label_names_fit(*change),
    ensures
        final(buf)@ == old(buf)@ + labels_text(*change),
{
    let ghost start = buf@;
    if let Some(labels) = &change.labels {
        let label_maxlen = max_name_len_exec(labels);
        proof {
            if labels@.len() > 0 {
                lemma_max_name_len_is_one(labels@, labels@.len() as int);
            }
        }
        let mut i: usize = 0;
        while i < labels.len()
            invariant
                label_names_fit(*change),
                change.labels == Some(*labels),
                0 <= i <= labels@.len(),
                label_maxlen == max_name_len(labels@, labels@.len() as int),
                labels@.len() > 0 ==> label_maxlen < usize::MAX,
                buf@ == start + labels_lines(labels@, i as int, label_maxlen as int),
            decreases labels@.len() - i,
        {
            proof {
                lemma_max_name_len_bounds(labels@, labels@.len() as int, i as int);
            }
            write_label(buf, &labels[i].0, &labels[i].1, label_maxlen);
            i = i + 1;
            assert(buf@ =~= start + labels_lines(labels@, i as int, label_maxlen as int));
        }
        if labels.len() > 0 {
            buf.append("\n");
        }
    }
    assert(buf@ =~= start + labels_text(*change));
}

/// Without its carriage return at the end.
fn strip_cr_exec<'b>(line: &'b str) -> (r: &'b str)
    ensures
        r@ == strip_cr(line@),
{
    let len = line.unicode_len();
    if len > 0 && line.get_char(len - 1) == '\r' {
        line.substring_char(0, len - 1)
    } else {
        line
    }
}

/// The lines of a text, as `str::lines` gives them.
pub fn text_lines_exec(s: &str) -> (r: Vec<String>)
    ensures
        r@.len() == text_lines(s@).len(),
        forall|i: int| 0 <= i < r@.len() ==> (#[trigger] r@[i])@ == text_lines(s@)[i],
{
    let len = s.unicode_len();
    let mut lines: Vec<String> = Vec::new();
    let mut i: usize = 0;
    while i < len
        invariant
            len == s@.len(),
            0 <= i <= len,
            text_lines(s@) == lines@.map_values(|l: String| l@) + lines_from(s@, i as int),
        decreases len - i,
    {
        let mut e = i;
        while e < len && s.get_char(e) != '\n'
            invariant
                len == s@.len(),
                i <= e <= len,
                next_newline(s@, i as int) == next_newline(s@, e as int),
            decreases len - e,
        {
            e = e + 1;
        }
        let ghost before = lines@;
        if e >= len {
            lines.push(s.substring_char(i, len).to_owned());
            assert(lines@.map_values(|l: String| l@) =~= before.map_values(|l: String| l@).push(
                s@.subrange(i as int, len as int),
            ));
            i = len;
        } else {
            lines.push(strip_cr_exec(s.substring_char(i, e)).to_owned());
            assert(lines@.map_values(|l: String| l@) =~= before.map_values(|l: String| l@).push(
                strip_cr(s@.subrange(i as int, e as int)),
            ));
            i = e + 1;
        }
    }
    assert(text_lines(s@) =~= lines@.map_values(|l: String| l@));
    assert forall|j: int| 0 <= j < lines@.len() implies (#[trigger] lines@[j])@ == text_lines(
        s@,
    )[j] by {
        assert(lines@.map_values(|l: String| l@)[j] == lines@[j]@);
    }
    lines
}

/// Append the commit message section.
fn write_message(buf: &mut String, change: &ChangeInfo)
    ensures
        final(buf)@ == old(buf)@ + message_text(*change),
{
    let ghost start = buf@;
    if let Some(info) = current_revision_info_exec(change) {
        if let Some(current_commit) = &info.commit {
            if let Some(message) = &current_commit.message {
                let lines = text_lines_exec(message.as_str());
                let ghost expected = text_lines(message@);
                let mut k: usize = 0;
                while k < lines.len()
                    invariant
                        0 <= k <= lines@.len(),
                        lines@.len() == expected.len(),
                        forall|i: int| 0 <= i < lines@.len() ==> (#[trigger] lines@[i])@ == expected[i],
                        buf@ == start + indented(expected, k as int),
                    decreases lines@.len() - k,
                {
                    buf.append("    ");
                    buf.append(lines[k].as_str());
                    buf.append("\n");
                    k = k + 1;
                    assert(buf@ =~= start + indented(expected, k as int));
                }
                buf.append("\n");
            }
        }
    }
    assert(buf@ =~= start + message_text(*change));
}

/// The letter of a file status.
pub fn file_status_initial(status: &FileStatus) -> (c: char)
    ensures
        c == spec_file_status_initial(*status),
{
    match status {
        FileStatus::Added => 'A',
        FileStatus::Modified => 'M',
        FileStatus::Deleted => 'D',
        FileStatus::Renamed => 'R',
        FileStatus::Copied => 'C',
        FileStatus::Rewritten => 'W',
    }
}

/// Append the inserted and deleted line counts of a file.
fn write_counts(buf: &mut String, file: &FileInfo)
    ensures
        final(buf)@ == old(buf)@ + counts_text(*file),
{
    let ghost start = buf@;
    if let Some(lines_inserted) = file.lines_inserted {
        buf.append(" +");
        append_dec(buf, lines_inserted);
    }
    if let Some(lines_deleted) = file.lines_deleted {
        buf.append(" -");
        append_dec(buf, lines_deleted);
    }
    assert(buf@ =~= start + counts_text(*file));
}

/// Append one file line.
fn write_file(buf: &mut String, name: &String, file: &FileInfo, max_len: usize)
    requires
        crate::text::byte_len(name@) <= max_len,
    ensures
        final(buf)@ == old(buf)@ + file_text(name@, *file, max_len as int),
{
    let ghost start = buf@;
    buf.append(" ");
    push_char(buf, file_status_initial(&file.status));
    buf.append(" ");
    buf.append(name.as_str());
    let pad = max_len - name.as_str().as_bytes().len();
    let ghost before_pad = buf@;
    if pad > 0 {
        push_repeated(buf, ' ', pad);
    }
    assert(buf@ =~= before_pad + padding(max_len - crate::text::byte_len(name@)));
    buf.append(" |");
    write_counts(buf, file);
    buf.append("\n");
    assert(buf@ =~= start + file_text(name@, *file, max_len as int));
}

/// Append the files section.
fn write_files(buf: &mut String, change: &ChangeInfo)
    ensures
        final(buf)@ == old(buf)@ + files_text(*change),
{
    let ghost start = buf@;
    if let Some(info) = current_revision_info_exec(change) {
        if let Some(current_files) = &info.files {
            if current_files.len() > 0 {
                buf.append("Files:\n");
            }
            let ghost head = buf@;
            let file_maxlen = max_name_len_exec(current_files);
            let mut i: usize = 0;
            while i < current_files.len()
                invariant
                    0 <= i <= current_files@.len(),
                    file_maxlen == max_name_len(current_files@, current_files@.len() as int),
                    buf@ == head + files_lines(current_files@, i as int, file_maxlen as int),
                decreases current_files@.len() - i,
            {
                proof {
                    lemma_max_name_len_bounds(current_files@, current_files@.len() as int, i as int);
                }
                write_file(buf, &current_files[i].0, &current_files[i].1, file_maxlen);
                i = i + 1;
                assert(buf@ =~= head + files_lines(current_files@, i as int, file_maxlen as int));
            }
        }
    }
    assert(buf@ =~= start + files_text(*change));
}

/// The details of a change, as text: a summary line, owner, update time, project,
/// branch, topic, author, committer, commit, strategy, the votes on each label, the commit
/// message and the files of the current patch set.
pub fn write_out_change_info(change: &ChangeInfo) -> (r: String)
    requires
        label_values_parse(*change),
        label_names_fit(*change),
    ensures
        r@ == spec_change_info_text(*change),
{
    let mut buffer = String::new();
    write_summary(&mut buffer, change);
    write_owner(&mut buffer, change);
    write_details(&mut buffer, change);
    write_labels(&mut buffer, change);
    write_message(&mut buffer, change);
    write_files(&mut buffer, change);
    assert(buffer@ =~= spec_change_info_text(*change));
    buffer
}

/// The commands that print each line, unstyled, each followed by a move to column
/// `column` of the next row.
pub open spec fn lines_commands(lines: Seq<Seq<char>>, column: u16, k: int) -> Seq<CommandView>
    decreases k,
{
    if k <= 0 {
        Seq::empty()
    } else {
        lines_commands(lines, column, k - 1) + seq![
            CommandView::Print(None, lines[k - 1]),
            CommandView::MoveToNextLine(1),
            CommandView::MoveToColumn(column),
        ]
    }
}

/// The commands of a change window: its box, then, inside the borders, the lines of the
/// change details, the first one column right of the inner left edge and the others one
/// further right.
pub open spec fn spec_change_window(rect: Rect, winbox: WinBox, change: ChangeInfo) -> Seq<
    CommandView,
> {
    spec_draw_winbox(rect, winbox) + if has_inner(rect) {
        let inner = rect.spec_inner();
        let lines = text_lines(spec_change_info_text(change));
        seq![CommandView::MoveTo((inner.x.0 + 1) as u16, inner.y.0)] + lines_commands(
            lines,
            (inner.x.0 + 2) as u16,
            lines.len() as int,
        )
    } else {
        Seq::empty()
    }
}

/// Draw the window of a change: its box and the details of the change inside it.
///
/// Returns `None`, after drawing nothing, when the rectangle has no room inside its
/// borders.
pub fn draw_change_info_window(out: &mut Vec<Command>, args: (&Rect, &WinBox, &ChangeInfo)) -> (r:
    Option<()>)
    requires
        winbox_drawable(*args.0, *args.1),
        has_inner(*args.0) ==> args.0.x.0 + 3 <= u16::MAX,
        label_values_parse(*args.2),
        label_names_fit(*args.2),
    ensures
        r is Some <==> has_inner(*args.0),
        views(final(out)@) == views(old(out)@) + spec_change_window(*args.0, *args.1, *args.2),
{
    let (rect, winbox, change) = args;
    let ghost start = views(out@);
    let _ = draw_winbox(out, (rect, winbox));
    let inner = match rect.inner() {
        Some(inner) => inner,
        None => {
            assert(views(out@) =~= start + spec_change_window(*rect, *winbox, *change));
            return None;
        },
    };
    push_command(out, Command::MoveTo(inner.x.0 + 1, inner.y.0));
    let ghost head = views(out@);
    let buffer = write_out_change_info(change);
    let lines = text_lines_exec(buffer.as_str());
    let ghost expected = text_lines(buffer@);
    let column = inner.x.0 + 2;
    let mut k: usize = 0;
    while k < lines.len()
        invariant
            0 <= k <= lines@.len(),
            lines@.len() == expected.len(),
            forall|i: int| 0 <= i < lines@.len() ==> (#[trigger] lines@[i])@ == expected[i],
            views(out@) == head + lines_commands(expected, column, k as int),
        decreases lines@.len() - k,
    {
        push_command(out, Command::Print(None, lines[k].clone()));
        push_command(out, Command::MoveToNextLine(1));
        push_command(out, Command::MoveToColumn(column));
        k = k + 1;
        assert(views(out@) =~= head + lines_commands(expected, column, k as int));
    }
    assert(views(out@) =~= start + spec_change_window(*rect, *winbox, *change));
    Some(())
}

/// A revision id has a prefix of exactly seven bytes (its first characters up to a
/// character boundary at byte seven).
pub open spec fn abbreviable(revision: Seq<char>) -> bool {
    exists|k: int| 0 <= k <= revision.len() && #[trigger] byte_len(revision.subrange(0, k)) == 7
}

/// The number of characters in the first seven bytes of a revision id.
pub open spec fn abbrev_len(revision: Seq<char>) -> int {
    choose|k: int| 0 <= k <= revision.len() && #[trigger] byte_len(revision.subrange(0, k)) == 7
}

/// The prefix of a revision id that makes up its first seven bytes.
pub open spec fn commit_abbrev(revision: Seq<char>) -> Seq<char> {
    revision.subrange(0, abbrev_len(revision))
}

/// A longer prefix of a text has more bytes.
proof fn lemma_prefix_bytes_increase(s: Seq<char>, k1: int, k2: int)
    requires
        0 <= k1 < k2 <= s.len(),
    ensures
        byte_len(s.subrange(0, k1)) < byte_len(s.subrange(0, k2)),
{
    assert(s.subrange(0, k2) =~= s.subrange(0, k1) + s.subrange(k1, k2));
    crate::text::lemma_encode_utf8_concat(s.subrange(0, k1), s.subrange(k1, k2));
    crate::text::lemma_byte_len_at_least_len(s.subrange(k1, k2));
}

/// The first seven bytes of a revision id, as the change table shows it.
fn abbreviate_commit(revision: &String) -> (r: String)
    requires
        abbreviable(revision@),
    ensures
        r@ == commit_abbrev(revision@),
{
    let s = revision.as_str();
    let len = s.unicode_len();
    let ghost target = abbrev_len(revision@);
    let mut k: usize = 0;
    loop
        invariant
            len == revision@.len(),
            s@ == revision@,
            target == abbrev_len(revision@),
            0 <= target <= len,
            byte_len(revision@.subrange(0, target)) == 7,
            0 <= k <= target,
        decreases target - k,
    {
        let prefix = s.substring_char(0, k);
        if prefix.as_bytes().len() == 7 {
            proof {
                assert(prefix@ == revision@.subrange(0, k as int));
                assert(byte_len(prefix@) == 7);
                if (k as int) < target {
                    lemma_prefix_bytes_increase(revision@, k as int, target);
                }
                assert(k == target);
            }
            return prefix.to_owned();
        }
        k = k + 1;
    }
}

/// The text of a change in a column of the change table, when the change has one.
pub open spec fn change_cell(change: ChangeInfo, index: u8) -> Option<Seq<char>> {
    if index == ChangeColumn::Commit.spec_index() {
        match change.current_revision {
            Some(revision) => Some(commit_abbrev(revision@)),
            None => None,
        }
    } else if index == ChangeColumn::Number.spec_index() {
        Some(dec(change.number as int))
    } else if index == ChangeColumn::Owner.spec_index() {
        Some(change.owner.name->0@)
    } else if index == ChangeColumn::Time.spec_index() {
        Some(change.updated.short@)
    } else if index == ChangeColumn::Project.spec_index() {
        Some(change.project@)
    } else if index == ChangeColumn::Branch.spec_index() {
        Some(change.branch@)
    } else if index == ChangeColumn::Status.spec_index() {
        Some(change.status@)
    } else if index == ChangeColumn::Subject.spec_index() {
        Some(change.subject@)
    } else {
        None
    }
}

/// A table row shows a change: it has exactly the columns of the change, with its texts.
pub open spec fn is_change_row(row: Map<u8, String>, change: ChangeInfo) -> bool {
    forall|index: u8|
        #![trigger row.contains_key(index)]
        #![trigger change_cell(change, index)]
        (row.contains_key(index) <==> change_cell(change, index) is Some) && (row.contains_key(index)
            ==> row[index]@ == change_cell(change, index)->0)
}

/// A change can be shown in the change table: its owner has a name and its revision id,
/// when it has one, has a seven-byte prefix.
pub open spec fn row_buildable(change: ChangeInfo) -> bool {
    &&& change.owner.name is Some
    &&& change.current_revision matches Some(revision) ==> abbreviable(revision@)
}

/// The changes of all pages, in order.
pub open spec fn all_changes(pages: Seq<Vec<ChangeInfo>>) -> Seq<ChangeInfo>
    decreases pages.len(),
{
    if pages.len() == 0 {
        Seq::empty()
    } else {
        all_changes(pages.drop_last()) + pages.last()@
    }
}

/// Every change of every page can be shown in the change table.
pub open spec fn pages_buildable(pages: Seq<Vec<ChangeInfo>>) -> bool {
    forall|i: int, j: int|
        0 <= i < pages.len() && 0 <= j < pages[i]@.len() ==> row_buildable(
            #[trigger] pages[i]@[j],
        )
}

/// The table row of a change.
fn change_row(change: &ChangeInfo) -> (row: Row)
    requires
        row_buildable(*change),
    ensures
        is_change_row(row@, *change),
{
    broadcast use vstd::std_specs::hash::group_hash_axioms;

    let mut row = Row::new();
    if let Some(current_revision) = &change.current_revision {
        row.insert(ChangeColumn::Commit.index(), abbreviate_commit(current_revision));
    }
    row.insert(ChangeColumn::Number.index(), usize_to_decimal(change.number as usize));
    let owner = match &change.owner.name {
        Some(name) => name.clone(),
        None => String::new(),
    };
    row.insert(ChangeColumn::Owner.index(), owner);
    row.insert(ChangeColumn::Time.index(), change.updated.short.clone());
    row.insert(ChangeColumn::Project.index(), change.project.clone());
    row.insert(ChangeColumn::Branch.index(), change.branch.clone());
    row.insert(ChangeColumn::Status.index(), change.status.clone());
    row.insert(ChangeColumn::Subject.index(), change.subject.clone());
    row
}

/// The table of the change list: one row per change of every page, in order, with the
/// abbreviated commit, number, owner name, short update time, project, branch, status and
/// subject of the change.
pub fn create_table_component(changes_list: &Vec<Vec<ChangeInfo>>) -> (table: Table)
    requires
        pages_buildable(changes_list@),
    ensures
        table.rows@.len() == all_changes(changes_list@).len(),
        forall|i: int|
            0 <= i < table.rows@.len() ==> is_change_row(
                (#[trigger] table.rows@[i])@,
                all_changes(changes_list@)[i],
            ),
{
    let mut rows: Vec<Row> = Vec::new();
    let mut p: usize = 0;
    while p < changes_list.len()
        invariant
            0 <= p <= changes_list@.len(),
            pages_buildable(changes_list@),
            rows@.len() == all_changes(changes_list@.subrange(0, p as int)).len(),
            forall|i: int|
                0 <= i < rows@.len() ==> is_change_row(
                    (#[trigger] rows@[i])@,
                    all_changes(changes_list@.subrange(0, p as int))[i],
                ),
        decreases changes_list@.len() - p,
    {
        let changes = &changes_list[p];
        let ghost before = all_changes(changes_list@.subrange(0, p as int));
        let ghost base = rows@.len();
        assert(changes_list@.subrange(0, p + 1).drop_last() =~= changes_list@.subrange(0, p as int));
        assert(all_changes(changes_list@.subrange(0, p + 1)) == before + changes@);
        let mut c: usize = 0;
        while c < changes.len()
            invariant
                0 <= c <= changes@.len(),
                p < changes_list@.len(),
                *changes == changes_list@[p as int],
                pages_buildable(changes_list@),
                base == before.len(),
                rows@.len() == base + c,
                forall|i: int|
                    0 <= i < rows@.len() ==> is_change_row(
                        (#[trigger] rows@[i])@,
                        (before + changes@)[i],
                    ),
            decreases changes@.len() - c,
        {
            let row = change_row(&changes[c]);
            rows.push(row);
            c = c + 1;
        }
        p = p + 1;
    }
    assert(changes_list@.subrange(0, changes_list@.len() as int) =~= changes_list@);
    Table { rows }
}

/// The first change with a number, and its position.
pub fn search_change_info_by_number<'a>(changes: &'a Vec<ChangeInfo>, number: u32) -> (r: Option<
    (usize, &'a ChangeInfo),
>)
    ensures
        match r {
            Some((i, change)) => {
                &&& i < changes@.len()
                &&& *change == changes@[i as int]
                &&& change.number == number
                &&& forall|j: int| 0 <= j < i ==> (#[trigger] changes@[j]).number != number
            },
            None => forall|j: int| 0 <= j < changes@.len() ==> (#[trigger] changes@[j]).number != number,
        },
{
    let mut i: usize = 0;
    while i < changes.len()
        invariant
            0 <= i <= changes@.len(),
            forall|j: int| 0 <= j < i ==> (#[trigger] changes@[j]).number != number,
        decreases changes@.len() - i,
    {
        if changes[i].number == number {
            return Some((i, &changes[i]));
        }
        i = i + 1;
    }
    None
}

/// The text of the data column `index` in a row, when the row has it.
pub open spec fn row_text(row: Map<u8, String>, index: u8) -> Option<Seq<char>> {
    if row.contains_key(index) {
        Some(row[index]@)
    } else {
        None
    }
}

/// Where the change window goes when it opens beside a table window, and which change
/// it shows: the table window keeps the left half of its rectangle, the change window
/// takes the right half, and the change is the one whose number the selected row shows.
/// `None` when the rectangle cannot be split, the selected row does not exist, or its
/// number is missing or is not the text of a `u32`.
pub open spec fn spec_change_window_split(rect: Rect, table: Table, selection: Selection) -> Option<
    (Rect, Rect, u32),
> {
    let i = selection.row_index as int;
    if rect.spec_valid() && rect.spec_width() >= 2 && i < table.rows@.len() {
        match row_text(table.rows@[i]@, ChangeColumn::Number.spec_index()) {
            Some(text) => if parses_unsigned(text, u32::MAX as nat) {
                Some(
                    (
                        rect.spec_vsplit().0,
                        rect.spec_vsplit().1,
                        digits_value(unsigned_digits(text)) as u32,
                    ),
                )
            } else {
                None
            },
            None => None,
        }
    } else {
        None
    }
}

/// Split the selected table window for the window of its selected change, as opening a
/// change window does.
pub fn change_window_split(rect: &Rect, table: &Table, selection: &Selection) -> (r: Option<
    (Rect, Rect, u32),
>)
    requires
        rect.spec_valid() ==> rect.width_fits(),
    ensures
        r == spec_change_window_split(*rect, *table, *selection),
{
    broadcast use vstd::std_specs::hash::group_hash_axioms;

    let (left_rect, right_rect) = match rect.vsplit() {
        Some(halves) => halves,
        None => return None,
    };
    if selection.row_index >= table.rows.len() {
        return None;
    }
    let row = &table.rows[selection.row_index];
    let number = match row.get(&ChangeColumn::Number.index()) {
        Some(number) => number,
        None => return None,
    };
    match parse_unsigned(number.as_str(), u32::MAX as u64) {
        Some(value) => Some((left_rect, right_rect, value as u32)),
        None => None,
    }
}

/// A hint has the content, margins and alignment given.
pub open spec fn hint_is(
    hint: BoxHint,
    content: Seq<char>,
    left: usize,
    right: usize,
    alignment: HorizontalAlignment,
) -> bool {
    &&& hint.content@ == content
    &&& hint.margin == HorizontalMargin { left, right }
    &&& hint.alignment == alignment
}

/// A hint with a content, margins and alignment, in a style.
fn hint(content: &str, style: TextStyle, left: usize, right: usize, alignment: HorizontalAlignment) -> (r: BoxHint)
    ensures
        hint_is(r, content@, left, right, alignment),
        r.style == spec_content_style(style),
{
    BoxHint {
        content: String::from_str(content),
        style: content_style(style),
        margin: HorizontalMargin { left, right },
        alignment,
    }
}

/// The window box of a change window: simple borders, with the title "Change" and the
/// change number on the left of its top border.
pub fn change_info_winbox(number: u32) -> (winbox: WinBox)
    ensures
        winbox.borders == BorderChars::spec_simple(),
        winbox.top_hints@.len() == 1,
        hint_is(winbox.top_hints@[0], "Change "@ + dec(number as int), 0, 0, HorizontalAlignment::Left),
        winbox.top_hints@[0].style == spec_content_style(plain()),
        winbox.bottom_hints@.len() == 0,
        winbox.style == spec_content_style(spec_with_foreground(plain(), TextColor::Cyan)),
{
    let mut title = String::from_str("Change ");
    append_dec(&mut title, number);
    let top_hint = BoxHint {
        content: title,
        style: content_style(style_new()),
        margin: HorizontalMargin { left: 0, right: 0 },
        alignment: HorizontalAlignment::Left,
    };
    WinBox {
        style: content_style(with_foreground(style_new(), TextColor::Cyan)),
        borders: BorderChars::simple(),
        top_hints: vec![top_hint],
        bottom_hints: Vec::new(),
    }
}

/// The window box of the change list: simple borders, with the hints "change list",
/// "(query)", "Hi", "-clock-" and "Ho" on the top border and "nothing", "[stats]", "ln"
/// and "#comment#" on the bottom border.
pub open spec fn is_change_table_winbox(winbox: WinBox) -> bool {
    &&& winbox.borders == BorderChars::spec_simple()
    &&& winbox.top_hints@.len() == 5
    &&& hint_is(winbox.top_hints@[0], "change list"@, 1, 0, HorizontalAlignment::Left)
    &&& hint_is(winbox.top_hints@[1], "(query)"@, 0, 1, HorizontalAlignment::Right)
    &&& hint_is(winbox.top_hints@[2], "Hi"@, 1, 0, HorizontalAlignment::Center)
    &&& hint_is(winbox.top_hints@[3], "-clock-"@, 1, 1, HorizontalAlignment::Center)
    &&& hint_is(winbox.top_hints@[4], "Ho"@, 0, 1, HorizontalAlignment::Center)
    &&& winbox.bottom_hints@.len() == 4
    &&& hint_is(winbox.bottom_hints@[0], "nothing"@, 1, 0, HorizontalAlignment::Left)
    &&& hint_is(winbox.bottom_hints@[1], "[stats]"@, 0, 1, HorizontalAlignment::Right)
    &&& hint_is(winbox.bottom_hints@[2], "ln"@, 0, 0, HorizontalAlignment::Right)
    &&& hint_is(winbox.bottom_hints@[3], "#comment#"@, 0, 0, HorizontalAlignment::Center)
    &&& winbox.style == spec_content_style(spec_with_foreground(plain(), TextColor::Green))
    &&& forall|k: int| 0 <= k < 5 ==> (#[trigger] winbox.top_hints@[k]).style == spec_content_style(plain())
    &&& winbox.bottom_hints@[0].style == spec_content_style(plain_with2(TextAttribute::Dim, TextAttribute::Reverse))
    &&& winbox.bottom_hints@[1].style == spec_content_style(plain_with2(TextAttribute::Dim, TextAttribute::Reverse))
    &&& winbox.bottom_hints@[2].style == spec_content_style(plain_with(TextAttribute::Dim))
    &&& winbox.bottom_hints@[3].style == spec_content_style(plain())
}

/// The window box of the change list.
pub fn get_change_table_winbox() -> (winbox: WinBox)
    ensures
        is_change_table_winbox(winbox),
{
    let dim_reverse = with_attribute(with_attribute(style_new(), TextAttribute::Dim), TextAttribute::Reverse);
    let top_hints = vec![
        hint("change list", style_new(), 1, 0, HorizontalAlignment::Left),
        hint("(query)", style_new(), 0, 1, HorizontalAlignment::Right),
        hint("Hi", style_new(), 1, 0, HorizontalAlignment::Center),
        hint("-clock-", style_new(), 1, 1, HorizontalAlignment::Center),
        hint("Ho", style_new(), 0, 1, HorizontalAlignment::Center),
    ];
    let bottom_hints = vec![
        hint("nothing", dim_reverse, 1, 0, HorizontalAlignment::Left),
        hint("[stats]", dim_reverse, 0, 1, HorizontalAlignment::Right),
        hint("ln", with_attribute(style_new(), TextAttribute::Dim), 0, 0, HorizontalAlignment::Right),
        hint("#comment#", style_new(), 0, 0, HorizontalAlignment::Center),
    ];
    WinBox {
        style: content_style(with_foreground(style_new(), TextColor::Green)),
        borders: BorderChars::simple(),
        top_hints,
        bottom_hints,
    }
}

/// A column shows a data column of the rows, with a header name, a width and an
/// alignment.
pub open spec fn data_column_is(
    column: Column,
    name: Seq<char>,
    width: int,
    alignment: HorizontalAlignment,
    index: u8,
) -> bool {
    &&& column.name@ == name
    &&& column.width == width
    &&& column.alignment == alignment
    &&& column.value == ColumnValue::Data { index }
}

/// A data column with a header name, a width, an alignment and a style.
fn data_column(
    name: &str,
    width: u16,
    style: ContentStyle,
    alignment: HorizontalAlignment,
    column: ChangeColumn,
) -> (r: Column)
    ensures
        data_column_is(r, name@, width as int, alignment, column.spec_index()),
        r.style == style,
{
    Column {
        name: String::from_str(name),
        width,
        style,
        alignment,
        value: ColumnValue::Data { index: column.index() },
    }
}

/// A header style: bold and reverse, with a foreground color.
fn header_style(color: TextColor) -> (r: ContentStyle)
    ensures
        r == spec_content_style(colored_with2(color, TextAttribute::Bold, TextAttribute::Reverse)),
{
    content_style(
        with_attribute(with_attribute(with_foreground(style_new(), color), TextAttribute::Bold), TextAttribute::Reverse),
    )
}

/// The columns of the change list, for a table of `rows_len` rows: the line numbers,
/// then commit, number, owner, time, project, branch, topic, status and subject, under a
/// header, separated by a space.
pub open spec fn is_change_table_columns(columns: Columns, rows_len: nat) -> bool {
    &&& columns.print_header
    &&& columns.separator == ' '
    &&& columns.hidden@.len() == 0
    &&& columns.visible@.len() == 10
    &&& columns.visible@[0].name@ == Seq::<char>::empty()
    &&& columns.visible@[0].width == spec_line_number_column_width(rows_len)
    &&& columns.visible@[0].alignment == HorizontalAlignment::Right
    &&& columns.visible@[0].value matches ColumnValue::BuiltIn { builtin }
        && builtin matches ColumnBuiltIn::LineNumber { mode, style } && mode == LineNumberMode::Normal
        && style == spec_content_style(
            spec_with_attribute(spec_with_foreground(plain(), TextColor::Green), TextAttribute::Bold),
        )
    &&& columns.visible@[0].style == spec_content_style(colored_with2(TextColor::Green, TextAttribute::Dim, TextAttribute::Bold))
    &&& columns.visible@[1].style == spec_content_style(plain_with2(TextAttribute::Bold, TextAttribute::Reverse))
    &&& columns.visible@[2].style == spec_content_style(colored_with2(TextColor::Yellow, TextAttribute::Bold, TextAttribute::Reverse))
    &&& columns.visible@[3].style == spec_content_style(colored_with2(TextColor::DarkGrey, TextAttribute::Bold, TextAttribute::Reverse))
    &&& columns.visible@[4].style == spec_content_style(colored_with2(TextColor::Magenta, TextAttribute::Bold, TextAttribute::Reverse))
    &&& columns.visible@[5].style == spec_content_style(colored_with2(TextColor::Cyan, TextAttribute::Bold, TextAttribute::Reverse))
    &&& columns.visible@[6].style == spec_content_style(colored_with2(TextColor::DarkCyan, TextAttribute::Bold, TextAttribute::Reverse))
    &&& columns.visible@[7].style == spec_content_style(colored_with2(TextColor::DarkCyan, TextAttribute::Bold, TextAttribute::Reverse))
    &&& columns.visible@[8].style == spec_content_style(colored_with2(TextColor::Green, TextAttribute::Bold, TextAttribute::Reverse))
    &&& columns.visible@[9].style == spec_content_style(
        spec_with_attribute(plain_with2(TextAttribute::Dim, TextAttribute::Bold), TextAttribute::Reverse),
    )
    &&& data_column_is(columns.visible@[1], "commit"@, 7, HorizontalAlignment::Left, ChangeColumn::Commit.spec_index())
    &&& data_column_is(columns.visible@[2], "number"@, 6, HorizontalAlignment::Right, ChangeColumn::Number.spec_index())
    &&& data_column_is(columns.visible@[3], "owner"@, 17, HorizontalAlignment::Left, ChangeColumn::Owner.spec_index())
    &&& data_column_is(columns.visible@[4], "time"@, 10, HorizontalAlignment::Left, ChangeColumn::Time.spec_index())
    &&& data_column_is(columns.visible@[5], "project"@, 30, HorizontalAlignment::Left, ChangeColumn::Project.spec_index())
    &&& data_column_is(columns.visible@[6], "branch"@, 20, HorizontalAlignment::Left, ChangeColumn::Branch.spec_index())
    &&& data_column_is(columns.visible@[7], "topic"@, 20, HorizontalAlignment::Left, ChangeColumn::Topic.spec_index())
    &&& data_column_is(columns.visible@[8], "status"@, 10, HorizontalAlignment::Center, ChangeColumn::Status.spec_index())
    &&& data_column_is(columns.visible@[9], "subject"@, 50, HorizontalAlignment::Left, ChangeColumn::Subject.spec_index())
}

/// The columns of the change list, for a table.
pub fn get_change_table_columns(table: &Table) -> (columns: Columns)
    ensures
        is_change_table_columns(columns, table.rows@.len()),
{
    let line_numbers = Column {
        name: String::new(),
        width: resolve_line_number_column_width(table.rows.len()),
        style: content_style(with_attribute(
            with_attribute(with_foreground(style_new(), TextColor::Green), TextAttribute::Dim),
            TextAttribute::Bold,
        )),
        alignment: HorizontalAlignment::Right,
        value: ColumnValue::BuiltIn {
            builtin: ColumnBuiltIn::LineNumber {
                mode: LineNumberMode::Normal,
                style: content_style(with_attribute(with_foreground(style_new(), TextColor::Green), TextAttribute::Bold)),
            },
        },
    };
    let bold_reverse = content_style(
        with_attribute(with_attribute(style_new(), TextAttribute::Bold), TextAttribute::Reverse),
    );
    let subject_style = content_style(with_attribute(
        with_attribute(with_attribute(style_new(), TextAttribute::Dim), TextAttribute::Bold),
        TextAttribute::Reverse,
    ));
    let visible = vec![
        line_numbers,
        data_column("commit", 7, bold_reverse, HorizontalAlignment::Left, ChangeColumn::Commit),
        data_column("number", 6, header_style(TextColor::Yellow), HorizontalAlignment::Right, ChangeColumn::Number),
        data_column("owner", 17, header_style(TextColor::DarkGrey), HorizontalAlignment::Left, ChangeColumn::Owner),
        data_column("time", 10, header_style(TextColor::Magenta), HorizontalAlignment::Left, ChangeColumn::Time),
        data_column("project", 30, header_style(TextColor::Cyan), HorizontalAlignment::Left, ChangeColumn::Project),
        data_column("branch", 20, header_style(TextColor::DarkCyan), HorizontalAlignment::Left, ChangeColumn::Branch),
        data_column("topic", 20, header_style(TextColor::DarkCyan), HorizontalAlignment::Left, ChangeColumn::Topic),
        data_column("status", 10, header_style(TextColor::Green), HorizontalAlignment::Center, ChangeColumn::Status),
        data_column("subject", 50, subject_style, HorizontalAlignment::Left, ChangeColumn::Subject),
    ];
    Columns { print_header: true, visible, hidden: Vec::new(), separator: ' ' }
}

/// The components of the change list window: it fills a terminal of `size` columns and
/// rows, shows `table` with the change list columns from its first row, has the fourth
/// row selected (shown in reverse) and the change list window box.
pub fn table_window(table: Table, size: (TermUSize, TermUSize)) -> (r: (
    Rect,
    WinBox,
    Table,
    Columns,
    VerticalScroll,
    Selection,
))
    requires
        size.0 >= 1,
        size.1 >= 1,
    ensures
        r.0 == Rect::spec_from_size((0, 0), size),
        is_change_table_winbox(r.1),
        r.2 == table,
        is_change_table_columns(r.3, table.rows@.len()),
        r.4.top_row == 0,
        r.5.row_index == 3,
        r.5.style == spec_content_style(plain_with(TextAttribute::Reverse)),
{
    let columns = get_change_table_columns(&table);
    let vscroll = VerticalScroll { top_row: 0 };
    let selection = Selection {
        row_index: 3,
        style: content_style(with_attribute(style_new(), TextAttribute::Reverse)),
    };
    let winbox = get_change_table_winbox();
    let rect = Rect::from_size_unchecked((0, 0), size);
    (rect, winbox, table, columns, vscroll, selection)
}

/// A decimal digit reads back as its value.
proof fn lemma_digit_reads_back(d: nat)
    requires
        d < 10,
    ensures
        crate::util::validate::is_digit(crate::text::digit_char(d)),
        crate::util::validate::digit_value(crate::text::digit_char(d)) == d,
{
    assert(crate::util::validate::digit_value('0') == 0);
    assert(crate::util::validate::digit_value('1') == 1);
    assert(crate::util::validate::digit_value('2') == 2);
    assert(crate::util::validate::digit_value('3') == 3);
    assert(crate::util::validate::digit_value('4') == 4);
    assert(crate::util::validate::digit_value('5') == 5);
    assert(crate::util::validate::digit_value('6') == 6);
    assert(crate::util::validate::digit_value('7') == 7);
    assert(crate::util::validate::digit_value('8') == 8);
    assert(crate::util::validate::digit_value('9') == 9);
}

/// The decimal text of a number reads back as that number.
proof fn lemma_decimal_reads_back(n: nat)
    ensures
        decimal(n).len() > 0,
        forall|i: int|
            0 <= i < decimal(n).len() ==> crate::util::validate::is_digit(#[trigger] decimal(n)[i]),
        digits_value(decimal(n)) == n,
    decreases n,
{
    lemma_digit_reads_back(n % 10);
    if n < 10 {
        assert(decimal(n).drop_last() =~= Seq::<char>::empty());
        assert(digits_value(decimal(n)) == digits_value(decimal(n).drop_last()) * 10
            + crate::util::validate::digit_value(decimal(n).last()));
    } else {
        lemma_decimal_reads_back(n / 10);
        let d = decimal(n);
        assert(d.drop_last() =~= decimal(n / 10));
        assert(d.last() == crate::text::digit_char(n % 10));
        assert(digits_value(d) == digits_value(decimal(n / 10)) * 10
            + crate::util::validate::digit_value(d.last()));
        assert((n / 10) * 10 + n % 10 == n);
        assert forall|i: int| 0 <= i < d.len() implies crate::util::validate::is_digit(
            #[trigger] d[i],
        ) by {
            if i < d.len() - 1 {
                assert(d[i] == decimal(n / 10)[i]);
            }
        }
    }
}

/// The line-number column of the change list is wide enough for every line number of
/// the table: for each row number from 1 to the number of rows, its decimal text fits
/// the width of the first visible column, which is never narrower than two columns.
pub proof fn law_change_list_line_numbers_fit(columns: Columns, rows_len: nat, line: nat)
    requires
        is_change_table_columns(columns, rows_len),
        1 <= line <= rows_len,
    ensures
        decimal(line).len() <= columns.visible@[0].width,
        columns.visible@[0].width >= 2,
{
    crate::table::law_line_number_width_fits(rows_len, line);
}

/// A file line ends with its line counts: " +" and the inserted count where the file has
/// one, then " -" and the deleted count where it has one, each shown whether or not the
/// other is, and the line ends right after " |" where the file has neither.
pub proof fn law_file_line_counts(name: Seq<char>, file: FileInfo, max_len: int)
    ensures
        ({
            let line = file_text(name, file, max_len);
            match (file.lines_inserted, file.lines_deleted) {
                (Some(i), Some(d)) => line.subrange(
                    line.len() - (7 + dec(i as int).len() + dec(d as int).len()),
                    line.len() as int,
                ) == " |"@ + " +"@ + dec(i as int) + " -"@ + dec(d as int) + "\n"@,
                (Some(i), None) => line.subrange(
                    line.len() - (5 + dec(i as int).len()),
                    line.len() as int,
                ) == " |"@ + " +"@ + dec(i as int) + "\n"@,
                (None, Some(d)) => line.subrange(
                    line.len() - (5 + dec(d as int).len()),
                    line.len() as int,
                ) == " |"@ + " -"@ + dec(d as int) + "\n"@,
                (None, None) => line.subrange(line.len() - 3, line.len() as int) == " |\n"@,
            }
        }),
{
    reveal_strlit(" |");
    reveal_strlit(" +");
    reveal_strlit(" -");
    reveal_strlit("\n");
    reveal_strlit(" |\n");
    let head = " "@ + seq![spec_file_status_initial(file.status)] + " "@ + name + padding(
        max_len - crate::text::byte_len(name),
    );
    let line = file_text(name, file, max_len);
    assert(line == head + " |"@ + counts_text(file) + "\n"@);
    let tail = match (file.lines_inserted, file.lines_deleted) {
        (Some(i), Some(d)) => " |"@ + " +"@ + dec(i as int) + " -"@ + dec(d as int) + "\n"@,
        (Some(i), None) => " |"@ + " +"@ + dec(i as int) + "\n"@,
        (None, Some(d)) => " |"@ + " -"@ + dec(d as int) + "\n"@,
        (None, None) => " |\n"@,
    };
    let rest = " |"@ + counts_text(file) + "\n"@;
    assert(line =~= head + rest);
    assert(rest.subrange(rest.len() - tail.len(), rest.len() as int) =~= tail);
    assert(line.subrange(line.len() - tail.len(), line.len() as int) =~= tail);
}

/// Opening the change window on a row of the change table reads back the number of the
/// change that the row shows: the number that the table writes into a row, the split
/// for the change window parses again, when the window can be split.
pub proof fn law_selected_row_number_reads_back(
    rect: Rect,
    table: Table,
    selection: Selection,
    change: ChangeInfo,
)
    requires
        rect.spec_valid(),
        rect.spec_width() >= 2,
        (selection.row_index as int) < table.rows@.len(),
        is_change_row(table.rows@[selection.row_index as int]@, change),
    ensures
        spec_change_window_split(rect, table, selection) == Some(
            (rect.spec_vsplit().0, rect.spec_vsplit().1, change.number),
        ),
{
    let row = table.rows@[selection.row_index as int]@;
    let index = ChangeColumn::Number.spec_index();
    assert(change_cell(change, index) == Some(dec(change.number as int)));
    assert(row.contains_key(index));
    let text = row[index]@;
    assert(text == decimal(change.number as nat));
    lemma_decimal_reads_back(change.number as nat);
    assert(unsigned_digits(text) == text);
    assert(parses_unsigned(text, u32::MAX as nat));
}

/// Whether the values of a label are all numbers (see `label_values_are_numbers`).
fn label_values_check(label: &LabelInfo) -> (b: bool)
    ensures
        b == label_values_are_numbers(*label),
{
    match &label.values {
        Some(values) => {
            let mut j: usize = 0;
            while j < values.len()
                invariant
                    label.values == Some(*values),
                    0 <= j <= values@.len(),
                    forall|i: int|
                        0 <= i < j ==> crate::util::validate::parses_i32(
                            crate::util::validate::trimmed((#[trigger] values@[i])@),
                        ),
                decreases values@.len() - j,
            {
                let value = crate::util::validate::trim(values[j].as_str());
                if !crate::util::validate::parses_i32_check(value) {
                    assert(!crate::util::validate::parses_i32(
                        crate::util::validate::trimmed((label.values->0)@[j as int]@),
                    ));
                    return false;
                }
                j = j + 1;
            }
            true
        },
        None => true,
    }
}

/// Whether the change can be drawn in a change window (the conditions of
/// `draw_change_info_window`).
pub fn change_window_drawable(rect: &Rect, winbox: &WinBox, change: &ChangeInfo) -> (b: bool)
    ensures
        b == (winbox_drawable(*rect, *winbox) && (has_inner(*rect) ==> rect.x.0 + 3 <= u16::MAX)
            && label_values_parse(*change) && label_names_fit(*change)),
{
    if !winbox_drawable_check(rect, winbox) {
        return false;
    }
    if rect.inner().is_some() && rect.x.0 > u16::MAX - 3 {
        return false;
    }
    if let Some(labels) = &change.labels {
        let mut i: usize = 0;
        while i < labels.len()
            invariant
                change.labels == Some(*labels),
                0 <= i <= labels@.len(),
                forall|j: int|
                    0 <= j < i ==> label_values_are_numbers((#[trigger] labels@[j]).1)
                        && crate::text::byte_len(labels@[j].0@) < usize::MAX,
            decreases labels@.len() - i,
        {
            if labels[i].0.as_str().as_bytes().len() == usize::MAX {
                assert(!(crate::text::byte_len((change.labels->0)@[i as int].0@) < usize::MAX));
                return false;
            }
            if !label_values_check(&labels[i].1) {
                assert(!label_values_are_numbers((change.labels->0)@[i as int].1));
                return false;
            }
            i = i + 1;
        }
    }
    true
}

/// Whether a revision id has a prefix of exactly seven bytes.
fn abbreviable_check(revision: &String) -> (b: bool)
    ensures
        b == abbreviable(revision@),
{
    let s = revision.as_str();
    let len = s.unicode_len();
    let mut k: usize = 0;
    while k <= len && k <= 7
        invariant
            len == revision@.len(),
            s@ == revision@,
            0 <= k <= 8,
            forall|j: int| 0 <= j < k && j <= len ==> #[trigger] byte_len(revision@.subrange(0, j)) != 7,
        decreases 8 - k,
    {
        let prefix = s.substring_char(0, k);
        if prefix.as_bytes().len() == 7 {
            assert(prefix@ == revision@.subrange(0, k as int));
            assert(byte_len(revision@.subrange(0, k as int)) == 7);
            return true;
        }
        k = k + 1;
    }
    proof {
        if abbreviable(revision@) {
            let j = choose|j: int|
                0 <= j <= revision@.len() && #[trigger] byte_len(revision@.subrange(0, j)) == 7;
            crate::text::lemma_byte_len_at_least_len(revision@.subrange(0, j));
            assert(false);
        }
    }
    false
}

/// Whether every change of every page can be shown in the change table (see
/// `pages_buildable`).
pub fn table_buildable(changes_list: &Vec<Vec<ChangeInfo>>) -> (b: bool)
    ensures
        b == pages_buildable(changes_list@),
{
    let mut p: usize = 0;
    while p < changes_list.len()
        invariant
            0 <= p <= changes_list@.len(),
            forall|i: int, j: int|
                0 <= i < p && 0 <= j < changes_list@[i]@.len() ==> row_buildable(
                    #[trigger] changes_list@[i]@[j],
                ),
        decreases changes_list@.len() - p,
    {
        let changes = &changes_list[p];
        let mut c: usize = 0;
        while c < changes.len()
            invariant
                p < changes_list@.len(),
                *changes == changes_list@[p as int],
                0 <= c <= changes@.len(),
                forall|i: int, j: int|
                    0 <= i < p && 0 <= j < changes_list@[i]@.len() ==> row_buildable(
                        #[trigger] changes_list@[i]@[j],
                    ),
                forall|j: int| 0 <= j < c ==> row_buildable(#[trigger] changes_list@[p as int]@[j]),
            decreases changes@.len() - c,
        {
            let change = &changes[c];
            let ok = change.owner.name.is_some() && match &change.current_revision {
                Some(revision) => abbreviable_check(revision),
                None => true,
            };
            if !ok {
                assert(!row_buildable(changes_list@[p as int]@[c as int]));
                return false;
            }
            c = c + 1;
        }
        p = p + 1;
    }
    true
}

} // verus!
