//! Classifiers over the literal text of a shell command: one for deletion
//! commands, one for `find` invocations that delete or move what they find.
//!
//! Nothing is run or parsed as a shell would: the classifiers look for
//! patterns in the text.

use crate::patterns::{pattern_matches, regex_compiles, regex_is_match};
use crate::text::{contains_token, has_token, space_width_at, token_at, word_at};
use vstd::prelude::*;
use vstd::string::*;
use vstd::utf8::encode_utf8;

verus! {

/// The shell environment whose commands are classified.
#[derive(Clone, Copy, Debug, PartialEq, Eq, Structural)]
pub enum Platform {
    /// A POSIX shell.
    Unix,
    /// The Windows command line and PowerShell.
    Windows,
}

/// Matches `rm` as a command: at the start or behind a separator, behind an
/// optional `sudo`, `command`, backslash and path, with white space or the
/// end behind it.
pub const UNIX_RM_PATTERN: &'static str =
    r"(^|[;&|()]\s*)(sudo\s+)?(command\s+)?(\\)?(\S*/)?rm(\s|$)";

/// As `UNIX_RM_PATTERN`, without regard to case, for `rm`, `del`, `rd`,
/// `rmdir` and `remove-item`, and with both kinds of path separator.
pub const WINDOWS_RM_PATTERN: &'static str =
    r"(?i)(^|[;&|()]\s*)(sudo\s+)?(command\s+)?(\\)?(\S*[\\/])?(rm|del|rd|rmdir|remove-item)(\s|$)";

/// Matches `find` as a command, at the start or behind a separator.
pub const UNIX_FIND_GATE: &'static str = r"(^|[;&|()]\s*)find\s";

/// Matches any pipe.
pub const WINDOWS_FIND_GATE: &'static str = r"\|";

/// The pattern that recognises a deletion command on `platform`.
pub open spec fn rm_pattern(platform: Platform) -> &'static str {
    match platform {
        Platform::Unix => UNIX_RM_PATTERN,
        Platform::Windows => WINDOWS_RM_PATTERN,
    }
}

/// The deletion verbs of `platform`.
pub open spec fn delete_verbs(platform: Platform) -> Seq<&'static str> {
    match platform {
        Platform::Unix => seq!["rm"],
        Platform::Windows => seq!["rm", "del", "rd", "rmdir", "remove-item"],
    }
}

/// On Windows the verbs are recognised without regard to case.
pub open spec fn folds_case(platform: Platform) -> bool {
    platform == Platform::Windows
}

/// One of the deletion verbs of `platform` stands in `b` as a whole token:
/// with white space or the end of the text behind it.
pub open spec fn mentions_delete_verb(platform: Platform, b: Seq<u8>) -> bool {
    exists|v: int|
        0 <= v < delete_verbs(platform).len() && has_token(
            b,
            (#[trigger] delete_verbs(platform)[v]).spec_bytes(),
            folds_case(platform),
        )
}

/// `pattern` is a valid pattern that matches somewhere in `text`.
pub open spec fn pattern_hits(pattern: &str, text: Seq<char>) -> bool {
    regex_compiles(pattern@) && regex_is_match(pattern@, text)
}

/// Whether the command `text` is a deletion command on `platform`: it
/// mentions a deletion verb as a whole token, and the platform's pattern
/// matches it.
pub open spec fn rm_command(platform: Platform, text: Seq<char>) -> bool {
    mentions_delete_verb(platform, encode_utf8(text)) && pattern_hits(rm_pattern(platform), text)
}

/// A command that holds no deletion verb of the platform as a whole token is
/// no deletion command.
pub proof fn lemma_no_delete_verb_no_rm_command(platform: Platform, text: Seq<char>)
    requires
        !mentions_delete_verb(platform, encode_utf8(text)),
    ensures
        !rm_command(platform, text),
{
}

/// The command `rm -rf /tmp/x` mentions the deletion verb of a POSIX shell,
/// so whether it is a deletion command is for the pattern alone to say.
pub proof fn lemma_rm_rf_mentions_delete_verb()
    ensures
        mentions_delete_verb(Platform::Unix, "rm -rf /tmp/x".spec_bytes()),
        rm_command(Platform::Unix, "rm -rf /tmp/x"@) == pattern_hits(
            UNIX_RM_PATTERN,
            "rm -rf /tmp/x"@,
        ),
{
    reveal_strlit("rm -rf /tmp/x");
    reveal_strlit("rm");
    let cmd = "rm -rf /tmp/x";
    let verb = "rm";
    assert(is_ascii(cmd)) by {
        assert forall|i: int| 0 <= i < cmd@.len() implies (cmd@[i] as u32) < 128 by {}
    }
    assert(is_ascii(verb)) by {
        assert forall|i: int| 0 <= i < verb@.len() implies (verb@[i] as u32) < 128 by {}
    }
    is_ascii_spec_bytes(cmd);
    is_ascii_spec_bytes(verb);
    let b = cmd.spec_bytes();
    let w = verb.spec_bytes();
    assert(w.len() == 2 && w[0] == 114 && w[1] == 109);
    assert(b.len() == 13 && b[0] == 114 && b[1] == 109 && b[2] == 32);
    assert(word_at(b, 0, w, false));
    assert(space_width_at(b, 2) == 1);
    assert(token_at(b, 0, w, false));
    assert(has_token(b, w, false));
    assert(delete_verbs(Platform::Unix)[0] == verb);
}

pub(crate) fn rm_pattern_of(platform: Platform) -> (pattern: &'static str)
    ensures
        pattern == rm_pattern(platform),
{
    match platform {
        Platform::Unix => UNIX_RM_PATTERN,
        Platform::Windows => WINDOWS_RM_PATTERN,
    }
}

fn delete_verb_list(platform: Platform) -> (verbs: Vec<&'static str>)
    ensures
        verbs@ == delete_verbs(platform),
{
    match platform {
        Platform::Unix => vec!["rm"],
        Platform::Windows => vec!["rm", "del", "rd", "rmdir", "remove-item"],
    }
}

/// Tells whether some deletion verb of `platform` stands in `cmd` as a whole
/// token.
pub fn has_delete_verb(platform: Platform, cmd: &str) -> (found: bool)
    ensures
        found == mentions_delete_verb(platform, cmd.spec_bytes()),
{
    let verbs = delete_verb_list(platform);
    let fold_case = platform == Platform::Windows;
    let bytes = cmd.as_bytes();
    let mut v: usize = 0;
    while v < verbs.len()
        invariant
            v <= verbs@.len(),
            verbs@ == delete_verbs(platform),
            fold_case == folds_case(platform),
            bytes@ == cmd.spec_bytes(),
            forall|w: int|
                0 <= w < v ==> !has_token(
                    bytes@,
                    (#[trigger] delete_verbs(platform)[w]).spec_bytes(),
                    fold_case,
                ),
        decreases verbs@.len() - v,
    {
        if contains_token(bytes, verbs[v].as_bytes(), fold_case) {
            return true;
        }
        v += 1;
    }
    false
}

/// Tells whether `cmd` runs a deletion command of `platform`.
///
/// A command that mentions no deletion verb as a whole token is never
/// reported, and none is where the engine rejects the platform's pattern.
pub fn is_rm_command_on(platform: Platform, cmd: &str) -> (blocked: bool)
    ensures
        blocked == rm_command(platform, cmd@),
        !mentions_delete_verb(platform, cmd.spec_bytes()) ==> !blocked,
{
    if !has_delete_verb(platform, cmd) {
        return false;
    }
    match pattern_matches(rm_pattern_of(platform), cmd) {
        Some(hit) => hit,
        None => false,
    }
}

/// Tells whether `cmd` runs `rm` in a POSIX shell, and so should be blocked.
pub fn is_rm_command(cmd: &str) -> (blocked: bool)
    ensures
        blocked == rm_command(Platform::Unix, cmd@),
        !mentions_delete_verb(Platform::Unix, cmd.spec_bytes()) ==> !blocked,
{
    is_rm_command_on(Platform::Unix, cmd)
}

/// A destructive use of `find`: the pattern that recognises it, and the words
/// that describe it.
#[derive(Clone, Copy, Debug)]
pub struct FindRule {
    pub pattern: &'static str,
    pub description: &'static str,
}

pub const FIND_DELETE_PATTERN: &'static str = r"(?i)find\s+.*-delete";

pub const FIND_EXEC_RM_PATTERN: &'static str = r"(?i)find\s+.*-exec\s+(sudo\s+)?(rm|rmdir)\s";

pub const FIND_EXECDIR_RM_PATTERN: &'static str =
    r"(?i)find\s+.*-execdir\s+(sudo\s+)?(rm|rmdir)\s";

pub const FIND_XARGS_RM_PATTERN: &'static str =
    r"(?i)find\s+.*\|\s*(sudo\s+)?xargs\s+(sudo\s+)?(rm|rmdir)";

pub const FIND_EXEC_MV_PATTERN: &'static str = r"(?i)find\s+.*-exec\s+(sudo\s+)?mv\s";

pub const FIND_OK_RM_PATTERN: &'static str = r"(?i)find\s+.*-ok\s+(sudo\s+)?(rm|rmdir)\s";

pub const FIND_EXECDIR_MV_PATTERN: &'static str = r"(?i)find\s+.*-execdir\s+(sudo\s+)?mv\s";

pub const FIND_OK_MV_PATTERN: &'static str = r"(?i)find\s+.*-ok\s+(sudo\s+)?mv\s";

pub const PIPED_MOVE_PATTERN: &'static str = r"(?i)\|\s*(move|move-item)\b";

pub const FIND_DELETE: &'static str = "find with -delete option";

pub const FIND_EXEC_RM: &'static str = "find with -exec rm/rmdir";

pub const FIND_EXECDIR_RM: &'static str = "find with -execdir rm/rmdir";

pub const FIND_XARGS_RM: &'static str = "find piped to xargs rm/rmdir";

pub const FIND_EXEC_MV: &'static str = "find with -exec mv";

pub const FIND_OK_RM: &'static str = "find with -ok rm/rmdir";

pub const FIND_EXECDIR_MV: &'static str = "find with -execdir mv";

pub const FIND_OK_MV: &'static str = "find with -ok mv";

pub const PIPED_MOVE: &'static str = "piped to move/move-item";

/// The pattern that a command of `platform` must match before any rule is
/// tried.
pub open spec fn find_gate(platform: Platform) -> &'static str {
    match platform {
        Platform::Unix => UNIX_FIND_GATE,
        Platform::Windows => WINDOWS_FIND_GATE,
    }
}

/// The rules of `platform`, in the order in which they are tried.
pub open spec fn find_rules(platform: Platform) -> Seq<FindRule> {
    match platform {
        Platform::Unix => seq![
            FindRule { pattern: FIND_DELETE_PATTERN, description: FIND_DELETE },
            FindRule { pattern: FIND_EXEC_RM_PATTERN, description: FIND_EXEC_RM },
            FindRule { pattern: FIND_EXECDIR_RM_PATTERN, description: FIND_EXECDIR_RM },
            FindRule { pattern: FIND_XARGS_RM_PATTERN, description: FIND_XARGS_RM },
            FindRule { pattern: FIND_EXEC_MV_PATTERN, description: FIND_EXEC_MV },
            FindRule { pattern: FIND_OK_RM_PATTERN, description: FIND_OK_RM },
            FindRule { pattern: FIND_EXECDIR_MV_PATTERN, description: FIND_EXECDIR_MV },
            FindRule { pattern: FIND_OK_MV_PATTERN, description: FIND_OK_MV },
        ],
        Platform::Windows => seq![
            FindRule { pattern: PIPED_MOVE_PATTERN, description: PIPED_MOVE },
        ],
    }
}

/// `i` is the first position of `hits` that holds `true`.
pub open spec fn is_first_hit(hits: Seq<bool>, i: int) -> bool {
    &&& 0 <= i < hits.len()
    &&& hits[i]
    &&& forall|j: int| 0 <= j < i ==> !hits[j]
}

/// The description of the first of `rules` whose position in `hits` holds
/// `true`; positions that one of the two lacks count as `false`.
pub open spec fn first_description(rules: Seq<FindRule>, hits: Seq<bool>) -> Option<&'static str> {
    if exists|i: int| i < rules.len() && is_first_hit(hits, i) {
        Some(rules[choose|i: int| i < rules.len() && is_first_hit(hits, i)].description)
    } else {
        None
    }
}

/// Which of `rules` match `text`, position by position.
pub open spec fn rule_hits(rules: Seq<FindRule>, text: Seq<char>) -> Seq<bool> {
    Seq::new(rules.len(), |i: int| pattern_hits(rules[i].pattern, text))
}

/// What `check_destructive_find_on` answers for `text`: nothing unless the
/// gate matches, and else the description of the first rule that matches.
pub open spec fn destructive_find(platform: Platform, text: Seq<char>) -> Option<&'static str> {
    if pattern_hits(find_gate(platform), text) {
        first_description(find_rules(platform), rule_hits(find_rules(platform), text))
    } else {
        None
    }
}

/// Two positions that are both the first hit are one position.
pub proof fn lemma_first_hit_unique(hits: Seq<bool>, i: int, j: int)
    requires
        is_first_hit(hits, i),
        is_first_hit(hits, j),
    ensures
        i == j,
{
    if i < j {
        assert(!hits[i]);
    } else if j < i {
        assert(!hits[j]);
    }
}

pub(crate) fn find_gate_of(platform: Platform) -> (pattern: &'static str)
    ensures
        pattern == find_gate(platform),
{
    match platform {
        Platform::Unix => UNIX_FIND_GATE,
        Platform::Windows => WINDOWS_FIND_GATE,
    }
}

/// The rules of `platform`, in the order in which they are tried.
pub fn find_rule_list(platform: Platform) -> (rules: Vec<FindRule>)
    ensures
        rules@ == find_rules(platform),
{
    match platform {
        Platform::Unix => vec![
            FindRule { pattern: FIND_DELETE_PATTERN, description: FIND_DELETE },
            FindRule { pattern: FIND_EXEC_RM_PATTERN, description: FIND_EXEC_RM },
            FindRule { pattern: FIND_EXECDIR_RM_PATTERN, description: FIND_EXECDIR_RM },
            FindRule { pattern: FIND_XARGS_RM_PATTERN, description: FIND_XARGS_RM },
            FindRule { pattern: FIND_EXEC_MV_PATTERN, description: FIND_EXEC_MV },
            FindRule { pattern: FIND_OK_RM_PATTERN, description: FIND_OK_RM },
            FindRule { pattern: FIND_EXECDIR_MV_PATTERN, description: FIND_EXECDIR_MV },
            FindRule { pattern: FIND_OK_MV_PATTERN, description: FIND_OK_MV },
        ],
        Platform::Windows => vec![
            FindRule { pattern: PIPED_MOVE_PATTERN, description: PIPED_MOVE },
        ],
    }
}

/// Picks the description of the first rule that hit, given for each rule
/// whether it did. The first hit wins; with no hit there is no description.
pub fn describe_first_hit(rules: &Vec<FindRule>, hits: &Vec<bool>) -> (description: Option<
    &'static str,
>)
    ensures
        description == first_description(rules@, hits@),
{
    let mut i: usize = 0;
    while i < rules.len() && i < hits.len()
        invariant
            i <= rules@.len(),
            i <= hits@.len(),
            forall|j: int| 0 <= j < i ==> !hits@[j],
        decreases rules@.len() - i,
    {
        if hits[i] {
            proof {
                assert(is_first_hit(hits@, i as int));
                let c = choose|c: int| c < rules@.len() && is_first_hit(hits@, c);
                lemma_first_hit_unique(hits@, i as int, c);
            }
            return Some(rules[i].description);
        }
        i += 1;
    }
    proof {
        assert forall|c: int| !(c < rules@.len() && is_first_hit(hits@, c)) by {
            if c < rules@.len() && is_first_hit(hits@, c) {
                assert(c < i);
            }
        }
    }
    None
}

/// Tells whether `cmd` is a destructive `find` command of `platform`, and if
/// so, in what way: the answer is the description of the first rule that
/// matches, and `None` for a command that is safe.
pub fn check_destructive_find_on(platform: Platform, cmd: &str) -> (description: Option<
    &'static str,
>)
    ensures
        description == destructive_find(platform, cmd@),
{
    match pattern_matches(find_gate_of(platform), cmd) {
        Some(true) => {},
        _ => {
            return None;
        },
    }
    let rules = find_rule_list(platform);
    let mut hits: Vec<bool> = Vec::new();
    let mut i: usize = 0;
    while i < rules.len()
        invariant
            i <= rules@.len(),
            hits@.len() == i,
            forall|j: int| 0 <= j < i ==> hits@[j] == pattern_hits(rules@[j].pattern, cmd@),
        decreases rules@.len() - i,
    {
        let hit = match pattern_matches(rules[i].pattern, cmd) {
            Some(hit) => hit,
            None => false,
        };
        hits.push(hit);
        i += 1;
    }
    assert(hits@ =~= rule_hits(rules@, cmd@));
    describe_first_hit(&rules, &hits)
}

/// Tells whether `cmd` is a destructive `find` command of a POSIX shell.
pub fn check_destructive_find(cmd: &str) -> (description: Option<&'static str>)
    ensures
        description == destructive_find(Platform::Unix, cmd@),
{
    check_destructive_find_on(Platform::Unix, cmd)
}

} // verus!
