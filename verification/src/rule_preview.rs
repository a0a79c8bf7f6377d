use vstd::prelude::*;
use crate::text::{contains_seq, str_contains, trim, trim_spec, const_str_eq};
use crate::tool_permissions::{
    ToolPermissionMode, MatchedPattern, ToolPermissions, implied_mode_spec, implied_mode_from_patterns,
    regex_new_error, regex_compile_error,
};
use crate::permission_settings::{
    ToolPermissionsContent, file_view, save_spec, rename_spec, effective_has, save_pattern, update_pattern,
};

verus! {

/// What the permission engine decided for a tool call.
pub enum ToolPermissionDecision {
    Allow,
    /// Denied, with the reason.
    Deny(String),
    Confirm,
}

/// The mode a decision stands for.
pub open spec fn decision_mode(d: ToolPermissionDecision) -> ToolPermissionMode {
    match d {
        ToolPermissionDecision::Allow => ToolPermissionMode::Allow,
        ToolPermissionDecision::Deny(_) => ToolPermissionMode::Deny,
        ToolPermissionDecision::Confirm => ToolPermissionMode::Confirm,
    }
}

/// The mode a decision stands for.
pub fn decision_to_mode(decision: &ToolPermissionDecision) -> (r: ToolPermissionMode)
    ensures
        r == decision_mode(*decision),
{
    match decision {
        ToolPermissionDecision::Allow => ToolPermissionMode::Allow,
        ToolPermissionDecision::Deny(_) => ToolPermissionMode::Deny,
        ToolPermissionDecision::Confirm => ToolPermissionMode::Confirm,
    }
}

/// The name a mode is shown by.
pub open spec fn mode_label_spec(mode: ToolPermissionMode) -> Seq<char> {
    match mode {
        ToolPermissionMode::Allow => "允许"@,
        ToolPermissionMode::Deny => "拒绝"@,
        ToolPermissionMode::Confirm => "确认"@,
    }
}

/// The name a mode is shown by.
pub fn mode_display_label(mode: ToolPermissionMode) -> (r: &'static str)
    ensures
        r@ == mode_label_spec(mode),
{
    match mode {
        ToolPermissionMode::Allow => "允许",
        ToolPermissionMode::Deny => "拒绝",
        ToolPermissionMode::Confirm => "确认",
    }
}

/// The colors labels on the page take.
#[derive(Clone, Copy, Debug, PartialEq, Eq, Structural)]
pub enum LabelColor {
    Success,
    Error,
    Warning,
    Muted,
}

/// The color of an outcome. Allow succeeds, deny is an error, confirm warns.
pub open spec fn verdict_color_spec(mode: ToolPermissionMode) -> LabelColor {
    match mode {
        ToolPermissionMode::Allow => LabelColor::Success,
        ToolPermissionMode::Deny => LabelColor::Error,
        ToolPermissionMode::Confirm => LabelColor::Warning,
    }
}

/// The color of an outcome.
pub fn verdict_color(mode: ToolPermissionMode) -> (r: LabelColor)
    ensures
        r == verdict_color_spec(mode),
{
    match mode {
        ToolPermissionMode::Allow => LabelColor::Success,
        ToolPermissionMode::Deny => LabelColor::Error,
        ToolPermissionMode::Confirm => LabelColor::Warning,
    }
}

/// The name of a rule list.
pub open spec fn list_label_spec(mode: ToolPermissionMode) -> Seq<char> {
    match mode {
        ToolPermissionMode::Allow => "始终允许"@,
        ToolPermissionMode::Deny => "始终拒绝"@,
        ToolPermissionMode::Confirm => "始终确认"@,
    }
}

/// How a matched pattern's list is labelled: the list's name, in the
/// outcome's color, muted where another rule overrides the pattern.
pub fn matched_pattern_label(pattern: &MatchedPattern) -> (r: (&'static str, LabelColor))
    ensures
        r.0@ == list_label_spec(pattern.rule_type),
        r.1 == if pattern.is_overridden {
            LabelColor::Muted
        } else {
            verdict_color_spec(pattern.rule_type)
        },
{
    let label = match pattern.rule_type {
        ToolPermissionMode::Deny => "始终拒绝",
        ToolPermissionMode::Confirm => "始终确认",
        ToolPermissionMode::Allow => "始终允许",
    };
    let color = if pattern.is_overridden {
        LabelColor::Muted
    } else {
        verdict_color(pattern.rule_type)
    };
    (label, color)
}

/// The list an invalid pattern's `rule_type` names: `always_allow`,
/// `always_deny`, and confirm for anything else.
pub open spec fn invalid_rule_mode_spec(rule_type: Seq<char>) -> ToolPermissionMode {
    if rule_type == "always_allow"@ {
        ToolPermissionMode::Allow
    } else if rule_type == "always_deny"@ {
        ToolPermissionMode::Deny
    } else {
        ToolPermissionMode::Confirm
    }
}

/// The list an invalid pattern is deleted from.
pub fn invalid_rule_mode(rule_type: &str) -> (r: ToolPermissionMode)
    ensures
        r == invalid_rule_mode_spec(rule_type@),
{
    if const_str_eq(rule_type, "always_allow") {
        ToolPermissionMode::Allow
    } else if const_str_eq(rule_type, "always_deny") {
        ToolPermissionMode::Deny
    } else {
        ToolPermissionMode::Confirm
    }
}

/// How an invalid pattern's `rule_type` is shown: the list's name for the
/// three known ones, the text itself for anything else.
pub open spec fn invalid_rule_label_spec(rule_type: Seq<char>) -> Seq<char> {
    if rule_type == "always_allow"@ {
        "始终允许"@
    } else if rule_type == "always_deny"@ {
        "始终拒绝"@
    } else if rule_type == "always_confirm"@ {
        "始终确认"@
    } else {
        rule_type
    }
}

/// How an invalid pattern's `rule_type` is shown.
pub fn invalid_rule_label(rule_type: &str) -> (r: String)
    ensures
        r@ == invalid_rule_label_spec(rule_type@),
{
    if const_str_eq(rule_type, "always_allow") {
        String::from_str("始终允许")
    } else if const_str_eq(rule_type, "always_deny") {
        String::from_str("始终拒绝")
    } else if const_str_eq(rule_type, "always_confirm") {
        String::from_str("始终确认")
    } else {
        String::from_str(rule_type)
    }
}

/// The mark of a denial by the built-in security rules.
pub open spec fn builtin_rules_mark() -> Seq<char> {
    "内置安全规则"@
}

/// The decision is a denial by the built-in security rules.
pub open spec fn is_hardcoded_denial(decision: Option<ToolPermissionDecision>) -> bool {
    match decision {
        Some(ToolPermissionDecision::Deny(reason)) => contains_seq(reason@, builtin_rules_mark()),
        _ => false,
    }
}

/// The reason of a denial that is neither empty nor by the built-in rules.
pub open spec fn denial_reason_spec(decision: Option<ToolPermissionDecision>) -> Option<Seq<char>> {
    match decision {
        Some(ToolPermissionDecision::Deny(reason)) => if reason@.len() > 0 && !contains_seq(
            reason@,
            builtin_rules_mark(),
        ) {
            Some(reason@)
        } else {
            None
        },
        _ => None,
    }
}

/// A line under the test input on a tool's page.
#[derive(Clone, Copy, Debug, PartialEq, Eq, Structural)]
pub enum PreviewLine {
    /// "没有匹配的正则表达式，使用默认操作。"
    NoMatch,
    /// The matched patterns, each with its list.
    MatchedPatterns,
    /// The description of the built-in security rules.
    HardcodedRules,
    /// The denial's reason, as a warning (`denied_text`).
    Denied,
    /// "模式预览与引擎判定不一致——显示权威结果。"
    Disagreement,
    /// "结果：" and the name of the outcome.
    Outcome(ToolPermissionMode),
    /// The denial's reason, as an error (`reason_text`).
    Reason,
}

/// The lines shown for an outcome. Where the preview agrees with it, the
/// matched patterns (or that none matched), then the built-in rules for a
/// denial by them; where it does not, the built-in rules, else the denial's
/// reason, else a note of the disagreement. Then the outcome, and last the
/// reason of an agreed denial. Nothing without an outcome.
pub open spec fn preview_lines_spec(
    outcome: Option<ToolPermissionMode>,
    agree: bool,
    hardcoded: bool,
    has_reason: bool,
    no_matches: bool,
) -> Seq<PreviewLine> {
    match outcome {
        None => Seq::empty(),
        Some(m) => {
            let first = if agree {
                if no_matches {
                    PreviewLine::NoMatch
                } else {
                    PreviewLine::MatchedPatterns
                }
            } else if hardcoded {
                PreviewLine::HardcodedRules
            } else if has_reason {
                PreviewLine::Denied
            } else {
                PreviewLine::Disagreement
            };
            let banner: Seq<PreviewLine> = if hardcoded && agree {
                seq![PreviewLine::HardcodedRules]
            } else {
                Seq::empty()
            };
            let reason: Seq<PreviewLine> = if agree && has_reason {
                seq![PreviewLine::Reason]
            } else {
                Seq::empty()
            };
            seq![first] + banner + seq![PreviewLine::Outcome(m)] + reason
        },
    }
}

/// What the page shows for a test input.
pub struct VerificationPreview {
    /// The engine's outcome, the one shown.
    pub outcome: Option<ToolPermissionMode>,
    /// The matched patterns imply the same outcome.
    pub patterns_agree: bool,
    pub is_hardcoded_denial: bool,
    pub denial_reason: Option<String>,
    pub lines: Vec<PreviewLine>,
}

/// What the page shows for a test input, given the engine's decision
/// (`None` while the input is empty) and the patterns the input matched.
pub fn verification_preview(
    decision: &Option<ToolPermissionDecision>,
    matched: &Vec<MatchedPattern>,
    default_mode: ToolPermissionMode,
) -> (r: VerificationPreview)
    ensures
        r.outcome == match *decision {
            Some(d) => Some(decision_mode(d)),
            None => None,
        },
        r.patterns_agree == match *decision {
            Some(d) => decision_mode(d) == implied_mode_spec(matched@, default_mode),
            None => true,
        },
        r.is_hardcoded_denial == is_hardcoded_denial(*decision),
        match r.denial_reason {
            Some(t) => denial_reason_spec(*decision) == Some(t@),
            None => denial_reason_spec(*decision) is None,
        },
        r.lines@ == preview_lines_spec(
            r.outcome,
            r.patterns_agree,
            r.is_hardcoded_denial,
            r.denial_reason is Some,
            matched@.len() == 0,
        ),
{
    let hardcoded = match decision {
        Some(ToolPermissionDecision::Deny(reason)) => str_contains(reason.as_str(), "内置安全规则"),
        _ => false,
    };
    let denial_reason = match decision {
        Some(ToolPermissionDecision::Deny(reason)) => {
            if reason.unicode_len() > 0 && !hardcoded {
                Some(reason.clone())
            } else {
                None
            }
        },
        _ => None,
    };
    let (outcome, agree) = match decision {
        Some(d) => {
            let authoritative = decision_to_mode(d);
            let implied = implied_mode_from_patterns(matched, default_mode);
            (Some(authoritative), authoritative == implied)
        },
        None => (None, true),
    };
    let mut lines: Vec<PreviewLine> = Vec::new();
    match outcome {
        None => {},
        Some(m) => {
            if agree {
                if matched.len() == 0 {
                    lines.push(PreviewLine::NoMatch);
                } else {
                    lines.push(PreviewLine::MatchedPatterns);
                }
            } else if hardcoded {
                lines.push(PreviewLine::HardcodedRules);
            } else if denial_reason.is_some() {
                lines.push(PreviewLine::Denied);
            } else {
                lines.push(PreviewLine::Disagreement);
            }
            if hardcoded && agree {
                lines.push(PreviewLine::HardcodedRules);
            }
            lines.push(PreviewLine::Outcome(m));
            if agree && denial_reason.is_some() {
                lines.push(PreviewLine::Reason);
            }
        },
    }
    let r = VerificationPreview {
        outcome,
        patterns_agree: agree,
        is_hardcoded_denial: hardcoded,
        denial_reason,
        lines,
    };
    assert(r.lines@ =~= preview_lines_spec(
        r.outcome,
        r.patterns_agree,
        r.is_hardcoded_denial,
        r.denial_reason is Some,
        matched@.len() == 0,
    ));
    r
}

/// The warning shown for a denial the preview does not explain.
pub fn denied_text(reason: &str) -> (r: String)
    ensures
        r@ == "已拒绝："@ + reason@,
{
    let mut out = String::from_str("已拒绝：");
    out.append(reason);
    out
}

/// The error line under an explained denial.
pub fn reason_text(reason: &str) -> (r: String)
    ensures
        r@ == "原因："@ + reason@,
{
    let mut out = String::from_str("原因：");
    out.append(reason);
    out
}

/// The warning for a pattern that was saved but does not compile, with the
/// regex error's message.
pub open spec fn invalid_regex_message(err: Seq<char>) -> Seq<char> {
    "无效的正则表达式："@ + err + "。模式已保存，但在修复或删除之前将阻止此工具。"@
}

/// The warning for a saved pattern, given the error `regex::Regex::new`
/// gave for it: none where it compiled.
pub fn pattern_error_message(err: Option<String>) -> (r: Option<String>)
    ensures
        match err {
            Some(e) => r is Some && r->0@ == invalid_regex_message(e@),
            None => r is None,
        },
{
    match err {
        Some(e) => {
            let mut out = String::from_str("无效的正则表达式：");
            out.append(e.as_str());
            out.append("。模式已保存，但在修复或删除之前将阻止此工具。");
            Some(out)
        },
        None => None,
    }
}

/// The warning for a saved pattern: none where it compiles.
pub open spec fn validation_spec(pat: Seq<char>) -> Option<Seq<char>> {
    match regex_new_error(pat) {
        Some(e) => Some(invalid_regex_message(e)),
        None => None,
    }
}

/// The warning for a saved pattern, from compiling it.
fn validate_pattern(pattern: &str) -> (r: Option<String>)
    ensures
        match r {
            Some(t) => validation_spec(pattern@) == Some(t@),
            None => validation_spec(pattern@) is None,
        },
{
    pattern_error_message(regex_compile_error(pattern))
}

/// The message for a rename refused because the list has the new pattern.
pub open spec fn duplicate_message() -> Seq<char> {
    "此规则列表中已存在同名模式。"@
}

/// Confirms the "add pattern" input of a list. Nothing happens (`None`) for
/// no input or a blank one; otherwise the trimmed pattern is saved and the
/// result is the new warning of the page: the regex error where it does
/// not compile, none where it does.
pub fn confirm_new_pattern(
    settings: &mut Option<ToolPermissionsContent>,
    tool_name: &str,
    rule_type: ToolPermissionMode,
    input: Option<String>,
) -> (r: Option<Option<String>>)
    ensures
        match input {
            None => r is None && *final(settings) == *old(settings),
            Some(text) => if trim_spec(text@).len() == 0 {
                r is None && *final(settings) == *old(settings)
            } else {
                &&& file_view(*final(settings)) == Some(
                    save_spec(file_view(*old(settings)), tool_name@, rule_type, trim_spec(text@)),
                )
                &&& r is Some
                &&& match r->0 {
                    Some(t) => validation_spec(trim_spec(text@)) == Some(t@),
                    None => validation_spec(trim_spec(text@)) is None,
                }
            },
        },
{
    match input {
        None => None,
        Some(text) => {
            let trimmed = trim(text.as_str());
            if trimmed.unicode_len() == 0 {
                return None;
            }
            let message = validate_pattern(trimmed.as_str());
            save_pattern(settings, tool_name, rule_type, trimmed);
            Some(message)
        },
    }
}

/// Confirms the edited text of a listed pattern. Nothing happens (`None`)
/// for no input, a blank one, or one that trims to the pattern itself.
/// Otherwise the pattern is renamed to the trimmed text as `update_pattern`
/// does, and the result is the new warning of the page: the duplicate
/// message where the rename was refused, else the regex error where the
/// text does not compile, else none.
pub fn confirm_pattern_edit(
    effective: &ToolPermissions,
    settings: &mut Option<ToolPermissionsContent>,
    tool_name: &str,
    rule_type: ToolPermissionMode,
    old_pattern: &str,
    input: Option<String>,
) -> (r: Option<Option<String>>)
    ensures
        match input {
            None => r is None && *final(settings) == *old(settings),
            Some(text) => if trim_spec(text@).len() == 0 || trim_spec(text@) == old_pattern@ {
                r is None && *final(settings) == *old(settings)
            } else if effective_has(*effective, tool_name@, rule_type, trim_spec(text@)) {
                &&& *final(settings) == *old(settings)
                &&& r is Some
                &&& r->0 is Some
                &&& r->0->0@ == duplicate_message()
            } else {
                &&& file_view(*final(settings)) == Some(
                    rename_spec(file_view(*old(settings)), tool_name@, rule_type, old_pattern@, trim_spec(text@)),
                )
                &&& r is Some
                &&& match r->0 {
                    Some(t) => validation_spec(trim_spec(text@)) == Some(t@),
                    None => validation_spec(trim_spec(text@)) is None,
                }
            },
        },
{
    match input {
        None => None,
        Some(text) => {
            let trimmed = trim(text.as_str());
            if trimmed.unicode_len() == 0 || const_str_eq(trimmed.as_str(), old_pattern) {
                return None;
            }
            let message = validate_pattern(trimmed.as_str());
            let updated = update_pattern(effective, settings, tool_name, rule_type, old_pattern, trimmed);
            if !updated {
                Some(Some(String::from_str("此规则列表中已存在同名模式。")))
            } else {
                Some(message)
            }
        },
    }
}

} // verus!
