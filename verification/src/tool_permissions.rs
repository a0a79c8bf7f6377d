use vstd::prelude::*;
use vstd::string::*;
use crate::text::{const_str_eq, push_char, usize_to_decimal, decimal_spec, str_contains, contains_seq};

verus! {

/// What happens to a tool call.
#[derive(Clone, Copy, Debug, PartialEq, Eq, Structural)]
pub enum ToolPermissionMode {
    Allow,
    Deny,
    Confirm,
}

/// A tool whose calls permission rules govern.
pub struct ToolInfo {
    pub id: &'static str,
    pub name: &'static str,
    pub description: &'static str,
    pub regex_explanation: &'static str,
}

/// Number of tools with permission rules.
pub const TOOL_COUNT: usize = 10;

/// The id of the `i`-th tool.
pub open spec fn tool_id_spec(i: int) -> Seq<char> {
    if i == 0 {
        "terminal"@
    } else if i == 1 {
        "edit_file"@
    } else if i == 2 {
        "delete_path"@
    } else if i == 3 {
        "copy_path"@
    } else if i == 4 {
        "move_path"@
    } else if i == 5 {
        "create_directory"@
    } else if i == 6 {
        "save_file"@
    } else if i == 7 {
        "fetch"@
    } else if i == 8 {
        "search_web"@
    } else {
        "restore_file_from_disk"@
    }
}

/// The name of the `i`-th tool.
pub open spec fn tool_name_spec(i: int) -> Seq<char> {
    if i == 0 {
        "终端"@
    } else if i == 1 {
        "编辑文件"@
    } else if i == 2 {
        "删除路径"@
    } else if i == 3 {
        "复制路径"@
    } else if i == 4 {
        "移动路径"@
    } else if i == 5 {
        "创建目录"@
    } else if i == 6 {
        "保存文件"@
    } else if i == 7 {
        "获取"@
    } else if i == 8 {
        "网页搜索"@
    } else {
        "从磁盘恢复文件"@
    }
}

/// The description of the `i`-th tool.
pub open spec fn tool_description_spec(i: int) -> Seq<char> {
    if i == 0 {
        "在终端中执行的命令"@
    } else if i == 1 {
        "文件编辑操作"@
    } else if i == 2 {
        "删除文件和目录"@
    } else if i == 3 {
        "复制文件和目录"@
    } else if i == 4 {
        "移动/重命名文件和目录"@
    } else if i == 5 {
        "目录创建"@
    } else if i == 6 {
        "文件保存操作"@
    } else if i == 7 {
        "对 URL 发起 HTTP 请求"@
    } else if i == 8 {
        "网页搜索查询"@
    } else {
        "重新加载磁盘版本以放弃未保存的更改"@
    }
}

/// What the patterns of the `i`-th tool are matched against.
pub open spec fn tool_regex_explanation_spec(i: int) -> Seq<char> {
    if i == 0 {
        "对输入中的每个命令进行模式匹配。使用 &&、||、; 或管道连接的多个命令会被分割并单独检查。"@
    } else if i == 1 {
        "对要编辑的文件路径进行模式匹配。"@
    } else if i == 2 {
        "对要删除的路径进行模式匹配。"@
    } else if i == 3 {
        "针对源路径和目标路径分别进行模式匹配。输入任一路径即可在下方测试。"@
    } else if i == 4 {
        "针对源路径和目标路径分别进行模式匹配。输入任一路径即可在下方测试。"@
    } else if i == 5 {
        "对要创建的目录路径进行模式匹配。"@
    } else if i == 6 {
        "对要保存的文件路径进行模式匹配。"@
    } else if i == 7 {
        "对请求的 URL 进行模式匹配。"@
    } else if i == 8 {
        "对搜索查询进行模式匹配。"@
    } else {
        "对要恢复的文件路径进行模式匹配。"@
    }
}

/// The tools with permission rules, in the order the page lists them.
pub fn tool_info(i: usize) -> (r: ToolInfo)
    requires
        i < TOOL_COUNT,
    ensures
        r.id@ == tool_id_spec(i as int),
        r.name@ == tool_name_spec(i as int),
        r.description@ == tool_description_spec(i as int),
        r.regex_explanation@ == tool_regex_explanation_spec(i as int),
{
    match i {
        0 => ToolInfo {
            id: "terminal",
            name: "终端",
            description: "在终端中执行的命令",
            regex_explanation: "对输入中的每个命令进行模式匹配。使用 &&、||、; 或管道连接的多个命令会被分割并单独检查。",
        },
        1 => ToolInfo {
            id: "edit_file",
            name: "编辑文件",
            description: "文件编辑操作",
            regex_explanation: "对要编辑的文件路径进行模式匹配。",
        },
        2 => ToolInfo {
            id: "delete_path",
            name: "删除路径",
            description: "删除文件和目录",
            regex_explanation: "对要删除的路径进行模式匹配。",
        },
        3 => ToolInfo {
            id: "copy_path",
            name: "复制路径",
            description: "复制文件和目录",
            regex_explanation: "针对源路径和目标路径分别进行模式匹配。输入任一路径即可在下方测试。",
        },
        4 => ToolInfo {
            id: "move_path",
            name: "移动路径",
            description: "移动/重命名文件和目录",
            regex_explanation: "针对源路径和目标路径分别进行模式匹配。输入任一路径即可在下方测试。",
        },
        5 => ToolInfo {
            id: "create_directory",
            name: "创建目录",
            description: "目录创建",
            regex_explanation: "对要创建的目录路径进行模式匹配。",
        },
        6 => ToolInfo {
            id: "save_file",
            name: "保存文件",
            description: "文件保存操作",
            regex_explanation: "对要保存的文件路径进行模式匹配。",
        },
        7 => ToolInfo {
            id: "fetch",
            name: "获取",
            description: "对 URL 发起 HTTP 请求",
            regex_explanation: "对请求的 URL 进行模式匹配。",
        },
        8 => ToolInfo {
            id: "search_web",
            name: "网页搜索",
            description: "网页搜索查询",
            regex_explanation: "对搜索查询进行模式匹配。",
        },
        _ => ToolInfo {
            id: "restore_file_from_disk",
            name: "从磁盘恢复文件",
            description: "重新加载磁盘版本以放弃未保存的更改",
            regex_explanation: "对要恢复的文件路径进行模式匹配。",
        },
    }
}

/// `id` names the `i`-th tool and no earlier one.
pub open spec fn first_tool_with_id(id: Seq<char>, i: int) -> bool {
    &&& 0 <= i < TOOL_COUNT
    &&& tool_id_spec(i) == id
    &&& forall|j: int| 0 <= j < i ==> tool_id_spec(j) != id
}

/// Some tool has the id `id`.
pub open spec fn is_tool_id(id: Seq<char>) -> bool {
    exists|i: int| 0 <= i < TOOL_COUNT && tool_id_spec(i) == id
}

/// Searches the tools for `id`.
fn find_tool_id(id: &str) -> (r: Option<usize>)
    ensures
        match r {
            Some(i) => first_tool_with_id(id@, i as int),
            None => !is_tool_id(id@),
        },
{
    let mut i: usize = 0;
    while i < TOOL_COUNT
        invariant
            i <= TOOL_COUNT,
            forall|j: int| 0 <= j < i ==> tool_id_spec(j) != id@,
        decreases TOOL_COUNT - i,
    {
        let info = tool_info(i);
        if const_str_eq(info.id, id) {
            return Some(i);
        }
        i = i + 1;
    }
    None
}

/// The index of the tool with id `id`, which must be one of the tools.
pub fn tool_index(id: &str) -> (r: usize)
    requires
        is_tool_id(id@),
    ensures
        first_tool_with_id(id@, r as int),
{
    match find_tool_id(id) {
        Some(i) => i,
        None => 0,
    }
}

/// The tool whose settings page a tool's "configure" button opens: the tool
/// itself, or the terminal for an unknown id.
pub fn get_tool_render_fn(tool_id: &str) -> (r: usize)
    ensures
        is_tool_id(tool_id@) ==> first_tool_with_id(tool_id@, r as int),
        !is_tool_id(tool_id@) ==> r == 0,
{
    match find_tool_id(tool_id) {
        Some(i) => i,
        None => 0,
    }
}

/// The tool id of the terminal, whose commands are split before matching.
pub open spec fn terminal_id() -> Seq<char> {
    "terminal"@
}

/// The number of characters of `s` that are backticks.
pub open spec fn tick_count(s: Seq<char>) -> nat {
    s.filter(|c: char| c == '`').len()
}

/// `s` without its backticks.
pub open spec fn strip_ticks(s: Seq<char>) -> Seq<char> {
    s.filter(|c: char| c != '`')
}

/// The UTF-8 length of `s`, as `str::len` reports it.
pub open spec fn byte_len(s: Seq<char>) -> usize {
    vstd::utf8::encode_utf8(s).len() as usize
}

/// A highlighted range of bytes.
#[derive(Clone, Copy, Debug, PartialEq, Eq, Structural)]
pub struct CodeRange {
    pub start: usize,
    pub end: usize,
}

/// Where the `k`-th backtick of `text` is (counting from 0), if at position `p`:
/// in the text without backticks, the code span it opens (`k` even) or closes
/// (`k` odd) starts or ends at the UTF-8 length of what comes before it.
pub open spec fn tick_at(text: Seq<char>, p: int, k: nat) -> bool {
    0 <= p < text.len() && text[p] == '`' && tick_count(text.take(p)) == k
}

/// The text with its backticks removed, and the byte ranges of the
/// backtick-delimited spans in it. An unmatched last backtick opens no span.
pub fn render_inline_code_markdown(text: &str) -> (r: (String, Vec<CodeRange>))
    ensures
        r.0@ == strip_ticks(text@),
        r.1@.len() == tick_count(text@) / 2,
        forall|p: int, m: int|
            0 <= m < r.1@.len() && #[trigger] tick_at(text@, p, (2 * m) as nat) ==> (#[trigger] r.1@[m]).start
                == byte_len(strip_ticks(text@.take(p))),
        forall|p: int, m: int|
            0 <= m < r.1@.len() && #[trigger] tick_at(text@, p, (2 * m + 1) as nat) ==> (#[trigger] r.1@[m]).end
                == byte_len(strip_ticks(text@.take(p))),
{
    broadcast use vstd::seq_lib::group_filter_ensures;
    let n = text.unicode_len();
    let mut plain = String::new();
    let mut ranges: Vec<CodeRange> = Vec::new();
    let mut in_code = false;
    let mut code_start: usize = 0;
    let ghost mut open_at: int = 0;
    let mut i: usize = 0;
    while i < n
        invariant
            n == text@.len(),
            i <= n,
            plain@ == strip_ticks(text@.take(i as int)),
            ranges@.len() == tick_count(text@.take(i as int)) / 2,
            in_code == (tick_count(text@.take(i as int)) % 2 == 1),
            in_code ==> tick_at(text@, open_at, (2 * ranges@.len()) as nat) && open_at < i && code_start
                == byte_len(strip_ticks(text@.take(open_at))),
            forall|p: int, m: int|
                0 <= m < ranges@.len() && #[trigger] tick_at(text@, p, (2 * m) as nat) ==> (#[trigger] ranges@[m]).start
                    == byte_len(strip_ticks(text@.take(p))),
            forall|p: int, m: int|
                0 <= m < ranges@.len() && #[trigger] tick_at(text@, p, (2 * m + 1) as nat) ==> (#[trigger] ranges@[m]).end
                    == byte_len(strip_ticks(text@.take(p))),
            forall|p: int| #[trigger] tick_at(text@, p, tick_count(text@.take(i as int))) ==> p >= i,
        decreases n - i,
    {
        let c = text.get_char(i);
        let ghost pre = text@.take(i as int);
        proof {
            assert(text@.take(i + 1) =~= pre.push(c));
            pre.lemma_filter_push(c, |c: char| c == '`');
            pre.lemma_filter_push(c, |c: char| c != '`');
        }
        if c == '`' {
            let here = plain.as_str().len();
            if in_code {
                proof {
                    assert(tick_count(pre) == 2 * ranges@.len() + 1);
                    assert(tick_at(text@, i as int, tick_count(pre)));
                }
                ranges.push(CodeRange { start: code_start, end: here });
                proof {
                    let m = ranges@.len() - 1;
                    assert forall|p: int, mm: int|
                        0 <= mm < ranges@.len() && #[trigger] tick_at(text@, p, (2 * mm) as nat) implies (#[trigger] ranges@[mm]).start
                            == byte_len(strip_ticks(text@.take(p))) by {
                        if mm == m {
                            lemma_tick_unique(text@, p, open_at, (2 * mm) as nat);
                        }
                    }
                    assert forall|p: int, mm: int|
                        0 <= mm < ranges@.len() && #[trigger] tick_at(text@, p, (2 * mm + 1) as nat) implies (#[trigger] ranges@[mm]).end
                            == byte_len(strip_ticks(text@.take(p))) by {
                        if mm == m {
                            lemma_tick_unique(text@, p, i as int, (2 * mm + 1) as nat);
                        }
                    }
                }
            } else {
                code_start = here;
                proof {
                    assert(tick_count(pre) == 2 * ranges@.len());
                    assert(tick_at(text@, i as int, tick_count(pre)));
                    open_at = i as int;
                }
            }
            in_code = !in_code;
        } else {
            push_char(&mut plain, c);
        }
        proof {
            assert forall|p: int| #[trigger] tick_at(text@, p, tick_count(text@.take(i + 1))) implies p >= i + 1 by {
                if p <= i {
                    lemma_tick_count_mono(text@, p, i + 1);
                    if p < i {
                        lemma_tick_count_mono(text@, p + 1, i as int);
                        assert(text@.take(p + 1) =~= text@.take(p).push(text@[p]));
                        text@.take(p).lemma_filter_push(text@[p], |c: char| c == '`');
                    }
                }
            }
        }
        i = i + 1;
    }
    assert(text@.take(n as int) =~= text@);
    (plain, ranges)
}

proof fn lemma_tick_count_mono(s: Seq<char>, a: int, b: int)
    requires
        0 <= a <= b <= s.len(),
    ensures
        tick_count(s.take(a)) <= tick_count(s.take(b)),
    decreases b - a,
{
    broadcast use vstd::seq_lib::group_filter_ensures;
    if a < b {
        lemma_tick_count_mono(s, a, b - 1);
        assert(s.take(b) =~= s.take(b - 1).push(s[b - 1]));
        s.take(b - 1).lemma_filter_push(s[b - 1], |c: char| c == '`');
    }
}

proof fn lemma_tick_unique(s: Seq<char>, p: int, q: int, k: nat)
    requires
        tick_at(s, p, k),
        tick_at(s, q, k),
    ensures
        p == q,
{
    broadcast use vstd::seq_lib::group_filter_ensures;
    if p < q {
        lemma_tick_count_mono(s, p + 1, q);
        assert(s.take(p + 1) =~= s.take(p).push(s[p]));
        s.take(p).lemma_filter_push(s[p], |c: char| c == '`');
    } else if q < p {
        lemma_tick_count_mono(s, q + 1, p);
        assert(s.take(q + 1) =~= s.take(q).push(s[q]));
        s.take(q).lemma_filter_push(s[q], |c: char| c == '`');
    }
}


/// The rule count and invalid-pattern count of a tool, as its list entry
/// summarises them: "N 条规则" and "N 个无效", joined by a comma, leaving out
/// a zero count; nothing when both are zero.
pub open spec fn rule_summary_spec(rule_count: nat, invalid_count: nat) -> Option<Seq<char>> {
    let rules = decimal_spec(rule_count) + " 条规则"@;
    let invalid = decimal_spec(invalid_count) + " 个无效"@;
    if rule_count > 0 && invalid_count > 0 {
        Some(rules + "，"@ + invalid)
    } else if rule_count > 0 {
        Some(rules)
    } else if invalid_count > 0 {
        Some(invalid)
    } else {
        None
    }
}

/// The summary shown next to a tool's name.
pub fn rule_summary(rule_count: usize, invalid_count: usize) -> (r: Option<String>)
    ensures
        match r {
            Some(t) => rule_summary_spec(rule_count as nat, invalid_count as nat) == Some(t@),
            None => rule_summary_spec(rule_count as nat, invalid_count as nat) is None,
        },
{
    if rule_count == 0 && invalid_count == 0 {
        return None;
    }
    let mut out = String::new();
    if rule_count > 0 {
        out.append(usize_to_decimal(rule_count).as_str());
        out.append(" 条规则");
    }
    if invalid_count > 0 {
        if rule_count > 0 {
            out.append("，");
        }
        out.append(usize_to_decimal(invalid_count).as_str());
        out.append(" 个无效");
    }
    proof {
        if rule_count > 0 && invalid_count > 0 {
            assert(out@ =~= decimal_spec(rule_count as nat) + " 条规则"@ + "，"@ + (decimal_spec(invalid_count as nat) + " 个无效"@));
        } else if rule_count > 0 {
            assert(out@ =~= decimal_spec(rule_count as nat) + " 条规则"@);
        } else {
            assert(out@ =~= decimal_spec(invalid_count as nat) + " 个无效"@);
        }
    }
    Some(out)
}

/// Whether `text` contains a match of `pattern`, compiled by the `regex`
/// crate with case-insensitive matching exactly when `case_sensitive` is
/// false; `None` when the pattern does not compile.
pub uninterp spec fn regex_match_outcome(pattern: Seq<char>, case_sensitive: bool, text: Seq<char>) -> Option<bool>;

/// The message of the error that `regex::Regex::new` gives for `pattern`,
/// `None` when it compiles.
pub uninterp spec fn regex_new_error(pattern: Seq<char>) -> Option<Seq<char>>;

/// Compiles `pattern` with `regex::RegexBuilder` (case-insensitive exactly when
/// `case_sensitive` is false) and tests `text` with `Regex::is_match`.
///
/// Trusted: the contract only names the outcome, a function of the three
/// arguments (compilation and matching are deterministic and do not panic).
#[verifier::external_body]
fn regex_is_match(pattern: &str, case_sensitive: bool, text: &str) -> (r: Option<bool>)
    ensures
        r == regex_match_outcome(pattern@, case_sensitive, text@),
{
    match regex::RegexBuilder::new(pattern).case_insensitive(!case_sensitive).build() {
        Ok(re) => Some(re.is_match(text)),
        Err(_) => None,
    }
}

/// Compiles `pattern` with `regex::Regex::new` and gives the error's message.
///
/// Trusted: the contract only names the message, a function of the pattern.
#[verifier::external_body]
pub(crate) fn regex_compile_error(pattern: &str) -> (r: Option<String>)
    ensures
        match r {
            Some(e) => regex_new_error(pattern@) == Some(e@),
            None => regex_new_error(pattern@) is None,
        },
{
    match regex::Regex::new(pattern) {
        Ok(_) => None,
        Err(e) => Some(e.to_string()),
    }
}

/// The text that `pattern` contains a match of, as compiled for this rule.
pub open spec fn rule_matches(rule: CompiledRule, text: Seq<char>) -> bool {
    regex_match_outcome(rule.pattern@, rule.case_sensitive, text) == Some(true)
}

/// A rule that compiled.
pub struct CompiledRule {
    pub pattern: String,
    pub case_sensitive: bool,
}

/// A pattern that did not compile, with the list it is in and the error.
pub struct InvalidPattern {
    pub pattern: String,
    /// `always_allow`, `always_deny` or `always_confirm`.
    pub rule_type: String,
    pub error: String,
}

/// A tool's rules as the settings in effect give them.
pub struct ToolRules {
    pub default: Option<ToolPermissionMode>,
    pub always_allow: Vec<CompiledRule>,
    pub always_deny: Vec<CompiledRule>,
    pub always_confirm: Vec<CompiledRule>,
    pub invalid_patterns: Vec<InvalidPattern>,
}

/// The tool permissions in effect.
pub struct ToolPermissions {
    pub default: ToolPermissionMode,
    /// Each tool's name with its rules.
    pub tools: Vec<(String, ToolRules)>,
}

/// Index of the first entry named `name`, or -1.
pub open spec fn entry_index<T>(entries: Seq<(String, T)>, name: Seq<char>) -> int
    decreases entries.len(),
{
    if entries.len() == 0 {
        -1
    } else {
        let r = entry_index(entries.drop_last(), name);
        if r >= 0 {
            r
        } else if entries.last().0@ == name {
            entries.len() - 1
        } else {
            -1
        }
    }
}

proof fn lemma_entry_index<T>(entries: Seq<(String, T)>, name: Seq<char>, k: int)
    requires
        0 <= k <= entries.len(),
        forall|t: int| 0 <= t < k ==> entries[t].0@ != name,
        k < entries.len() ==> entries[k].0@ == name,
    ensures
        entry_index(entries, name) == (if k < entries.len() { k } else { -1 }),
    decreases entries.len(),
{
    if entries.len() > 0 {
        if k < entries.len() {
            lemma_entry_index(entries.drop_last(), name, k);
        } else {
            lemma_entry_index(entries.drop_last(), name, k - 1);
        }
    }
}

/// The position of the first entry named `name`.
pub fn find_entry<T>(entries: &Vec<(String, T)>, name: &str) -> (r: Option<usize>)
    ensures
        match r {
            Some(k) => k < entries@.len() && entry_index(entries@, name@) == k,
            None => entry_index(entries@, name@) == -1,
        },
{
    let mut k: usize = 0;
    while k < entries.len()
        invariant
            k <= entries@.len(),
            forall|t: int| 0 <= t < k ==> entries@[t].0@ != name@,
        decreases entries@.len() - k,
    {
        if const_str_eq(entries[k].0.as_str(), name) {
            proof {
                lemma_entry_index(entries@, name@, k as int);
            }
            return Some(k);
        }
        k = k + 1;
    }
    proof {
        lemma_entry_index(entries@, name@, k as int);
    }
    None
}

/// A rule list's patterns.
pub open spec fn rule_patterns(rules: Seq<CompiledRule>) -> Seq<Seq<char>> {
    rules.map_values(|r: CompiledRule| r.pattern@)
}

/// A tool's rules, as the page shows them.
pub struct ToolRulesView {
    pub default: ToolPermissionMode,
    pub always_allow: Vec<String>,
    pub always_deny: Vec<String>,
    pub always_confirm: Vec<String>,
    pub invalid_patterns: Vec<InvalidPattern>,
}

/// The patterns of `rules`.
fn patterns_of_rules(rules: &Vec<CompiledRule>) -> (r: Vec<String>)
    ensures
        r@.map_values(|s: String| s@) == rule_patterns(rules@),
{
    let mut out: Vec<String> = Vec::new();
    let mut i: usize = 0;
    while i < rules.len()
        invariant
            i <= rules@.len(),
            out@.map_values(|s: String| s@) == rule_patterns(rules@.take(i as int)),
        decreases rules@.len() - i,
    {
        out.push(rules[i].pattern.clone());
        proof {
            assert(rules@.take(i + 1) =~= rules@.take(i as int).push(rules@[i as int]));
            assert(rule_patterns(rules@.take(i + 1)) =~= rule_patterns(rules@.take(i as int)).push(rules@[i as int].pattern@));
            assert(out@.map_values(|s: String| s@) =~= rule_patterns(rules@.take(i as int)).push(rules@[i as int].pattern@));
        }
        i = i + 1;
    }
    assert(rules@.take(i as int) =~= rules@);
    out
}

/// A copy of an invalid pattern entry.
fn copy_invalid(p: &InvalidPattern) -> (r: InvalidPattern)
    ensures
        r == *p,
{
    InvalidPattern { pattern: p.pattern.clone(), rule_type: p.rule_type.clone(), error: p.error.clone() }
}

/// A tool's rules as the page shows them: its own default or else the global
/// one, and the patterns of each list; a tool without rules has the global
/// default and empty lists.
pub fn get_tool_rules(permissions: &ToolPermissions, tool_name: &str) -> (r: ToolRulesView)
    ensures
        entry_index(permissions.tools@, tool_name@) < 0 ==> {
            &&& r.default == permissions.default
            &&& r.always_allow@.len() == 0
            &&& r.always_deny@.len() == 0
            &&& r.always_confirm@.len() == 0
            &&& r.invalid_patterns@.len() == 0
        },
        entry_index(permissions.tools@, tool_name@) >= 0 ==> {
            let rules = permissions.tools@[entry_index(permissions.tools@, tool_name@)].1;
            &&& r.default == (match rules.default {
                Some(m) => m,
                None => permissions.default,
            })
            &&& r.always_allow@.map_values(|s: String| s@) == rule_patterns(rules.always_allow@)
            &&& r.always_deny@.map_values(|s: String| s@) == rule_patterns(rules.always_deny@)
            &&& r.always_confirm@.map_values(|s: String| s@) == rule_patterns(rules.always_confirm@)
            &&& r.invalid_patterns@ == rules.invalid_patterns@
        },
{
    match find_entry(&permissions.tools, tool_name) {
        None => ToolRulesView {
            default: permissions.default,
            always_allow: Vec::new(),
            always_deny: Vec::new(),
            always_confirm: Vec::new(),
            invalid_patterns: Vec::new(),
        },
        Some(k) => {
            let rules = &permissions.tools[k].1;
            let default = match rules.default {
                Some(m) => m,
                None => permissions.default,
            };
            let mut invalid: Vec<InvalidPattern> = Vec::new();
            let mut i: usize = 0;
            while i < rules.invalid_patterns.len()
                invariant
                    i <= rules.invalid_patterns@.len(),
                    invalid@ == rules.invalid_patterns@.take(i as int),
                decreases rules.invalid_patterns@.len() - i,
            {
                invalid.push(copy_invalid(&rules.invalid_patterns[i]));
                assert(rules.invalid_patterns@.take(i + 1) =~= rules.invalid_patterns@.take(i as int).push(rules.invalid_patterns@[i as int]));
                i = i + 1;
            }
            assert(rules.invalid_patterns@.take(i as int) =~= rules.invalid_patterns@);
            ToolRulesView {
                default,
                always_allow: patterns_of_rules(&rules.always_allow),
                always_deny: patterns_of_rules(&rules.always_deny),
                always_confirm: patterns_of_rules(&rules.always_confirm),
                invalid_patterns: invalid,
            }
        },
    }
}


/// A rule that matched the test input, with its list and whether another
/// rule overrides it.
pub struct MatchedPattern {
    pub pattern: String,
    pub rule_type: ToolPermissionMode,
    pub is_overridden: bool,
}

/// Some input contains a match of `rule`.
pub open spec fn hits(rule: CompiledRule, inputs: Seq<Seq<char>>) -> bool {
    exists|k: int| 0 <= k < inputs.len() && rule_matches(rule, #[trigger] inputs[k])
}

/// Some rule of the list hits the inputs.
pub open spec fn any_hit(rules: Seq<CompiledRule>, inputs: Seq<Seq<char>>) -> bool {
    exists|j: int| 0 <= j < rules.len() && hits(#[trigger] rules[j], inputs)
}

/// Some rule of the list matches `text`.
pub open spec fn allowed_by(rules: Seq<CompiledRule>, text: Seq<char>) -> bool {
    exists|j: int| 0 <= j < rules.len() && rule_matches(#[trigger] rules[j], text)
}

/// There are inputs, and each is matched by some rule of the list.
pub open spec fn all_allowed(rules: Seq<CompiledRule>, inputs: Seq<Seq<char>>) -> bool {
    inputs.len() > 0 && forall|k: int| 0 <= k < inputs.len() ==> allowed_by(rules, #[trigger] inputs[k])
}

/// The rules of `rules` that hit the inputs, in order, as matched patterns of
/// the given list and override state.
pub open spec fn matched_of(
    rules: Seq<CompiledRule>,
    inputs: Seq<Seq<char>>,
    mode: ToolPermissionMode,
    overridden: bool,
) -> Seq<MatchedPattern>
    decreases rules.len(),
{
    if rules.len() == 0 {
        Seq::empty()
    } else {
        let before = matched_of(rules.drop_last(), inputs, mode, overridden);
        if hits(rules.last(), inputs) {
            before.push(MatchedPattern { pattern: rules.last().pattern, rule_type: mode, is_overridden: overridden })
        } else {
            before
        }
    }
}

/// The patterns that match the test inputs: the deny rules, then the confirm
/// rules (overridden by a deny match), then the allow rules (overridden when
/// allow rules are off, by a deny or confirm match, or unless every input is
/// matched by some allow rule).
pub open spec fn matched_patterns_spec(rules: ToolRules, inputs: Seq<Seq<char>>, allow_enabled: bool) -> Seq<
    MatchedPattern,
> {
    let has_deny = any_hit(rules.always_deny@, inputs);
    let has_confirm = any_hit(rules.always_confirm@, inputs);
    matched_of(rules.always_deny@, inputs, ToolPermissionMode::Deny, false) + matched_of(
        rules.always_confirm@,
        inputs,
        ToolPermissionMode::Confirm,
        has_deny,
    ) + matched_of(
        rules.always_allow@,
        inputs,
        ToolPermissionMode::Allow,
        !allow_enabled || has_deny || has_confirm || !all_allowed(rules.always_allow@, inputs),
    )
}

/// The texts checked against the rules: for the terminal the commands its
/// input splits into (with allow rules off when it cannot be split), for
/// other tools the input itself.
pub open spec fn inputs_to_check(tool_id: Seq<char>, input: Seq<char>, commands: Option<Seq<Seq<char>>>) -> (
    Seq<Seq<char>>,
    bool,
) {
    if tool_id == terminal_id() {
        match commands {
            Some(c) => (c, true),
            None => (seq![input], false),
        }
    } else {
        (seq![input], true)
    }
}

/// The views of some strings.
pub open spec fn texts(v: Seq<String>) -> Seq<Seq<char>> {
    v.map_values(|s: String| s@)
}

/// Whether `text` contains a match of `rule`.
fn rule_matches_text(rule: &CompiledRule, text: &str) -> (r: bool)
    ensures
        r == rule_matches(*rule, text@),
{
    match regex_is_match(rule.pattern.as_str(), rule.case_sensitive, text) {
        Some(b) => b,
        None => false,
    }
}

/// Some input of the row is matched.
pub open spec fn row_hit(row: Seq<bool>) -> bool {
    exists|k: int| 0 <= k < row.len() && row[k]
}

/// Some rule of the list matches some input: `m[j][k]` tells whether rule
/// `j` matches input `k`.
pub open spec fn list_hit(m: Seq<Seq<bool>>) -> bool {
    exists|j: int| 0 <= j < m.len() && row_hit(#[trigger] m[j])
}

/// Some rule matches input `k`.
pub open spec fn column_hit(m: Seq<Seq<bool>>, k: int) -> bool {
    exists|j: int| 0 <= j < m.len() && #[trigger] m[j][k]
}

/// There are inputs, and each of the `n` inputs is matched by some rule.
pub open spec fn every_input_matched(m: Seq<Seq<bool>>, n: nat) -> bool {
    n > 0 && forall|k: int| 0 <= k < n ==> #[trigger] column_hit(m, k)
}

/// The rules of the list whose row has a match, in order, as matched
/// patterns of the given list and override state.
pub open spec fn matched_from(
    rules: Seq<CompiledRule>,
    m: Seq<Seq<bool>>,
    mode: ToolPermissionMode,
    overridden: bool,
) -> Seq<MatchedPattern>
    decreases rules.len(),
{
    if rules.len() == 0 {
        Seq::empty()
    } else {
        let before = matched_from(rules.drop_last(), m.drop_last(), mode, overridden);
        if row_hit(m.last()) {
            before.push(MatchedPattern { pattern: rules.last().pattern, rule_type: mode, is_overridden: overridden })
        } else {
            before
        }
    }
}

/// The matched patterns, given whether each rule matches each input: the
/// deny rules, then the confirm rules (overridden by a deny match), then the
/// allow rules (overridden when allow rules are off, by a deny or confirm
/// match, or unless every input is matched by some allow rule).
pub open spec fn matched_from_outcomes(
    rules: ToolRules,
    deny: Seq<Seq<bool>>,
    confirm: Seq<Seq<bool>>,
    allow: Seq<Seq<bool>>,
    input_count: nat,
    allow_enabled: bool,
) -> Seq<MatchedPattern> {
    let has_deny = list_hit(deny);
    let has_confirm = list_hit(confirm);
    matched_from(rules.always_deny@, deny, ToolPermissionMode::Deny, false) + matched_from(
        rules.always_confirm@,
        confirm,
        ToolPermissionMode::Confirm,
        has_deny,
    ) + matched_from(
        rules.always_allow@,
        allow,
        ToolPermissionMode::Allow,
        !allow_enabled || has_deny || has_confirm || !every_input_matched(allow, input_count),
    )
}

/// A matrix of `rows` rows of `n` outcomes.
pub open spec fn is_matrix(m: Seq<Vec<bool>>, rows: nat, n: nat) -> bool {
    m.len() == rows && forall|j: int| 0 <= j < rows ==> (#[trigger] m[j])@.len() == n
}

/// The rows of a matrix, as values.
pub open spec fn rows_of(m: Seq<Vec<bool>>) -> Seq<Seq<bool>> {
    m.map_values(|r: Vec<bool>| r@)
}

/// Whether some outcome of the row is true.
fn any_true(row: &Vec<bool>) -> (r: bool)
    ensures
        r == row_hit(row@),
{
    let mut k: usize = 0;
    while k < row.len()
        invariant
            k <= row@.len(),
            forall|t: int| 0 <= t < k ==> !row@[t],
        decreases row@.len() - k,
    {
        if row[k] {
            return true;
        }
        k = k + 1;
    }
    false
}

/// Whether some row has a true outcome.
fn any_row_hit(m: &Vec<Vec<bool>>) -> (r: bool)
    ensures
        r == list_hit(rows_of(m@)),
{
    let mut j: usize = 0;
    while j < m.len()
        invariant
            j <= m@.len(),
            forall|t: int| 0 <= t < j ==> !row_hit(#[trigger] rows_of(m@)[t]),
        decreases m@.len() - j,
    {
        if any_true(&m[j]) {
            assert(row_hit(rows_of(m@)[j as int]));
            return true;
        }
        j = j + 1;
    }
    false
}

/// Whether there are inputs and each is matched by some row.
fn every_column_hit(m: &Vec<Vec<bool>>, n: usize) -> (r: bool)
    requires
        is_matrix(m@, m@.len(), n as nat),
    ensures
        r == every_input_matched(rows_of(m@), n as nat),
{
    if n == 0 {
        return false;
    }
    let ghost rm = rows_of(m@);
    let mut k: usize = 0;
    while k < n
        invariant
            rm == rows_of(m@),
            is_matrix(m@, m@.len(), n as nat),
            0 < n,
            k <= n,
            forall|t: int| 0 <= t < k ==> #[trigger] column_hit(rm, t),
        decreases n - k,
    {
        let mut j: usize = 0;
        let mut found = false;
        while j < m.len()
            invariant
                rm == rows_of(m@),
                is_matrix(m@, m@.len(), n as nat),
                k < n,
                j <= m@.len(),
                found ==> exists|t: int| 0 <= t < rm.len() && #[trigger] rm[t][k as int],
                !found ==> forall|t: int| 0 <= t < j ==> !(#[trigger] rm[t])[k as int],
            decreases m@.len() - j,
        {
            assert(m@[j as int]@.len() == n);
            if !found && m[j][k] {
                found = true;
                assert(rm[j as int][k as int]);
            }
            j = j + 1;
        }
        if found {
            assert(column_hit(rm, k as int));
        }
        if !found {
            assert(!column_hit(rm, k as int));
            return false;
        }
        k = k + 1;
    }
    true
}

/// Appends the matched patterns of one list.
fn collect_from(
    rules: &Vec<CompiledRule>,
    m: &Vec<Vec<bool>>,
    mode: ToolPermissionMode,
    overridden: bool,
    out: &mut Vec<MatchedPattern>,
)
    requires
        m@.len() == rules@.len(),
    ensures
        final(out)@ == old(out)@ + matched_from(rules@, rows_of(m@), mode, overridden),
{
    let ghost start = out@;
    let mut j: usize = 0;
    while j < rules.len()
        invariant
            m@.len() == rules@.len(),
            j <= rules@.len(),
            out@ == start + matched_from(rules@.take(j as int), rows_of(m@).take(j as int), mode, overridden),
        decreases rules@.len() - j,
    {
        let hit = any_true(&m[j]);
        proof {
            let next = rules@.take(j + 1);
            assert(next.drop_last() =~= rules@.take(j as int));
            assert(next.last() == rules@[j as int]);
            let mn = rows_of(m@).take(j + 1);
            assert(mn.drop_last() =~= rows_of(m@).take(j as int));
            assert(mn.last() == m@[j as int]@);
        }
        if hit {
            out.push(MatchedPattern { pattern: rules[j].pattern.clone(), rule_type: mode, is_overridden: overridden });
            assert(out@ =~= start + matched_from(rules@.take(j + 1), rows_of(m@).take(j + 1), mode, overridden));
        }
        j = j + 1;
    }
    assert(rules@.take(j as int) =~= rules@);
    assert(rows_of(m@).take(j as int) =~= rows_of(m@));
}

/// The matched patterns of a tool's rules, given the regex outcomes: for each
/// list, `m[j][k]` tells whether its rule `j` matches input `k` of the
/// `input_count` inputs checked; `allow_enabled` is false when the allow
/// rules are off.
pub fn matched_patterns_from_outcomes(
    rules: &ToolRules,
    deny: &Vec<Vec<bool>>,
    confirm: &Vec<Vec<bool>>,
    allow: &Vec<Vec<bool>>,
    input_count: usize,
    allow_enabled: bool,
) -> (r: Vec<MatchedPattern>)
    requires
        is_matrix(deny@, rules.always_deny@.len(), input_count as nat),
        is_matrix(confirm@, rules.always_confirm@.len(), input_count as nat),
        is_matrix(allow@, rules.always_allow@.len(), input_count as nat),
    ensures
        r@ == matched_from_outcomes(
            *rules,
            rows_of(deny@),
            rows_of(confirm@),
            rows_of(allow@),
            input_count as nat,
            allow_enabled,
        ),
{
    let has_deny = any_row_hit(deny);
    let has_confirm = any_row_hit(confirm);
    let all_allow = every_column_hit(allow, input_count);
    let mut matched: Vec<MatchedPattern> = Vec::new();
    collect_from(&rules.always_deny, deny, ToolPermissionMode::Deny, false, &mut matched);
    collect_from(&rules.always_confirm, confirm, ToolPermissionMode::Confirm, has_deny, &mut matched);
    collect_from(
        &rules.always_allow,
        allow,
        ToolPermissionMode::Allow,
        !allow_enabled || has_deny || has_confirm || !all_allow,
        &mut matched,
    );
    matched
}

/// The regex outcomes of a list of rules on the inputs.
fn outcome_matrix(rules: &Vec<CompiledRule>, inputs: &Vec<String>) -> (m: Vec<Vec<bool>>)
    ensures
        is_matrix(m@, rules@.len(), inputs@.len()),
        forall|j: int, k: int|
            0 <= j < rules@.len() && 0 <= k < inputs@.len() ==> (#[trigger] m@[j]@[k]) == rule_matches(
                rules@[j],
                texts(inputs@)[k],
            ),
{
    let mut m: Vec<Vec<bool>> = Vec::new();
    let mut j: usize = 0;
    while j < rules.len()
        invariant
            j <= rules@.len(),
            is_matrix(m@, j as nat, inputs@.len()),
            forall|a: int, k: int|
                0 <= a < j && 0 <= k < inputs@.len() ==> (#[trigger] m@[a]@[k]) == rule_matches(
                    rules@[a],
                    texts(inputs@)[k],
                ),
        decreases rules@.len() - j,
    {
        let mut row: Vec<bool> = Vec::new();
        let mut k: usize = 0;
        while k < inputs.len()
            invariant
                j < rules@.len(),
                k <= inputs@.len(),
                row@.len() == k,
                forall|t: int| 0 <= t < k ==> row@[t] == rule_matches(rules@[j as int], texts(inputs@)[t]),
            decreases inputs@.len() - k,
        {
            row.push(rule_matches_text(&rules[j], inputs[k].as_str()));
            k = k + 1;
        }
        m.push(row);
        j = j + 1;
    }
    m
}

proof fn lemma_outcomes_match_rules(rules: Seq<CompiledRule>, m: Seq<Seq<bool>>, inputs: Seq<Seq<char>>, mode: ToolPermissionMode, overridden: bool)
    requires
        m.len() == rules.len(),
        forall|j: int| 0 <= j < m.len() ==> (#[trigger] m[j]).len() == inputs.len(),
        forall|j: int, k: int|
            0 <= j < rules.len() && 0 <= k < inputs.len() ==> (#[trigger] m[j][k]) == rule_matches(rules[j], inputs[k]),
    ensures
        matched_from(rules, m, mode, overridden) == matched_of(rules, inputs, mode, overridden),
        list_hit(m) == any_hit(rules, inputs),
        every_input_matched(m, inputs.len()) == all_allowed(rules, inputs),
    decreases rules.len(),
{
    assert forall|j: int| 0 <= j < rules.len() implies row_hit(#[trigger] m[j]) == hits(rules[j], inputs) by {
        if row_hit(m[j]) {
            let k = choose|k: int| 0 <= k < m[j].len() && m[j][k];
            assert(rule_matches(rules[j], inputs[k]));
        }
        if hits(rules[j], inputs) {
            let k = choose|k: int| 0 <= k < inputs.len() && rule_matches(rules[j], #[trigger] inputs[k]);
            assert(m[j][k]);
        }
    }
    if list_hit(m) {
        let j = choose|j: int| 0 <= j < m.len() && row_hit(#[trigger] m[j]);
        assert(hits(rules[j], inputs));
    }
    if any_hit(rules, inputs) {
        let j = choose|j: int| 0 <= j < rules.len() && hits(#[trigger] rules[j], inputs);
        assert(row_hit(m[j]));
    }
    assert forall|k: int| 0 <= k < inputs.len() implies #[trigger] column_hit(m, k) == allowed_by(rules, inputs[k]) by {
        if column_hit(m, k) {
            let j = choose|j: int| 0 <= j < m.len() && #[trigger] m[j][k];
            assert(rule_matches(rules[j], inputs[k]));
        }
        if allowed_by(rules, inputs[k]) {
            let j = choose|j: int| 0 <= j < rules.len() && rule_matches(#[trigger] rules[j], inputs[k]);
            assert(m[j][k]);
        }
    }
    if every_input_matched(m, inputs.len()) {
        assert forall|k: int| 0 <= k < inputs.len() implies allowed_by(rules, #[trigger] inputs[k]) by {
            assert(column_hit(m, k));
        }
    }
    if all_allowed(rules, inputs) {
        assert forall|k: int| 0 <= k < inputs.len() implies #[trigger] column_hit(m, k) by {
            assert(allowed_by(rules, inputs[k]));
        }
    }
    if rules.len() > 0 {
        lemma_outcomes_match_rules(rules.drop_last(), m.drop_last(), inputs, mode, overridden);
        assert(row_hit(m.last()) == hits(rules.last(), inputs)) by {
            assert(m.last() == m[m.len() - 1]);
            assert(rules.last() == rules[rules.len() - 1]);
        }
    }
}

/// The rules of a tool that match a test input, as the settings page previews
/// them. `commands` is the terminal input split into its commands, `None`
/// when it cannot be split; it is read for the terminal only. A tool without
/// rules matches nothing.
pub fn find_matched_patterns(
    permissions: &ToolPermissions,
    tool_id: &str,
    input: &str,
    commands: Option<Vec<String>>,
) -> (r: Vec<MatchedPattern>)
    ensures
        entry_index(permissions.tools@, tool_id@) < 0 ==> r@.len() == 0,
        entry_index(permissions.tools@, tool_id@) >= 0 ==> {
            let rules = permissions.tools@[entry_index(permissions.tools@, tool_id@)].1;
            let (inputs, allow_enabled) = inputs_to_check(
                tool_id@,
                input@,
                match commands {
                    Some(c) => Some(texts(c@)),
                    None => None,
                },
            );
            r@ == matched_patterns_spec(rules, inputs, allow_enabled)
        },
{
    let k = match find_entry(&permissions.tools, tool_id) {
        None => return Vec::new(),
        Some(k) => k,
    };
    let rules = &permissions.tools[k].1;
    let is_terminal = const_str_eq(tool_id, "terminal");
    let (inputs, allow_enabled) = if is_terminal {
        match commands {
            Some(cmds) => (cmds, true),
            None => {
                let mut v: Vec<String> = Vec::new();
                v.push(String::from_str(input));
                (v, false)
            },
        }
    } else {
        let mut v: Vec<String> = Vec::new();
        v.push(String::from_str(input));
        (v, true)
    };
    proof {
        if inputs@.len() == 1 {
            assert(texts(inputs@) =~= seq![inputs@[0]@]);
        }
    }
    let deny = outcome_matrix(&rules.always_deny, &inputs);
    let confirm = outcome_matrix(&rules.always_confirm, &inputs);
    let allow = outcome_matrix(&rules.always_allow, &inputs);
    proof {
        let t = texts(inputs@);
        lemma_outcomes_match_rules(rules.always_deny@, rows_of(deny@), t, ToolPermissionMode::Deny, false);
        lemma_outcomes_match_rules(
            rules.always_confirm@,
            rows_of(confirm@),
            t,
            ToolPermissionMode::Confirm,
            list_hit(rows_of(deny@)),
        );
        lemma_outcomes_match_rules(
            rules.always_allow@,
            rows_of(allow@),
            t,
            ToolPermissionMode::Allow,
            !allow_enabled || list_hit(rows_of(deny@)) || list_hit(rows_of(confirm@)) || !every_input_matched(
                rows_of(allow@),
                inputs@.len(),
            ),
        );
    }
    matched_patterns_from_outcomes(rules, &deny, &confirm, &allow, inputs.len(), allow_enabled)
}

/// Some listed pattern of the given list is not overridden.
pub open spec fn has_active(patterns: Seq<MatchedPattern>, mode: ToolPermissionMode) -> bool {
    exists|i: int| 0 <= i < patterns.len() && (#[trigger] patterns[i]).rule_type == mode && !patterns[i].is_overridden
}

/// The outcome the matched patterns imply: an active deny, else an active
/// confirm, else an active allow, else the default.
pub open spec fn implied_mode_spec(patterns: Seq<MatchedPattern>, default_mode: ToolPermissionMode) -> ToolPermissionMode {
    if has_active(patterns, ToolPermissionMode::Deny) {
        ToolPermissionMode::Deny
    } else if has_active(patterns, ToolPermissionMode::Confirm) {
        ToolPermissionMode::Confirm
    } else if has_active(patterns, ToolPermissionMode::Allow) {
        ToolPermissionMode::Allow
    } else {
        default_mode
    }
}

/// Whether some pattern of the given list is active.
fn any_active(patterns: &Vec<MatchedPattern>, mode: ToolPermissionMode) -> (r: bool)
    ensures
        r == has_active(patterns@, mode),
{
    let mut i: usize = 0;
    while i < patterns.len()
        invariant
            i <= patterns@.len(),
            forall|t: int| 0 <= t < i ==> !((#[trigger] patterns@[t]).rule_type == mode && !patterns@[t].is_overridden),
        decreases patterns@.len() - i,
    {
        if patterns[i].rule_type == mode && !patterns[i].is_overridden {
            assert(patterns@[i as int].rule_type == mode && !patterns@[i as int].is_overridden);
            return true;
        }
        i = i + 1;
    }
    false
}

/// The outcome the matched patterns imply.
pub fn implied_mode_from_patterns(patterns: &Vec<MatchedPattern>, default_mode: ToolPermissionMode) -> (r:
    ToolPermissionMode)
    ensures
        r == implied_mode_spec(patterns@, default_mode),
{
    if any_active(patterns, ToolPermissionMode::Deny) {
        ToolPermissionMode::Deny
    } else if any_active(patterns, ToolPermissionMode::Confirm) {
        ToolPermissionMode::Confirm
    } else if any_active(patterns, ToolPermissionMode::Allow) {
        ToolPermissionMode::Allow
    } else {
        default_mode
    }
}

/// What the rules decide for the inputs: deny when a deny rule matches, else
/// confirm when a confirm rule matches, else allow when allow rules are on
/// and every input is matched by one, else the default.
pub open spec fn rules_decision(
    rules: ToolRules,
    inputs: Seq<Seq<char>>,
    allow_enabled: bool,
    default_mode: ToolPermissionMode,
) -> ToolPermissionMode {
    if any_hit(rules.always_deny@, inputs) {
        ToolPermissionMode::Deny
    } else if any_hit(rules.always_confirm@, inputs) {
        ToolPermissionMode::Confirm
    } else if allow_enabled && all_allowed(rules.always_allow@, inputs) {
        ToolPermissionMode::Allow
    } else {
        default_mode
    }
}

proof fn lemma_matched_of(rules: Seq<CompiledRule>, inputs: Seq<Seq<char>>, mode: ToolPermissionMode, overridden: bool)
    ensures
        forall|i: int| 0 <= i < matched_of(rules, inputs, mode, overridden).len() ==> (#[trigger] matched_of(rules, inputs, mode, overridden)[i]).rule_type == mode
            && matched_of(rules, inputs, mode, overridden)[i].is_overridden == overridden,
        (matched_of(rules, inputs, mode, overridden).len() > 0) == any_hit(rules, inputs),
    decreases rules.len(),
{
    if rules.len() > 0 {
        lemma_matched_of(rules.drop_last(), inputs, mode, overridden);
        let m = matched_of(rules, inputs, mode, overridden);
        let before = matched_of(rules.drop_last(), inputs, mode, overridden);
        if any_hit(rules.drop_last(), inputs) {
            let j = choose|j: int| 0 <= j < rules.drop_last().len() && hits(#[trigger] rules.drop_last()[j], inputs);
            assert(hits(rules[j], inputs));
        }
        if any_hit(rules, inputs) && !hits(rules.last(), inputs) {
            let j = choose|j: int| 0 <= j < rules.len() && hits(#[trigger] rules[j], inputs);
            assert(j != rules.len() - 1);
            assert(hits(rules.drop_last()[j], inputs));
        }
        if hits(rules.last(), inputs) {
            assert(hits(rules[rules.len() - 1], inputs));
        }
    }
}

proof fn lemma_active_in_concat(a: Seq<MatchedPattern>, b: Seq<MatchedPattern>, mode: ToolPermissionMode)
    ensures
        has_active(a + b, mode) == (has_active(a, mode) || has_active(b, mode)),
{
    if has_active(a + b, mode) {
        let i = choose|i: int| 0 <= i < (a + b).len() && (#[trigger] (a + b)[i]).rule_type == mode && !(a + b)[i].is_overridden;
        if i < a.len() {
            assert((a + b)[i] == a[i]);
        } else {
            assert((a + b)[i] == b[i - a.len()]);
        }
    }
    if has_active(a, mode) {
        let i = choose|i: int| 0 <= i < a.len() && (#[trigger] a[i]).rule_type == mode && !a[i].is_overridden;
        assert((a + b)[i] == a[i]);
    }
    if has_active(b, mode) {
        let i = choose|i: int| 0 <= i < b.len() && (#[trigger] b[i]).rule_type == mode && !b[i].is_overridden;
        assert((a + b)[a.len() + i] == b[i]);
    }
}

proof fn lemma_active_uniform(ps: Seq<MatchedPattern>, list: ToolPermissionMode, overridden: bool, mode: ToolPermissionMode)
    requires
        forall|i: int| 0 <= i < ps.len() ==> (#[trigger] ps[i]).rule_type == list && ps[i].is_overridden == overridden,
    ensures
        has_active(ps, mode) == (ps.len() > 0 && list == mode && !overridden),
{
    if ps.len() > 0 && list == mode && !overridden {
        assert(ps[0].rule_type == mode && !ps[0].is_overridden);
    }
}

/// The preview agrees with the rules: the outcome that the matched patterns
/// imply is the one the rules decide for the same inputs.
pub proof fn lemma_preview_matches_rules(
    rules: ToolRules,
    inputs: Seq<Seq<char>>,
    allow_enabled: bool,
    default_mode: ToolPermissionMode,
)
    ensures
        implied_mode_spec(matched_patterns_spec(rules, inputs, allow_enabled), default_mode) == rules_decision(
            rules,
            inputs,
            allow_enabled,
            default_mode,
        ),
{
    let has_deny = any_hit(rules.always_deny@, inputs);
    let has_confirm = any_hit(rules.always_confirm@, inputs);
    let all = all_allowed(rules.always_allow@, inputs);
    let over = !allow_enabled || has_deny || has_confirm || !all;
    let d = matched_of(rules.always_deny@, inputs, ToolPermissionMode::Deny, false);
    let c = matched_of(rules.always_confirm@, inputs, ToolPermissionMode::Confirm, has_deny);
    let a = matched_of(rules.always_allow@, inputs, ToolPermissionMode::Allow, over);
    lemma_matched_of(rules.always_deny@, inputs, ToolPermissionMode::Deny, false);
    lemma_matched_of(rules.always_confirm@, inputs, ToolPermissionMode::Confirm, has_deny);
    lemma_matched_of(rules.always_allow@, inputs, ToolPermissionMode::Allow, over);
    let modes = seq![ToolPermissionMode::Deny, ToolPermissionMode::Confirm, ToolPermissionMode::Allow];
    assert forall|k: int| 0 <= k < 3 implies has_active(d + c + a, #[trigger] modes[k]) == (has_active(d, modes[k])
        || has_active(c, modes[k]) || has_active(a, modes[k])) by {
        lemma_active_in_concat(d + c, a, modes[k]);
        lemma_active_in_concat(d, c, modes[k]);
    }
    assert(modes[0] == ToolPermissionMode::Deny);
    assert(modes[1] == ToolPermissionMode::Confirm);
    assert(modes[2] == ToolPermissionMode::Allow);
    lemma_active_uniform(d, ToolPermissionMode::Deny, false, ToolPermissionMode::Deny);
    lemma_active_uniform(d, ToolPermissionMode::Deny, false, ToolPermissionMode::Confirm);
    lemma_active_uniform(d, ToolPermissionMode::Deny, false, ToolPermissionMode::Allow);
    lemma_active_uniform(c, ToolPermissionMode::Confirm, has_deny, ToolPermissionMode::Deny);
    lemma_active_uniform(c, ToolPermissionMode::Confirm, has_deny, ToolPermissionMode::Confirm);
    lemma_active_uniform(c, ToolPermissionMode::Confirm, has_deny, ToolPermissionMode::Allow);
    lemma_active_uniform(a, ToolPermissionMode::Allow, over, ToolPermissionMode::Deny);
    lemma_active_uniform(a, ToolPermissionMode::Allow, over, ToolPermissionMode::Confirm);
    lemma_active_uniform(a, ToolPermissionMode::Allow, over, ToolPermissionMode::Allow);
    if all {
        assert(allowed_by(rules.always_allow@, inputs[0]));
        let j = choose|j: int| 0 <= j < rules.always_allow@.len() && rule_matches(#[trigger] rules.always_allow@[j], inputs[0]);
        assert(hits(rules.always_allow@[j], inputs));
    }
}

/// The description of the built-in security rules, with its code spans in
/// backticks.
pub const HARDCODED_RULES_DESCRIPTION: &'static str = "`rm -rf` 命令在 `$HOME`、`~`、`.`、`..` 或 `/` 上运行时始终被阻止";

/// The title of a tool's settings page: its name and " 工具".
pub fn tool_page_title(tool_name: &str) -> (r: String)
    ensures
        r@ == tool_name@ + " 工具"@,
{
    let mut out = String::from_str(tool_name);
    out.append(" 工具");
    out
}

/// A tool's page shows the banner of the built-in security rules, which
/// only the terminal has.
pub fn shows_hardcoded_banner(tool_id: &str) -> (r: bool)
    ensures
        r == (tool_id@ == terminal_id()),
{
    const_str_eq(tool_id, "terminal")
}

/// The summary next to a tool's name in the list: its rules over the three
/// lists and its invalid patterns, counted as `rule_summary` shows them.
pub fn tool_list_summary(rules: &ToolRulesView) -> (r: Option<String>)
    requires
        rules.always_allow@.len() + rules.always_deny@.len() + rules.always_confirm@.len() <= usize::MAX,
    ensures
        match r {
            Some(t) => rule_summary_spec(
                (rules.always_allow@.len() + rules.always_deny@.len() + rules.always_confirm@.len()) as nat,
                rules.invalid_patterns@.len(),
            ) == Some(t@),
            None => rule_summary_spec(
                (rules.always_allow@.len() + rules.always_deny@.len() + rules.always_confirm@.len()) as nat,
                rules.invalid_patterns@.len(),
            ) is None,
        },
{
    let rule_count = rules.always_allow.len() + rules.always_deny.len() + rules.always_confirm.len();
    rule_summary(rule_count, rules.invalid_patterns.len())
}

/// A match of any deny pattern denies the call, whatever else matches.
pub proof fn lemma_deny_match_denies(
    rules: ToolRules,
    inputs: Seq<Seq<char>>,
    allow_enabled: bool,
    default_mode: ToolPermissionMode,
)
    requires
        any_hit(rules.always_deny@, inputs),
    ensures
        implied_mode_spec(matched_patterns_spec(rules, inputs, allow_enabled), default_mode) == ToolPermissionMode::Deny,
{
    lemma_preview_matches_rules(rules, inputs, allow_enabled, default_mode);
}

/// Without a deny match, a match of any confirm pattern asks for
/// confirmation, whatever allow patterns match.
pub proof fn lemma_confirm_match_confirms(
    rules: ToolRules,
    inputs: Seq<Seq<char>>,
    allow_enabled: bool,
    default_mode: ToolPermissionMode,
)
    requires
        !any_hit(rules.always_deny@, inputs),
        any_hit(rules.always_confirm@, inputs),
    ensures
        implied_mode_spec(matched_patterns_spec(rules, inputs, allow_enabled), default_mode)
            == ToolPermissionMode::Confirm,
{
    lemma_preview_matches_rules(rules, inputs, allow_enabled, default_mode);
}

/// Without deny or confirm matches, the call is allowed exactly when allow
/// patterns are in force and every checked input matches one of them;
/// otherwise the default applies.
pub proof fn lemma_allow_needs_every_input(
    rules: ToolRules,
    inputs: Seq<Seq<char>>,
    allow_enabled: bool,
    default_mode: ToolPermissionMode,
)
    requires
        !any_hit(rules.always_deny@, inputs),
        !any_hit(rules.always_confirm@, inputs),
    ensures
        implied_mode_spec(matched_patterns_spec(rules, inputs, allow_enabled), default_mode) == if allow_enabled
            && all_allowed(rules.always_allow@, inputs) {
            ToolPermissionMode::Allow
        } else {
            default_mode
        },
{
    lemma_preview_matches_rules(rules, inputs, allow_enabled, default_mode);
}

/// A part of a tool's settings page.
#[derive(Clone, Copy, Debug, PartialEq, Eq, Structural)]
pub enum ToolPageSection {
    /// The page title and what the tool's patterns are matched against.
    Header,
    /// The banner of the built-in security rules.
    HardcodedRulesBanner,
    /// The test input with its preview.
    Verification,
    /// The warning about the last pattern entered.
    ValidationWarning,
    /// The tool's default mode.
    DefaultMode,
    /// A horizontal divider.
    Divider,
    /// The patterns of one list.
    Rules(ToolPermissionMode),
    /// The patterns that do not compile.
    InvalidPatterns,
}

/// The parts of a tool's page, in order: the header, the built-in rules
/// banner for the terminal, the test input, the pending warning if any,
/// then the default mode and the deny, allow and confirm lists separated by
/// dividers, and last, when there are any, the invalid patterns after a
/// divider.
pub open spec fn tool_page_sections_spec(is_terminal: bool, has_warning: bool, has_invalid_patterns: bool) -> Seq<
    ToolPageSection,
> {
    let top = seq![ToolPageSection::Header] + (if is_terminal {
        seq![ToolPageSection::HardcodedRulesBanner]
    } else {
        Seq::empty()
    }) + seq![ToolPageSection::Verification] + (if has_warning {
        seq![ToolPageSection::ValidationWarning]
    } else {
        Seq::empty()
    });
    let lists = seq![
        ToolPageSection::DefaultMode,
        ToolPageSection::Divider,
        ToolPageSection::Rules(ToolPermissionMode::Deny),
        ToolPageSection::Divider,
        ToolPageSection::Rules(ToolPermissionMode::Allow),
        ToolPageSection::Divider,
        ToolPageSection::Rules(ToolPermissionMode::Confirm),
    ];
    top + lists + (if has_invalid_patterns {
        seq![ToolPageSection::Divider, ToolPageSection::InvalidPatterns]
    } else {
        Seq::empty()
    })
}

/// The parts of a tool's page.
pub fn tool_page_sections(tool_id: &str, has_warning: bool, rules: &ToolRulesView) -> (r: Vec<ToolPageSection>)
    ensures
        r@ == tool_page_sections_spec(tool_id@ == terminal_id(), has_warning, rules.invalid_patterns@.len() > 0),
{
    let mut v: Vec<ToolPageSection> = Vec::new();
    v.push(ToolPageSection::Header);
    let is_terminal = shows_hardcoded_banner(tool_id);
    if is_terminal {
        v.push(ToolPageSection::HardcodedRulesBanner);
    }
    v.push(ToolPageSection::Verification);
    if has_warning {
        v.push(ToolPageSection::ValidationWarning);
    }
    v.push(ToolPageSection::DefaultMode);
    v.push(ToolPageSection::Divider);
    v.push(ToolPageSection::Rules(ToolPermissionMode::Deny));
    v.push(ToolPageSection::Divider);
    v.push(ToolPageSection::Rules(ToolPermissionMode::Allow));
    v.push(ToolPageSection::Divider);
    v.push(ToolPageSection::Rules(ToolPermissionMode::Confirm));
    let has_invalid = rules.invalid_patterns.len() > 0;
    if has_invalid {
        v.push(ToolPageSection::Divider);
        v.push(ToolPageSection::InvalidPatterns);
    }
    assert(v@ =~= tool_page_sections_spec(is_terminal, has_warning, has_invalid));
    v
}

/// The title and description of a list's section on a tool's page.
pub fn rule_section_text(mode: ToolPermissionMode) -> (r: (&'static str, &'static str))
    ensures
        r.0@ == (match mode {
            ToolPermissionMode::Deny => "始终拒绝"@,
            ToolPermissionMode::Allow => "始终允许"@,
            ToolPermissionMode::Confirm => "始终确认"@,
        }),
        r.1@ == (match mode {
            ToolPermissionMode::Deny => "如果其中任何一个正则表达式匹配，此工具操作将被拒绝。"@,
            ToolPermissionMode::Allow => "如果其中任何一个正则表达式匹配，操作将被批准——除非同时存在“始终确认”或“始终拒绝”匹配。"@,
            ToolPermissionMode::Confirm => "如果其中任何一个正则表达式匹配，将显示确认提示，除非同时存在“始终拒绝”匹配。"@,
        }),
{
    match mode {
        ToolPermissionMode::Deny => ("始终拒绝", "如果其中任何一个正则表达式匹配，此工具操作将被拒绝。"),
        ToolPermissionMode::Allow => (
            "始终允许",
            "如果其中任何一个正则表达式匹配，操作将被批准——除非同时存在“始终确认”或“始终拒绝”匹配。",
        ),
        ToolPermissionMode::Confirm => (
            "始终确认",
            "如果其中任何一个正则表达式匹配，将显示确认提示，除非同时存在“始终拒绝”匹配。",
        ),
    }
}

/// On the setup page a divider follows every tool's row but the last.
pub fn divider_after_tool_row(index: usize) -> (r: bool)
    ensures
        r == (index + 1 < TOOL_COUNT),
{
    index < TOOL_COUNT - 1
}

/// A tool's row on the tool-permissions setup page.
pub struct ToolListRow {
    pub name: &'static str,
    pub description: &'static str,
    /// The count of its rules and invalid patterns, if any.
    pub summary: Option<String>,
    /// The id of the row's configure button.
    pub button_id: String,
    pub button_label: &'static str,
    pub tab_index: usize,
    /// A divider follows the row.
    pub divider_after: bool,
}

/// The row of tool `i` with its rules: the tool's name and description,
/// the summary of the rules, a "配置" button with id `configure-<id>` at tab
/// index `i`, and a divider after every row but the last.
pub open spec fn is_tool_row(row: ToolListRow, i: int, rules: ToolRulesView) -> bool {
    &&& row.name@ == tool_name_spec(i)
    &&& row.description@ == tool_description_spec(i)
    &&& match row.summary {
        Some(t) => rule_summary_spec(
            (rules.always_allow@.len() + rules.always_deny@.len() + rules.always_confirm@.len()) as nat,
            rules.invalid_patterns@.len(),
        ) == Some(t@),
        None => rule_summary_spec(
            (rules.always_allow@.len() + rules.always_deny@.len() + rules.always_confirm@.len()) as nat,
            rules.invalid_patterns@.len(),
        ) is None,
    }
    &&& row.button_id@ == "configure-"@ + tool_id_spec(i)
    &&& row.button_label@ == "配置"@
    &&& row.tab_index == i
    &&& row.divider_after == (i + 1 < TOOL_COUNT)
}

/// The rule counts of a view fit in a `usize`.
pub open spec fn counts_fit(rules: ToolRulesView) -> bool {
    rules.always_allow@.len() + rules.always_deny@.len() + rules.always_confirm@.len() <= usize::MAX
}

/// The row of tool `index` on the setup page.
pub fn tool_list_row(index: usize, rules: &ToolRulesView) -> (r: ToolListRow)
    requires
        index < TOOL_COUNT,
        counts_fit(*rules),
    ensures
        is_tool_row(r, index as int, *rules),
{
    let tool = tool_info(index);
    let mut button_id = String::from_str("configure-");
    button_id.append(tool.id);
    ToolListRow {
        name: tool.name,
        description: tool.description,
        summary: tool_list_summary(rules),
        button_id,
        button_label: "配置",
        tab_index: index,
        divider_after: divider_after_tool_row(index),
    }
}

/// The rows of the setup page: one per tool, in table order, given each
/// tool's rules.
pub fn tool_list_rows(rules: &Vec<ToolRulesView>) -> (r: Vec<ToolListRow>)
    requires
        rules@.len() == TOOL_COUNT,
        forall|i: int| 0 <= i < TOOL_COUNT ==> counts_fit(#[trigger] rules@[i]),
    ensures
        r@.len() == TOOL_COUNT,
        forall|i: int| 0 <= i < TOOL_COUNT ==> is_tool_row(#[trigger] r@[i], i, rules@[i]),
{
    let mut out: Vec<ToolListRow> = Vec::new();
    let mut i: usize = 0;
    while i < TOOL_COUNT
        invariant
            rules@.len() == TOOL_COUNT,
            forall|t: int| 0 <= t < TOOL_COUNT ==> counts_fit(#[trigger] rules@[t]),
            i <= TOOL_COUNT,
            out@.len() == i,
            forall|t: int| 0 <= t < i ==> is_tool_row(#[trigger] out@[t], t, rules@[t]),
        decreases TOOL_COUNT - i,
    {
        out.push(tool_list_row(i, &rules[i]));
        i = i + 1;
    }
    out
}

/// The agent's tools that are deliberately left off the permissions page:
/// read-only or low-risk tools, `streaming_edit_file` (configured under
/// `edit_file`), `spawn_agent` (checked at each tool call of the subagent)
/// and `update_plan` (no permission rules).
pub open spec fn tools_without_rules() -> Seq<Seq<char>> {
    seq![
        "diagnostics"@,
        "find_path"@,
        "grep"@,
        "list_directory"@,
        "now"@,
        "open"@,
        "read_file"@,
        "thinking"@,
        "streaming_edit_file"@,
        "spawn_agent"@,
        "update_plan"@,
    ]
}

/// The tool table names each tool once, and none of the tools left off the
/// permissions page.
pub proof fn lemma_tool_table_ids()
    ensures
        forall|i: int| 0 <= i < TOOL_COUNT ==> !tools_without_rules().contains(#[trigger] tool_id_spec(i)),
        forall|i: int, j: int| 0 <= i < j < TOOL_COUNT ==> tool_id_spec(i) != tool_id_spec(j),
{
    reveal_strlit("terminal");
    reveal_strlit("edit_file");
    reveal_strlit("delete_path");
    reveal_strlit("copy_path");
    reveal_strlit("move_path");
    reveal_strlit("create_directory");
    reveal_strlit("save_file");
    reveal_strlit("fetch");
    reveal_strlit("search_web");
    reveal_strlit("restore_file_from_disk");
    reveal_strlit("diagnostics");
    reveal_strlit("find_path");
    reveal_strlit("grep");
    reveal_strlit("list_directory");
    reveal_strlit("now");
    reveal_strlit("open");
    reveal_strlit("read_file");
    reveal_strlit("thinking");
    reveal_strlit("streaming_edit_file");
    reveal_strlit("spawn_agent");
    reveal_strlit("update_plan");
    let ex = tools_without_rules();
    assert forall|i: int| 0 <= i < TOOL_COUNT implies !ex.contains(#[trigger] tool_id_spec(i)) by {
        if ex.contains(tool_id_spec(i)) {
            let k = choose|k: int| 0 <= k < ex.len() && ex[k] == tool_id_spec(i);
            assert(ex[k][0] == tool_id_spec(i)[0]);
            assert(ex[k].len() == tool_id_spec(i).len());
            assert(ex[k][1] == tool_id_spec(i)[1]);
        }
    }
    assert forall|i: int, j: int| 0 <= i < j < TOOL_COUNT implies tool_id_spec(i) != tool_id_spec(j) by {
        if tool_id_spec(i) == tool_id_spec(j) {
            assert(tool_id_spec(i).len() == tool_id_spec(j).len());
            assert(tool_id_spec(i)[0] == tool_id_spec(j)[0]);
            assert(tool_id_spec(i)[1] == tool_id_spec(j)[1]);
        }
    }
}

} // verus!
