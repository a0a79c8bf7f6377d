use vstd::prelude::*;
use crate::text::const_str_eq;
use crate::tool_permissions::{
    ToolPermissionMode, ToolPermissions, ToolRules, CompiledRule, entry_index, rule_patterns, find_entry,
};

verus! {

/// One pattern of a rule list as the settings file holds it.
pub struct ToolRegexRule {
    pub pattern: String,
    pub case_sensitive: Option<bool>,
}

/// A rule of the settings file, as a value.
pub struct RuleModel {
    pub pattern: Seq<char>,
    pub case_sensitive: Option<bool>,
}

impl View for ToolRegexRule {
    type V = RuleModel;

    open spec fn view(&self) -> RuleModel {
        RuleModel { pattern: self.pattern@, case_sensitive: self.case_sensitive }
    }
}

/// The rules of a list, as values.
pub open spec fn rules_model(list: Seq<ToolRegexRule>) -> Seq<RuleModel> {
    list.map_values(|r: ToolRegexRule| r@)
}

/// A list that may be absent from the file, as values.
pub open spec fn list_view(list: Option<Vec<ToolRegexRule>>) -> Option<Seq<RuleModel>> {
    match list {
        Some(v) => Some(rules_model(v@)),
        None => None,
    }
}

/// A tool's section of the settings file: its default and its three lists,
/// each of which may be absent.
pub struct ToolRulesContent {
    pub default: Option<ToolPermissionMode>,
    pub always_allow: Option<Vec<ToolRegexRule>>,
    pub always_deny: Option<Vec<ToolRegexRule>>,
    pub always_confirm: Option<Vec<ToolRegexRule>>,
}

/// A tool's section of the settings file, as a value.
pub struct RulesModel {
    pub default: Option<ToolPermissionMode>,
    pub always_allow: Option<Seq<RuleModel>>,
    pub always_deny: Option<Seq<RuleModel>>,
    pub always_confirm: Option<Seq<RuleModel>>,
}

impl View for ToolRulesContent {
    type V = RulesModel;

    open spec fn view(&self) -> RulesModel {
        RulesModel {
            default: self.default,
            always_allow: list_view(self.always_allow),
            always_deny: list_view(self.always_deny),
            always_confirm: list_view(self.always_confirm),
        }
    }
}

/// The `tool_permissions` section of the settings file: the global default,
/// if set, and each configured tool's name with its section, in file order.
pub struct ToolPermissionsContent {
    pub default: Option<ToolPermissionMode>,
    pub tools: Vec<(String, ToolRulesContent)>,
}

/// The `tool_permissions` section, as a value.
pub struct PermissionsModel {
    pub default: Option<ToolPermissionMode>,
    pub tools: Seq<(Seq<char>, RulesModel)>,
}

/// The tool entries, as values.
pub open spec fn tools_model(tools: Seq<(String, ToolRulesContent)>) -> Seq<(Seq<char>, RulesModel)> {
    tools.map_values(|e: (String, ToolRulesContent)| (e.0@, e.1@))
}

impl View for ToolPermissionsContent {
    type V = PermissionsModel;

    open spec fn view(&self) -> PermissionsModel {
        PermissionsModel { default: self.default, tools: tools_model(self.tools@) }
    }
}

/// The section, or `None` where the file has none.
pub open spec fn file_view(s: Option<ToolPermissionsContent>) -> Option<PermissionsModel> {
    match s {
        Some(p) => Some(p@),
        None => None,
    }
}

/// A section with nothing set.
pub open spec fn empty_permissions() -> PermissionsModel {
    PermissionsModel { default: None, tools: Seq::empty() }
}

/// A tool section with nothing set.
pub open spec fn empty_rules() -> RulesModel {
    RulesModel { default: None, always_allow: None, always_deny: None, always_confirm: None }
}

/// The section, an empty one where the file has none.
pub open spec fn file_or_empty(s: Option<PermissionsModel>) -> PermissionsModel {
    match s {
        Some(p) => p,
        None => empty_permissions(),
    }
}

/// `i` is the first entry named `name`.
pub open spec fn is_first_entry(tools: Seq<(Seq<char>, RulesModel)>, name: Seq<char>, i: int) -> bool {
    &&& 0 <= i < tools.len()
    &&& tools[i].0 == name
    &&& forall|j: int| 0 <= j < i ==> (#[trigger] tools[j]).0 != name
}

/// Position of the first entry named `name`, -1 where there is none.
pub open spec fn tool_pos(tools: Seq<(Seq<char>, RulesModel)>, name: Seq<char>) -> int {
    if exists|i: int| is_first_entry(tools, name, i) {
        choose|i: int| is_first_entry(tools, name, i)
    } else {
        -1
    }
}

/// The list of the given kind.
pub open spec fn rules_list(r: RulesModel, mode: ToolPermissionMode) -> Option<Seq<RuleModel>> {
    match mode {
        ToolPermissionMode::Allow => r.always_allow,
        ToolPermissionMode::Deny => r.always_deny,
        ToolPermissionMode::Confirm => r.always_confirm,
    }
}

/// `r` with the list of the given kind replaced.
pub open spec fn with_list(r: RulesModel, mode: ToolPermissionMode, l: Option<Seq<RuleModel>>) -> RulesModel {
    match mode {
        ToolPermissionMode::Allow => RulesModel {
            default: r.default,
            always_allow: l,
            always_deny: r.always_deny,
            always_confirm: r.always_confirm,
        },
        ToolPermissionMode::Deny => RulesModel {
            default: r.default,
            always_allow: r.always_allow,
            always_deny: l,
            always_confirm: r.always_confirm,
        },
        ToolPermissionMode::Confirm => RulesModel {
            default: r.default,
            always_allow: r.always_allow,
            always_deny: r.always_deny,
            always_confirm: l,
        },
    }
}

/// A list, empty where absent.
pub open spec fn list_or_empty(l: Option<Seq<RuleModel>>) -> Seq<RuleModel> {
    match l {
        Some(s) => s,
        None => Seq::empty(),
    }
}

/// The section of `tool`, an empty one where there is none.
pub open spec fn rules_of(p: PermissionsModel, tool: Seq<char>) -> RulesModel {
    let pos = tool_pos(p.tools, tool);
    if pos >= 0 {
        p.tools[pos].1
    } else {
        empty_rules()
    }
}

/// `p` with the section of `tool` set to `r`, appended where there is none.
pub open spec fn put_rules(p: PermissionsModel, tool: Seq<char>, r: RulesModel) -> PermissionsModel {
    let pos = tool_pos(p.tools, tool);
    PermissionsModel {
        default: p.default,
        tools: if pos >= 0 {
            p.tools.update(pos, (tool, r))
        } else {
            p.tools.push((tool, r))
        },
    }
}

/// Some rule of the list has pattern `pat`.
pub open spec fn has_pattern(l: Seq<RuleModel>, pat: Seq<char>) -> bool {
    exists|i: int| 0 <= i < l.len() && (#[trigger] l[i]).pattern == pat
}

/// The patterns of a list, in order.
pub open spec fn patterns_of(l: Seq<RuleModel>) -> Seq<Seq<char>> {
    l.map_values(|r: RuleModel| r.pattern)
}

/// The rules the file lists for `tool` under the given kind, none where the
/// section, the tool or the list is absent.
pub open spec fn listed(s: Option<PermissionsModel>, tool: Seq<char>, mode: ToolPermissionMode) -> Seq<RuleModel> {
    let p = file_or_empty(s);
    let pos = tool_pos(p.tools, tool);
    if pos >= 0 {
        list_or_empty(rules_list(p.tools[pos].1, mode))
    } else {
        Seq::empty()
    }
}

/// The patterns the file lists for `tool` under the given kind.
pub open spec fn patterns_in(s: Option<PermissionsModel>, tool: Seq<char>, mode: ToolPermissionMode) -> Seq<
    Seq<char>,
> {
    patterns_of(listed(s, tool, mode))
}

/// The list with `pat` appended as a rule of default case sensitivity, unless
/// some rule already has that pattern.
pub open spec fn saved_list(l: Seq<RuleModel>, pat: Seq<char>) -> Seq<RuleModel> {
    if has_pattern(l, pat) {
        l
    } else {
        l.push(RuleModel { pattern: pat, case_sensitive: None })
    }
}

/// The file after saving pattern `pat` to the list of the given kind for
/// `tool`: the section, the tool and the list are created where absent, and
/// the pattern is appended unless the list has it.
pub open spec fn save_spec(s: Option<PermissionsModel>, tool: Seq<char>, mode: ToolPermissionMode, pat: Seq<char>) -> PermissionsModel {
    let p = file_or_empty(s);
    let r = rules_of(p, tool);
    put_rules(p, tool, with_list(r, mode, Some(saved_list(list_or_empty(rules_list(r, mode)), pat))))
}

/// Keeps the rules whose pattern is not `pat`.
pub open spec fn keeps(pat: Seq<char>) -> spec_fn(RuleModel) -> bool {
    |r: RuleModel| r.pattern != pat
}

/// The file after deleting every rule with pattern `pat` from the list of
/// the given kind for `tool`; nothing changes where the tool or the list is
/// absent, though the section itself is created.
pub open spec fn delete_spec(s: Option<PermissionsModel>, tool: Seq<char>, mode: ToolPermissionMode, pat: Seq<char>) -> PermissionsModel {
    let p = file_or_empty(s);
    let pos = tool_pos(p.tools, tool);
    if pos >= 0 {
        let r = p.tools[pos].1;
        put_rules(
            p,
            tool,
            with_list(
                r,
                mode,
                match rules_list(r, mode) {
                    Some(l) => Some(l.filter(keeps(pat))),
                    None => None,
                },
            ),
        )
    } else {
        p
    }
}

/// The list with the first rule of pattern `old_pat` renamed to `new_pat`,
/// keeping its case sensitivity; unchanged where some rule already has
/// `new_pat` or none has `old_pat`.
pub open spec fn renamed_list(l: Seq<RuleModel>, old_pat: Seq<char>, new_pat: Seq<char>) -> Seq<RuleModel> {
    let i = pattern_pos(l, old_pat);
    if has_pattern(l, new_pat) || i < 0 {
        l
    } else {
        l.update(i, RuleModel { pattern: new_pat, case_sensitive: l[i].case_sensitive })
    }
}

/// The file after renaming pattern `old_pat` to `new_pat` in the list of the
/// given kind for `tool`; nothing changes where the tool or the list is
/// absent, though the section itself is created.
pub open spec fn rename_spec(
    s: Option<PermissionsModel>,
    tool: Seq<char>,
    mode: ToolPermissionMode,
    old_pat: Seq<char>,
    new_pat: Seq<char>,
) -> PermissionsModel {
    let p = file_or_empty(s);
    let pos = tool_pos(p.tools, tool);
    if pos >= 0 {
        let r = p.tools[pos].1;
        put_rules(
            p,
            tool,
            with_list(
                r,
                mode,
                match rules_list(r, mode) {
                    Some(l) => Some(renamed_list(l, old_pat, new_pat)),
                    None => None,
                },
            ),
        )
    } else {
        p
    }
}

/// The file with the global default set to `mode`.
pub open spec fn global_default_spec(s: Option<PermissionsModel>, mode: ToolPermissionMode) -> PermissionsModel {
    PermissionsModel { default: Some(mode), tools: file_or_empty(s).tools }
}

/// The file with the default of `tool` set to `mode`, the tool's section
/// created where absent.
pub open spec fn tool_default_spec(s: Option<PermissionsModel>, tool: Seq<char>, mode: ToolPermissionMode) -> PermissionsModel {
    let p = file_or_empty(s);
    let r = rules_of(p, tool);
    put_rules(
        p,
        tool,
        RulesModel {
            default: Some(mode),
            always_allow: r.always_allow,
            always_deny: r.always_deny,
            always_confirm: r.always_confirm,
        },
    )
}

/// The compiled rules of the given kind.
pub open spec fn compiled_list(rules: ToolRules, mode: ToolPermissionMode) -> Seq<CompiledRule> {
    match mode {
        ToolPermissionMode::Allow => rules.always_allow@,
        ToolPermissionMode::Deny => rules.always_deny@,
        ToolPermissionMode::Confirm => rules.always_confirm@,
    }
}

/// The settings in effect list `pat` among the valid patterns of the given
/// kind for `tool`.
pub open spec fn effective_has(permissions: ToolPermissions, tool: Seq<char>, mode: ToolPermissionMode, pat: Seq<char>) -> bool {
    let k = entry_index(permissions.tools@, tool);
    k >= 0 && rule_patterns(compiled_list(permissions.tools@[k].1, mode)).contains(pat)
}

proof fn lemma_tool_pos_first(tools: Seq<(Seq<char>, RulesModel)>, name: Seq<char>, k: int)
    requires
        is_first_entry(tools, name, k),
    ensures
        tool_pos(tools, name) == k,
{
    let i = choose|i: int| is_first_entry(tools, name, i);
    assert(is_first_entry(tools, name, i));
    if i < k {
        assert(tools[i].0 != name);
    }
    if k < i {
        assert(tools[k].0 != name);
    }
}

proof fn lemma_tool_pos_none(tools: Seq<(Seq<char>, RulesModel)>, name: Seq<char>)
    requires
        forall|i: int| 0 <= i < tools.len() ==> (#[trigger] tools[i]).0 != name,
    ensures
        tool_pos(tools, name) == -1,
{
    if exists|i: int| is_first_entry(tools, name, i) {
        let i = choose|i: int| is_first_entry(tools, name, i);
        assert(tools[i].0 != name);
    }
}

proof fn lemma_first_exists(tools: Seq<(Seq<char>, RulesModel)>, name: Seq<char>, i: int)
    requires
        0 <= i < tools.len(),
        tools[i].0 == name,
    ensures
        exists|k: int| is_first_entry(tools, name, k),
    decreases i,
{
    if exists|j: int| 0 <= j < i && (#[trigger] tools[j]).0 == name {
        let j = choose|j: int| 0 <= j < i && (#[trigger] tools[j]).0 == name;
        lemma_first_exists(tools, name, j);
    } else {
        assert(is_first_entry(tools, name, i));
    }
}

proof fn lemma_tool_pos(tools: Seq<(Seq<char>, RulesModel)>, name: Seq<char>)
    ensures
        tool_pos(tools, name) >= 0 ==> is_first_entry(tools, name, tool_pos(tools, name)),
        tool_pos(tools, name) < 0 ==> tool_pos(tools, name) == -1 && forall|i: int|
            0 <= i < tools.len() ==> (#[trigger] tools[i]).0 != name,
{
    if !(exists|i: int| is_first_entry(tools, name, i)) {
        assert forall|i: int| 0 <= i < tools.len() implies (#[trigger] tools[i]).0 != name by {
            if tools[i].0 == name {
                lemma_first_exists(tools, name, i);
            }
        }
    }
}

/// The position of the first entry named `name`.
fn find_tool(tools: &Vec<(String, ToolRulesContent)>, name: &str) -> (r: Option<usize>)
    ensures
        match r {
            Some(k) => k < tools@.len() && tool_pos(tools_model(tools@), name@) == k,
            None => tool_pos(tools_model(tools@), name@) == -1,
        },
{
    let ghost m = tools_model(tools@);
    let mut k: usize = 0;
    while k < tools.len()
        invariant
            m == tools_model(tools@),
            k <= tools@.len(),
            forall|t: int| 0 <= t < k ==> (#[trigger] m[t]).0 != name@,
        decreases tools@.len() - k,
    {
        if const_str_eq(tools[k].0.as_str(), name) {
            proof {
                assert(m[k as int].0 == name@);
                lemma_tool_pos_first(m, name@, k as int);
            }
            return Some(k);
        }
        assert(m[k as int].0 != name@);
        k = k + 1;
    }
    proof {
        lemma_tool_pos_none(m, name@);
    }
    None
}

/// `i` is the first rule with pattern `pat`.
pub open spec fn is_first_rule(l: Seq<RuleModel>, pat: Seq<char>, i: int) -> bool {
    &&& 0 <= i < l.len()
    &&& l[i].pattern == pat
    &&& forall|j: int| 0 <= j < i ==> (#[trigger] l[j]).pattern != pat
}

/// Position of the first rule with pattern `pat`, -1 where there is none.
pub open spec fn pattern_pos(l: Seq<RuleModel>, pat: Seq<char>) -> int {
    if exists|i: int| is_first_rule(l, pat, i) {
        choose|i: int| is_first_rule(l, pat, i)
    } else {
        -1
    }
}

proof fn lemma_pattern_pos_first(l: Seq<RuleModel>, pat: Seq<char>, k: int)
    requires
        is_first_rule(l, pat, k),
    ensures
        pattern_pos(l, pat) == k,
{
    let i = choose|i: int| is_first_rule(l, pat, i);
    assert(is_first_rule(l, pat, i));
    if i < k {
        assert(l[i].pattern != pat);
    }
    if k < i {
        assert(l[k].pattern != pat);
    }
}

proof fn lemma_pattern_pos_none(l: Seq<RuleModel>, pat: Seq<char>)
    requires
        !has_pattern(l, pat),
    ensures
        pattern_pos(l, pat) == -1,
{
    if exists|i: int| is_first_rule(l, pat, i) {
        let i = choose|i: int| is_first_rule(l, pat, i);
        assert(l[i].pattern == pat);
    }
}

/// The position of the first rule of `list` with pattern `pat`.
fn find_pattern(list: &Vec<ToolRegexRule>, pat: &str) -> (r: Option<usize>)
    ensures
        match r {
            Some(i) => i < list@.len() && pattern_pos(rules_model(list@), pat@) == i,
            None => !has_pattern(rules_model(list@), pat@) && pattern_pos(rules_model(list@), pat@) == -1,
        },
{
    let ghost m = rules_model(list@);
    let mut i: usize = 0;
    while i < list.len()
        invariant
            m == rules_model(list@),
            i <= list@.len(),
            forall|t: int| 0 <= t < i ==> (#[trigger] m[t]).pattern != pat@,
        decreases list@.len() - i,
    {
        if const_str_eq(list[i].pattern.as_str(), pat) {
            proof {
                assert(m[i as int].pattern == pat@);
                lemma_pattern_pos_first(m, pat@, i as int);
            }
            return Some(i);
        }
        assert(m[i as int].pattern != pat@);
        i = i + 1;
    }
    proof {
        lemma_pattern_pos_none(m, pat@);
    }
    None
}

/// Takes the section of `tool_name` out of `tools`, an empty one where there
/// is none, with the position it goes back to.
fn open_entry(tools: &mut Vec<(String, ToolRulesContent)>, tool_name: &str) -> (r: (usize, ToolRulesContent))
    ensures
        tool_pos(tools_model(old(tools)@), tool_name@) >= 0 ==> {
            &&& r.0 == tool_pos(tools_model(old(tools)@), tool_name@)
            &&& r.1@ == tools_model(old(tools)@)[r.0 as int].1
            &&& final(tools)@ == old(tools)@.remove(r.0 as int)
        },
        tool_pos(tools_model(old(tools)@), tool_name@) < 0 ==> {
            &&& r.0 == old(tools)@.len()
            &&& r.1@ == empty_rules()
            &&& final(tools)@ == old(tools)@
        },
{
    match find_tool(tools, tool_name) {
        Some(k) => {
            let (_, rules) = tools.remove(k);
            (k, rules)
        },
        None => (
            tools.len(),
            ToolRulesContent { default: None, always_allow: None, always_deny: None, always_confirm: None },
        ),
    }
}

/// Puts `rules` back as the section of `tool_name` at the position
/// `open_entry` gave.
fn close_entry(
    tools: &mut Vec<(String, ToolRulesContent)>,
    pos: usize,
    tool_name: &str,
    rules: ToolRulesContent,
    Ghost(before): Ghost<Seq<(String, ToolRulesContent)>>,
)
    requires
        tool_pos(tools_model(before), tool_name@) >= 0 ==> {
            &&& pos == tool_pos(tools_model(before), tool_name@)
            &&& old(tools)@ == before.remove(pos as int)
        },
        tool_pos(tools_model(before), tool_name@) < 0 ==> pos == before.len() && old(tools)@ == before,
    ensures
        tools_model(final(tools)@) == put_rules(
            PermissionsModel { default: None, tools: tools_model(before) },
            tool_name@,
            rules@,
        ).tools,
{
    proof {
        lemma_tool_pos(tools_model(before), tool_name@);
    }
    tools.insert(pos, (String::from_str(tool_name), rules));
    proof {
        let m = tools_model(before);
        if tool_pos(m, tool_name@) >= 0 {
            assert(tools@ =~= before.update(pos as int, tools@[pos as int]));
            assert(tools_model(tools@) =~= m.update(pos as int, (tool_name@, rules@)));
        } else {
            assert(tools@ =~= before.push(tools@[pos as int]));
            assert(tools_model(tools@) =~= m.push((tool_name@, rules@)));
        }
    }
}

/// The section in the file, taken out; an empty one where there is none.
fn open_permissions(settings: &mut Option<ToolPermissionsContent>) -> (r: ToolPermissionsContent)
    ensures
        r@ == file_or_empty(file_view(*old(settings))),
{
    match settings.take() {
        Some(p) => p,
        None => {
            let p = ToolPermissionsContent { default: None, tools: Vec::new() };
            assert(p@.tools =~= empty_permissions().tools);
            p
        },
    }
}

/// The list with `pattern` appended unless some rule has it.
fn save_in_list(list: Option<Vec<ToolRegexRule>>, pattern: String) -> (r: Vec<ToolRegexRule>)
    ensures
        rules_model(r@) == saved_list(list_or_empty(list_view(list)), pattern@),
{
    let mut v = match list {
        Some(v) => v,
        None => Vec::new(),
    };
    assert(rules_model(v@) == list_or_empty(list_view(list)));
    match find_pattern(&v, pattern.as_str()) {
        Some(i) => {
            proof {
                let m = rules_model(v@);
                assert(is_first_rule(m, pattern@, i as int));
                assert(m[i as int].pattern == pattern@);
            }
        },
        None => {
            v.push(ToolRegexRule { pattern, case_sensitive: None });
            assert(rules_model(v@) =~= saved_list(list_or_empty(list_view(list)), pattern@));
        },
    }
    v
}

/// The section with `pattern` saved to the list of the given kind.
fn rules_with_saved(rules: ToolRulesContent, mode: ToolPermissionMode, pattern: String) -> (r: ToolRulesContent)
    ensures
        r@ == with_list(rules@, mode, Some(saved_list(list_or_empty(rules_list(rules@, mode)), pattern@))),
{
    let ToolRulesContent { default, always_allow, always_deny, always_confirm } = rules;
    match mode {
        ToolPermissionMode::Allow => ToolRulesContent {
            default,
            always_allow: Some(save_in_list(always_allow, pattern)),
            always_deny,
            always_confirm,
        },
        ToolPermissionMode::Deny => ToolRulesContent {
            default,
            always_allow,
            always_deny: Some(save_in_list(always_deny, pattern)),
            always_confirm,
        },
        ToolPermissionMode::Confirm => ToolRulesContent {
            default,
            always_allow,
            always_deny,
            always_confirm: Some(save_in_list(always_confirm, pattern)),
        },
    }
}

/// Saves `pattern` to the list of the given kind for `tool_name` in the
/// settings file, creating what is missing; a pattern the list already has
/// is not added twice.
pub fn save_pattern(
    settings: &mut Option<ToolPermissionsContent>,
    tool_name: &str,
    rule_type: ToolPermissionMode,
    pattern: String,
)
    ensures
        file_view(*final(settings)) == Some(save_spec(file_view(*old(settings)), tool_name@, rule_type, pattern@)),
{
    let mut perms = open_permissions(settings);
    let ghost before = perms.tools@;
    let (pos, rules) = open_entry(&mut perms.tools, tool_name);
    let rules = rules_with_saved(rules, rule_type, pattern);
    close_entry(&mut perms.tools, pos, tool_name, rules, Ghost(before));
    *settings = Some(perms);
}

/// A copy of a rule.
fn copy_rule(rule: &ToolRegexRule) -> (r: ToolRegexRule)
    ensures
        r@ == rule@,
{
    ToolRegexRule { pattern: rule.pattern.clone(), case_sensitive: rule.case_sensitive }
}

/// The list without the rules of pattern `pat`.
fn without_in_list(list: Option<Vec<ToolRegexRule>>, pat: &str) -> (r: Option<Vec<ToolRegexRule>>)
    ensures
        list_view(r) == match list_view(list) {
            Some(l) => Some(l.filter(keeps(pat@))),
            None => None,
        },
{
    match list {
        None => None,
        Some(v) => {
            let ghost m = rules_model(v@);
            let mut out: Vec<ToolRegexRule> = Vec::new();
            let mut i: usize = 0;
            while i < v.len()
                invariant
                    m == rules_model(v@),
                    i <= v@.len(),
                    rules_model(out@) == m.take(i as int).filter(keeps(pat@)),
                decreases v@.len() - i,
            {
                proof {
                    assert(m.take(i + 1) =~= m.take(i as int).push(m[i as int]));
                    m.take(i as int).lemma_filter_push(m[i as int], keeps(pat@));
                }
                if !const_str_eq(v[i].pattern.as_str(), pat) {
                    out.push(copy_rule(&v[i]));
                    assert(rules_model(out@) =~= m.take(i + 1).filter(keeps(pat@)));
                } else {
                    assert(rules_model(out@) =~= m.take(i + 1).filter(keeps(pat@)));
                }
                i = i + 1;
            }
            assert(m.take(i as int) =~= m);
            Some(out)
        },
    }
}

/// The list with `old_pat` renamed to `new_pat`, as `renamed_list` says.
fn renamed_in_list(list: Option<Vec<ToolRegexRule>>, old_pat: &str, new_pat: &str) -> (r: Option<Vec<ToolRegexRule>>)
    ensures
        list_view(r) == match list_view(list) {
            Some(l) => Some(renamed_list(l, old_pat@, new_pat@)),
            None => None,
        },
{
    match list {
        None => None,
        Some(mut v) => {
            let ghost m = rules_model(v@);
            if find_pattern(&v, new_pat).is_none() {
                match find_pattern(&v, old_pat) {
                    Some(i) => {
                        let case_sensitive = v[i].case_sensitive;
                        v.set(i, ToolRegexRule { pattern: String::from_str(new_pat), case_sensitive });
                        proof {
                            assert(rules_model(v@) =~= m.update(
                                i as int,
                                RuleModel { pattern: new_pat@, case_sensitive: m[i as int].case_sensitive },
                            ));
                        }
                    },
                    None => {},
                }
            } else {
                proof {
                    let k = pattern_pos(m, new_pat@);
                    assert(is_first_rule(m, new_pat@, k));
                    assert(m[k].pattern == new_pat@);
                }
            }
            Some(v)
        },
    }
}

/// Which change `edit_rules` makes to a list.
enum ListEdit<'a> {
    Delete(&'a str),
    Rename(&'a str, &'a str),
}

/// The list after the edit.
spec fn edited_list(l: Seq<RuleModel>, edit: ListEdit) -> Seq<RuleModel> {
    match edit {
        ListEdit::Delete(p) => l.filter(keeps(p@)),
        ListEdit::Rename(o, n) => renamed_list(l, o@, n@),
    }
}

/// The section with the edit made to its list of the given kind, where that
/// list is present.
fn edit_rules(rules: ToolRulesContent, mode: ToolPermissionMode, edit: ListEdit) -> (r: ToolRulesContent)
    ensures
        r@ == with_list(
            rules@,
            mode,
            match rules_list(rules@, mode) {
                Some(l) => Some(edited_list(l, edit)),
                None => None,
            },
        ),
{
    let ToolRulesContent { default, always_allow, always_deny, always_confirm } = rules;
    let edit_one = |list: Option<Vec<ToolRegexRule>>| -> (r: Option<Vec<ToolRegexRule>>)
        ensures
            list_view(r) == match list_view(list) {
                Some(l) => Some(edited_list(l, edit)),
                None => None,
            },
        {
            match edit {
                ListEdit::Delete(p) => without_in_list(list, p),
                ListEdit::Rename(o, n) => renamed_in_list(list, o, n),
            }
        };
    match mode {
        ToolPermissionMode::Allow => ToolRulesContent {
            default,
            always_allow: edit_one(always_allow),
            always_deny,
            always_confirm,
        },
        ToolPermissionMode::Deny => ToolRulesContent {
            default,
            always_allow,
            always_deny: edit_one(always_deny),
            always_confirm,
        },
        ToolPermissionMode::Confirm => ToolRulesContent {
            default,
            always_allow,
            always_deny,
            always_confirm: edit_one(always_confirm),
        },
    }
}

/// Deletes every rule with pattern `pattern` from the list of the given kind
/// for `tool_name` in the settings file.
pub fn delete_pattern(
    settings: &mut Option<ToolPermissionsContent>,
    tool_name: &str,
    rule_type: ToolPermissionMode,
    pattern: &str,
)
    ensures
        file_view(*final(settings)) == Some(delete_spec(file_view(*old(settings)), tool_name@, rule_type, pattern@)),
{
    let mut perms = open_permissions(settings);
    if find_tool(&perms.tools, tool_name).is_some() {
        let ghost before = perms.tools@;
        let (pos, rules) = open_entry(&mut perms.tools, tool_name);
        let rules = edit_rules(rules, rule_type, ListEdit::Delete(pattern));
        close_entry(&mut perms.tools, pos, tool_name, rules, Ghost(before));
    }
    *settings = Some(perms);
}

/// Whether some compiled rule has pattern `pat`.
fn compiled_has_pattern(rules: &Vec<CompiledRule>, pat: &str) -> (r: bool)
    ensures
        r == rule_patterns(rules@).contains(pat@),
{
    let mut i: usize = 0;
    while i < rules.len()
        invariant
            i <= rules@.len(),
            forall|t: int| 0 <= t < i ==> (#[trigger] rules@[t]).pattern@ != pat@,
        decreases rules@.len() - i,
    {
        if const_str_eq(rules[i].pattern.as_str(), pat) {
            assert(rule_patterns(rules@)[i as int] == pat@);
            return true;
        }
        i = i + 1;
    }
    proof {
        if rule_patterns(rules@).contains(pat@) {
            let t = choose|t: int| 0 <= t < rule_patterns(rules@).len() && rule_patterns(rules@)[t] == pat@;
            assert(rules@[t].pattern@ == pat@);
        }
    }
    false
}

/// Renames pattern `old_pattern` to `new_pattern` in the list of the given
/// kind for `tool_name`. Refused, with the file untouched and `false`, where
/// the settings in effect already list `new_pattern` there; otherwise the
/// file is edited as `rename_spec` says and the result is `true`.
pub fn update_pattern(
    effective: &ToolPermissions,
    settings: &mut Option<ToolPermissionsContent>,
    tool_name: &str,
    rule_type: ToolPermissionMode,
    old_pattern: &str,
    new_pattern: String,
) -> (r: bool)
    ensures
        r == !effective_has(*effective, tool_name@, rule_type, new_pattern@),
        r ==> file_view(*final(settings)) == Some(
            rename_spec(file_view(*old(settings)), tool_name@, rule_type, old_pattern@, new_pattern@),
        ),
        !r ==> *final(settings) == *old(settings),
{
    match find_entry(&effective.tools, tool_name) {
        Some(k) => {
            let rules = &effective.tools[k].1;
            let listed = match rule_type {
                ToolPermissionMode::Allow => &rules.always_allow,
                ToolPermissionMode::Deny => &rules.always_deny,
                ToolPermissionMode::Confirm => &rules.always_confirm,
            };
            if compiled_has_pattern(listed, new_pattern.as_str()) {
                return false;
            }
        },
        None => {},
    }
    let mut perms = open_permissions(settings);
    if find_tool(&perms.tools, tool_name).is_some() {
        let ghost before = perms.tools@;
        let (pos, rules) = open_entry(&mut perms.tools, tool_name);
        let rules = edit_rules(rules, rule_type, ListEdit::Rename(old_pattern, new_pattern.as_str()));
        close_entry(&mut perms.tools, pos, tool_name, rules, Ghost(before));
    }
    *settings = Some(perms);
    true
}

/// Sets the global default in the settings file.
pub fn set_global_default_permission(settings: &mut Option<ToolPermissionsContent>, mode: ToolPermissionMode)
    ensures
        file_view(*final(settings)) == Some(global_default_spec(file_view(*old(settings)), mode)),
{
    let mut perms = open_permissions(settings);
    perms.default = Some(mode);
    *settings = Some(perms);
}

/// Sets the default of `tool_name` in the settings file, creating its
/// section where absent.
pub fn set_default_mode(settings: &mut Option<ToolPermissionsContent>, tool_name: &str, mode: ToolPermissionMode)
    ensures
        file_view(*final(settings)) == Some(tool_default_spec(file_view(*old(settings)), tool_name@, mode)),
{
    let mut perms = open_permissions(settings);
    let ghost before = perms.tools@;
    let (pos, rules) = open_entry(&mut perms.tools, tool_name);
    let ToolRulesContent { default: _, always_allow, always_deny, always_confirm } = rules;
    let rules = ToolRulesContent { default: Some(mode), always_allow, always_deny, always_confirm };
    close_entry(&mut perms.tools, pos, tool_name, rules, Ghost(before));
    *settings = Some(perms);
}

proof fn lemma_put_rules(p: PermissionsModel, tool: Seq<char>, r: RulesModel, t2: Seq<char>)
    ensures
        put_rules(p, tool, r).default == p.default,
        t2 == tool ==> tool_pos(put_rules(p, tool, r).tools, t2) >= 0 && put_rules(p, tool, r).tools[tool_pos(
            put_rules(p, tool, r).tools,
            t2,
        )].1 == r,
        t2 != tool ==> tool_pos(put_rules(p, tool, r).tools, t2) == tool_pos(p.tools, t2) && (tool_pos(p.tools, t2)
            >= 0 ==> put_rules(p, tool, r).tools[tool_pos(p.tools, t2)] == p.tools[tool_pos(p.tools, t2)]),
{
    let pos = tool_pos(p.tools, tool);
    let q = put_rules(p, tool, r).tools;
    let k = tool_pos(p.tools, t2);
    lemma_tool_pos(p.tools, tool);
    lemma_tool_pos(p.tools, t2);
    if pos >= 0 {
        assert forall|j: int| 0 <= j < q.len() implies (#[trigger] q[j]).0 == p.tools[j].0 by {}
        if t2 == tool {
            assert forall|j: int| 0 <= j < pos implies (#[trigger] q[j]).0 != tool by {
                assert(p.tools[j].0 != tool);
            }
            lemma_tool_pos_first(q, tool, pos);
        } else if k >= 0 {
            assert forall|j: int| 0 <= j < k implies (#[trigger] q[j]).0 != t2 by {
                assert(p.tools[j].0 != t2);
            }
            assert(q[k].0 == p.tools[k].0);
            lemma_tool_pos_first(q, t2, k);
        } else {
            assert forall|j: int| 0 <= j < q.len() implies (#[trigger] q[j]).0 != t2 by {
                assert(p.tools[j].0 != t2);
            }
            lemma_tool_pos_none(q, t2);
        }
    } else {
        let n = p.tools.len() as int;
        if t2 == tool {
            assert forall|j: int| 0 <= j < n implies (#[trigger] q[j]).0 != tool by {
                assert(q[j] == p.tools[j]);
            }
            lemma_tool_pos_first(q, tool, n);
        } else if k >= 0 {
            assert forall|j: int| 0 <= j < k implies (#[trigger] q[j]).0 != t2 by {
                assert(q[j] == p.tools[j]);
            }
            assert(q[k] == p.tools[k]);
            lemma_tool_pos_first(q, t2, k);
        } else {
            assert forall|j: int| 0 <= j < q.len() implies (#[trigger] q[j]).0 != t2 by {
                if j < n {
                    assert(q[j] == p.tools[j]);
                }
            }
            lemma_tool_pos_none(q, t2);
        }
    }
}

proof fn lemma_listed_after_put(p: PermissionsModel, tool: Seq<char>, r: RulesModel, t2: Seq<char>, m2: ToolPermissionMode)
    ensures
        listed(Some(put_rules(p, tool, r)), t2, m2) == if t2 == tool {
            list_or_empty(rules_list(r, m2))
        } else {
            listed(Some(p), t2, m2)
        },
{
    lemma_put_rules(p, tool, r, t2);
}

proof fn lemma_has_pattern(l: Seq<RuleModel>, pat: Seq<char>)
    ensures
        has_pattern(l, pat) == patterns_of(l).contains(pat),
{
    if has_pattern(l, pat) {
        let i = choose|i: int| 0 <= i < l.len() && (#[trigger] l[i]).pattern == pat;
        assert(patterns_of(l)[i] == pat);
    }
    if patterns_of(l).contains(pat) {
        let i = choose|i: int| 0 <= i < patterns_of(l).len() && patterns_of(l)[i] == pat;
        assert(l[i].pattern == pat);
    }
}

/// Saving a pattern lists it for that tool and kind: appended at the end
/// where it was not listed, and the list unchanged where it was.
pub proof fn lemma_save_lists_pattern(s: Option<PermissionsModel>, tool: Seq<char>, mode: ToolPermissionMode, pat: Seq<char>)
    ensures
        patterns_in(Some(save_spec(s, tool, mode, pat)), tool, mode).contains(pat),
        patterns_in(Some(save_spec(s, tool, mode, pat)), tool, mode) == if patterns_in(s, tool, mode).contains(pat) {
            patterns_in(s, tool, mode)
        } else {
            patterns_in(s, tool, mode).push(pat)
        },
{
    let p = file_or_empty(s);
    let r = rules_of(p, tool);
    let l = list_or_empty(rules_list(r, mode));
    let nr = with_list(r, mode, Some(saved_list(l, pat)));
    lemma_listed_after_put(p, tool, nr, tool, mode);
    assert(listed(s, tool, mode) == l);
    lemma_has_pattern(l, pat);
    let after = saved_list(l, pat);
    assert(rules_list(nr, mode) == Some(after));
    if !has_pattern(l, pat) {
        assert(patterns_of(l.push(RuleModel { pattern: pat, case_sensitive: None })) =~= patterns_of(l).push(pat));
        assert(patterns_of(after)[l.len() as int] == pat);
    }
}

/// Saving a pattern changes no other list, of that tool or another.
pub proof fn lemma_save_keeps_other_lists(
    s: Option<PermissionsModel>,
    tool: Seq<char>,
    mode: ToolPermissionMode,
    pat: Seq<char>,
    other_tool: Seq<char>,
    other_mode: ToolPermissionMode,
)
    requires
        other_tool != tool || other_mode != mode,
    ensures
        patterns_in(Some(save_spec(s, tool, mode, pat)), other_tool, other_mode) == patterns_in(s, other_tool, other_mode),
{
    let p = file_or_empty(s);
    let r = rules_of(p, tool);
    let nr = with_list(r, mode, Some(saved_list(list_or_empty(rules_list(r, mode)), pat)));
    lemma_listed_after_put(p, tool, nr, other_tool, other_mode);
    assert(listed(s, other_tool, other_mode) == listed(Some(p), other_tool, other_mode));
}

/// Saving the same pattern twice leaves the file as saving it once.
pub proof fn lemma_save_idempotent(s: Option<PermissionsModel>, tool: Seq<char>, mode: ToolPermissionMode, pat: Seq<char>)
    ensures
        save_spec(Some(save_spec(s, tool, mode, pat)), tool, mode, pat) == save_spec(s, tool, mode, pat),
{
    let p = file_or_empty(s);
    let r = rules_of(p, tool);
    let l = saved_list(list_or_empty(rules_list(r, mode)), pat);
    let nr = with_list(r, mode, Some(l));
    let q = save_spec(s, tool, mode, pat);
    lemma_put_rules(p, tool, nr, tool);
    let k = tool_pos(q.tools, tool);
    lemma_tool_pos(q.tools, tool);
    assert(rules_of(q, tool) == nr);
    assert(rules_list(nr, mode) == Some(l));
    assert(has_pattern(l, pat)) by {
        if !has_pattern(list_or_empty(rules_list(r, mode)), pat) {
            assert(l[l.len() - 1].pattern == pat);
        }
    }
    assert(saved_list(l, pat) == l);
    assert(with_list(nr, mode, Some(l)) == nr);
    assert(q.tools[k] == (tool, nr));
    assert(put_rules(q, tool, nr).tools =~= q.tools);
}

/// Saving keeps a list free of repeated patterns.
pub proof fn lemma_save_no_duplicates(s: Option<PermissionsModel>, tool: Seq<char>, mode: ToolPermissionMode, pat: Seq<char>)
    requires
        patterns_in(s, tool, mode).no_duplicates(),
    ensures
        patterns_in(Some(save_spec(s, tool, mode, pat)), tool, mode).no_duplicates(),
{
    lemma_save_lists_pattern(s, tool, mode, pat);
    let before = patterns_in(s, tool, mode);
    if !before.contains(pat) {
        let after = before.push(pat);
        assert forall|i: int, j: int| 0 <= i < after.len() && 0 <= j < after.len() && i != j implies after[i]
            != after[j] by {
            if i == before.len() {
                assert(after[j] == before[j]);
            } else if j == before.len() {
                assert(after[i] == before[i]);
            } else {
                assert(after[i] == before[i] && after[j] == before[j]);
            }
        }
    }
}

/// Deleting a pattern removes every rule with it from that list and keeps
/// every other pattern of the list.
pub proof fn lemma_delete_removes(
    s: Option<PermissionsModel>,
    tool: Seq<char>,
    mode: ToolPermissionMode,
    pat: Seq<char>,
    q: Seq<char>,
)
    ensures
        patterns_in(Some(delete_spec(s, tool, mode, pat)), tool, mode).contains(q) == (q != pat && patterns_in(
            s,
            tool,
            mode,
        ).contains(q)),
{
    let p = file_or_empty(s);
    let pos = tool_pos(p.tools, tool);
    if pos >= 0 {
        let r = p.tools[pos].1;
        let nl = match rules_list(r, mode) {
            Some(l) => Some(l.filter(keeps(pat))),
            None => None,
        };
        lemma_listed_after_put(p, tool, with_list(r, mode, nl), tool, mode);
        let l = list_or_empty(rules_list(r, mode));
        assert(listed(s, tool, mode) == l);
        if rules_list(r, mode) is Some {
            let f = l.filter(keeps(pat));
            assert(listed(Some(delete_spec(s, tool, mode, pat)), tool, mode) == f);
            lemma_has_pattern(f, q);
            lemma_has_pattern(l, q);
            if has_pattern(f, q) {
                let i = choose|i: int| 0 <= i < f.len() && (#[trigger] f[i]).pattern == q;
                l.lemma_filter_pred(keeps(pat), i);
                assert(f.contains(f[i]));
                l.lemma_filter_contains_rev(keeps(pat), f[i]);
                let j = choose|j: int| 0 <= j < l.len() && l[j] == f[i];
                assert(l[j].pattern == q);
            }
            if q != pat && has_pattern(l, q) {
                let i = choose|i: int| 0 <= i < l.len() && (#[trigger] l[i]).pattern == q;
                l.lemma_filter_contains(keeps(pat), i);
                let j = choose|j: int| 0 <= j < f.len() && f[j] == l[i];
                assert(f[j].pattern == q);
            }
        }
    }
}

/// Deleting a pattern changes no other list, of that tool or another.
pub proof fn lemma_delete_keeps_other_lists(
    s: Option<PermissionsModel>,
    tool: Seq<char>,
    mode: ToolPermissionMode,
    pat: Seq<char>,
    other_tool: Seq<char>,
    other_mode: ToolPermissionMode,
)
    requires
        other_tool != tool || other_mode != mode,
    ensures
        patterns_in(Some(delete_spec(s, tool, mode, pat)), other_tool, other_mode) == patterns_in(s, other_tool, other_mode),
{
    let p = file_or_empty(s);
    let pos = tool_pos(p.tools, tool);
    if pos >= 0 {
        let r = p.tools[pos].1;
        let nl = match rules_list(r, mode) {
            Some(l) => Some(l.filter(keeps(pat))),
            None => None,
        };
        lemma_listed_after_put(p, tool, with_list(r, mode, nl), other_tool, other_mode);
        if other_tool == tool {
            lemma_tool_pos(p.tools, tool);
        }
    }
    assert(listed(s, other_tool, other_mode) == listed(Some(p), other_tool, other_mode));
}

proof fn lemma_filter_keeps_all(l: Seq<RuleModel>, pat: Seq<char>)
    requires
        !has_pattern(l, pat),
    ensures
        l.filter(keeps(pat)) == l,
    decreases l.len(),
{
    if l.len() > 0 {
        let init = l.drop_last();
        assert(!has_pattern(init, pat)) by {
            if has_pattern(init, pat) {
                let i = choose|i: int| 0 <= i < init.len() && (#[trigger] init[i]).pattern == pat;
                assert(l[i].pattern == pat);
            }
        }
        lemma_filter_keeps_all(init, pat);
        assert(l =~= init.push(l.last()));
        assert(l[l.len() - 1].pattern != pat);
        init.lemma_filter_push(l.last(), keeps(pat));
    }
}

/// Deleting a pattern just saved to a list that did not have it gives the
/// list back as it was.
pub proof fn lemma_delete_undoes_save(s: Option<PermissionsModel>, tool: Seq<char>, mode: ToolPermissionMode, pat: Seq<char>)
    requires
        !patterns_in(s, tool, mode).contains(pat),
    ensures
        listed(Some(delete_spec(Some(save_spec(s, tool, mode, pat)), tool, mode, pat)), tool, mode) == listed(
            s,
            tool,
            mode,
        ),
{
    let p = file_or_empty(s);
    let r = rules_of(p, tool);
    let l = list_or_empty(rules_list(r, mode));
    let nr = with_list(r, mode, Some(saved_list(l, pat)));
    let q = save_spec(s, tool, mode, pat);
    lemma_put_rules(p, tool, nr, tool);
    lemma_tool_pos(q.tools, tool);
    assert(listed(s, tool, mode) == l);
    lemma_has_pattern(l, pat);
    let pushed = l.push(RuleModel { pattern: pat, case_sensitive: None });
    assert(saved_list(l, pat) == pushed);
    let k = tool_pos(q.tools, tool);
    assert(q.tools[k].1 == nr);
    let nr2 = with_list(nr, mode, Some(pushed.filter(keeps(pat))));
    lemma_listed_after_put(q, tool, nr2, tool, mode);
    l.lemma_filter_push(RuleModel { pattern: pat, case_sensitive: None }, keeps(pat));
    lemma_filter_keeps_all(l, pat);
}

/// Renaming a listed pattern to one the list lacks replaces its first
/// occurrence, in place.
pub proof fn lemma_rename_replaces(
    s: Option<PermissionsModel>,
    tool: Seq<char>,
    mode: ToolPermissionMode,
    old_pat: Seq<char>,
    new_pat: Seq<char>,
)
    requires
        patterns_in(s, tool, mode).contains(old_pat),
        !patterns_in(s, tool, mode).contains(new_pat),
    ensures
        patterns_in(Some(rename_spec(s, tool, mode, old_pat, new_pat)), tool, mode) == patterns_in(s, tool, mode).update(
            pattern_pos(listed(s, tool, mode), old_pat),
            new_pat,
        ),
        patterns_in(Some(rename_spec(s, tool, mode, old_pat, new_pat)), tool, mode).contains(new_pat),
{
    let p = file_or_empty(s);
    let pos = tool_pos(p.tools, tool);
    let l = listed(s, tool, mode);
    lemma_has_pattern(l, old_pat);
    lemma_has_pattern(l, new_pat);
    assert(pos >= 0);
    let r = p.tools[pos].1;
    assert(rules_list(r, mode) is Some);
    let i = choose|i: int| 0 <= i < l.len() && (#[trigger] l[i]).pattern == old_pat;
    lemma_first_rule_exists(l, old_pat, i);
    let k = pattern_pos(l, old_pat);
    assert(is_first_rule(l, old_pat, k));
    let nl = renamed_list(l, old_pat, new_pat);
    lemma_listed_after_put(p, tool, with_list(r, mode, Some(nl)), tool, mode);
    assert(patterns_of(nl) =~= patterns_of(l).update(k, new_pat));
    assert(patterns_of(nl)[k] == new_pat);
}

proof fn lemma_first_rule_exists(l: Seq<RuleModel>, pat: Seq<char>, i: int)
    requires
        0 <= i < l.len(),
        l[i].pattern == pat,
    ensures
        exists|k: int| is_first_rule(l, pat, k),
    decreases i,
{
    if exists|j: int| 0 <= j < i && (#[trigger] l[j]).pattern == pat {
        let j = choose|j: int| 0 <= j < i && (#[trigger] l[j]).pattern == pat;
        lemma_first_rule_exists(l, pat, j);
    } else {
        assert(is_first_rule(l, pat, i));
    }
}

/// Setting a tool's default makes it the tool's default and keeps its lists
/// and every other tool's section.
pub proof fn lemma_tool_default_set(
    s: Option<PermissionsModel>,
    tool: Seq<char>,
    mode: ToolPermissionMode,
    other_tool: Seq<char>,
    list: ToolPermissionMode,
)
    ensures
        rules_of(tool_default_spec(s, tool, mode), tool).default == Some(mode),
        listed(Some(tool_default_spec(s, tool, mode)), other_tool, list) == listed(s, other_tool, list),
        other_tool != tool ==> rules_of(tool_default_spec(s, tool, mode), other_tool) == rules_of(
            file_or_empty(s),
            other_tool,
        ),
{
    let p = file_or_empty(s);
    let r = rules_of(p, tool);
    let nr = RulesModel {
        default: Some(mode),
        always_allow: r.always_allow,
        always_deny: r.always_deny,
        always_confirm: r.always_confirm,
    };
    lemma_put_rules(p, tool, nr, tool);
    lemma_put_rules(p, tool, nr, other_tool);
    lemma_listed_after_put(p, tool, nr, other_tool, list);
    lemma_tool_pos(p.tools, tool);
    assert(listed(s, other_tool, list) == listed(Some(p), other_tool, list));
}

/// Deleting the same pattern twice leaves the file as deleting it once.
pub proof fn lemma_delete_idempotent(s: Option<PermissionsModel>, tool: Seq<char>, mode: ToolPermissionMode, pat: Seq<char>)
    ensures
        delete_spec(Some(delete_spec(s, tool, mode, pat)), tool, mode, pat) == delete_spec(s, tool, mode, pat),
{
    let p = file_or_empty(s);
    let pos = tool_pos(p.tools, tool);
    if pos >= 0 {
        lemma_tool_pos(p.tools, tool);
        let r = p.tools[pos].1;
        let nl = match rules_list(r, mode) {
            Some(l) => Some(l.filter(keeps(pat))),
            None => None,
        };
        let nr = with_list(r, mode, nl);
        let q = delete_spec(s, tool, mode, pat);
        lemma_put_rules(p, tool, nr, tool);
        let k = tool_pos(q.tools, tool);
        lemma_tool_pos(q.tools, tool);
        assert(q.tools[k].1 == nr);
        let nl2 = match rules_list(nr, mode) {
            Some(l) => Some(l.filter(keeps(pat))),
            None => None,
        };
        if let Some(l) = rules_list(r, mode) {
            let f = l.filter(keeps(pat));
            assert(rules_list(nr, mode) == Some(f));
            assert(!has_pattern(f, pat)) by {
                if has_pattern(f, pat) {
                    let i = choose|i: int| 0 <= i < f.len() && (#[trigger] f[i]).pattern == pat;
                    l.lemma_filter_pred(keeps(pat), i);
                }
            }
            lemma_filter_keeps_all(f, pat);
            assert(nl2 == Some(f));
        } else {
            assert(nl2 is None);
        }
        assert(with_list(nr, mode, nl2) == nr);
        assert(q.tools[k] == (tool, nr));
        assert(put_rules(q, tool, nr).tools =~= q.tools);
    }
}

} // verus!
