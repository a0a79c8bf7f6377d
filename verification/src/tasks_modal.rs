use vstd::prelude::*;
use vstd::string::*;
use crate::label_order::{labelled_order, labelled_order_of, is_labelled_order};
use crate::tab_switcher::copy_vec;
use crate::text::{
    is_blank, lemma_trim_empty_iff_blank, push_char, trim, trim_spec, truncate_and_trailoff,
    truncate_and_trailoff_spec,
};

verus! {

/// Where a task terminal is shown.
#[derive(Clone, Copy, Debug, PartialEq, Eq, Structural)]
pub enum RevealTarget {
    /// In the central pane area.
    Center,
    /// In the terminal dock.
    Dock,
}

/// Changes made to a task template before it is resolved.
#[derive(Clone, Copy, Debug, PartialEq, Eq, Structural, Default)]
pub struct TaskOverrides {
    pub reveal_target: Option<RevealTarget>,
}

/// Where a task comes from.
#[derive(Debug)]
pub enum TaskSourceKind {
    /// A command typed into the picker.
    UserInput,
    /// A tasks file at an absolute path.
    AbsPath,
    /// A worktree's tasks file.
    Worktree,
    /// A language server.
    Lsp { language_name: String },
    /// A language's task templates.
    Language { name: String },
}

/// A resolved task, as far as the picker reads it.
pub struct ResolvedTaskView {
    /// The task's id, by which the task inventory forgets it.
    pub id: String,
    /// The label with the task context substituted.
    pub resolved_label: String,
    /// The label shown in the list.
    pub display_label: String,
    /// The label of the template the task was resolved from.
    pub original_label: String,
    /// The command line, as shown.
    pub command_label: String,
    /// The template's tags.
    pub tags: Vec<String>,
    pub reveal_target: RevealTarget,
}

/// A task offered by the picker, with its source.
pub struct TaskCandidate {
    pub kind: TaskSourceKind,
    pub task: ResolvedTaskView,
}

/// A fuzzy match against the candidates' display labels.
pub struct MatchEntry {
    /// Index of the candidate.
    pub candidate_id: usize,
    /// The matched text.
    pub string: String,
    /// Positions of the matched characters.
    pub positions: Vec<usize>,
}

/// The template of a task made from the typed command.
pub struct OneshotTemplate {
    pub label: String,
    pub command: String,
    pub reveal_target: RevealTarget,
}

/// The candidate to run, with the reveal target to run it with.
#[derive(Clone, Copy, Debug, PartialEq, Eq, Structural)]
pub struct TaskChoice {
    pub candidate_index: usize,
    pub reveal_target: RevealTarget,
    /// The run is not recorded in the task history.
    pub omit_history_entry: bool,
}

/// The icon at the start of a row.
pub enum TaskIcon {
    Terminal,
    Settings,
    FileTree,
    /// The file icon of the named language.
    LanguageFile { language_name: String },
}

/// What a row of the list shows.
pub struct TaskRow {
    pub candidate_id: usize,
    /// The matched label, with the positions of its matched characters.
    pub label: String,
    pub highlight_positions: Vec<usize>,
    pub icon: TaskIcon,
    /// The task comes from a language server.
    pub lsp_indicator: bool,
    /// The row belongs to a recently used task.
    pub history_icon: bool,
    /// The row offers to forget the task.
    pub deletable: bool,
    pub tooltip: Option<String>,
    pub tags_line: String,
}

/// The confirming button of the footer.
#[derive(Clone, Copy, Debug, PartialEq, Eq, Structural)]
pub enum FooterAction {
    /// Run the typed command.
    SpawnOneshot { omit_history: bool },
    /// Run the selected task; `rerun` when it is a recently used one.
    Run { omit_history: bool, rerun: bool },
}

/// The buttons of the footer.
#[derive(Clone, Copy, Debug, PartialEq, Eq, Structural)]
pub struct Footer {
    /// Offer to rerun the last scheduled task.
    pub rerun_last_task: bool,
    pub action: FooterAction,
}

/// The label of the button that reruns the last task.
pub open spec fn rerun_last_label() -> Seq<char> {
    "重新运行上一个任务"@
}

impl FooterAction {
    /// The button's label.
    pub fn label(&self) -> (r: &'static str)
        ensures
            r@ == (match *self {
                FooterAction::SpawnOneshot { omit_history: true } => "运行一次性命令（不记录）"@,
                FooterAction::SpawnOneshot { omit_history: false } => "运行一次性命令"@,
                FooterAction::Run { omit_history: true, rerun: true } => "重新运行（不记录）"@,
                FooterAction::Run { omit_history: true, rerun: false } => "运行（不记录）"@,
                FooterAction::Run { omit_history: false, rerun: true } => "重新运行"@,
                FooterAction::Run { omit_history: false, rerun: false } => "运行"@,
            }),
    {
        match *self {
            FooterAction::SpawnOneshot { omit_history: true } => "运行一次性命令（不记录）",
            FooterAction::SpawnOneshot { omit_history: false } => "运行一次性命令",
            FooterAction::Run { omit_history: true, rerun: true } => "重新运行（不记录）",
            FooterAction::Run { omit_history: true, rerun: false } => "运行（不记录）",
            FooterAction::Run { omit_history: false, rerun: true } => "重新运行",
            FooterAction::Run { omit_history: false, rerun: false } => "运行",
        }
    }
}

/// The label of the button that reruns the last task.
pub fn rerun_last_task_label() -> (r: &'static str)
    ensures
        r@ == rerun_last_label(),
{
    "重新运行上一个任务"
}

/// The longest tag line shown, in characters.
pub const MAX_TAGS_LINE_LEN: usize = 30;

/// The placeholder shown when tasks run in the central pane area.
pub open spec fn center_placeholder() -> Seq<char> {
    "查找任务，或在中央面板运行命令"@
}

/// The placeholder shown otherwise.
pub open spec fn default_placeholder() -> Seq<char> {
    "查找任务，或运行命令"@
}

/// The reveal target an override imposes, if any.
pub open spec fn override_target(overrides: Option<TaskOverrides>) -> Option<RevealTarget> {
    match overrides {
        Some(o) => o.reveal_target,
        None => None,
    }
}

/// `target` unless the overrides impose another.
pub open spec fn apply_override(overrides: Option<TaskOverrides>, target: RevealTarget) -> RevealTarget {
    match override_target(overrides) {
        Some(t) => t,
        None => target,
    }
}

/// The match is for a candidate used recently: one at or before `last_used`.
pub open spec fn is_recent(m: MatchEntry, last_used: usize) -> bool {
    m.candidate_id <= last_used
}

/// The matches of recently used candidates.
pub open spec fn recent_matches(ms: Seq<MatchEntry>, last_used: usize) -> Seq<MatchEntry> {
    ms.filter(|m: MatchEntry| is_recent(m, last_used))
}

/// The matches of the other candidates.
pub open spec fn other_matches(ms: Seq<MatchEntry>, last_used: usize) -> Seq<MatchEntry> {
    ms.filter(|m: MatchEntry| !is_recent(m, last_used))
}

/// The matches, those of recently used candidates first, each group in the
/// matcher's order.
pub open spec fn recent_first(ms: Seq<MatchEntry>, last_used: usize) -> Seq<MatchEntry> {
    recent_matches(ms, last_used) + other_matches(ms, last_used)
}

/// The matches as the picker lists them.
pub open spec fn listed_matches(ms: Seq<MatchEntry>, last_used: Option<usize>) -> Seq<MatchEntry> {
    match last_used {
        Some(index) => recent_first(ms, index),
        None => ms,
    }
}

/// The index after which the divider between recent and other tasks is drawn:
/// the last recent match, if there is one.
pub open spec fn divider_after(ms: Seq<MatchEntry>, last_used: Option<usize>) -> Option<usize> {
    match last_used {
        Some(index) => if recent_matches(ms, index).len() > 0 {
            Some((recent_matches(ms, index).len() - 1) as usize)
        } else {
            None
        },
        None => None,
    }
}

/// `index` clamped to a list of `len` entries (0 for an empty list).
pub open spec fn clamp_index(index: usize, len: nat) -> usize {
    if len == 0 {
        0
    } else if index < len - 1 {
        index
    } else {
        (len - 1) as usize
    }
}

/// `ix` is at or before the divider: a recently used task's row.
pub open spec fn before_divider(ix: usize, divider: Option<usize>) -> bool {
    match divider {
        Some(d) => ix <= d,
        None => false,
    }
}

/// The `"\n#tag"` lines of a task's tags.
pub open spec fn tag_lines(tags: Seq<String>) -> Seq<char>
    decreases tags.len(),
{
    if tags.len() == 0 {
        Seq::empty()
    } else {
        tag_lines(tags.drop_last()) + seq!['\n', '#'] + tags.last()@
    }
}

/// The tags as `#tag` words separated by single spaces.
pub open spec fn hash_tags(tags: Seq<String>) -> Seq<char>
    decreases tags.len(),
{
    if tags.len() == 0 {
        Seq::empty()
    } else if tags.len() == 1 {
        seq!['#'] + tags[0]@
    } else {
        hash_tags(tags.drop_last()) + seq![' ', '#'] + tags.last()@
    }
}

/// The tooltip text of a listed task: its resolved label when the list shows
/// another label or the task was typed in; then its command when that differs
/// from the resolved label (on a line of its own after non-blank text); then,
/// after an empty line, one `#tag` line per tag.
pub open spec fn tooltip_text(user_input: bool, t: ResolvedTaskView) -> Seq<char> {
    let base = if t.display_label@ != t.original_label@ || user_input {
        t.resolved_label@
    } else {
        Seq::empty()
    };
    let with_command = if t.command_label@ != t.resolved_label@ {
        (if is_blank(base) {
            base
        } else {
            base.push('\n')
        }) + t.command_label@
    } else {
        base
    };
    if t.tags@.len() > 0 {
        with_command.push('\n') + tag_lines(t.tags@)
    } else {
        with_command
    }
}

/// Whether `s` is empty once trimmed.
pub fn trim_is_empty(s: &str) -> (r: bool)
    ensures
        r == is_blank(s@),
{
    let t = trim(s);
    proof {
        lemma_trim_empty_iff_blank(s@);
    }
    t.as_str().unicode_len() == 0
}

/// A copy of `s`.
pub fn copy_string(s: &String) -> (r: String)
    ensures
        r@ == s@,
{
    String::from_str(s.as_str())
}

/// A copy of a task source.
pub fn copy_kind(k: &TaskSourceKind) -> (r: TaskSourceKind)
    ensures
        r == *k,
{
    match k {
        TaskSourceKind::UserInput => TaskSourceKind::UserInput,
        TaskSourceKind::AbsPath => TaskSourceKind::AbsPath,
        TaskSourceKind::Worktree => TaskSourceKind::Worktree,
        TaskSourceKind::Lsp { language_name } => TaskSourceKind::Lsp {
            language_name: language_name.clone(),
        },
        TaskSourceKind::Language { name } => TaskSourceKind::Language { name: name.clone() },
    }
}

/// Whether the task was typed into the picker.
pub fn is_user_input(k: &TaskSourceKind) -> (r: bool)
    ensures
        r == (*k is UserInput),
{
    match k {
        TaskSourceKind::UserInput => true,
        _ => false,
    }
}

/// The tooltip of a listed task, `None` when its text would be blank.
pub fn tooltip_label(kind: &TaskSourceKind, task: &ResolvedTaskView) -> (r: Option<String>)
    ensures
        is_blank(tooltip_text(*kind is UserInput, *task)) ==> r is None,
        !is_blank(tooltip_text(*kind is UserInput, *task)) ==> r is Some && r->0@ == tooltip_text(
            *kind is UserInput,
            *task,
        ),
{
    let user_input = is_user_input(kind);
    let mut text = if task.display_label != task.original_label || user_input {
        copy_string(&task.resolved_label)
    } else {
        String::new()
    };
    if task.command_label != task.resolved_label {
        if !trim_is_empty(text.as_str()) {
            push_char(&mut text, '\n');
        }
        text.append(task.command_label.as_str());
    }
    if task.tags.len() > 0 {
        push_char(&mut text, '\n');
        let ghost prefix = text@;
        let mut i: usize = 0;
        while i < task.tags.len()
            invariant
                i <= task.tags@.len(),
                text@ == prefix + tag_lines(task.tags@.take(i as int)),
            decreases task.tags@.len() - i,
        {
            push_char(&mut text, '\n');
            push_char(&mut text, '#');
            text.append(task.tags[i].as_str());
            proof {
                let next = task.tags@.take(i + 1);
                assert(next.drop_last() =~= task.tags@.take(i as int));
                assert(next.last() == task.tags@[i as int]);
                assert(text@ =~= prefix + tag_lines(next));
            }
            i = i + 1;
        }
        assert(task.tags@.take(i as int) =~= task.tags@);
    }
    if trim_is_empty(text.as_str()) {
        None
    } else {
        Some(text)
    }
}

/// The tag line shown at the end of a row: `#tag` words joined by spaces, cut
/// to `MAX_TAGS_LINE_LEN` characters with an ellipsis.
pub fn tags_line(tags: &Vec<String>) -> (r: String)
    ensures
        r@ == truncate_and_trailoff_spec(hash_tags(tags@), MAX_TAGS_LINE_LEN as nat),
{
    let mut joined = String::new();
    let mut i: usize = 0;
    while i < tags.len()
        invariant
            i <= tags@.len(),
            joined@ == hash_tags(tags@.take(i as int)),
        decreases tags@.len() - i,
    {
        if i > 0 {
            push_char(&mut joined, ' ');
        }
        push_char(&mut joined, '#');
        joined.append(tags[i].as_str());
        proof {
            let next = tags@.take(i + 1);
            assert(next.drop_last() =~= tags@.take(i as int));
            assert(next.last() == tags@[i as int]);
            if i == 0 {
                assert(next[0] == tags@[0]);
            }
            assert(joined@ =~= hash_tags(next));
        }
        i = i + 1;
    }
    assert(tags@.take(i as int) =~= tags@);
    truncate_and_trailoff(joined.as_str(), MAX_TAGS_LINE_LEN)
}


/// Splits `ms` into the matches of recently used candidates and the others,
/// each in its given order, recent ones first.
pub fn partition_recent(ms: Vec<MatchEntry>, last_used: usize) -> (r: Vec<MatchEntry>)
    ensures
        r@ == recent_first(ms@, last_used),
{
    broadcast use vstd::seq_lib::group_filter_ensures;
    let ghost orig = ms@;
    let mut rest = ms;
    let mut recent: Vec<MatchEntry> = Vec::new();
    let mut others: Vec<MatchEntry> = Vec::new();
    let ghost mut k: int = 0;
    while rest.len() > 0
        invariant
            0 <= k <= orig.len(),
            rest@ == orig.skip(k),
            recent@ == recent_matches(orig.take(k), last_used),
            others@ == other_matches(orig.take(k), last_used),
        decreases rest@.len(),
    {
        let m = rest.remove(0);
        proof {
            assert(m == orig[k]);
            assert(orig.take(k + 1) =~= orig.take(k).push(orig[k]));
            orig.take(k).lemma_filter_push(orig[k], |m: MatchEntry| is_recent(m, last_used));
            orig.take(k).lemma_filter_push(orig[k], |m: MatchEntry| !is_recent(m, last_used));
            assert(orig.skip(k + 1) =~= orig.skip(k).drop_first());
            k = k + 1;
        }
        if m.candidate_id <= last_used {
            recent.push(m);
        } else {
            others.push(m);
        }
    }
    assert(orig.take(k) =~= orig);
    recent.append(&mut others);
    recent
}

/// The task picker's candidates, matches and selection.
pub struct TasksModalDelegate {
    /// The tasks offered, once loaded.
    pub candidates: Option<Vec<TaskCandidate>>,
    pub task_overrides: Option<TaskOverrides>,
    /// Candidates up to this index were used recently.
    pub last_used_candidate_index: Option<usize>,
    pub divider_index: Option<usize>,
    pub matches: Vec<MatchEntry>,
    pub selected_index: usize,
    /// The query the matches were computed for.
    pub prompt: String,
    pub placeholder_text: String,
}

impl TasksModalDelegate {
    /// A picker with nothing loaded; its placeholder mentions the central pane
    /// when tasks are to run there.
    pub fn new(task_overrides: Option<TaskOverrides>) -> (r: Self)
        ensures
            r.candidates is None,
            r.task_overrides == task_overrides,
            r.last_used_candidate_index is None,
            r.divider_index is None,
            r.matches@.len() == 0,
            r.selected_index == 0,
            r.prompt@.len() == 0,
            r.placeholder_text@ == (if override_target(task_overrides) == Some(RevealTarget::Center) {
                center_placeholder()
            } else {
                default_placeholder()
            }),
    {
        let center = match task_overrides {
            Some(o) => match o.reveal_target {
                Some(RevealTarget::Center) => true,
                _ => false,
            },
            None => false,
        };
        let placeholder_text = if center {
            String::from_str("查找任务，或在中央面板运行命令")
        } else {
            String::from_str("查找任务，或运行命令")
        };
        TasksModalDelegate {
            candidates: None,
            task_overrides,
            last_used_candidate_index: None,
            divider_index: None,
            matches: Vec::new(),
            selected_index: 0,
            prompt: String::new(),
            placeholder_text,
        }
    }

    /// Number of listed matches.
    pub fn match_count(&self) -> (r: usize)
        ensures
            r == self.matches@.len(),
    {
        self.matches.len()
    }

    /// The selected entry.
    pub fn selected_index(&self) -> (r: usize)
        ensures
            r == self.selected_index,
    {
        self.selected_index
    }

    /// Selects entry `ix`.
    pub fn set_selected_index(&mut self, ix: usize)
        ensures
            final(self).selected_index == ix,
            final(self).matches == old(self).matches,
            final(self).candidates == old(self).candidates,
            final(self).divider_index == old(self).divider_index,
            final(self).last_used_candidate_index == old(self).last_used_candidate_index,
            final(self).prompt == old(self).prompt,
            final(self).task_overrides == old(self).task_overrides,
            final(self).placeholder_text == old(self).placeholder_text,
    {
        self.selected_index = ix;
    }

    /// The placeholder of the query field.
    pub fn placeholder_text(&self) -> (r: String)
        ensures
            r@ == self.placeholder_text@,
    {
        copy_string(&self.placeholder_text)
    }

    /// Takes the matcher's results for `query`: recently used tasks move to the
    /// front with a divider after them, the query is remembered, and the
    /// selection is clamped to the list.
    pub fn set_matches(&mut self, matches: Vec<MatchEntry>, query: String)
        ensures
            final(self).matches@ == listed_matches(matches@, old(self).last_used_candidate_index),
            final(self).prompt == query,
            final(self).divider_index == divider_after(matches@, old(self).last_used_candidate_index),
            final(self).selected_index == clamp_index(old(self).selected_index, final(self).matches@.len()),
            final(self).candidates == old(self).candidates,
            final(self).last_used_candidate_index == old(self).last_used_candidate_index,
            final(self).task_overrides == old(self).task_overrides,
            final(self).placeholder_text == old(self).placeholder_text,
    {
        broadcast use vstd::seq_lib::group_filter_ensures;
        let ghost given = matches@;
        let listed = match self.last_used_candidate_index {
            Some(index) => partition_recent(matches, index),
            None => matches,
        };
        self.matches = listed;
        self.prompt = query;
        self.divider_index = match self.last_used_candidate_index {
            Some(index) => {
                let mut count: usize = 0;
                while count < self.matches.len() && self.matches[count].candidate_id <= index
                    invariant
                        self.matches@ == recent_first(given, index),
                        count <= recent_matches(given, index).len(),
                    decreases self.matches@.len() - count,
                {
                    count = count + 1;
                }
                proof {
                    let rec = recent_matches(given, index);
                    let oth = other_matches(given, index);
                    if count < rec.len() {
                        assert(self.matches@[count as int] == rec[count as int]);
                        assert(is_recent(rec[count as int], index));
                    }
                    if count == rec.len() && count < self.matches@.len() {
                        assert(self.matches@[count as int] == oth[0]);
                        assert(!is_recent(oth[0], index));
                    }
                }
                if count != 0 {
                    Some(count - 1)
                } else {
                    None
                }
            },
            None => None,
        };
        if self.matches.len() == 0 {
            self.selected_index = 0;
        } else if self.selected_index >= self.matches.len() - 1 {
            self.selected_index = self.matches.len() - 1;
        }
    }

    /// The separators of the list: one after the divider, if any.
    pub fn separators_after_indices(&self) -> (r: Vec<usize>)
        ensures
            r@ == (match self.divider_index {
                Some(i) => seq![i],
                None => Seq::empty(),
            }),
    {
        let mut r: Vec<usize> = Vec::new();
        if let Some(i) = self.divider_index {
            r.push(i);
        }
        r
    }
}


/// The candidates with the candidates of the current context that apply
/// appended: tasks of the current language only when `add_language_tasks`.
pub open spec fn keeps_current(c: TaskCandidate, add_language_tasks: bool) -> bool {
    !(c.kind is Language) || add_language_tasks
}

/// The picker's candidates after loading: recently used tasks, then language
/// server tasks, then the current context's tasks that apply.
pub open spec fn loaded_candidates(
    used: Seq<TaskCandidate>,
    lsp: Seq<TaskCandidate>,
    current: Seq<TaskCandidate>,
    add_language_tasks: bool,
) -> Seq<TaskCandidate> {
    used + lsp + current.filter(|c: TaskCandidate| keeps_current(c, add_language_tasks))
}

/// The last recently used candidate, if any.
pub open spec fn last_used_index(used_len: nat) -> Option<usize> {
    if used_len == 0 {
        None
    } else {
        Some((used_len - 1) as usize)
    }
}

/// `used`, then `lsp`, then the tasks of `current` that apply.
pub fn combine_candidates(
    used: Vec<TaskCandidate>,
    lsp: Vec<TaskCandidate>,
    current: Vec<TaskCandidate>,
    add_language_tasks: bool,
) -> (r: Vec<TaskCandidate>)
    ensures
        r@ == loaded_candidates(used@, lsp@, current@, add_language_tasks),
{
    broadcast use vstd::seq_lib::group_filter_ensures;
    let mut out = used;
    let mut lsp = lsp;
    out.append(&mut lsp);
    let ghost head = out@;
    let ghost orig = current@;
    let mut rest = current;
    let ghost mut k: int = 0;
    while rest.len() > 0
        invariant
            0 <= k <= orig.len(),
            rest@ == orig.skip(k),
            out@ == head + orig.take(k).filter(|c: TaskCandidate| keeps_current(c, add_language_tasks)),
        decreases rest@.len(),
    {
        let c = rest.remove(0);
        proof {
            assert(c == orig[k]);
            assert(orig.take(k + 1) =~= orig.take(k).push(orig[k]));
            orig.take(k).lemma_filter_push(orig[k], |c: TaskCandidate| keeps_current(c, add_language_tasks));
            assert(orig.skip(k + 1) =~= orig.skip(k).drop_first());
            k = k + 1;
        }
        let keep = match c.kind {
            TaskSourceKind::Language { .. } => add_language_tasks,
            _ => true,
        };
        if keep {
            out.push(c);
        }
    }
    assert(orig.take(k) =~= orig);
    out
}

/// The index of each candidate with its display label, for the fuzzy matcher.
pub fn string_match_candidates(candidates: &Vec<TaskCandidate>) -> (r: Vec<(usize, String)>)
    ensures
        r@.len() == candidates@.len(),
        forall|i: int| 0 <= i < r@.len() ==> (#[trigger] r@[i]).0 == i && r@[i].1@ == candidates@[i].task.display_label@,
{
    let mut out: Vec<(usize, String)> = Vec::new();
    let mut i: usize = 0;
    while i < candidates.len()
        invariant
            i <= candidates@.len(),
            out@.len() == i,
            forall|t: int| 0 <= t < i ==> (#[trigger] out@[t]).0 == t && out@[t].1@ == candidates@[t].task.display_label@,
        decreases candidates@.len() - i,
    {
        out.push((i, copy_string(&candidates[i].task.display_label)));
        i = i + 1;
    }
    out
}

/// The event that asks for the attach-to-process modal of a debug scenario;
/// the task modal passes it on from its picker.
pub struct ShowAttachModal<D> {
    pub debug_config: D,
}

/// The task picker.
pub struct TasksModal {
    pub delegate: TasksModalDelegate,
}

impl TasksModal {
    /// A picker with nothing loaded yet.
    pub fn new(task_overrides: Option<TaskOverrides>) -> (r: Self)
        ensures
            r.delegate.candidates is None,
            r.delegate.task_overrides == task_overrides,
            r.delegate.last_used_candidate_index is None,
            r.delegate.divider_index is None,
            r.delegate.matches@.len() == 0,
            r.delegate.selected_index == 0,
            r.delegate.prompt@.len() == 0,
            r.delegate.placeholder_text@ == (if override_target(task_overrides) == Some(
                RevealTarget::Center,
            ) {
                center_placeholder()
            } else {
                default_placeholder()
            }),
    {
        TasksModal { delegate: TasksModalDelegate::new(task_overrides) }
    }

    /// The tasks are loaded: recently used ones first, then those of language
    /// servers, then those of the current context (its language's tasks only
    /// when `add_current_language_tasks`); the recent ones end at the last
    /// used index. The matches are then to be refreshed.
    pub fn tasks_loaded(
        &mut self,
        lsp_tasks: Vec<TaskCandidate>,
        used_tasks: Vec<TaskCandidate>,
        current_resolved_tasks: Vec<TaskCandidate>,
        add_current_language_tasks: bool,
    )
        ensures
            final(self).delegate.last_used_candidate_index == last_used_index(used_tasks@.len()),
            final(self).delegate.candidates is Some,
            final(self).delegate.candidates->0@ == loaded_candidates(
                used_tasks@,
                lsp_tasks@,
                current_resolved_tasks@,
                add_current_language_tasks,
            ),
            final(self).delegate.matches == old(self).delegate.matches,
            final(self).delegate.selected_index == old(self).delegate.selected_index,
            final(self).delegate.divider_index == old(self).delegate.divider_index,
            final(self).delegate.prompt == old(self).delegate.prompt,
            final(self).delegate.task_overrides == old(self).delegate.task_overrides,
            final(self).delegate.placeholder_text == old(self).delegate.placeholder_text,
    {
        let last = if used_tasks.len() == 0 {
            None
        } else {
            Some(used_tasks.len() - 1)
        };
        let candidates = combine_candidates(
            used_tasks,
            lsp_tasks,
            current_resolved_tasks,
            add_current_language_tasks,
        );
        self.delegate.last_used_candidate_index = last;
        self.delegate.candidates = Some(candidates);
    }
}


/// The oneshot template made from `prompt`.
pub open spec fn oneshot_of(prompt: Seq<char>, overrides: Option<TaskOverrides>, t: OneshotTemplate) -> bool {
    &&& t.label@ == prompt
    &&& t.command@ == prompt
    &&& t.reveal_target == apply_override(overrides, RevealTarget::Dock)
}

/// The selected match points at a loaded candidate, when both exist.
pub open spec fn selection_in_candidates(d: TasksModalDelegate) -> bool {
    d.selected_index < d.matches@.len() && d.candidates is Some ==> d.matches@[d.selected_index as int].candidate_id
        < d.candidates->0@.len()
}

/// The index recorded as last used after a recent task was forgotten.
pub open spec fn last_used_after_forget(last: Option<usize>) -> Option<usize> {
    match last {
        Some(n) => if n > 0 {
            Some((n - 1) as usize)
        } else {
            None
        },
        None => None,
    }
}

impl TasksModalDelegate {
    /// A task for the typed command, unless it is blank: label and command
    /// are the query, shown in the dock unless overridden. The result is the
    /// template as typed; resolving it against the task context is the task
    /// runner's step, which this library does not hold.
    pub fn spawn_oneshot(&self) -> (r: Option<OneshotTemplate>)
        ensures
            is_blank(self.prompt@) ==> r is None,
            !is_blank(self.prompt@) ==> r is Some && oneshot_of(self.prompt@, self.task_overrides, r->0),
    {
        if trim_is_empty(self.prompt.as_str()) {
            return None;
        }
        let reveal_target = match self.task_overrides {
            Some(TaskOverrides { reveal_target: Some(t) }) => t,
            _ => RevealTarget::Dock,
        };
        Some(
            OneshotTemplate {
                label: copy_string(&self.prompt),
                command: copy_string(&self.prompt),
                reveal_target,
            },
        )
    }

    /// Runs the typed command (see `spawn_oneshot`).
    pub fn confirm_input(&self, omit_history_entry: bool) -> (r: Option<(OneshotTemplate, bool)>)
        ensures
            is_blank(self.prompt@) ==> r is None,
            !is_blank(self.prompt@) ==> (r matches Some(p) && oneshot_of(self.prompt@, self.task_overrides, p.0)
                && p.1 == omit_history_entry),
    {
        match self.spawn_oneshot() {
            None => None,
            Some(t) => Some((t, omit_history_entry)),
        }
    }

    /// Runs the selected task, shown where the overrides say or else where the
    /// task itself says.
    pub fn confirm(&self, omit_history_entry: bool) -> (r: Option<TaskChoice>)
        requires
            selection_in_candidates(*self),
        ensures
            (self.selected_index >= self.matches@.len() || self.candidates is None) ==> r is None,
            (self.selected_index < self.matches@.len() && self.candidates is Some) ==> {
                let id = self.matches@[self.selected_index as int].candidate_id;
                r == Some(
                    TaskChoice {
                        candidate_index: id,
                        reveal_target: apply_override(
                            self.task_overrides,
                            self.candidates->0@[id as int].task.reveal_target,
                        ),
                        omit_history_entry,
                    },
                )
            },
    {
        if self.selected_index >= self.matches.len() {
            return None;
        }
        let id = self.matches[self.selected_index].candidate_id;
        match &self.candidates {
            None => None,
            Some(candidates) => {
                let own = candidates[id].task.reveal_target;
                let reveal_target = match self.task_overrides {
                    Some(TaskOverrides { reveal_target: Some(t) }) => t,
                    _ => own,
                };
                Some(TaskChoice { candidate_index: id, reveal_target, omit_history_entry })
            },
        }
    }

    /// The command of the selected task, to fill the query with.
    pub fn confirm_completion(&self) -> (r: Option<String>)
        ensures
            (self.selected_index < self.matches@.len() && self.candidates is Some
                && self.matches@[self.selected_index as int].candidate_id < self.candidates->0@.len())
                ==> r is Some && r->0@ == self.candidates->0@[self.matches@[self.selected_index as int].candidate_id as int].task.command_label@,
            !(self.selected_index < self.matches@.len() && self.candidates is Some
                && self.matches@[self.selected_index as int].candidate_id < self.candidates->0@.len())
                ==> r is None,
    {
        if self.selected_index >= self.matches.len() {
            return None;
        }
        let id = self.matches[self.selected_index].candidate_id;
        match &self.candidates {
            None => None,
            Some(candidates) => {
                if id < candidates.len() {
                    Some(copy_string(&candidates[id].task.command_label))
                } else {
                    None
                }
            },
        }
    }

    /// Drops candidate `ix` from the list and returns the id of its task, for
    /// the task inventory to forget.
    pub fn delete_previously_used(&mut self, ix: usize) -> (r: Option<String>)
        ensures
            final(self).matches == old(self).matches,
            final(self).selected_index == old(self).selected_index,
            final(self).divider_index == old(self).divider_index,
            final(self).last_used_candidate_index == old(self).last_used_candidate_index,
            final(self).prompt == old(self).prompt,
            final(self).task_overrides == old(self).task_overrides,
            final(self).placeholder_text == old(self).placeholder_text,
            (old(self).candidates is None || ix >= old(self).candidates->0@.len()) ==> r is None
                && final(self).candidates == old(self).candidates,
            (old(self).candidates is Some && ix < old(self).candidates->0@.len()) ==> {
                &&& final(self).candidates is Some
                &&& final(self).candidates->0@ == old(self).candidates->0@.remove(ix as int)
                &&& r is Some
                &&& r->0@ == old(self).candidates->0@[ix as int].task.id@
            },
    {
        let mut candidates = match self.candidates.take() {
            None => return None,
            Some(c) => c,
        };
        if ix >= candidates.len() {
            self.candidates = Some(candidates);
            return None;
        }
        let removed = candidates.remove(ix);
        self.candidates = Some(candidates);
        Some(removed.task.id)
    }

    /// The delete button of a recent task's row: the task is dropped (see
    /// `delete_previously_used`) and the recent part of the list shrinks by one.
    pub fn forget_recent_task(&mut self, task_index: usize) -> (r: Option<String>)
        ensures
            final(self).matches == old(self).matches,
            final(self).selected_index == old(self).selected_index,
            final(self).divider_index == old(self).divider_index,
            final(self).prompt == old(self).prompt,
            final(self).task_overrides == old(self).task_overrides,
            final(self).placeholder_text == old(self).placeholder_text,
            final(self).last_used_candidate_index == last_used_after_forget(old(self).last_used_candidate_index),
            (old(self).candidates is None || task_index >= old(self).candidates->0@.len()) ==> r is None
                && final(self).candidates == old(self).candidates,
            (old(self).candidates is Some && task_index < old(self).candidates->0@.len()) ==> {
                &&& final(self).candidates is Some
                &&& final(self).candidates->0@ == old(self).candidates->0@.remove(task_index as int)
                &&& r is Some
                &&& r->0@ == old(self).candidates->0@[task_index as int].task.id@
            },
    {
        let r = self.delete_previously_used(task_index);
        self.last_used_candidate_index = match self.last_used_candidate_index {
            Some(n) => if n > 0 {
                Some(n - 1)
            } else {
                None
            },
            None => None,
        };
        r
    }

    /// What row `ix` of the list shows, if it lists a loaded candidate.
    pub fn render_match(&self, ix: usize) -> (r: Option<TaskRow>)
        ensures
            !(self.candidates is Some && ix < self.matches@.len() && self.matches@[ix as int].candidate_id
                < self.candidates->0@.len()) ==> r is None,
            (self.candidates is Some && ix < self.matches@.len() && self.matches@[ix as int].candidate_id
                < self.candidates->0@.len()) ==> {
                let id = self.matches@[ix as int].candidate_id;
                let c = self.candidates->0@[id as int];
                &&& r is Some
                &&& r->0.candidate_id == id
                &&& r->0.label@ == self.matches@[ix as int].string@
                &&& r->0.highlight_positions@ == self.matches@[ix as int].positions@
                &&& r->0.lsp_indicator == (c.kind is Lsp)
                &&& r->0.history_icon == before_divider(ix, self.divider_index)
                &&& r->0.deletable == (c.kind is UserInput || before_divider(ix, self.divider_index))
                &&& match c.kind {
                    TaskSourceKind::UserInput => r->0.icon is Terminal,
                    TaskSourceKind::AbsPath => r->0.icon is Settings,
                    TaskSourceKind::Worktree => r->0.icon is FileTree,
                    TaskSourceKind::Lsp { language_name } => r->0.icon matches TaskIcon::LanguageFile { language_name: n }
                        && n@ == language_name@,
                    TaskSourceKind::Language { name } => r->0.icon matches TaskIcon::LanguageFile { language_name: n }
                        && n@ == name@,
                }
                &&& is_blank(tooltip_text(c.kind is UserInput, c.task)) ==> r->0.tooltip is None
                &&& !is_blank(tooltip_text(c.kind is UserInput, c.task)) ==> r->0.tooltip is Some
                    && r->0.tooltip->0@ == tooltip_text(c.kind is UserInput, c.task)
                &&& r->0.tags_line@ == truncate_and_trailoff_spec(hash_tags(c.task.tags@), MAX_TAGS_LINE_LEN as nat)
            },
    {
        let candidates = match &self.candidates {
            None => return None,
            Some(c) => c,
        };
        if ix >= self.matches.len() {
            return None;
        }
        let id = self.matches[ix].candidate_id;
        if id >= candidates.len() {
            return None;
        }
        let c = &candidates[id];
        let icon = match &c.kind {
            TaskSourceKind::UserInput => TaskIcon::Terminal,
            TaskSourceKind::AbsPath => TaskIcon::Settings,
            TaskSourceKind::Worktree => TaskIcon::FileTree,
            TaskSourceKind::Lsp { language_name } => TaskIcon::LanguageFile {
                language_name: copy_string(language_name),
            },
            TaskSourceKind::Language { name } => TaskIcon::LanguageFile { language_name: copy_string(name) },
        };
        let lsp_indicator = match &c.kind {
            TaskSourceKind::Lsp { .. } => true,
            _ => false,
        };
        let recent = match self.divider_index {
            Some(d) => ix <= d,
            None => false,
        };
        let deletable = is_user_input(&c.kind) || recent;
        Some(
            TaskRow {
                candidate_id: id,
                label: copy_string(&self.matches[ix].string),
                highlight_positions: copy_vec(&self.matches[ix].positions),
                icon,
                lsp_indicator,
                history_icon: recent,
                deletable,
                tooltip: tooltip_label(&c.kind, &c.task),
                tags_line: tags_line(&c.task.tags),
            },
        )
    }

    /// The footer's buttons, given the modifiers held and whether the task
    /// inventory has a last scheduled task (`None` when there is no inventory,
    /// which shows no footer). The typed command is offered when the query is
    /// not empty and either Alt is held or nothing matches; otherwise the
    /// selected task, as a rerun when it is a recent one; the secondary
    /// modifier runs without recording history.
    pub fn footer(&self, alt: bool, secondary: bool, last_scheduled_task: Option<bool>) -> (r: Option<
        Footer,
    >)
        ensures
            last_scheduled_task is None ==> r is None,
            last_scheduled_task is Some ==> {
                let recent = match self.divider_index {
                    Some(d) => d >= self.selected_index,
                    None => false,
                };
                r == Some(
                    Footer {
                        rerun_last_task: last_scheduled_task->0,
                        action: if (alt || self.matches@.len() == 0) && self.prompt@.len() > 0 {
                            FooterAction::SpawnOneshot { omit_history: secondary }
                        } else {
                            FooterAction::Run { omit_history: secondary, rerun: recent }
                        },
                    },
                )
            },
    {
        let has_last = match last_scheduled_task {
            None => return None,
            Some(b) => b,
        };
        let recent = match self.divider_index {
            Some(d) => d >= self.selected_index,
            None => false,
        };
        let prompt_empty = self.prompt.as_str().is_empty();
        let action = if (alt || self.matches.len() == 0) && !prompt_empty {
            FooterAction::SpawnOneshot { omit_history: secondary }
        } else {
            FooterAction::Run { omit_history: secondary, rerun: recent }
        };
        Some(Footer { rerun_last_task: has_last, action })
    }
}


/// A language server task, and whether it has a location in the code.
pub struct LspTask {
    pub has_location: bool,
    pub task: ResolvedTaskView,
}

/// The tasks one language server offers.
pub struct LspTaskGroup {
    pub kind: TaskSourceKind,
    pub tasks: Vec<LspTask>,
}

/// The sort keys of a server's tasks: those with a location first, then by resolved label.
pub open spec fn lsp_keys(tasks: Seq<LspTask>) -> Seq<(bool, Seq<char>)> {
    Seq::new(tasks.len(), |i: int| (!tasks[i].has_location, tasks[i].task.resolved_label@))
}

/// The tasks of one server as candidates, in sort order.
pub open spec fn group_candidates(g: LspTaskGroup) -> Seq<TaskCandidate> {
    let order = labelled_order_of(lsp_keys(g.tasks@));
    Seq::new(g.tasks@.len(), |i: int| TaskCandidate { kind: g.kind, task: g.tasks@[order[i] as int].task })
}

/// The tasks of all servers, server after server.
pub open spec fn lsp_candidates(groups: Seq<LspTaskGroup>) -> Seq<TaskCandidate>
    decreases groups.len(),
{
    if groups.len() == 0 {
        Seq::empty()
    } else {
        lsp_candidates(groups.drop_last()) + group_candidates(groups.last())
    }
}

/// The candidates of one server, sorted.
pub fn sort_lsp_group(g: LspTaskGroup) -> (r: Vec<TaskCandidate>)
    ensures
        r@ == group_candidates(g),
{
    let ghost whole = g;
    let LspTaskGroup { kind, tasks } = g;
    let n = tasks.len();
    let mut flags: Vec<bool> = Vec::new();
    let mut labels: Vec<String> = Vec::new();
    let mut i: usize = 0;
    while i < n
        invariant
            n == tasks@.len(),
            i <= n,
            flags@.len() == i,
            labels@.len() == i,
            forall|t: int| 0 <= t < i ==> #[trigger] flags@[t] == !tasks@[t].has_location && labels@[t]@ == tasks@[t].task.resolved_label@,
        decreases n - i,
    {
        flags.push(!tasks[i].has_location);
        labels.push(copy_string(&tasks[i].task.resolved_label));
        i = i + 1;
    }
    let ghost keys = lsp_keys(tasks@);
    assert(Seq::new(flags@.len(), |i: int| (flags@[i], labels@[i]@)) =~= keys);
    let order = labelled_order(&flags, &labels);
    let ghost orig = tasks@;
    let mut rest = tasks;
    let mut slots: Vec<Option<LspTask>> = Vec::new();
    while rest.len() > 0
        invariant
            slots@.len() + rest@.len() == orig.len(),
            rest@ == orig.skip(slots@.len() as int),
            forall|t: int| 0 <= t < slots@.len() ==> #[trigger] slots@[t] == Some(orig[t]),
        decreases rest@.len(),
    {
        let ghost before = slots@.len() as int;
        let t = rest.remove(0);
        assert(t == orig[before]);
        assert(orig.skip(before + 1) =~= orig.skip(before).drop_first());
        slots.push(Some(t));
    }
    let mut out: Vec<TaskCandidate> = Vec::new();
    let mut j: usize = 0;
    while j < n
        invariant
            n == orig.len(),
            slots@.len() == n,
            keys == lsp_keys(orig),
            whole.kind == kind,
            whole.tasks@ == orig,
            order@ == labelled_order_of(keys),
            is_labelled_order(keys, order@),
            j <= n,
            out@.len() == j,
            forall|t: int| j <= t < n ==> #[trigger] slots@[order@[t] as int] == Some(orig[order@[t] as int]),
            forall|t: int| 0 <= t < j ==> out@[t] == #[trigger] group_candidates(whole)[t],
        decreases n - j,
    {
        let k = order[j];
        let mut taken: Option<LspTask> = None;
        std::mem::swap(&mut taken, &mut slots[k]);
        proof {
            assert forall|t: int| j + 1 <= t < n implies #[trigger] slots@[order@[t] as int] == Some(orig[order@[t] as int]) by {
                assert(crate::label_order::labelled_before(keys, order@[j as int] as int, order@[t] as int));
                if order@[t] == k {
                    crate::label_order::lemma_key_irreflexive(keys[k as int]);
                }
            }
        }
        match taken {
            Some(task) => {
                out.push(TaskCandidate { kind: copy_kind(&kind), task: task.task });
            },
            None => {},
        }
        j = j + 1;
    }
    assert(out@ =~= group_candidates(whole));
    out
}

/// The candidates after the task inventory answered: recently used tasks,
/// then each language server's tasks (those with a location first, then by
/// label), then the current context's tasks, of which the current language's
/// apply only when language servers are not preferred or offered nothing.
/// Also gives the last recently used index.
pub fn candidates_from_inventory(
    used: Vec<TaskCandidate>,
    lsp_groups: Vec<LspTaskGroup>,
    current: Vec<TaskCandidate>,
    prefer_lsp: bool,
) -> (r: (Vec<TaskCandidate>, Option<usize>))
    ensures
        r.1 == last_used_index(used@.len()),
        r.0@ == loaded_candidates(
            used@,
            lsp_candidates(lsp_groups@),
            current@,
            !prefer_lsp || lsp_groups@.len() == 0,
        ),
{
    let last = if used.len() == 0 {
        None
    } else {
        Some(used.len() - 1)
    };
    let group_count = lsp_groups.len();
    let ghost groups = lsp_groups@;
    let mut rest = lsp_groups;
    let mut lsp: Vec<TaskCandidate> = Vec::new();
    let ghost mut g: int = 0;
    while rest.len() > 0
        invariant
            0 <= g <= groups.len(),
            rest@ == groups.skip(g),
            lsp@ == lsp_candidates(groups.take(g)),
        decreases rest@.len(),
    {
        let group = rest.remove(0);
        proof {
            assert(group == groups[g]);
            assert(groups.skip(g + 1) =~= groups.skip(g).drop_first());
            let next = groups.take(g + 1);
            assert(next.drop_last() =~= groups.take(g));
            assert(next.last() == groups[g]);
            g = g + 1;
        }
        let mut sorted = sort_lsp_group(group);
        lsp.append(&mut sorted);
    }
    assert(groups.take(g) =~= groups);
    let add_language_tasks = !prefer_lsp || group_count == 0;
    (combine_candidates(used, lsp, current, add_language_tasks), last)
}

/// Taking new matches keeps the selected row where it was whenever it is
/// still inside the list; only an index past the end moves, to the last row.
pub proof fn lemma_set_matches_keeps_selection(old_index: usize, len: nat)
    requires
        len > 0,
    ensures
        (old_index as nat) < len ==> clamp_index(old_index, len) == old_index,
        (old_index as nat) >= len ==> clamp_index(old_index, len) as nat + 1 == len,
        clamp_index(old_index, len) <= old_index,
{
}

/// Forgetting a recent task shrinks the recent part of the list by exactly
/// one task: with `k` recent tasks before (the last-used index is `k - 1`),
/// `k - 1` remain recent after, and none when there were none.
pub proof fn lemma_forget_shrinks_recent_by_one(last: Option<usize>)
    ensures
        ({
            let before: int = match last {
                Some(n) => n + 1,
                None => 0,
            };
            let after: int = match last_used_after_forget(last) {
                Some(n) => n + 1,
                None => 0,
            };
            &&& before > 0 ==> after == before - 1
            &&& before == 0 ==> after == 0
        }),
{
}

/// The recent and the other matches together are as many as the matches.
proof fn lemma_recent_split_len(ms: Seq<MatchEntry>, last_used: usize)
    ensures
        recent_matches(ms, last_used).len() + other_matches(ms, last_used).len() == ms.len(),
    decreases ms.len(),
{
    if ms.len() > 0 {
        let init = ms.drop_last();
        lemma_recent_split_len(init, last_used);
        assert(init.push(ms.last()) =~= ms);
        init.lemma_filter_push(ms.last(), |m: MatchEntry| is_recent(m, last_used));
        init.lemma_filter_push(ms.last(), |m: MatchEntry| !is_recent(m, last_used));
    }
}

/// Taking new matches with recently used tasks lists every match once, drops
/// none and adds none: the recently used ones (candidates up to the last-used
/// index) come first, in the matcher's order, and the divider stands after
/// the last of them; every row after it is another task. (The matches come
/// from a vector, so there are at most `usize::MAX` of them.)
pub proof fn lemma_set_matches_lists_recent_first(ms: Seq<MatchEntry>, last_used: usize)
    requires
        ms.len() <= usize::MAX,
    ensures
        ({
            let listed = listed_matches(ms, Some(last_used));
            let divider = divider_after(ms, Some(last_used));
            &&& listed.len() == ms.len()
            &&& forall|i: int| 0 <= i < listed.len() ==> ms.contains(#[trigger] listed[i])
            &&& forall|i: int| 0 <= i < ms.len() ==> listed.contains(#[trigger] ms[i])
            &&& forall|i: int|
                0 <= i < listed.len() ==> ((#[trigger] listed[i]).candidate_id <= last_used <==> (
                divider matches Some(k) && i <= k))
        }),
        listed_matches(ms, None) == ms,
        divider_after(ms, None) is None,
{
    broadcast use vstd::seq_lib::group_filter_ensures;

    lemma_recent_split_len(ms, last_used);
    let recent = recent_matches(ms, last_used);
    let other = other_matches(ms, last_used);
    let listed = listed_matches(ms, Some(last_used));
    assert(listed == recent + other);
    assert forall|i: int| 0 <= i < listed.len() implies ms.contains(#[trigger] listed[i]) by {
        if i < recent.len() {
            assert(listed[i] == recent[i]);
            assert(recent.contains(recent[i]));
            ms.lemma_filter_contains_rev(|m: MatchEntry| is_recent(m, last_used), recent[i]);
        } else {
            assert(listed[i] == other[i - recent.len()]);
            assert(other.contains(other[i - recent.len()]));
            ms.lemma_filter_contains_rev(|m: MatchEntry| !is_recent(m, last_used), other[i - recent.len()]);
        }
    }
    assert forall|i: int| 0 <= i < ms.len() implies listed.contains(#[trigger] ms[i]) by {
        if is_recent(ms[i], last_used) {
            assert(recent.contains(ms[i]));
            let j = choose|j: int| 0 <= j < recent.len() && recent[j] == ms[i];
            assert(listed[j] == ms[i]);
        } else {
            assert(other.contains(ms[i]));
            let j = choose|j: int| 0 <= j < other.len() && other[j] == ms[i];
            assert(listed[recent.len() + j] == ms[i]);
        }
    }
    assert forall|i: int| 0 <= i < listed.len() implies ((#[trigger] listed[i]).candidate_id <= last_used <==> (
    divider_after(ms, Some(last_used)) matches Some(k) && i <= k)) by {
        if i < recent.len() {
            assert(listed[i] == recent[i]);
            ms.lemma_filter_pred(|m: MatchEntry| is_recent(m, last_used), i);
        } else {
            assert(listed[i] == other[i - recent.len()]);
            ms.lemma_filter_pred(|m: MatchEntry| !is_recent(m, last_used), i - recent.len());
        }
    }
}

/// Forgetting recent task `t` keeps every other task's standing: a task that
/// was recent before is recent after (at its new position, one lower when it
/// came after `t`), and a task that was not is not.
pub proof fn lemma_forget_keeps_other_tasks_standing(last_used: usize, t: usize, j: usize)
    requires
        t <= last_used,
        j != t,
    ensures
        ({
            let moved: int = if j < t {
                j as int
            } else {
                j - 1
            };
            (last_used_after_forget(Some(last_used)) matches Some(m) && moved <= m) <==> j <= last_used
        }),
{
}

} // verus!
