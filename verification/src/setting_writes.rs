use vstd::prelude::*;

verus! {

/// When buffers are saved on their own.
#[derive(Clone, Copy, Debug, PartialEq, Eq, Structural)]
pub enum AutosaveSetting {
    Off,
    /// After the buffer has been idle this long.
    AfterDelay { milliseconds: u64 },
    OnFocusChange,
    OnWindowChange,
}

/// The variants of `AutosaveSetting`, as the page offers them.
#[derive(Clone, Copy, Debug, PartialEq, Eq, Structural)]
pub enum AutosaveKind {
    Off,
    AfterDelay,
    OnFocusChange,
    OnWindowChange,
}

/// The delay an autosave mode chosen as "after delay" starts with, unless it
/// had one.
pub const DEFAULT_AUTOSAVE_DELAY_MS: u64 = 1000;

/// The autosave setting after picking a mode: no mode clears the setting;
/// "after delay" keeps the configured delay, else waits 1000 ms.
pub open spec fn autosave_written(current: Option<AutosaveSetting>, chosen: Option<AutosaveKind>) -> Option<
    AutosaveSetting,
> {
    match chosen {
        None => None,
        Some(AutosaveKind::Off) => Some(AutosaveSetting::Off),
        Some(AutosaveKind::AfterDelay) => Some(
            AutosaveSetting::AfterDelay {
                milliseconds: match current {
                    Some(AutosaveSetting::AfterDelay { milliseconds }) => milliseconds,
                    _ => DEFAULT_AUTOSAVE_DELAY_MS,
                },
            },
        ),
        Some(AutosaveKind::OnFocusChange) => Some(AutosaveSetting::OnFocusChange),
        Some(AutosaveKind::OnWindowChange) => Some(AutosaveSetting::OnWindowChange),
    }
}

/// Picks the autosave mode.
pub fn autosave_after_write(current: Option<AutosaveSetting>, chosen: Option<AutosaveKind>) -> (r: Option<
    AutosaveSetting,
>)
    ensures
        r == autosave_written(current, chosen),
{
    match chosen {
        None => None,
        Some(AutosaveKind::Off) => Some(AutosaveSetting::Off),
        Some(AutosaveKind::AfterDelay) => {
            let milliseconds = match current {
                Some(AutosaveSetting::AfterDelay { milliseconds }) => milliseconds,
                _ => DEFAULT_AUTOSAVE_DELAY_MS,
            };
            Some(AutosaveSetting::AfterDelay { milliseconds })
        },
        Some(AutosaveKind::OnFocusChange) => Some(AutosaveSetting::OnFocusChange),
        Some(AutosaveKind::OnWindowChange) => Some(AutosaveSetting::OnWindowChange),
    }
}

/// The mode the page shows as picked.
pub fn autosave_kind(current: Option<AutosaveSetting>) -> (r: Option<AutosaveKind>)
    ensures
        r == match current {
            None => None,
            Some(AutosaveSetting::Off) => Some(AutosaveKind::Off),
            Some(AutosaveSetting::AfterDelay { .. }) => Some(AutosaveKind::AfterDelay),
            Some(AutosaveSetting::OnFocusChange) => Some(AutosaveKind::OnFocusChange),
            Some(AutosaveSetting::OnWindowChange) => Some(AutosaveKind::OnWindowChange),
        },
{
    match current {
        None => None,
        Some(AutosaveSetting::Off) => Some(AutosaveKind::Off),
        Some(AutosaveSetting::AfterDelay { .. }) => Some(AutosaveKind::AfterDelay),
        Some(AutosaveSetting::OnFocusChange) => Some(AutosaveKind::OnFocusChange),
        Some(AutosaveSetting::OnWindowChange) => Some(AutosaveKind::OnWindowChange),
    }
}

/// Writes the delay field: clearing it clears the autosave setting; a delay
/// is stored only while the mode is "after delay".
pub fn autosave_delay_after_write(current: Option<AutosaveSetting>, value: Option<u64>) -> (r: Option<
    AutosaveSetting,
>)
    ensures
        r == match value {
            None => None,
            Some(v) => match current {
                Some(AutosaveSetting::AfterDelay { .. }) => Some(AutosaveSetting::AfterDelay { milliseconds: v }),
                _ => current,
            },
        },
{
    match value {
        None => None,
        Some(v) => match current {
            Some(AutosaveSetting::AfterDelay { .. }) => Some(AutosaveSetting::AfterDelay { milliseconds: v }),
            _ => current,
        },
    }
}

/// Which theme a dynamic selection follows.
#[derive(Clone, Copy, Debug, PartialEq, Eq, Structural)]
pub enum ThemeAppearanceMode {
    Light,
    Dark,
    /// The system's light or dark appearance.
    System,
}

/// A theme (or icon theme) selection: one theme, or a light and a dark one
/// picked by mode.
#[derive(Clone, Debug, PartialEq, Eq)]
pub enum ThemeSelection {
    Static(String),
    Dynamic { mode: ThemeAppearanceMode, light: String, dark: String },
}

/// A theme selection, as a value.
pub enum SelectionModel {
    Static(Seq<char>),
    Dynamic { mode: ThemeAppearanceMode, light: Seq<char>, dark: Seq<char> },
}

impl View for ThemeSelection {
    type V = SelectionModel;

    open spec fn view(&self) -> SelectionModel {
        match self {
            ThemeSelection::Static(n) => SelectionModel::Static(n@),
            ThemeSelection::Dynamic { mode, light, dark } => SelectionModel::Dynamic {
                mode: *mode,
                light: light@,
                dark: dark@,
            },
        }
    }
}

/// An optional selection, as a value.
pub open spec fn selection_view(s: Option<ThemeSelection>) -> Option<SelectionModel> {
    match s {
        Some(t) => Some(t@),
        None => None,
    }
}

/// The variants of a theme selection.
#[derive(Clone, Copy, Debug, PartialEq, Eq, Structural)]
pub enum SelectionKind {
    Static,
    Dynamic,
}

/// The theme a dynamic selection currently shows: the light one in light
/// mode, the dark one in dark mode, and in system mode the one matching the
/// system's appearance.
pub open spec fn shown_theme(mode: ThemeAppearanceMode, light: Seq<char>, dark: Seq<char>, system_is_light: bool) -> Seq<
    char,
> {
    match mode {
        ThemeAppearanceMode::Light => light,
        ThemeAppearanceMode::Dark => dark,
        ThemeAppearanceMode::System => if system_is_light {
            light
        } else {
            dark
        },
    }
}

/// The selection after picking a variant. No variant clears it. Otherwise a
/// missing selection is first taken to be `default`. Turning a dynamic
/// selection static keeps the theme it currently shows; turning a static one
/// dynamic follows the system with that theme for both appearances; picking
/// the variant it already has changes nothing.
pub open spec fn theme_written(
    current: Option<SelectionModel>,
    chosen: Option<SelectionKind>,
    system_is_light: bool,
    default: SelectionModel,
) -> Option<SelectionModel> {
    match chosen {
        None => None,
        Some(kind) => {
            let cur = match current {
                Some(c) => c,
                None => default,
            };
            match kind {
                SelectionKind::Static => match cur {
                    SelectionModel::Static(_) => Some(cur),
                    SelectionModel::Dynamic { mode, light, dark } => Some(
                        SelectionModel::Static(shown_theme(mode, light, dark, system_is_light)),
                    ),
                },
                SelectionKind::Dynamic => match cur {
                    SelectionModel::Static(name) => Some(
                        SelectionModel::Dynamic { mode: ThemeAppearanceMode::System, light: name, dark: name },
                    ),
                    SelectionModel::Dynamic { .. } => Some(cur),
                },
            }
        },
    }
}

/// A copy of a selection.
fn copy_selection(s: &ThemeSelection) -> (r: ThemeSelection)
    ensures
        r@ == s@,
{
    match s {
        ThemeSelection::Static(n) => ThemeSelection::Static(n.clone()),
        ThemeSelection::Dynamic { mode, light, dark } => ThemeSelection::Dynamic {
            mode: *mode,
            light: light.clone(),
            dark: dark.clone(),
        },
    }
}

/// Picks the variant of a theme selection. `default` is the selection a
/// missing one is taken to be; `system_is_light` is the system's appearance.
pub fn theme_after_write(
    current: Option<ThemeSelection>,
    chosen: Option<SelectionKind>,
    system_is_light: bool,
    default: ThemeSelection,
) -> (r: Option<ThemeSelection>)
    ensures
        selection_view(r) == theme_written(selection_view(current), chosen, system_is_light, default@),
{
    let kind = match chosen {
        None => return None,
        Some(k) => k,
    };
    let cur = match current {
        Some(c) => c,
        None => default,
    };
    match kind {
        SelectionKind::Static => match cur {
            ThemeSelection::Static(n) => Some(ThemeSelection::Static(n)),
            ThemeSelection::Dynamic { mode, light, dark } => {
                let name = match mode {
                    ThemeAppearanceMode::Light => light,
                    ThemeAppearanceMode::Dark => dark,
                    ThemeAppearanceMode::System => if system_is_light {
                        light
                    } else {
                        dark
                    },
                };
                Some(ThemeSelection::Static(name))
            },
        },
        SelectionKind::Dynamic => match cur {
            ThemeSelection::Static(name) => {
                let light = name.clone();
                Some(ThemeSelection::Dynamic { mode: ThemeAppearanceMode::System, light, dark: name })
            },
            ThemeSelection::Dynamic { mode, light, dark } => Some(ThemeSelection::Dynamic { mode, light, dark }),
        },
    }
}

/// Picks the variant of the icon-theme selection: as `theme_after_write`,
/// a missing selection being the default icon theme, chosen statically.
pub fn icon_theme_after_write(
    current: Option<ThemeSelection>,
    chosen: Option<SelectionKind>,
    system_is_light: bool,
    default_icon_theme: String,
) -> (r: Option<ThemeSelection>)
    ensures
        selection_view(r) == theme_written(
            selection_view(current),
            chosen,
            system_is_light,
            SelectionModel::Static(default_icon_theme@),
        ),
{
    theme_after_write(current, chosen, system_is_light, ThemeSelection::Static(default_icon_theme))
}

/// A field of a theme selection set from the page.
pub enum ThemeField {
    /// The theme of a static selection.
    Name(String),
    Mode(ThemeAppearanceMode),
    Light(String),
    Dark(String),
}

/// The selection after writing a field. No value changes nothing. Otherwise,
/// where `default` is given, a missing selection is first taken to be it;
/// the field is then set where the selection has that variant, and nothing
/// else changes.
pub open spec fn theme_field_written(
    current: Option<SelectionModel>,
    field: Option<ThemeField>,
    default: Option<SelectionModel>,
) -> Option<SelectionModel> {
    match field {
        None => current,
        Some(f) => {
            let cur = match current {
                Some(c) => Some(c),
                None => default,
            };
            match (f, cur) {
                (ThemeField::Name(n), Some(SelectionModel::Static(_))) => Some(SelectionModel::Static(n@)),
                (ThemeField::Mode(m), Some(SelectionModel::Dynamic { mode, light, dark })) => Some(
                    SelectionModel::Dynamic { mode: m, light, dark },
                ),
                (ThemeField::Light(l), Some(SelectionModel::Dynamic { mode, light, dark })) => Some(
                    SelectionModel::Dynamic { mode, light: l@, dark },
                ),
                (ThemeField::Dark(d), Some(SelectionModel::Dynamic { mode, light, dark })) => Some(
                    SelectionModel::Dynamic { mode, light, dark: d@ },
                ),
                _ => cur,
            }
        },
    }
}

/// Writes a field of a selection. The theme's fields pass its default
/// selection, which a missing selection becomes; the icon theme's fields
/// pass none and leave a missing selection missing.
pub fn theme_field_after_write(
    current: Option<ThemeSelection>,
    field: Option<ThemeField>,
    default: Option<ThemeSelection>,
) -> (r: Option<ThemeSelection>)
    ensures
        selection_view(r) == theme_field_written(selection_view(current), field, selection_view(default)),
{
    let f = match field {
        None => return current,
        Some(f) => f,
    };
    let cur = match current {
        Some(c) => Some(c),
        None => default,
    };
    match (f, cur) {
        (ThemeField::Name(n), Some(ThemeSelection::Static(_))) => Some(ThemeSelection::Static(n)),
        (ThemeField::Mode(m), Some(ThemeSelection::Dynamic { mode: _, light, dark })) => Some(
            ThemeSelection::Dynamic { mode: m, light, dark },
        ),
        (ThemeField::Light(l), Some(ThemeSelection::Dynamic { mode, light: _, dark })) => Some(
            ThemeSelection::Dynamic { mode, light: l, dark },
        ),
        (ThemeField::Dark(d), Some(ThemeSelection::Dynamic { mode, light, dark: _ })) => Some(
            ThemeSelection::Dynamic { mode, light, dark: d },
        ),
        (_, other) => other,
    }
}

/// Writing a field of a light-and-dark selection sets that field to the value
/// and keeps the other two; the name of a single theme does not apply to it.
pub proof fn lemma_theme_dynamic_field_written(
    mode: ThemeAppearanceMode,
    light: Seq<char>,
    dark: Seq<char>,
    new_mode: ThemeAppearanceMode,
    value: String,
    default: Option<SelectionModel>,
)
    ensures
        ({
            let cur = Some(SelectionModel::Dynamic { mode, light, dark });
            &&& theme_field_written(cur, Some(ThemeField::Dark(value)), default) matches Some(
                SelectionModel::Dynamic { mode: m, light: l, dark: d },
            ) && m == mode && l == light && d == value@
            &&& theme_field_written(cur, Some(ThemeField::Light(value)), default) matches Some(
                SelectionModel::Dynamic { mode: m, light: l, dark: d },
            ) && m == mode && l == value@ && d == dark
            &&& theme_field_written(cur, Some(ThemeField::Mode(new_mode)), default) matches Some(
                SelectionModel::Dynamic { mode: m, light: l, dark: d },
            ) && m == new_mode && l == light && d == dark
            &&& theme_field_written(cur, Some(ThemeField::Name(value)), default) == cur
            &&& theme_field_written(cur, None, default) == cur
        }),
{
}

/// Writing the name of a single-theme selection makes it that theme; the
/// fields of a light-and-dark selection do not apply to it.
pub proof fn lemma_theme_static_field_written(
    name: Seq<char>,
    new_mode: ThemeAppearanceMode,
    value: String,
    default: Option<SelectionModel>,
)
    ensures
        ({
            let cur = Some(SelectionModel::Static(name));
            &&& theme_field_written(cur, Some(ThemeField::Name(value)), default) == Some(
                SelectionModel::Static(value@),
            )
            &&& theme_field_written(cur, Some(ThemeField::Light(value)), default) == cur
            &&& theme_field_written(cur, Some(ThemeField::Dark(value)), default) == cur
            &&& theme_field_written(cur, Some(ThemeField::Mode(new_mode)), default) == cur
        }),
{
}

/// With no selection yet, a field is written into the given default; without
/// a default the selection stays missing.
pub proof fn lemma_theme_field_missing_selection(field: ThemeField, default: Option<SelectionModel>)
    ensures
        default is None ==> theme_field_written(None, Some(field), default) is None,
        default is Some ==> theme_field_written(None, Some(field), default) == theme_field_written(
            default,
            Some(field),
            None,
        ),
{
}

/// Picking a variant of a theme selection. Turning a light-and-dark
/// selection into a single theme keeps the theme it shows: the light one in
/// light mode, the dark one in dark mode, and in system mode the one for the
/// system's appearance. Turning a single theme into a light-and-dark
/// selection follows the system with that theme on both sides. Picking no
/// variant clears the selection.
pub proof fn lemma_theme_variant_picked(
    light: Seq<char>,
    dark: Seq<char>,
    name: Seq<char>,
    current: Option<SelectionModel>,
    system_is_light: bool,
    default: SelectionModel,
)
    ensures
        theme_written(
            Some(SelectionModel::Dynamic { mode: ThemeAppearanceMode::Light, light, dark }),
            Some(SelectionKind::Static),
            system_is_light,
            default,
        ) == Some(SelectionModel::Static(light)),
        theme_written(
            Some(SelectionModel::Dynamic { mode: ThemeAppearanceMode::Dark, light, dark }),
            Some(SelectionKind::Static),
            system_is_light,
            default,
        ) == Some(SelectionModel::Static(dark)),
        theme_written(
            Some(SelectionModel::Dynamic { mode: ThemeAppearanceMode::System, light, dark }),
            Some(SelectionKind::Static),
            true,
            default,
        ) == Some(SelectionModel::Static(light)),
        theme_written(
            Some(SelectionModel::Dynamic { mode: ThemeAppearanceMode::System, light, dark }),
            Some(SelectionKind::Static),
            false,
            default,
        ) == Some(SelectionModel::Static(dark)),
        theme_written(Some(SelectionModel::Static(name)), Some(SelectionKind::Dynamic), system_is_light, default)
            == Some(SelectionModel::Dynamic { mode: ThemeAppearanceMode::System, light: name, dark: name }),
        theme_written(current, None, system_is_light, default) is None,
        theme_written(None, Some(SelectionKind::Static), system_is_light, default) == theme_written(
            Some(default),
            Some(SelectionKind::Static),
            system_is_light,
            default,
        ),
        theme_written(None, Some(SelectionKind::Dynamic), system_is_light, default) == theme_written(
            Some(default),
            Some(SelectionKind::Dynamic),
            system_is_light,
            default,
        ),
{
}

/// Picking an autosave mode gives a setting of that mode; "after delay"
/// keeps a delay already configured and otherwise starts at 1000 ms; picking
/// none clears the setting.
pub proof fn lemma_autosave_mode_picked(current: Option<AutosaveSetting>, chosen: AutosaveKind)
    ensures
        chosen == AutosaveKind::Off ==> autosave_written(current, Some(chosen)) == Some(AutosaveSetting::Off),
        chosen == AutosaveKind::OnFocusChange ==> autosave_written(current, Some(chosen)) == Some(
            AutosaveSetting::OnFocusChange,
        ),
        chosen == AutosaveKind::OnWindowChange ==> autosave_written(current, Some(chosen)) == Some(
            AutosaveSetting::OnWindowChange,
        ),
        chosen == AutosaveKind::AfterDelay ==> (autosave_written(current, Some(chosen)) matches Some(
            AutosaveSetting::AfterDelay { milliseconds: ms },
        ) && ms == (match current {
            Some(AutosaveSetting::AfterDelay { milliseconds }) => milliseconds,
            _ => 1000u64,
        })),
        autosave_written(current, None) is None,
{
}

/// Turning a static selection dynamic and back gives the same theme,
/// whatever the system's appearance.
pub proof fn lemma_theme_round_trip(name: Seq<char>, system_is_light: bool, default: SelectionModel)
    ensures
        ({
            let dynamic = theme_written(
                Some(SelectionModel::Static(name)),
                Some(SelectionKind::Dynamic),
                system_is_light,
                default,
            );
            theme_written(dynamic, Some(SelectionKind::Static), system_is_light, default) == Some(
                SelectionModel::Static(name),
            )
        }),
{
}

/// Picking the variant a selection already has changes nothing.
pub proof fn lemma_theme_same_variant(current: SelectionModel, system_is_light: bool, default: SelectionModel)
    ensures
        theme_written(
            Some(current),
            Some(
                match current {
                    SelectionModel::Static(_) => SelectionKind::Static,
                    SelectionModel::Dynamic { .. } => SelectionKind::Dynamic,
                },
            ),
            system_is_light,
            default,
        ) == Some(current),
{
}

/// Choosing "after delay" again keeps the configured delay.
pub proof fn lemma_autosave_keeps_delay(milliseconds: u64)
    ensures
        autosave_written(Some(AutosaveSetting::AfterDelay { milliseconds }), Some(AutosaveKind::AfterDelay))
            == Some(AutosaveSetting::AfterDelay { milliseconds }),
{
}

/// The shell a terminal starts.
#[derive(Clone, Debug, PartialEq, Eq)]
pub enum Shell {
    /// The system's login shell.
    System,
    Program(String),
    WithArguments { program: String, args: Vec<String>, title_override: Option<String> },
}

/// A shell setting, as a value.
pub enum ShellModel {
    System,
    Program(Seq<char>),
    WithArguments { program: Seq<char>, args: Seq<Seq<char>>, title_override: Option<Seq<char>> },
}

/// Some strings, as values.
pub open spec fn strings_view(v: Seq<String>) -> Seq<Seq<char>> {
    v.map_values(|s: String| s@)
}

/// An optional string, as a value.
pub open spec fn opt_string_view(s: Option<String>) -> Option<Seq<char>> {
    match s {
        Some(t) => Some(t@),
        None => None,
    }
}

impl View for Shell {
    type V = ShellModel;

    open spec fn view(&self) -> ShellModel {
        match self {
            Shell::System => ShellModel::System,
            Shell::Program(p) => ShellModel::Program(p@),
            Shell::WithArguments { program, args, title_override } => ShellModel::WithArguments {
                program: program@,
                args: strings_view(args@),
                title_override: opt_string_view(*title_override),
            },
        }
    }
}

/// An optional shell setting, as a value.
pub open spec fn shell_view(s: Option<Shell>) -> Option<ShellModel> {
    match s {
        Some(t) => Some(t@),
        None => None,
    }
}

/// The variants of the shell setting.
#[derive(Clone, Copy, Debug, PartialEq, Eq, Structural)]
pub enum ShellKind {
    System,
    Program,
    WithArguments,
}

/// The program a shell setting starts when it names none: PowerShell on
/// Windows, `sh` elsewhere.
pub open spec fn fallback_shell(on_windows: bool) -> Seq<char> {
    if on_windows {
        "powershell.exe"@
    } else {
        "sh"@
    }
}

/// The shell setting after picking a variant. No variant clears it.
/// Otherwise a missing setting is first taken to be `default`. A program
/// keeps the program the setting had (with or without arguments), else the
/// fallback shell; "with arguments" keeps the program, arguments and title
/// it had, a bare program getting no arguments and no title.
pub open spec fn shell_written(
    current: Option<ShellModel>,
    chosen: Option<ShellKind>,
    on_windows: bool,
    default: ShellModel,
) -> Option<ShellModel> {
    match chosen {
        None => None,
        Some(kind) => {
            let cur = match current {
                Some(c) => c,
                None => default,
            };
            match kind {
                ShellKind::System => Some(ShellModel::System),
                ShellKind::Program => Some(
                    ShellModel::Program(
                        match cur {
                            ShellModel::Program(p) => p,
                            ShellModel::WithArguments { program, .. } => program,
                            ShellModel::System => fallback_shell(on_windows),
                        },
                    ),
                ),
                ShellKind::WithArguments => Some(
                    match cur {
                        ShellModel::Program(p) => ShellModel::WithArguments {
                            program: p,
                            args: Seq::empty(),
                            title_override: None,
                        },
                        ShellModel::WithArguments { .. } => cur,
                        ShellModel::System => ShellModel::WithArguments {
                            program: fallback_shell(on_windows),
                            args: Seq::empty(),
                            title_override: None,
                        },
                    },
                ),
            }
        },
    }
}

/// The fallback shell program.
fn fallback_shell_program(on_windows: bool) -> (r: String)
    ensures
        r@ == fallback_shell(on_windows),
{
    if on_windows {
        String::from_str("powershell.exe")
    } else {
        String::from_str("sh")
    }
}

/// Picks the variant of the terminal's shell. `default` is the setting a
/// missing one is taken to be; `on_windows` tells the platform.
pub fn shell_after_write(current: Option<Shell>, chosen: Option<ShellKind>, on_windows: bool, default: Shell) -> (r:
    Option<Shell>)
    ensures
        shell_view(r) == shell_written(shell_view(current), chosen, on_windows, default@),
{
    let kind = match chosen {
        None => return None,
        Some(k) => k,
    };
    let cur = match current {
        Some(c) => c,
        None => default,
    };
    match kind {
        ShellKind::System => Some(Shell::System),
        ShellKind::Program => {
            let program = match cur {
                Shell::Program(p) => p,
                Shell::WithArguments { program, .. } => program,
                Shell::System => fallback_shell_program(on_windows),
            };
            Some(Shell::Program(program))
        },
        ShellKind::WithArguments => match cur {
            Shell::Program(p) => {
                let r = Shell::WithArguments { program: p, args: Vec::new(), title_override: None };
                assert(strings_view(Seq::<String>::empty()) =~= Seq::<Seq<char>>::empty());
                Some(r)
            },
            Shell::WithArguments { program, args, title_override } => Some(
                Shell::WithArguments { program, args, title_override },
            ),
            Shell::System => {
                let r = Shell::WithArguments {
                    program: fallback_shell_program(on_windows),
                    args: Vec::new(),
                    title_override: None,
                };
                assert(strings_view(Seq::<String>::empty()) =~= Seq::<Seq<char>>::empty());
                Some(r)
            },
        },
    }
}

/// The directory a terminal starts in.
#[derive(Clone, Debug, PartialEq, Eq)]
pub enum WorkingDirectory {
    CurrentFileDirectory,
    CurrentProjectDirectory,
    FirstProjectDirectory,
    AlwaysHome,
    Always { directory: String },
}

/// The variants of the working-directory setting.
#[derive(Clone, Copy, Debug, PartialEq, Eq, Structural)]
pub enum WorkingDirectoryKind {
    CurrentFileDirectory,
    CurrentProjectDirectory,
    FirstProjectDirectory,
    AlwaysHome,
    Always,
}

/// Picks the variant of the working-directory setting: no variant clears
/// it; "always" keeps a directory already set that way, else starts with an
/// empty one; the others are taken as they are.
pub fn working_directory_after_write(current: Option<WorkingDirectory>, chosen: Option<WorkingDirectoryKind>) -> (r:
    Option<WorkingDirectory>)
    ensures
        match chosen {
            None => r is None,
            Some(WorkingDirectoryKind::CurrentFileDirectory) => r == Some(WorkingDirectory::CurrentFileDirectory),
            Some(WorkingDirectoryKind::CurrentProjectDirectory) => r == Some(WorkingDirectory::CurrentProjectDirectory),
            Some(WorkingDirectoryKind::FirstProjectDirectory) => r == Some(WorkingDirectory::FirstProjectDirectory),
            Some(WorkingDirectoryKind::AlwaysHome) => r == Some(WorkingDirectory::AlwaysHome),
            Some(WorkingDirectoryKind::Always) => match current {
                Some(WorkingDirectory::Always { .. }) => r == current,
                _ => r matches Some(WorkingDirectory::Always { directory }) && directory@.len() == 0,
            },
        },
{
    match chosen {
        None => None,
        Some(WorkingDirectoryKind::CurrentFileDirectory) => Some(WorkingDirectory::CurrentFileDirectory),
        Some(WorkingDirectoryKind::CurrentProjectDirectory) => Some(WorkingDirectory::CurrentProjectDirectory),
        Some(WorkingDirectoryKind::FirstProjectDirectory) => Some(WorkingDirectory::FirstProjectDirectory),
        Some(WorkingDirectoryKind::AlwaysHome) => Some(WorkingDirectory::AlwaysHome),
        Some(WorkingDirectoryKind::Always) => match current {
            Some(WorkingDirectory::Always { directory }) => Some(WorkingDirectory::Always { directory }),
            _ => Some(WorkingDirectory::Always { directory: String::new() }),
        },
    }
}

/// The arrangement of the window-control buttons in the title bar.
#[derive(Clone, Debug, PartialEq, Eq)]
pub enum ButtonLayout {
    PlatformDefault,
    Standard,
    /// A layout such as `close:minimize,maximize`.
    Custom(String),
}

/// The variants of the button layout.
#[derive(Clone, Copy, Debug, PartialEq, Eq, Structural)]
pub enum ButtonLayoutKind {
    PlatformDefault,
    Standard,
    Custom,
}

/// The custom layout a new custom button layout starts with.
pub open spec fn default_custom_layout() -> Seq<char> {
    "close:minimize,maximize"@
}

/// Picks the variant of the button layout: no variant clears it; a custom
/// layout keeps the custom layout already set, else starts with
/// `close:minimize,maximize`.
pub fn button_layout_after_write(current: Option<ButtonLayout>, chosen: Option<ButtonLayoutKind>) -> (r: Option<
    ButtonLayout,
>)
    ensures
        match chosen {
            None => r is None,
            Some(ButtonLayoutKind::PlatformDefault) => r == Some(ButtonLayout::PlatformDefault),
            Some(ButtonLayoutKind::Standard) => r == Some(ButtonLayout::Standard),
            Some(ButtonLayoutKind::Custom) => match current {
                Some(ButtonLayout::Custom(layout)) => r == Some(ButtonLayout::Custom(layout)),
                _ => r matches Some(ButtonLayout::Custom(layout)) && layout@ == default_custom_layout(),
            },
        },
{
    match chosen {
        None => None,
        Some(ButtonLayoutKind::PlatformDefault) => Some(ButtonLayout::PlatformDefault),
        Some(ButtonLayoutKind::Standard) => Some(ButtonLayout::Standard),
        Some(ButtonLayoutKind::Custom) => match current {
            Some(ButtonLayout::Custom(layout)) => Some(ButtonLayout::Custom(layout)),
            _ => Some(ButtonLayout::Custom(String::from_str("close:minimize,maximize"))),
        },
    }
}

/// The `git.enabled` settings.
#[derive(Clone, Copy, Debug, PartialEq, Eq, Structural)]
pub struct GitEnabled {
    pub disable_git: Option<bool>,
    pub enable_status: Option<bool>,
    pub enable_diff: Option<bool>,
}

/// The variant the Git switch shows: none without `git.enabled`; else 0
/// (disabled) when `disable_git` is set, 1 (enabled, with its status and
/// diff switches) otherwise.
pub open spec fn git_discriminant_spec(git: Option<GitEnabled>) -> Option<usize> {
    match git {
        None => None,
        Some(g) => Some(
            if g.disable_git == Some(true) {
                0
            } else {
                1
            },
        ),
    }
}

/// The variant the Git switch shows.
pub fn git_enabled_discriminant(git: Option<GitEnabled>) -> (r: Option<usize>)
    ensures
        r == git_discriminant_spec(git),
{
    match git {
        None => None,
        Some(g) => {
            let disabled = match g.disable_git {
                Some(b) => b,
                None => false,
            };
            Some(
                if disabled {
                    0
                } else {
                    1
                },
            )
        },
    }
}

/// The variant the content-width switch of the agent panel shows: none
/// without agent settings; else 1 (limited, with its maximum width) unless
/// `limit_content_width` is set to false, then 0.
pub fn content_width_discriminant(has_agent_settings: bool, limit_content_width: Option<bool>) -> (r: Option<usize>)
    ensures
        r == if !has_agent_settings {
            None
        } else if limit_content_width == Some(false) {
            Some(0usize)
        } else {
            Some(1usize)
        },
{
    if !has_agent_settings {
        return None;
    }
    let enabled = match limit_content_width {
        Some(b) => b,
        None => true,
    };
    Some(
        if enabled {
            1
        } else {
            0
        },
    )
}

/// Picking a variant of the shell setting. A bare program keeps the program
/// the setting named, with or without arguments; "with arguments" keeps a
/// setting that already has them and gives a bare program no arguments and
/// no title; the system shell drops everything; picking none clears the
/// setting. From the system shell the program is `sh`, or `powershell.exe`
/// on Windows.
pub proof fn lemma_shell_variant_picked(
    program: Seq<char>,
    args: Seq<Seq<char>>,
    title_override: Option<Seq<char>>,
    current: Option<ShellModel>,
    on_windows: bool,
    default: ShellModel,
)
    ensures
        shell_written(Some(ShellModel::Program(program)), Some(ShellKind::Program), on_windows, default) == Some(
            ShellModel::Program(program),
        ),
        shell_written(
            Some(ShellModel::WithArguments { program, args, title_override }),
            Some(ShellKind::Program),
            on_windows,
            default,
        ) == Some(ShellModel::Program(program)),
        shell_written(
            Some(ShellModel::WithArguments { program, args, title_override }),
            Some(ShellKind::WithArguments),
            on_windows,
            default,
        ) == Some(ShellModel::WithArguments { program, args, title_override }),
        (shell_written(Some(ShellModel::Program(program)), Some(ShellKind::WithArguments), on_windows, default)
            matches Some(ShellModel::WithArguments { program: p, args: a, title_override: t }) && p == program
            && a.len() == 0 && t is None),
        shell_written(Some(ShellModel::System), Some(ShellKind::Program), false, default) == Some(
            ShellModel::Program(seq!['s', 'h']),
        ),
        shell_written(Some(ShellModel::System), Some(ShellKind::Program), true, default) == Some(
            ShellModel::Program("powershell.exe"@),
        ),
        shell_written(current, Some(ShellKind::System), on_windows, default) == Some(ShellModel::System),
        shell_written(current, None, on_windows, default) is None,
{
    reveal_strlit("sh");
    assert("sh"@ =~= seq!['s', 'h']);
}

/// Turning a bare program into one with arguments and back keeps the
/// program.
pub proof fn lemma_shell_program_round_trip(program: Seq<char>, on_windows: bool, default: ShellModel)
    ensures
        shell_written(
            shell_written(Some(ShellModel::Program(program)), Some(ShellKind::WithArguments), on_windows, default),
            Some(ShellKind::Program),
            on_windows,
            default,
        ) == Some(ShellModel::Program(program)),
{
}

/// A field of the shell setting written from the page.
pub enum ShellField {
    /// The program of a bare program setting.
    ProgramPath(Option<String>),
    /// The program of a setting with arguments.
    ArgumentsProgram(Option<String>),
    Arguments(Option<Vec<String>>),
    /// The terminal title; an empty one means none.
    TitleOverride(Option<String>),
}

/// A title override as stored: an empty title is none.
pub open spec fn stored_title(value: Option<String>) -> Option<Seq<char>> {
    match value {
        Some(t) => if t@.len() > 0 {
            Some(t@)
        } else {
            None
        },
        None => None,
    }
}

/// The shell setting after writing a field: the field is set where the
/// setting has its variant (the program and arguments only to a value,
/// the title to a non-empty value or to none); nothing else changes.
pub open spec fn shell_field_written(current: Option<ShellModel>, field: ShellField) -> Option<ShellModel> {
    match (field, current) {
        (ShellField::ProgramPath(Some(p)), Some(ShellModel::Program(_))) => Some(ShellModel::Program(p@)),
        (
            ShellField::ArgumentsProgram(Some(p)),
            Some(ShellModel::WithArguments { program, args, title_override }),
        ) => Some(ShellModel::WithArguments { program: p@, args, title_override }),
        (ShellField::Arguments(Some(a)), Some(ShellModel::WithArguments { program, args, title_override })) => Some(
            ShellModel::WithArguments { program, args: strings_view(a@), title_override },
        ),
        (ShellField::TitleOverride(t), Some(ShellModel::WithArguments { program, args, title_override })) => Some(
            ShellModel::WithArguments { program, args, title_override: stored_title(t) },
        ),
        _ => current,
    }
}

/// Writing a field of a shell set with arguments: a program or argument
/// value replaces that part and keeps the others; no value changes nothing;
/// a title is stored when it is not empty, and an empty or missing title
/// clears it. The bare program's field does not apply to it.
pub proof fn lemma_shell_arguments_field_written(
    program: Seq<char>,
    args: Seq<Seq<char>>,
    title_override: Option<Seq<char>>,
    p: String,
    a: Vec<String>,
    t: String,
)
    ensures
        ({
            let cur = Some(ShellModel::WithArguments { program, args, title_override });
            &&& shell_field_written(cur, ShellField::ArgumentsProgram(Some(p))) matches Some(
                ShellModel::WithArguments { program: np, args: na, title_override: nt },
            ) && np == p@ && na == args && nt == title_override
            &&& shell_field_written(cur, ShellField::ArgumentsProgram(None)) == cur
            &&& shell_field_written(cur, ShellField::Arguments(Some(a))) matches Some(
                ShellModel::WithArguments { program: np, args: na, title_override: nt },
            ) && np == program && nt == title_override && na.len() == a@.len() && (forall|i: int|
                0 <= i < na.len() ==> #[trigger] na[i] == a@[i]@)
            &&& shell_field_written(cur, ShellField::Arguments(None)) == cur
            &&& shell_field_written(cur, ShellField::TitleOverride(Some(t))) matches Some(
                ShellModel::WithArguments { program: np, args: na, title_override: nt },
            ) && np == program && na == args && (if t@.len() > 0 {
                nt == Some(t@)
            } else {
                nt is None
            })
            &&& shell_field_written(cur, ShellField::TitleOverride(None)) matches Some(
                ShellModel::WithArguments { program: np, args: na, title_override: nt },
            ) && np == program && na == args && nt is None
            &&& shell_field_written(cur, ShellField::ProgramPath(Some(p))) == cur
        }),
{
}

/// Writing the program of a bare program setting makes it that program; no
/// value changes nothing, and the fields of a shell with arguments do not
/// apply to it. The system shell has no fields to write.
pub proof fn lemma_shell_program_field_written(program: Seq<char>, p: String, field: ShellField)
    ensures
        shell_field_written(Some(ShellModel::Program(program)), ShellField::ProgramPath(Some(p))) == Some(
            ShellModel::Program(p@),
        ),
        shell_field_written(Some(ShellModel::Program(program)), ShellField::ProgramPath(None)) == Some(
            ShellModel::Program(program),
        ),
        !(field is ProgramPath) ==> shell_field_written(Some(ShellModel::Program(program)), field) == Some(
            ShellModel::Program(program),
        ),
        shell_field_written(Some(ShellModel::System), field) == Some(ShellModel::System),
        shell_field_written(None, field) is None,
{
}

/// Writes a field of the shell setting.
pub fn shell_field_after_write(current: Option<Shell>, field: ShellField) -> (r: Option<Shell>)
    ensures
        shell_view(r) == shell_field_written(shell_view(current), field),
{
    match (field, current) {
        (ShellField::ProgramPath(Some(p)), Some(Shell::Program(_))) => Some(Shell::Program(p)),
        (ShellField::ArgumentsProgram(Some(p)), Some(Shell::WithArguments { program: _, args, title_override })) => Some(
            Shell::WithArguments { program: p, args, title_override },
        ),
        (ShellField::Arguments(Some(a)), Some(Shell::WithArguments { program, args: _, title_override })) => Some(
            Shell::WithArguments { program, args: a, title_override },
        ),
        (ShellField::TitleOverride(t), Some(Shell::WithArguments { program, args, title_override: _ })) => {
            let title = match t {
                Some(s) => if s.unicode_len() > 0 {
                    Some(s)
                } else {
                    None
                },
                None => None,
            };
            Some(Shell::WithArguments { program, args, title_override: title })
        },
        (_, other) => other,
    }
}

/// Writes the directory of an "always" working directory: no value means an
/// empty directory; other variants do not change.
pub fn always_directory_after_write(current: Option<WorkingDirectory>, value: Option<String>) -> (r: Option<
    WorkingDirectory,
>)
    ensures
        match current {
            Some(WorkingDirectory::Always { .. }) => r matches Some(WorkingDirectory::Always { directory }) && directory@
                == match value {
                Some(v) => v@,
                None => Seq::<char>::empty(),
            },
            _ => r == current,
        },
{
    match current {
        Some(WorkingDirectory::Always { .. }) => {
            let directory = match value {
                Some(v) => v,
                None => String::new(),
            };
            Some(WorkingDirectory::Always { directory })
        },
        other => other,
    }
}

} // verus!
