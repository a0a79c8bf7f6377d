# zed_ui_logic

The decision logic of three editor UI components, verified with Verus:

- the tab switcher (`src/tab_switcher.rs`): which tabs are listed, in which
  order, which one is selected, and what closing, confirming or dismissing asks for;
- the task picker (`src/tasks_modal.rs`): how loaded tasks and fuzzy matches are
  arranged, which row is recent, what each row and the footer show, what runs;
- the tool-permission settings page (`src/tool_permissions.rs`,
  `src/rule_preview.rs`, `src/permission_settings.rs`): which rules match a
  test input, what outcome they imply, what the page shows for it, and how
  adding, renaming and deleting patterns edits the settings file;
- the settings pages (`src/pages/`, over the entry types of `src/page_model.rs`):
  every page's entries in order, with the law that no page lists a JSON path
  twice; and what picking a variant of a setting writes
  (`src/setting_writes.rs`), with a few helpers (`src/settings_pages.rs`,
  `src/modal_editing.rs`).

Shared pieces: text handling (`src/text.rs`) and stable orderings
(`src/ordering.rs`, `src/label_order.rs`).

`app/` holds what the library cannot: the keymap action type with its serde
and JSON-schema derives, and the floating-point layout values.
