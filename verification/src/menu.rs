//! The application menu as far as it follows the editor: which items are
//! enabled and checked for a state of the editor, and what a chosen item
//! tells the window.

use vstd::prelude::*;
use vstd::string::StringExecFns;
use crate::strings::{has_prefix, same_text};

verus! {

/// Which formatting commands are active at the cursor, and whether undo and
/// redo are available.
#[derive(Copy, Clone, Debug, PartialEq, Eq, Structural)]
pub struct EditorState {
    pub bold_active: bool,
    pub italic_active: bool,
    pub underline_active: bool,
    pub strikethrough_active: bool,
    pub code_active: bool,
    pub align_left_active: bool,
    pub align_center_active: bool,
    pub align_right_active: bool,
    pub align_justify_active: bool,
    pub bullet_list_active: bool,
    pub numbered_list_active: bool,
    pub can_undo: bool,
    pub can_redo: bool,
}

impl EditorState {
    /// The state of an empty document: nothing is active but left alignment,
    /// and there is nothing to undo or redo.
    pub open spec fn initial() -> EditorState {
        EditorState {
            bold_active: false,
            italic_active: false,
            underline_active: false,
            strikethrough_active: false,
            code_active: false,
            align_left_active: true,
            align_center_active: false,
            align_right_active: false,
            align_justify_active: false,
            bullet_list_active: false,
            numbered_list_active: false,
            can_undo: false,
            can_redo: false,
        }
    }
}

impl Default for EditorState {
    fn default() -> (state: EditorState)
        ensures
            state == EditorState::initial(),
    {
        EditorState {
            bold_active: false,
            italic_active: false,
            underline_active: false,
            strikethrough_active: false,
            code_active: false,
            align_left_active: true,
            align_center_active: false,
            align_right_active: false,
            align_justify_active: false,
            bullet_list_active: false,
            numbered_list_active: false,
            can_undo: false,
            can_redo: false,
        }
    }
}

/// The menu items that follow the editor.
#[derive(Clone, Copy, Debug, PartialEq, Eq, Structural)]
pub enum MenuItemId {
    FormatBold,
    FormatItalic,
    FormatUnderline,
    FormatStrikethrough,
    FormatCode,
    FormatAlignLeft,
    FormatAlignCenter,
    FormatAlignRight,
    FormatAlignJustify,
    FormatBulletList,
    FormatNumberedList,
    FormatLink,
    EditUndo,
    EditRedo,
}

/// One change to one menu item.
#[derive(Clone, Copy, Debug, PartialEq, Eq, Structural)]
pub enum MenuChange {
    SetEnabled(MenuItemId, bool),
    SetChecked(MenuItemId, bool),
}

/// What a menu item shows: whether it can be chosen, and whether it has a
/// check mark.
#[derive(Clone, Copy, Debug, PartialEq, Eq, Structural)]
pub struct ItemState {
    pub enabled: bool,
    pub checked: bool,
}

/// Whether `item` carries a check mark at all: the formatting items do, the
/// link item and undo and redo do not.
pub open spec fn has_check_mark(item: MenuItemId) -> bool {
    !(item is FormatLink || item is EditUndo || item is EditRedo)
}

/// Whether `item` can be chosen while the editor is in `state`: a link needs
/// a selection, undo and redo need something to undo and to redo, and all
/// formatting is at hand.
pub open spec fn enabled_for(item: MenuItemId, state: EditorState, has_selection: bool) -> bool {
    match item {
        MenuItemId::FormatLink => has_selection,
        MenuItemId::EditUndo => state.can_undo,
        MenuItemId::EditRedo => state.can_redo,
        _ => true,
    }
}

/// Whether `item` has its check mark while the editor is in `state`.
pub open spec fn checked_for(item: MenuItemId, state: EditorState) -> bool {
    match item {
        MenuItemId::FormatBold => state.bold_active,
        MenuItemId::FormatItalic => state.italic_active,
        MenuItemId::FormatUnderline => state.underline_active,
        MenuItemId::FormatStrikethrough => state.strikethrough_active,
        MenuItemId::FormatCode => state.code_active,
        MenuItemId::FormatAlignLeft => state.align_left_active,
        MenuItemId::FormatAlignCenter => state.align_center_active,
        MenuItemId::FormatAlignRight => state.align_right_active,
        MenuItemId::FormatAlignJustify => state.align_justify_active,
        MenuItemId::FormatBulletList => state.bullet_list_active,
        MenuItemId::FormatNumberedList => state.numbered_list_active,
        _ => false,
    }
}

/// The items of the format menu, in the order in which they are changed.
pub open spec fn format_items() -> Seq<MenuItemId> {
    seq![
        MenuItemId::FormatBold,
        MenuItemId::FormatItalic,
        MenuItemId::FormatUnderline,
        MenuItemId::FormatStrikethrough,
        MenuItemId::FormatCode,
        MenuItemId::FormatAlignLeft,
        MenuItemId::FormatAlignCenter,
        MenuItemId::FormatAlignRight,
        MenuItemId::FormatAlignJustify,
        MenuItemId::FormatBulletList,
        MenuItemId::FormatNumberedList,
        MenuItemId::FormatLink,
    ]
}

/// The changes that bring the menu in line with the editor: every item of the
/// format menu is enabled as the state asks, then every item with a check
/// mark is checked as the state asks, then undo and redo are enabled as the
/// state asks.
pub open spec fn editor_changes(state: EditorState, has_selection: bool) -> Seq<MenuChange> {
    Seq::new(
        12,
        |i: int| MenuChange::SetEnabled(format_items()[i], enabled_for(format_items()[i], state, has_selection)),
    ) + Seq::new(
        11,
        |i: int| MenuChange::SetChecked(format_items()[i], checked_for(format_items()[i], state)),
    ) + seq![
        MenuChange::SetEnabled(MenuItemId::EditUndo, state.can_undo),
        MenuChange::SetEnabled(MenuItemId::EditRedo, state.can_redo),
    ]
}

/// The changes that switch the menu off while no editor has the focus: every
/// item of the format menu, then undo and redo, is disabled.
pub open spec fn disabling_changes() -> Seq<MenuChange> {
    Seq::new(12, |i: int| MenuChange::SetEnabled(format_items()[i], false)) + seq![
        MenuChange::SetEnabled(MenuItemId::EditUndo, false),
        MenuChange::SetEnabled(MenuItemId::EditRedo, false),
    ]
}

/// What `item` shows after `changes` were made, one after the other, to an
/// item that showed `before`.
pub open spec fn shown_after(changes: Seq<MenuChange>, item: MenuItemId, before: ItemState) -> ItemState
    decreases changes.len(),
{
    if changes.len() == 0 {
        before
    } else {
        let earlier = shown_after(changes.drop_last(), item, before);
        match changes.last() {
            MenuChange::SetEnabled(changed, enabled) => if changed == item {
                ItemState { enabled, ..earlier }
            } else {
                earlier
            },
            MenuChange::SetChecked(changed, checked) => if changed == item {
                ItemState { checked, ..earlier }
            } else {
                earlier
            },
        }
    }
}

/// The event that the window is told when the menu item called `id` is
/// chosen: a name of its own for the items of the application, the name of
/// the item itself for formatting, undo, redo and the link to the page, and
/// nothing for every other item.
pub open spec fn menu_event(id: Seq<char>) -> Option<Seq<char>> {
    if id == "new_page"@ {
        Some("menu_new_page"@)
    } else if id == "view_all_pages"@ {
        Some("menu_view_pages"@)
    } else if id == "search"@ {
        Some("menu_search"@)
    } else if id == "settings"@ {
        Some("menu_settings"@)
    } else if id == "focus_tags"@ {
        Some("menu_focus_tags"@)
    } else if id == "recent_pages"@ {
        Some("menu_recent_pages"@)
    } else if "format_"@.is_prefix_of(id) {
        Some(id)
    } else if id == "edit_undo"@ || id == "edit_redo"@ || id == "copy_link_to_page"@ {
        Some(id)
    } else if id == "sync"@ {
        Some("menu_sync"@)
    } else {
        None
    }
}

fn format_item(index: usize) -> (item: MenuItemId)
    requires
        index < 12,
    ensures
        item == format_items()[index as int],
{
    match index {
        0 => MenuItemId::FormatBold,
        1 => MenuItemId::FormatItalic,
        2 => MenuItemId::FormatUnderline,
        3 => MenuItemId::FormatStrikethrough,
        4 => MenuItemId::FormatCode,
        5 => MenuItemId::FormatAlignLeft,
        6 => MenuItemId::FormatAlignCenter,
        7 => MenuItemId::FormatAlignRight,
        8 => MenuItemId::FormatAlignJustify,
        9 => MenuItemId::FormatBulletList,
        10 => MenuItemId::FormatNumberedList,
        _ => MenuItemId::FormatLink,
    }
}

impl MenuItemId {
    /// Whether the item can be chosen while the editor is in `state`.
    pub fn is_enabled(self, state: &EditorState, has_selection: bool) -> (enabled: bool)
        ensures
            enabled == enabled_for(self, *state, has_selection),
    {
        match self {
            MenuItemId::FormatLink => has_selection,
            MenuItemId::EditUndo => state.can_undo,
            MenuItemId::EditRedo => state.can_redo,
            _ => true,
        }
    }

    /// Whether the item has its check mark while the editor is in `state`.
    pub fn is_checked(self, state: &EditorState) -> (checked: bool)
        ensures
            checked == checked_for(self, *state),
    {
        match self {
            MenuItemId::FormatBold => state.bold_active,
            MenuItemId::FormatItalic => state.italic_active,
            MenuItemId::FormatUnderline => state.underline_active,
            MenuItemId::FormatStrikethrough => state.strikethrough_active,
            MenuItemId::FormatCode => state.code_active,
            MenuItemId::FormatAlignLeft => state.align_left_active,
            MenuItemId::FormatAlignCenter => state.align_center_active,
            MenuItemId::FormatAlignRight => state.align_right_active,
            MenuItemId::FormatAlignJustify => state.align_justify_active,
            MenuItemId::FormatBulletList => state.bullet_list_active,
            MenuItemId::FormatNumberedList => state.numbered_list_active,
            _ => false,
        }
    }
}

/// Changes made one after the other are made in two parts.
pub proof fn lemma_shown_after_both(
    first: Seq<MenuChange>,
    second: Seq<MenuChange>,
    item: MenuItemId,
    before: ItemState,
)
    ensures
        shown_after(first + second, item, before) == shown_after(
            second,
            item,
            shown_after(first, item, before),
        ),
    decreases second.len(),
{
    if second.len() == 0 {
        assert(first + second =~= first);
    } else {
        assert((first + second).drop_last() =~= first + second.drop_last());
        lemma_shown_after_both(first, second.drop_last(), item, before);
    }
}

/// Enabling the first `count` items of the format menu, each as `enabled`
/// says, leaves each of them enabled as `enabled` says and changes nothing
/// else.
proof fn lemma_shown_after_enabling(
    count: nat,
    enabled: spec_fn(MenuItemId) -> bool,
    item: MenuItemId,
    before: ItemState,
)
    requires
        count <= 12,
    ensures
        shown_after(
            Seq::new(count, |i: int| MenuChange::SetEnabled(format_items()[i], enabled(format_items()[i]))),
            item,
            before,
        ) == if exists|i: int| 0 <= i < count && format_items()[i] == item {
            ItemState { enabled: enabled(item), ..before }
        } else {
            before
        },
    decreases count,
{
    let changes = Seq::new(
        count,
        |i: int| MenuChange::SetEnabled(format_items()[i], enabled(format_items()[i])),
    );
    if count > 0 {
        let earlier = Seq::new(
            (count - 1) as nat,
            |i: int| MenuChange::SetEnabled(format_items()[i], enabled(format_items()[i])),
        );
        assert(changes.drop_last() =~= earlier);
        lemma_shown_after_enabling((count - 1) as nat, enabled, item, before);
        if format_items()[count - 1] == item {
        } else if exists|i: int| 0 <= i < count && format_items()[i] == item {
            let i = choose|i: int| 0 <= i < count && format_items()[i] == item;
            assert(0 <= i < count - 1 && format_items()[i] == item);
        }
    }
}

/// Checking the first `count` items of the format menu, each as `checked`
/// says, leaves each of them checked as `checked` says and changes nothing
/// else.
proof fn lemma_shown_after_checking(
    count: nat,
    checked: spec_fn(MenuItemId) -> bool,
    item: MenuItemId,
    before: ItemState,
)
    requires
        count <= 12,
    ensures
        shown_after(
            Seq::new(count, |i: int| MenuChange::SetChecked(format_items()[i], checked(format_items()[i]))),
            item,
            before,
        ) == if exists|i: int| 0 <= i < count && format_items()[i] == item {
            ItemState { checked: checked(item), ..before }
        } else {
            before
        },
    decreases count,
{
    let changes = Seq::new(
        count,
        |i: int| MenuChange::SetChecked(format_items()[i], checked(format_items()[i])),
    );
    if count > 0 {
        let earlier = Seq::new(
            (count - 1) as nat,
            |i: int| MenuChange::SetChecked(format_items()[i], checked(format_items()[i])),
        );
        assert(changes.drop_last() =~= earlier);
        lemma_shown_after_checking((count - 1) as nat, checked, item, before);
        if format_items()[count - 1] == item {
        } else if exists|i: int| 0 <= i < count && format_items()[i] == item {
            let i = choose|i: int| 0 <= i < count && format_items()[i] == item;
            assert(0 <= i < count - 1 && format_items()[i] == item);
        }
    }
}

/// The position of an item in the format menu.
proof fn lemma_format_item_position(item: MenuItemId)
    ensures
        !(item is EditUndo || item is EditRedo) ==> exists|i: int|
            0 <= i < 12 && format_items()[i] == item,
        has_check_mark(item) ==> exists|i: int| 0 <= i < 11 && format_items()[i] == item,
        !has_check_mark(item) ==> forall|i: int| 0 <= i < 11 ==> format_items()[i] != item,
        item is EditUndo || item is EditRedo ==> forall|i: int|
            0 <= i < 12 ==> format_items()[i] != item,
{
    let items = format_items();
    assert(items[0] == MenuItemId::FormatBold);
    assert(items[1] == MenuItemId::FormatItalic);
    assert(items[2] == MenuItemId::FormatUnderline);
    assert(items[3] == MenuItemId::FormatStrikethrough);
    assert(items[4] == MenuItemId::FormatCode);
    assert(items[5] == MenuItemId::FormatAlignLeft);
    assert(items[6] == MenuItemId::FormatAlignCenter);
    assert(items[7] == MenuItemId::FormatAlignRight);
    assert(items[8] == MenuItemId::FormatAlignJustify);
    assert(items[9] == MenuItemId::FormatBulletList);
    assert(items[10] == MenuItemId::FormatNumberedList);
    assert(items[11] == MenuItemId::FormatLink);
}

/// After the changes for a state of the editor, every item is enabled as
/// that state asks, and every item with a check mark is checked as that
/// state asks, whatever the menu showed before.
pub proof fn lemma_menu_follows_editor(
    state: EditorState,
    has_selection: bool,
    item: MenuItemId,
    before: ItemState,
)
    ensures
        shown_after(editor_changes(state, has_selection), item, before).enabled == enabled_for(
            item,
            state,
            has_selection,
        ),
        shown_after(editor_changes(state, has_selection), item, before).checked == if has_check_mark(
            item,
        ) {
            checked_for(item, state)
        } else {
            before.checked
        },
{
    let enabled = |changed: MenuItemId| enabled_for(changed, state, has_selection);
    let checked = |changed: MenuItemId| checked_for(changed, state);
    let enabling = Seq::new(
        12,
        |i: int| MenuChange::SetEnabled(format_items()[i], enabled(format_items()[i])),
    );
    let checking = Seq::new(
        11,
        |i: int| MenuChange::SetChecked(format_items()[i], checked(format_items()[i])),
    );
    let undo = seq![MenuChange::SetEnabled(MenuItemId::EditUndo, state.can_undo)];
    let redo = seq![MenuChange::SetEnabled(MenuItemId::EditRedo, state.can_redo)];
    assert(editor_changes(state, has_selection) =~= enabling + checking + undo + redo);
    lemma_format_item_position(item);
    lemma_shown_after_enabling(12, enabled, item, before);
    let enabled_state = shown_after(enabling, item, before);
    lemma_shown_after_checking(11, checked, item, enabled_state);
    let checked_state = shown_after(checking, item, enabled_state);
    lemma_shown_after_both(enabling, checking, item, before);
    lemma_shown_after_both(enabling + checking, undo, item, before);
    lemma_shown_after_both(enabling + checking + undo, redo, item, before);
    assert(undo.drop_last() =~= Seq::<MenuChange>::empty());
    assert(redo.drop_last() =~= Seq::<MenuChange>::empty());
    let undone = shown_after(undo, item, checked_state);
    assert(shown_after(undo.drop_last(), item, checked_state) == checked_state);
    assert(shown_after(redo.drop_last(), item, undone) == undone);
}

/// After the changes that switch the menu off, no item can be chosen, and
/// every check mark is as it was.
pub proof fn lemma_menu_is_disabled(item: MenuItemId, before: ItemState)
    ensures
        shown_after(disabling_changes(), item, before) == (ItemState { enabled: false, ..before }),
{
    let enabled = |changed: MenuItemId| false;
    let enabling = Seq::new(
        12,
        |i: int| MenuChange::SetEnabled(format_items()[i], enabled(format_items()[i])),
    );
    let undo = seq![MenuChange::SetEnabled(MenuItemId::EditUndo, false)];
    let redo = seq![MenuChange::SetEnabled(MenuItemId::EditRedo, false)];
    assert(disabling_changes() =~= enabling + undo + redo);
    lemma_format_item_position(item);
    lemma_shown_after_enabling(12, enabled, item, before);
    let enabled_state = shown_after(enabling, item, before);
    lemma_shown_after_both(enabling, undo, item, before);
    lemma_shown_after_both(enabling + undo, redo, item, before);
    assert(undo.drop_last() =~= Seq::<MenuChange>::empty());
    assert(redo.drop_last() =~= Seq::<MenuChange>::empty());
    let undone = shown_after(undo, item, enabled_state);
    assert(shown_after(undo.drop_last(), item, enabled_state) == enabled_state);
    assert(shown_after(redo.drop_last(), item, undone) == undone);
}

/// The event that the window is told when the menu item called `id` is
/// chosen, if it is told any.
pub fn handle_menu_event(id: &str) -> (payload: Option<String>)
    ensures
        match payload {
            Some(event) => menu_event(id@) == Some(event@),
            None => menu_event(id@) is None,
        },
{
    if same_text(id, "new_page") {
        Some(String::from_str("menu_new_page"))
    } else if same_text(id, "view_all_pages") {
        Some(String::from_str("menu_view_pages"))
    } else if same_text(id, "search") {
        Some(String::from_str("menu_search"))
    } else if same_text(id, "settings") {
        Some(String::from_str("menu_settings"))
    } else if same_text(id, "focus_tags") {
        Some(String::from_str("menu_focus_tags"))
    } else if same_text(id, "recent_pages") {
        Some(String::from_str("menu_recent_pages"))
    } else if has_prefix(id, "format_") {
        Some(String::from_str(id))
    } else if same_text(id, "edit_undo") || same_text(id, "edit_redo") || same_text(
        id,
        "copy_link_to_page",
    ) {
        Some(String::from_str(id))
    } else if same_text(id, "sync") {
        Some(String::from_str("menu_sync"))
    } else {
        None
    }
}

/// The changes that bring the menu in line with the editor.
pub fn update_editor_state(state: &EditorState, has_selection: bool) -> (changes: Vec<MenuChange>)
    ensures
        changes@ == editor_changes(*state, has_selection),
{
    let mut changes: Vec<MenuChange> = Vec::new();
    let mut index: usize = 0;
    while index < 12
        invariant
            index <= 12,
            changes@ == Seq::new(
                index as nat,
                |i: int|
                    MenuChange::SetEnabled(
                        format_items()[i],
                        enabled_for(format_items()[i], *state, has_selection),
                    ),
            ),
        decreases 12 - index,
    {
        let item = format_item(index);
        changes.push(MenuChange::SetEnabled(item, item.is_enabled(state, has_selection)));
        index = index + 1;
    }
    let ghost enabling = changes@;
    index = 0;
    while index < 11
        invariant
            index <= 11,
            changes@ == enabling + Seq::new(
                index as nat,
                |i: int| MenuChange::SetChecked(format_items()[i], checked_for(format_items()[i], *state)),
            ),
        decreases 11 - index,
    {
        let item = format_item(index);
        changes.push(MenuChange::SetChecked(item, item.is_checked(state)));
        index = index + 1;
    }
    changes.push(MenuChange::SetEnabled(MenuItemId::EditUndo, state.can_undo));
    changes.push(MenuChange::SetEnabled(MenuItemId::EditRedo, state.can_redo));
    assert(changes@ =~= editor_changes(*state, has_selection));
    changes
}

/// The changes that switch the menu off while no editor has the focus.
pub fn disable_editor_menus() -> (changes: Vec<MenuChange>)
    ensures
        changes@ == disabling_changes(),
{
    let mut changes: Vec<MenuChange> = Vec::new();
    let mut index: usize = 0;
    while index < 12
        invariant
            index <= 12,
            changes@ == Seq::new(
                index as nat,
                |i: int| MenuChange::SetEnabled(format_items()[i], false),
            ),
        decreases 12 - index,
    {
        changes.push(MenuChange::SetEnabled(format_item(index), false));
        index = index + 1;
    }
    changes.push(MenuChange::SetEnabled(MenuItemId::EditUndo, false));
    changes.push(MenuChange::SetEnabled(MenuItemId::EditRedo, false));
    assert(changes@ =~= disabling_changes());
    changes
}

} // verus!
