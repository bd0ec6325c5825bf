//! The menus of the shell, as data, and the rule that makes a menu buildable.
//!
//! The program around the core turns these descriptions into widgets. The
//! core fixes what the menus hold, because the tags in them are what the
//! router later decodes, and checks the one thing that would make dispatch
//! ambiguous: two interactive items of one menu with the same tag.

use crate::action::{lemma_tags_differ, Action};
use crate::text::same_text;
use vstd::prelude::*;

verus! {

/// An item that the toolkit provides complete, behaviour included.
#[derive(Clone, Copy, Debug, PartialEq, Eq)]
pub enum Predefined {
    Quit,
    Undo,
    Redo,
    Cut,
    Copy,
    Paste,
    SelectAll,
}

/// One line of a menu.
#[derive(Clone, Copy, Debug, PartialEq, Eq)]
pub enum MenuEntry {
    /// An item that sends its tag when chosen.
    Item { id: &'static str, title: &'static str, enabled: bool, accelerator: Option<&'static str> },
    /// An item with a mark, which sends its tag when chosen.
    Check {
        id: &'static str,
        title: &'static str,
        enabled: bool,
        checked: bool,
        accelerator: Option<&'static str>,
    },
    /// A dividing line.
    Separator,
    /// An item of the toolkit's own.
    Predefined(Predefined),
}

impl MenuEntry {
    /// The tag that the entry sends when chosen, if it sends one.
    pub open spec fn tag(self) -> Option<Seq<char>> {
        match self {
            MenuEntry::Item { id, .. } => Some(id@),
            MenuEntry::Check { id, .. } => Some(id@),
            _ => None,
        }
    }

    /// The tag that the entry sends when chosen, if it sends one.
    pub fn id(&self) -> (id: Option<&'static str>)
        ensures
            (match id {
                Some(text) => self.tag() == Some(text@),
                None => self.tag() is None,
            }),
    {
        match self {
            MenuEntry::Item { id, .. } => Some(*id),
            MenuEntry::Check { id, .. } => Some(*id),
            _ => None,
        }
    }
}

/// A titled list of entries: one pull-down of the menu bar, or the menu of the
/// tray icon.
#[derive(Clone, Debug, PartialEq, Eq)]
pub struct Submenu {
    pub id: &'static str,
    pub title: &'static str,
    pub entries: Vec<MenuEntry>,
}

/// Entries `i` and `j`, `i` before `j`, send the same tag.
pub open spec fn clash(entries: Seq<MenuEntry>, i: int, j: int) -> bool {
    &&& 0 <= i < j < entries.len()
    &&& entries[i].tag() is Some
    &&& entries[i].tag() == entries[j].tag()
}

/// No two entries send the same tag.
pub open spec fn tags_unique(entries: Seq<MenuEntry>) -> bool {
    forall|i: int, j: int| !clash(entries, i, j)
}

/// Why a menu cannot be built. It means a mistake in the menu's definition.
#[derive(Clone, Copy, Debug, PartialEq, Eq, Structural)]
pub enum MenuBuildError {
    /// The entries at `first` and `second` send the same tag.
    DuplicateTag { first: usize, second: usize },
}

/// Whether entry `i` sends the same tag as the later entry `j`.
fn same_tag(entries: &Vec<MenuEntry>, i: usize, j: usize) -> (same: bool)
    requires
        i < j < entries@.len(),
    ensures
        same == clash(entries@, i as int, j as int),
{
    match (entries[i].id(), entries[j].id()) {
        (Some(a), Some(b)) => same_text(a, b),
        _ => false,
    }
}

/// Checks that a menu can be built: no two of its entries send the same tag.
///
/// On failure the error names the earliest entry that repeats a tag, and the
/// first entry that it repeats.
pub fn validate(menu: &Submenu) -> (checked: Result<(), MenuBuildError>)
    ensures
        (match checked {
            Ok(_) => tags_unique(menu.entries@),
            Err(MenuBuildError::DuplicateTag { first, second }) => {
                &&& clash(menu.entries@, first as int, second as int)
                &&& forall|i: int, j: int|
                    clash(menu.entries@, i, j) ==> second < j || (second == j && first <= i)
            },
        }),
{
    let n = menu.entries.len();
    let mut j: usize = 0;
    while j < n
        invariant
            n == menu.entries@.len(),
            j <= n,
            forall|a: int, b: int| b < j ==> !clash(menu.entries@, a, b),
        decreases n - j,
    {
        let mut i: usize = 0;
        while i < j
            invariant
                n == menu.entries@.len(),
                i <= j < n,
                forall|a: int, b: int| b < j ==> !clash(menu.entries@, a, b),
                forall|a: int| a < i ==> !clash(menu.entries@, a, j as int),
            decreases j - i,
        {
            if same_tag(&menu.entries, i, j) {
                return Err(MenuBuildError::DuplicateTag { first: i, second: j });
            }
            i += 1;
        }
        j += 1;
    }
    Ok(())
}

/// The name of the application, used for the tray icon.
pub const APP_NAME: &'static str = "chatapp";

/// The entries of the File menu.
pub open spec fn file_entries() -> Seq<MenuEntry> {
    seq![
        MenuEntry::Item { id: "open", title: "Open", enabled: true, accelerator: Some("CmdOrCtrl+O") },
        MenuEntry::Item { id: "save", title: "Save", enabled: true, accelerator: Some("CmdOrCtrl+S") },
        MenuEntry::Item {
            id: "saveas",
            title: "Save As",
            enabled: true,
            accelerator: Some("CmdOrCtrl+Shift+S"),
        },
        MenuEntry::Separator,
        MenuEntry::Predefined(Predefined::Quit),
    ]
}

/// The entries of the Edit menu.
pub open spec fn edit_entries() -> Seq<MenuEntry> {
    seq![
        MenuEntry::Item {
            id: "process",
            title: "Process",
            enabled: true,
            accelerator: Some("CmdOrCtrl+P"),
        },
        MenuEntry::Separator,
        MenuEntry::Predefined(Predefined::Undo),
        MenuEntry::Predefined(Predefined::Redo),
        MenuEntry::Separator,
        MenuEntry::Predefined(Predefined::Cut),
        MenuEntry::Predefined(Predefined::Copy),
        MenuEntry::Predefined(Predefined::Paste),
        MenuEntry::Separator,
        MenuEntry::Predefined(Predefined::SelectAll),
        MenuEntry::Check {
            id: "checkme",
            title: "Check Me",
            enabled: true,
            checked: true,
            accelerator: None,
        },
    ]
}

/// The entries of the tray icon's menu.
pub open spec fn tray_entries() -> Seq<MenuEntry> {
    seq![
        MenuEntry::Item { id: "open", title: "Open", enabled: true, accelerator: None },
        MenuEntry::Item { id: "hide", title: "Hide", enabled: true, accelerator: None },
        MenuEntry::Separator,
        MenuEntry::Predefined(Predefined::Quit),
    ]
}

/// The File menu of the menu bar.
pub fn file_menu() -> (menu: Submenu)
    ensures
        menu.id@ == "file"@,
        menu.title@ == "File"@,
        menu.entries@ == file_entries(),
{
    let mut entries: Vec<MenuEntry> = Vec::new();
    entries.push(
        MenuEntry::Item { id: "open", title: "Open", enabled: true, accelerator: Some("CmdOrCtrl+O") },
    );
    entries.push(
        MenuEntry::Item { id: "save", title: "Save", enabled: true, accelerator: Some("CmdOrCtrl+S") },
    );
    entries.push(
        MenuEntry::Item {
            id: "saveas",
            title: "Save As",
            enabled: true,
            accelerator: Some("CmdOrCtrl+Shift+S"),
        },
    );
    entries.push(MenuEntry::Separator);
    entries.push(MenuEntry::Predefined(Predefined::Quit));
    Submenu { id: "file", title: "File", entries }
}

/// The Edit menu of the menu bar.
pub fn edit_menu() -> (menu: Submenu)
    ensures
        menu.id@ == "edit"@,
        menu.title@ == "Edit"@,
        menu.entries@ == edit_entries(),
{
    let mut entries: Vec<MenuEntry> = Vec::new();
    entries.push(
        MenuEntry::Item {
            id: "process",
            title: "Process",
            enabled: true,
            accelerator: Some("CmdOrCtrl+P"),
        },
    );
    entries.push(MenuEntry::Separator);
    entries.push(MenuEntry::Predefined(Predefined::Undo));
    entries.push(MenuEntry::Predefined(Predefined::Redo));
    entries.push(MenuEntry::Separator);
    entries.push(MenuEntry::Predefined(Predefined::Cut));
    entries.push(MenuEntry::Predefined(Predefined::Copy));
    entries.push(MenuEntry::Predefined(Predefined::Paste));
    entries.push(MenuEntry::Separator);
    entries.push(MenuEntry::Predefined(Predefined::SelectAll));
    entries.push(
        MenuEntry::Check {
            id: "checkme",
            title: "Check Me",
            enabled: true,
            checked: true,
            accelerator: None,
        },
    );
    Submenu { id: "edit", title: "Edit", entries }
}

/// The menu of the tray icon.
pub fn tray_menu() -> (menu: Submenu)
    ensures
        menu.id@ == "tray"@,
        menu.title@ == "Tray"@,
        menu.entries@ == tray_entries(),
{
    let mut entries: Vec<MenuEntry> = Vec::new();
    entries.push(MenuEntry::Item { id: "open", title: "Open", enabled: true, accelerator: None });
    entries.push(MenuEntry::Item { id: "hide", title: "Hide", enabled: true, accelerator: None });
    entries.push(MenuEntry::Separator);
    entries.push(MenuEntry::Predefined(Predefined::Quit));
    Submenu { id: "tray", title: "Tray", entries }
}

/// The menu bar of the application: File, then Edit.
pub fn menu_bar() -> (bar: Vec<Submenu>)
    ensures
        bar@.len() == 2,
        bar@[0].id@ == "file"@,
        bar@[0].title@ == "File"@,
        bar@[0].entries@ == file_entries(),
        bar@[1].id@ == "edit"@,
        bar@[1].title@ == "Edit"@,
        bar@[1].entries@ == edit_entries(),
{
    let mut bar: Vec<Submenu> = Vec::new();
    bar.push(file_menu());
    bar.push(edit_menu());
    bar
}

/// The tray icon: what identifies it, what it shows, and the menu it opens.
#[derive(Clone, Debug, PartialEq, Eq)]
pub struct TrayLayout {
    pub id: String,
    pub tooltip: &'static str,
    pub menu: Submenu,
    /// Whether a left click on the icon opens the menu.
    pub menu_on_left_click: bool,
}

/// Why the tray icon cannot be built. It means a mistake in its definition.
#[derive(Clone, Copy, Debug, PartialEq, Eq, Structural)]
pub enum TrayBuildError {
    /// The tray's menu cannot be built.
    Menu(MenuBuildError),
}

/// The tray icon of the shell. Its identifier is the application's name
/// followed by `-tray`, and a left click opens its menu.
pub fn tray_layout() -> (tray: TrayLayout)
    ensures
        tray.id@ == APP_NAME@ + "-tray"@,
        tray.tooltip@ == APP_NAME@,
        tray.menu.id@ == "tray"@,
        tray.menu.title@ == "Tray"@,
        tray.menu.entries@ == tray_entries(),
        tray.menu_on_left_click,
{
    TrayLayout {
        id: String::from_str(APP_NAME).concat("-tray"),
        tooltip: APP_NAME,
        menu: tray_menu(),
        menu_on_left_click: true,
    }
}

/// Checks that a tray icon can be built: its menu must pass [`validate`], and
/// a menu that does not is reported with the error that `validate` gives.
pub fn validate_tray(tray: &TrayLayout) -> (checked: Result<(), TrayBuildError>)
    ensures
        (match checked {
            Ok(_) => tags_unique(tray.menu.entries@),
            Err(TrayBuildError::Menu(MenuBuildError::DuplicateTag { first, second })) => {
                &&& clash(tray.menu.entries@, first as int, second as int)
                &&& forall|i: int, j: int|
                    clash(tray.menu.entries@, i, j) ==> second < j || (second == j && first <= i)
            },
        }),
{
    match validate(&tray.menu) {
        Ok(_) => Ok(()),
        Err(e) => Err(TrayBuildError::Menu(e)),
    }
}

/// The tag of each interactive entry of the shell's three menus, by position.
proof fn lemma_shell_tags()
    ensures
        file_entries().len() == 5,
        file_entries()[0].tag() == Some("open"@),
        file_entries()[1].tag() == Some("save"@),
        file_entries()[2].tag() == Some("saveas"@),
        file_entries()[3].tag() is None,
        file_entries()[4].tag() is None,
        edit_entries().len() == 11,
        edit_entries()[0].tag() == Some("process"@),
        forall|i: int| 1 <= i < 10 ==> (#[trigger] edit_entries()[i]).tag() is None,
        edit_entries()[10].tag() == Some("checkme"@),
        tray_entries().len() == 4,
        tray_entries()[0].tag() == Some("open"@),
        tray_entries()[1].tag() == Some("hide"@),
        tray_entries()[2].tag() is None,
        tray_entries()[3].tag() is None,
{
}

/// The shell's own menus can be built: within each, no tag is used twice.
pub proof fn law_shell_menus_are_buildable()
    ensures
        tags_unique(file_entries()),
        tags_unique(edit_entries()),
        tags_unique(tray_entries()),
{
    lemma_tags_differ();
    lemma_shell_tags();
}

/// Every interactive entry of the shell's own menus sends a tag that the
/// router knows: none of them decodes to `Unknown`.
pub proof fn law_shell_tags_are_known(i: int)
    ensures
        0 <= i < file_entries().len() && file_entries()[i].tag() is Some ==> Action::of(
            file_entries()[i].tag().unwrap(),
        ) != Action::Unknown,
        0 <= i < edit_entries().len() && edit_entries()[i].tag() is Some ==> Action::of(
            edit_entries()[i].tag().unwrap(),
        ) != Action::Unknown,
        0 <= i < tray_entries().len() && tray_entries()[i].tag() is Some ==> Action::of(
            tray_entries()[i].tag().unwrap(),
        ) != Action::Unknown,
{
    lemma_tags_differ();
    lemma_shell_tags();
}

} // verus!
