//! What a menu or tray item asks for.
//!
//! Every interactive item carries a tag, a short string fixed when the item is
//! built. The tag is decoded once, where the event enters the core, into an
//! [`Action`]. A tag that no item of the shell carries decodes to
//! [`Action::Unknown`], which asks for nothing.

use crate::text::same_text;
use vstd::prelude::*;

verus! {

/// The actions an item of the shell can ask for.
#[derive(Clone, Copy, Debug, PartialEq, Eq, Structural)]
pub enum Action {
    /// Reveal the main window.
    Open,
    /// Hide the main window.
    Hide,
    /// Reserved; does nothing yet.
    Save,
    /// Reserved; does nothing yet.
    SaveAs,
    /// Reserved; does nothing yet.
    Process,
    /// Flip the checkable item.
    CheckMe,
    /// A tag that stands for no action.
    Unknown,
}

impl Action {
    /// The action that the tag `id` stands for.
    pub open spec fn of(id: Seq<char>) -> Action {
        if id == "open"@ {
            Action::Open
        } else if id == "hide"@ {
            Action::Hide
        } else if id == "save"@ {
            Action::Save
        } else if id == "saveas"@ {
            Action::SaveAs
        } else if id == "process"@ {
            Action::Process
        } else if id == "checkme"@ {
            Action::CheckMe
        } else {
            Action::Unknown
        }
    }

    /// The tag of this action; `Unknown` has none.
    pub open spec fn tag(self) -> Option<Seq<char>> {
        match self {
            Action::Open => Some("open"@),
            Action::Hide => Some("hide"@),
            Action::Save => Some("save"@),
            Action::SaveAs => Some("saveas"@),
            Action::Process => Some("process"@),
            Action::CheckMe => Some("checkme"@),
            Action::Unknown => None,
        }
    }

    /// Decodes a tag. Never fails: a tag outside the table is `Unknown`.
    pub fn decode(id: &str) -> (action: Action)
        ensures
            action == Action::of(id@),
    {
        if same_text(id, "open") {
            Action::Open
        } else if same_text(id, "hide") {
            Action::Hide
        } else if same_text(id, "save") {
            Action::Save
        } else if same_text(id, "saveas") {
            Action::SaveAs
        } else if same_text(id, "process") {
            Action::Process
        } else if same_text(id, "checkme") {
            Action::CheckMe
        } else {
            Action::Unknown
        }
    }

    /// The tag to build an item with, for every action but `Unknown`.
    pub fn identifier(self) -> (id: Option<&'static str>)
        ensures
            (match id {
                Some(text) => self.tag() == Some(text@),
                None => self == Action::Unknown,
            }),
    {
        match self {
            Action::Open => Some("open"),
            Action::Hide => Some("hide"),
            Action::Save => Some("save"),
            Action::SaveAs => Some("saveas"),
            Action::Process => Some("process"),
            Action::CheckMe => Some("checkme"),
            Action::Unknown => None,
        }
    }
}

/// The six tags are six different strings.
pub proof fn lemma_tags_differ()
    ensures
        "open"@ != "hide"@,
        "open"@ != "save"@,
        "open"@ != "saveas"@,
        "open"@ != "process"@,
        "open"@ != "checkme"@,
        "hide"@ != "save"@,
        "hide"@ != "saveas"@,
        "hide"@ != "process"@,
        "hide"@ != "checkme"@,
        "save"@ != "saveas"@,
        "save"@ != "process"@,
        "save"@ != "checkme"@,
        "saveas"@ != "process"@,
        "saveas"@ != "checkme"@,
        "process"@ != "checkme"@,
{
    reveal_strlit("open");
    reveal_strlit("hide");
    reveal_strlit("save");
    reveal_strlit("saveas");
    reveal_strlit("process");
    reveal_strlit("checkme");
    assert("save"@.len() != "saveas"@.len());
    assert("open"@[0] != "hide"@[0]);
    assert("open"@[0] != "save"@[0]);
    assert("hide"@[0] != "save"@[0]);
    assert("process"@[0] != "checkme"@[0]);
}

/// Decoding the tag of a known action gives that action back, so no two
/// actions share a tag.
pub proof fn law_decode_inverts_tag(action: Action)
    requires
        action != Action::Unknown,
    ensures
        action.tag() is Some,
        Action::of(action.tag().unwrap()) == action,
{
    lemma_tags_differ();
}

/// A tag decodes to a known action exactly when it is that action's tag.
pub proof fn law_known_iff_tagged(id: Seq<char>)
    ensures
        Action::of(id) != Action::Unknown <==> Action::of(id).tag() == Some(id),
{
    lemma_tags_differ();
}

} // verus!
