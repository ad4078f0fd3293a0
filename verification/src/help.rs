//! The hotkey help line shown under every page. Choosing the message is the
//! page machine's logic; drawing it is the render collaborator's work.

use vstd::prelude::*;

use crate::state::ActivePage;

verus! {

/// The hotkey help line each page shows.
pub open spec fn spec_help_message(page: ActivePage) -> Seq<char> {
    match page {
        ActivePage::PasswordsList => (
        "a: create new | e: edit entry | d: delete entry | /: search | q/Ctrl+c: quit | p: export secret key"
        )@,
        ActivePage::CreateNewPasswordName => "Ctrl+c: cancel | Enter/Tab: continue"@,
        ActivePage::CreateNewPasswordBody => "Ctrl+c: cancel | Shift+Tab: back | Ctrl+d: save"@,
        ActivePage::EditPasswordName => "Ctrl+c: cancel | Enter/Tab: continue"@,
        ActivePage::EditPasswordBody => "Ctrl+c: cancel | Shift+Tab: back | Ctrl+d: save"@,
        ActivePage::SearchPasswordsList => (
        "a: create new | e: edit entry | d: delete entry | Ctrl+c/Esc: back"
        )@,
        ActivePage::SearchPasswordsListName => "Ctrl+c: cancel | Enter/Tab: continue"@,
        ActivePage::ExportPgpLocation => "Ctrl+c: cancel | Enter: continue"@,
        ActivePage::ExportPgpMasterPassword => "Ctrl+c: cancel | Shift+Tab: back | Enter: export"@,
    }
}

/// The help widget: remembers which page it describes.
pub struct HelpTab {
    pub page: ActivePage,
}

impl HelpTab {
    /// A help line for the given page.
    pub fn new(page: ActivePage) -> (r: Self)
        ensures
            r.page == page,
    {
        HelpTab { page }
    }

    /// The hotkey message for this help line's page.
    pub fn message(&self) -> (r: &'static str)
        ensures
            r@ == spec_help_message(self.page),
    {
        match self.page {
            ActivePage::PasswordsList => "a: create new | e: edit entry | d: delete entry | /: search | q/Ctrl+c: quit | p: export secret key",
            ActivePage::CreateNewPasswordName => "Ctrl+c: cancel | Enter/Tab: continue",
            ActivePage::CreateNewPasswordBody => "Ctrl+c: cancel | Shift+Tab: back | Ctrl+d: save",
            ActivePage::EditPasswordName => "Ctrl+c: cancel | Enter/Tab: continue",
            ActivePage::EditPasswordBody => "Ctrl+c: cancel | Shift+Tab: back | Ctrl+d: save",
            ActivePage::SearchPasswordsList => "a: create new | e: edit entry | d: delete entry | Ctrl+c/Esc: back",
            ActivePage::SearchPasswordsListName => "Ctrl+c: cancel | Enter/Tab: continue",
            ActivePage::ExportPgpLocation => "Ctrl+c: cancel | Enter: continue",
            ActivePage::ExportPgpMasterPassword => "Ctrl+c: cancel | Shift+Tab: back | Enter: export",
        }
    }
}

} // verus!
