//! The page state of the terminal interface: which page is active, the secret
//! listing, the per-page transient buffers, and the selection invariants.

use vstd::prelude::*;

use crate::errors::VaultError;
use crate::password::{names_of, Password};
use crate::text::opt_view;

verus! {

/// The pages of the interface; exactly one is active at a time.
#[derive(Debug, Clone, Copy, PartialEq, Eq, Structural)]
pub enum ActivePage {
    PasswordsList,
    CreateNewPasswordName,
    CreateNewPasswordBody,
    EditPasswordName,
    EditPasswordBody,
    SearchPasswordsList,
    SearchPasswordsListName,
    ExportPgpLocation,
    ExportPgpMasterPassword,
}

/// The whole transient state of the interface.
///
/// `passwords_list` is the full listing with its selection
/// `active_password_record`; `passwords_list_search` is the filtered listing
/// used by the search pages, with its own selection and term. The name, body,
/// export-location and export-passphrase buffers belong to the create/edit and
/// export flows. `editing_origin` remembers, during an edit flow, the name the
/// record had when editing began, so that a rename removes the old record.
/// `last_error` is the visible error flag: a failed vault or storage operation
/// is reported there instead of stopping the event loop.
#[derive(Clone)]
pub struct State {
    pub active_page: ActivePage,
    pub passwords_list: Vec<Password>,
    pub active_password_record: usize,

    pub passwords_list_search_term: Option<String>,
    pub passwords_list_search: Vec<Password>,
    pub active_password_record_search: usize,

    pub password_name_input: Option<String>,
    pub password_input: Option<String>,

    pub export_pgp_secret_location: Option<String>,
    pub export_pgp_secret_master_password: Option<String>,
    pub export_pgp_secret_location_error: bool,

    pub editing_origin: Option<String>,
    pub last_error: Option<VaultError>,
}

/// The mathematical content of a [`State`]: record names as character
/// sequences, selections as integers, buffers as optional character
/// sequences. All contracts of the page state machine are phrased over this
/// view.
#[verifier::ext_equal]
pub struct StateView {
    pub page: ActivePage,
    pub list: Seq<Seq<char>>,
    pub sel: int,

    pub term: Option<Seq<char>>,
    pub slist: Seq<Seq<char>>,
    pub ssel: int,

    pub name_input: Option<Seq<char>>,
    pub body_input: Option<Seq<char>>,

    pub export_loc: Option<Seq<char>>,
    pub export_pass: Option<Seq<char>>,
    pub export_loc_error: bool,

    pub editing_origin: Option<Seq<char>>,
    pub last_error: Option<VaultError>,
}

impl View for State {
    type V = StateView;

    open spec fn view(&self) -> StateView {
        StateView {
            page: self.active_page,
            list: names_of(self.passwords_list@),
            sel: self.active_password_record as int,
            term: opt_view(self.passwords_list_search_term),
            slist: names_of(self.passwords_list_search@),
            ssel: self.active_password_record_search as int,
            name_input: opt_view(self.password_name_input),
            body_input: opt_view(self.password_input),
            export_loc: opt_view(self.export_pgp_secret_location),
            export_pass: opt_view(self.export_pgp_secret_master_password),
            export_loc_error: self.export_pgp_secret_location_error,
            editing_origin: opt_view(self.editing_origin),
            last_error: self.last_error,
        }
    }
}

/// A selection is in bounds when it is `0` on an empty list and a valid index
/// otherwise: `0 <= sel <= max(0, len - 1)`.
pub open spec fn sel_in_bounds(sel: int, len: int) -> bool {
    if len == 0 {
        sel == 0
    } else {
        0 <= sel < len
    }
}

/// Moving the selection down: a no-op at the lower boundary (and on an empty
/// list), one step down otherwise. Never wraps around.
pub open spec fn nav_down(sel: int, len: int) -> int {
    if len == 0 {
        sel
    } else if sel >= len - 1 {
        sel
    } else {
        sel + 1
    }
}

/// Moving the selection up: a no-op at the top, one step up otherwise.
pub open spec fn nav_up(sel: int) -> int {
    if sel == 0 {
        0
    } else {
        sel - 1
    }
}

/// Clamping a selection to a list of length `len`, after a deletion or a
/// filter shrank the list.
pub open spec fn clamp_sel(sel: int, len: int) -> int {
    if len == 0 {
        0
    } else if sel > len - 1 {
        len - 1
    } else {
        sel
    }
}

impl StateView {
    /// Both selections lie within their lists' bounds.
    pub open spec fn wf(self) -> bool {
        &&& sel_in_bounds(self.sel, self.list.len() as int)
        &&& sel_in_bounds(self.ssel, self.slist.len() as int)
    }
}

impl State {
    /// Both selections lie within their lists' bounds.
    pub open spec fn wf(self) -> bool {
        self@.wf()
    }

    /// The fresh state: the listing page, empty lists, selections at zero,
    /// every buffer absent and no error reported.
    pub open spec fn is_initial(self) -> bool {
        &&& self.active_page == ActivePage::PasswordsList
        &&& self.passwords_list@ == Seq::<Password>::empty()
        &&& self.active_password_record == 0
        &&& self.passwords_list_search_term is None
        &&& self.passwords_list_search@ == Seq::<Password>::empty()
        &&& self.active_password_record_search == 0
        &&& self.password_name_input is None
        &&& self.password_input is None
        &&& self.export_pgp_secret_location is None
        &&& self.export_pgp_secret_master_password is None
        &&& self.export_pgp_secret_location_error == false
        &&& self.editing_origin is None
        &&& self.last_error is None
    }
}

impl Default for State {
    /// The state the interface starts in.
    fn default() -> (r: Self)
        ensures
            r.is_initial(),
            r.wf(),
    {
        State {
            active_page: ActivePage::PasswordsList,
            passwords_list: Vec::new(),
            active_password_record: 0,
            passwords_list_search_term: None,
            passwords_list_search: Vec::new(),
            active_password_record_search: 0,
            password_name_input: None,
            password_input: None,
            export_pgp_secret_location: None,
            export_pgp_secret_master_password: None,
            export_pgp_secret_location_error: false,
            editing_origin: None,
            last_error: None,
        }
    }
}

/// Law: deleting the last item of a one-element list clamps the selection to
/// zero: any selection clamped to an empty list is zero, with no underflow.
pub proof fn lemma_clamp_on_empty_list(sel: int)
    ensures
        clamp_sel(sel, 0) == 0,
{
}

/// The selection after `k` consecutive `Down` events, starting from `sel` on a
/// list of length `len`.
pub open spec fn iter_nav_down(sel: int, len: int, k: nat) -> int
    decreases k,
{
    if k == 0 {
        sel
    } else {
        nav_down(iter_nav_down(sel, len, (k - 1) as nat), len)
    }
}

/// From selection 0, each of the first `k <= len - 1` Down events advances the
/// selection by one.
pub proof fn lemma_down_advances(len: int, k: nat)
    requires
        len >= 1,
        k <= len - 1,
    ensures
        iter_nav_down(0, len, k) == k,
    decreases k,
{
    if k > 0 {
        lemma_down_advances(len, (k - 1) as nat);
    }
}

/// Law: starting from selection 0 on a list of length `len >= 1`, `len - 1`
/// Down events move the selection to `len - 1`, and any further Down events
/// leave it there.
pub proof fn lemma_down_saturates(len: int, k: nat)
    requires
        len >= 1,
        k >= len - 1,
    ensures
        iter_nav_down(0, len, k) == len - 1,
    decreases k,
{
    if k == len - 1 {
        lemma_down_advances(len, k);
    } else {
        lemma_down_saturates(len, (k - 1) as nat);
    }
}

} // verus!
