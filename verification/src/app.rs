//! The page state machine: a single-threaded reducer that consumes one event
//! at a time and performs every vault and storage side effect before the next
//! event is accepted.
//!
//! [`App::handle_input`] is the transition function over [`StateView`]s: its
//! pure transitions are pinned exactly by [`pure_step`], and each effectful
//! transition (decrypt for editing, delete, clipboard copy, save, export) by
//! its own clause of [`handle_input_post`]. [`App::handle_event`] wraps it for
//! the event loop: ticks refresh the listing, terminate keys shut down, and a
//! failed operation is reported in the state's error flag — never by stopping
//! the loop.

use vstd::prelude::*;

use crate::errors::VaultError;
use crate::events::{is_terminate_spec, Event, KeyCode};
use crate::exporter::export_private_key;
use crate::password::{names_of, Password};
use crate::signer::{encryptable, spec_decrypt, spec_encrypt_err, valid_armored_key, Signer};
use crate::state::{clamp_sel, nav_down, nav_up, sel_in_bounds, ActivePage, State, StateView};
use crate::store::{Clipboard, ExportSink, SecretStore};
use crate::text::{
    buf_pop, buf_push, contains_substr, filtered_names, lemma_filtered_names_step, lower_of,
    matches_search, opt_or_empty, pop_from_buf, push_to_buf, to_lowercase,
};

verus! {

/// What the event loop should do after an event was handled.
#[derive(Debug, Clone, Copy, PartialEq, Eq, Structural)]
pub enum Directive {
    /// Redraw from the current state and keep going.
    Render,
    /// Stop the loop (terminate requested or delivered).
    Shutdown,
}

/// The application core: the page state, the key ring, and the collaborators
/// that carry out storage, clipboard and export-file side effects.
pub struct App<S: SecretStore, C: Clipboard, X: ExportSink> {
    pub state: State,
    pub signer: Signer,
    pub store: S,
    pub clipboard: C,
    pub export_sink: X,
    pub export_pgp_secret_file_path: String,
    pub should_refresh_passwords: bool,
}

impl<S: SecretStore, C: Clipboard, X: ExportSink> App<S, C, X> {
    /// A fresh application over the given key ring and collaborators, on the
    /// listing page with an empty, stale listing (the first tick reads it).
    pub fn new(
        signer: Signer,
        store: S,
        clipboard: C,
        export_sink: X,
        export_pgp_secret_file_path: String,
    ) -> (r: Self)
        ensures
            r.state.is_initial(),
            r.state.wf(),
            r.signer == signer,
            r.export_pgp_secret_file_path@ == export_pgp_secret_file_path@,
            r.should_refresh_passwords,
    {
        App {
            state: State::default(),
            signer,
            store,
            clipboard,
            export_sink,
            export_pgp_secret_file_path,
            should_refresh_passwords: true,
        }
    }

    /// Encrypt `text` under the master key and store it under `name`. The
    /// page state is untouched; an unencryptable body fails exactly as
    /// [`spec_encrypt_err`] says, and on an encryptable one the only
    /// possible failure is the store's, surfaced as `Storage`.
    fn save_password(&mut self, name: String, text: String) -> (r: Result<(), VaultError>)
        ensures
            final(self).state == old(self).state,
            final(self).signer == old(self).signer,
            final(self).export_pgp_secret_file_path == old(self).export_pgp_secret_file_path,
            final(self).should_refresh_passwords == old(self).should_refresh_passwords,
            r is Ok ==> valid_armored_key(old(self).signer.key_view()) && encryptable(
                old(self).signer.key_view(),
                vstd::utf8::encode_utf8(text@),
            ),
            !(valid_armored_key(old(self).signer.key_view()) && encryptable(
                old(self).signer.key_view(),
                vstd::utf8::encode_utf8(text@),
            )) ==> r == Err::<(), VaultError>(
                spec_encrypt_err(old(self).signer, vstd::utf8::encode_utf8(text@)),
            ),
            r matches Err(e) ==> e == spec_encrypt_err(
                old(self).signer,
                vstd::utf8::encode_utf8(text@),
            ) || e == VaultError::Storage,
            r matches Err(e) ==> (valid_armored_key(old(self).signer.key_view()) && encryptable(
                old(self).signer.key_view(),
                vstd::utf8::encode_utf8(text@),
            ) ==> e == VaultError::Storage),
    {
        let encrypted = match self.signer.encrypt(text.as_str().as_bytes()) {
            Ok(c) => c,
            Err(e) => {
                return Err(e);
            },
        };
        match self.store.write(name.as_str(), encrypted.as_slice()) {
            Ok(()) => Ok(()),
            Err(_) => Err(VaultError::Storage),
        }
    }

    /// Delete the record selected in the full listing: remove its blob from
    /// the store, drop it from the listing, and clamp the selection. A store
    /// failure leaves the state untouched; an empty listing is refused
    /// defensively.
    fn delete_selected_password(&mut self) -> (r: Result<(), VaultError>)
        requires
            old(self).state@.wf(),
        ensures
            final(self).state@.wf(),
            final(self).signer == old(self).signer,
            final(self).export_pgp_secret_file_path == old(self).export_pgp_secret_file_path,
            final(self).should_refresh_passwords == old(self).should_refresh_passwords,
            match r {
                Ok(()) => old(self).state@.list.len() > 0 && final(self).state@ == (StateView {
                    list: old(self).state@.list.remove(old(self).state@.sel),
                    sel: clamp_sel(old(self).state@.sel, old(self).state@.list.len() - 1),
                    ..old(self).state@
                }),
                Err(e) => {
                    &&& final(self).state == old(self).state
                    &&& (old(self).state@.list.len() == 0 <==> e == VaultError::InvalidSelection)
                    &&& (old(self).state@.list.len() > 0 ==> e == VaultError::Storage)
                },
            },
    {
        let sel = self.state.active_password_record;
        if sel >= self.state.passwords_list.len() {
            return Err(VaultError::InvalidSelection);
        }
        match self.store.delete(self.state.passwords_list[sel].name.as_str()) {
            Ok(()) => {
                proof {
                    crate::password::lemma_names_of_remove(
                        self.state.passwords_list@,
                        sel as int,
                    );
                }
                let _ = self.state.passwords_list.remove(sel);
                let len = self.state.passwords_list.len();
                if len == 0 {
                    self.state.active_password_record = 0;
                } else if sel > len - 1 {
                    self.state.active_password_record = len - 1;
                }
                Ok(())
            },
            Err(_) => Err(VaultError::Storage),
        }
    }

    /// Delete the record selected in the filtered (search) listing: remove
    /// its blob from the store, drop it from the filtered listing, and clamp
    /// that listing's selection. The full listing is left to the next
    /// refresh.
    fn delete_selected_password_search(&mut self) -> (r: Result<(), VaultError>)
        requires
            old(self).state@.wf(),
        ensures
            final(self).state@.wf(),
            final(self).signer == old(self).signer,
            final(self).export_pgp_secret_file_path == old(self).export_pgp_secret_file_path,
            final(self).should_refresh_passwords == old(self).should_refresh_passwords,
            match r {
                Ok(()) => old(self).state@.slist.len() > 0 && final(self).state@ == (StateView {
                    slist: old(self).state@.slist.remove(old(self).state@.ssel),
                    ssel: clamp_sel(old(self).state@.ssel, old(self).state@.slist.len() - 1),
                    ..old(self).state@
                }),
                Err(e) => {
                    &&& final(self).state == old(self).state
                    &&& (old(self).state@.slist.len() == 0 <==> e == VaultError::InvalidSelection)
                    &&& (old(self).state@.slist.len() > 0 ==> e == VaultError::Storage)
                },
            },
    {
        let sel = self.state.active_password_record_search;
        if sel >= self.state.passwords_list_search.len() {
            return Err(VaultError::InvalidSelection);
        }
        match self.store.delete(self.state.passwords_list_search[sel].name.as_str()) {
            Ok(()) => {
                proof {
                    crate::password::lemma_names_of_remove(
                        self.state.passwords_list_search@,
                        sel as int,
                    );
                }
                let _ = self.state.passwords_list_search.remove(sel);
                let len = self.state.passwords_list_search.len();
                if len == 0 {
                    self.state.active_password_record_search = 0;
                } else if sel > len - 1 {
                    self.state.active_password_record_search = len - 1;
                }
                Ok(())
            },
            Err(_) => Err(VaultError::Storage),
        }
    }

    /// Read and decrypt the record selected in the full listing, and fill the
    /// name, body and edit-origin buffers from it. On any failure (storage,
    /// wrong passphrase, corrupt ciphertext, non-UTF-8 plaintext) the state
    /// is untouched and the transition into the edit flow does not happen.
    fn fill_selected_password_for_editing(&mut self) -> (r: Result<(), VaultError>)
        requires
            old(self).state@.wf(),
        ensures
            final(self).state@.wf(),
            final(self).signer == old(self).signer,
            final(self).export_pgp_secret_file_path == old(self).export_pgp_secret_file_path,
            final(self).should_refresh_passwords == old(self).should_refresh_passwords,
            match r {
                Ok(()) => old(self).state@.list.len() > 0 && exists|data: Seq<u8>, p: Seq<u8>|
                    {
                        &&& #[trigger] spec_decrypt(old(self).signer, data) == Ok::<
                            Seq<u8>,
                            VaultError,
                        >(p)
                        &&& vstd::utf8::valid_utf8(p)
                        &&& final(self).state@ == (StateView {
                            name_input: Some(old(self).state@.list[old(self).state@.sel]),
                            body_input: Some(#[trigger] vstd::utf8::decode_utf8(p)),
                            editing_origin: Some(old(self).state@.list[old(self).state@.sel]),
                            ..old(self).state@
                        })
                    },
                Err(e) => {
                    &&& final(self).state == old(self).state
                    &&& (old(self).state@.list.len() == 0 <==> e == VaultError::InvalidSelection)
                },
            },
    {
        let sel = self.state.active_password_record;
        if sel >= self.state.passwords_list.len() {
            return Err(VaultError::InvalidSelection);
        }
        let bytes = match self.store.read(self.state.passwords_list[sel].name.as_str()) {
            Ok(b) => b,
            Err(_) => {
                return Err(VaultError::Storage);
            },
        };
        let ghost data = bytes@;
        let plain = match self.signer.decrypt(bytes.as_slice()) {
            Ok(p) => p,
            Err(e) => {
                return Err(e);
            },
        };
        let ghost pseq = plain@;
        let text = match crate::text::string_from_utf8(plain) {
            Some(t) => t,
            None => {
                return Err(VaultError::Decrypt);
            },
        };
        let name = self.state.passwords_list[sel].name.clone();
        let origin = name.clone();
        self.state.password_name_input = Some(name);
        self.state.password_input = Some(text);
        self.state.editing_origin = Some(origin);
        proof {
            assert(spec_decrypt(old(self).signer, data) == Ok::<Seq<u8>, VaultError>(pseq)
                && vstd::utf8::valid_utf8(pseq) && final(self).state@ == (StateView {
                name_input: Some(old(self).state@.list[old(self).state@.sel]),
                body_input: Some(vstd::utf8::decode_utf8(pseq)),
                editing_origin: Some(old(self).state@.list[old(self).state@.sel]),
                ..old(self).state@
            }));
        }
        Ok(())
    }

    /// Read and decrypt the record selected in the filtered (search) listing,
    /// and fill the name, body and edit-origin buffers from it.
    fn fill_selected_password_for_editing_search(&mut self) -> (r: Result<(), VaultError>)
        requires
            old(self).state@.wf(),
        ensures
            final(self).state@.wf(),
            final(self).signer == old(self).signer,
            final(self).export_pgp_secret_file_path == old(self).export_pgp_secret_file_path,
            final(self).should_refresh_passwords == old(self).should_refresh_passwords,
            match r {
                Ok(()) => old(self).state@.slist.len() > 0 && exists|data: Seq<u8>, p: Seq<u8>|
                    {
                        &&& #[trigger] spec_decrypt(old(self).signer, data) == Ok::<
                            Seq<u8>,
                            VaultError,
                        >(p)
                        &&& vstd::utf8::valid_utf8(p)
                        &&& final(self).state@ == (StateView {
                            name_input: Some(old(self).state@.slist[old(self).state@.ssel]),
                            body_input: Some(#[trigger] vstd::utf8::decode_utf8(p)),
                            editing_origin: Some(old(self).state@.slist[old(self).state@.ssel]),
                            ..old(self).state@
                        })
                    },
                Err(e) => {
                    &&& final(self).state == old(self).state
                    &&& (old(self).state@.slist.len() == 0 <==> e == VaultError::InvalidSelection)
                },
            },
    {
        let sel = self.state.active_password_record_search;
        if sel >= self.state.passwords_list_search.len() {
            return Err(VaultError::InvalidSelection);
        }
        let bytes = match self.store.read(self.state.passwords_list_search[sel].name.as_str()) {
            Ok(b) => b,
            Err(_) => {
                return Err(VaultError::Storage);
            },
        };
        let ghost data = bytes@;
        let plain = match self.signer.decrypt(bytes.as_slice()) {
            Ok(p) => p,
            Err(e) => {
                return Err(e);
            },
        };
        let ghost pseq = plain@;
        let text = match crate::text::string_from_utf8(plain) {
            Some(t) => t,
            None => {
                return Err(VaultError::Decrypt);
            },
        };
        let name = self.state.passwords_list_search[sel].name.clone();
        let origin = name.clone();
        self.state.password_name_input = Some(name);
        self.state.password_input = Some(text);
        self.state.editing_origin = Some(origin);
        proof {
            assert(spec_decrypt(old(self).signer, data) == Ok::<Seq<u8>, VaultError>(pseq)
                && vstd::utf8::valid_utf8(pseq) && final(self).state@ == (StateView {
                name_input: Some(old(self).state@.slist[old(self).state@.ssel]),
                body_input: Some(vstd::utf8::decode_utf8(pseq)),
                editing_origin: Some(old(self).state@.slist[old(self).state@.ssel]),
                ..old(self).state@
            }));
        }
        Ok(())
    }

    /// Decrypt the record selected in the full listing and push its plaintext
    /// to the clipboard collaborator. The page state is never changed, and
    /// success is owed to a real decryption: it carries a witness that some
    /// ciphertext decrypted under the signer to valid UTF-8.
    fn copy_selected_password_to_clipboard(&mut self) -> (r: Result<(), VaultError>)
        requires
            old(self).state@.wf(),
        ensures
            final(self).state == old(self).state,
            final(self).signer == old(self).signer,
            final(self).export_pgp_secret_file_path == old(self).export_pgp_secret_file_path,
            final(self).should_refresh_passwords == old(self).should_refresh_passwords,
            r is Ok ==> old(self).state@.list.len() > 0 && decrypted_utf8_exists(
                old(self).signer,
            ),
            r matches Err(e) ==> (old(self).state@.list.len() == 0 <==> e
                == VaultError::InvalidSelection),
    {
        let sel = self.state.active_password_record;
        if sel >= self.state.passwords_list.len() {
            return Err(VaultError::InvalidSelection);
        }
        let bytes = match self.store.read(self.state.passwords_list[sel].name.as_str()) {
            Ok(b) => b,
            Err(_) => {
                return Err(VaultError::Storage);
            },
        };
        let ghost data = bytes@;
        let plain = match self.signer.decrypt(bytes.as_slice()) {
            Ok(p) => p,
            Err(e) => {
                return Err(e);
            },
        };
        let ghost pseq = plain@;
        let text = match crate::text::string_from_utf8(plain) {
            Some(t) => t,
            None => {
                return Err(VaultError::Decrypt);
            },
        };
        proof {
            assert(spec_decrypt(old(self).signer, data) == Ok::<Seq<u8>, VaultError>(pseq)
                && vstd::utf8::valid_utf8(pseq));
        }
        match self.clipboard.set_contents(text) {
            Ok(()) => Ok(()),
            Err(_) => Err(VaultError::Storage),
        }
    }

    /// Decrypt the record selected in the filtered (search) listing and push
    /// its plaintext to the clipboard collaborator. As with the unfiltered
    /// copy, success carries a witness of a real decryption.
    fn copy_selected_password_to_clipboard_search(&mut self) -> (r: Result<(), VaultError>)
        requires
            old(self).state@.wf(),
        ensures
            final(self).state == old(self).state,
            final(self).signer == old(self).signer,
            final(self).export_pgp_secret_file_path == old(self).export_pgp_secret_file_path,
            final(self).should_refresh_passwords == old(self).should_refresh_passwords,
            r is Ok ==> old(self).state@.slist.len() > 0 && decrypted_utf8_exists(
                old(self).signer,
            ),
            r matches Err(e) ==> (old(self).state@.slist.len() == 0 <==> e
                == VaultError::InvalidSelection),
    {
        let sel = self.state.active_password_record_search;
        if sel >= self.state.passwords_list_search.len() {
            return Err(VaultError::InvalidSelection);
        }
        let bytes = match self.store.read(self.state.passwords_list_search[sel].name.as_str()) {
            Ok(b) => b,
            Err(_) => {
                return Err(VaultError::Storage);
            },
        };
        let ghost data = bytes@;
        let plain = match self.signer.decrypt(bytes.as_slice()) {
            Ok(p) => p,
            Err(e) => {
                return Err(e);
            },
        };
        let ghost pseq = plain@;
        let text = match crate::text::string_from_utf8(plain) {
            Some(t) => t,
            None => {
                return Err(VaultError::Decrypt);
            },
        };
        proof {
            assert(spec_decrypt(old(self).signer, data) == Ok::<Seq<u8>, VaultError>(pseq)
                && vstd::utf8::valid_utf8(pseq));
        }
        match self.clipboard.set_contents(text) {
            Ok(()) => Ok(()),
            Err(_) => Err(VaultError::Storage),
        }
    }

    /// Whether the export-location buffer names a usable location: it must be
    /// present and non-empty.
    fn check_if_pgp_export_location_valid(&self) -> (r: bool)
        ensures
            r == spec_export_loc_valid(self.state@.export_loc),
    {
        match &self.state.export_pgp_secret_location {
            Some(l) => !l.as_str().is_empty(),
            None => false,
        }
    }

    /// Export the master key as a password-protected bundle to the location
    /// in the export buffers (absent buffers read as empty). The page state
    /// is never changed; the outcome is [`export_outcome`].
    fn export_pgp_private_key(&mut self) -> (r: Result<(), VaultError>)
        ensures
            final(self).state == old(self).state,
            final(self).signer == old(self).signer,
            final(self).export_pgp_secret_file_path == old(self).export_pgp_secret_file_path,
            final(self).should_refresh_passwords == old(self).should_refresh_passwords,
            export_outcome(old(self).signer, r),
    {
        let pass = match &self.state.export_pgp_secret_master_password {
            Some(s) => s.clone(),
            None => String::new(),
        };
        let loc = match &self.state.export_pgp_secret_location {
            Some(s) => s.clone(),
            None => String::new(),
        };
        export_private_key(&self.signer, pass, loc.as_str(), &mut self.export_sink)
    }

    /// Rebuild the filtered listing from the full listing and the current
    /// search term: case-insensitive substring match on the name, empty term
    /// keeps everything, original relative order preserved, and the search
    /// selection clamped to the filtered length.
    fn filter_passwords_list(&mut self)
        ensures
            final(self).signer == old(self).signer,
            final(self).export_pgp_secret_file_path == old(self).export_pgp_secret_file_path,
            final(self).should_refresh_passwords == old(self).should_refresh_passwords,
            final(self).state@ == (StateView {
                slist: filtered_names(
                    old(self).state@.list,
                    lower_of(opt_or_empty(old(self).state@.term)),
                ),
                ssel: clamp_sel(
                    old(self).state@.ssel,
                    filtered_names(
                        old(self).state@.list,
                        lower_of(opt_or_empty(old(self).state@.term)),
                    ).len() as int,
                ),
                ..old(self).state@
            }),
            final(self).state@.wf() || !sel_in_bounds(
                old(self).state@.sel,
                old(self).state@.list.len() as int,
            ),
    {
        let term = match &self.state.passwords_list_search_term {
            Some(s) => s.clone(),
            None => String::new(),
        };
        let lt = to_lowercase(term.as_str());
        let ghost all = self.state@.list;
        let ghost ltv = lower_of(opt_or_empty(old(self).state@.term));
        proof {
            assert(lt@ == ltv);
        }
        let mut res: Vec<Password> = Vec::new();
        let mut i: usize = 0;
        proof {
            assert(names_of(res@) =~= Seq::<Seq<char>>::empty());
            assert(all.subrange(0, all.len() as int) =~= all);
            assert(names_of(res@) + filtered_names(all, ltv) =~= filtered_names(all, ltv));
        }
        while i < self.state.passwords_list.len()
            invariant
                i <= self.state.passwords_list.len(),
                lt@ == ltv,
                *self == *old(self),
                all == self.state@.list,
                names_of(res@) + filtered_names(
                    all.subrange(i as int, all.len() as int),
                    ltv,
                ) == filtered_names(all, ltv),
            decreases self.state.passwords_list.len() - i,
        {
            let ghost res_before = names_of(res@);
            proof {
                lemma_filtered_names_step(all, ltv, i as int);
            }
            let keep = if lt.as_str().is_empty() {
                true
            } else {
                let ln = to_lowercase(self.state.passwords_list[i].name.as_str());
                contains_substr(ln.as_str(), lt.as_str())
            };
            if keep {
                let p = Password { name: self.state.passwords_list[i].name.clone() };
                proof {
                    crate::password::lemma_names_of_push(res@, p);
                }
                res.push(p);
                proof {
                    assert(names_of(res@) + filtered_names(
                        all.subrange(i + 1, all.len() as int),
                        ltv,
                    ) =~= res_before + filtered_names(
                        all.subrange(i as int, all.len() as int),
                        ltv,
                    ));
                }
            }
            i += 1;
        }
        proof {
            assert(all.subrange(all.len() as int, all.len() as int) =~= Seq::<Seq<char>>::empty());
            assert(names_of(res@) + filtered_names(
                all.subrange(all.len() as int, all.len() as int),
                ltv,
            ) =~= names_of(res@));
        }
        self.state.passwords_list_search = res;
        let len = self.state.passwords_list_search.len();
        if len == 0 {
            self.state.active_password_record_search = 0;
        } else if self.state.active_password_record_search > len - 1 {
            self.state.active_password_record_search = len - 1;
        }
    }

    /// Install a listing handed back by the store: the full listing becomes
    /// exactly the given names, in order, the selection is clamped to the new
    /// length, and the listing is marked fresh. This is the whole verified
    /// content of a refresh; [`App::refresh_passwords`] only asks the store
    /// and hands its answer here.
    pub fn install_listing(&mut self, names: Vec<String>)
        requires
            old(self).state@.wf(),
        ensures
            final(self).state@.wf(),
            final(self).signer == old(self).signer,
            final(self).export_pgp_secret_file_path == old(self).export_pgp_secret_file_path,
            !final(self).should_refresh_passwords,
            final(self).state@ == (StateView {
                list: names@.map_values(|n: String| n@),
                sel: clamp_sel(old(self).state@.sel, names@.len() as int),
                ..old(self).state@
            }),
    {
        let mut list: Vec<Password> = Vec::new();
        let mut i: usize = 0;
        while i < names.len()
            invariant
                i <= names.len(),
                list@.len() == i,
                forall|j: int| 0 <= j < i ==> list@[j].name@ == names@[j]@,
                self == old(self),
            decreases names.len() - i,
        {
            list.push(Password { name: names[i].clone() });
            i += 1;
        }
        proof {
            assert(names_of(list@) =~= names@.map_values(|n: String| n@));
        }
        self.state.passwords_list = list;
        let len = self.state.passwords_list.len();
        if len == 0 {
            self.state.active_password_record = 0;
        } else if self.state.active_password_record > len - 1 {
            self.state.active_password_record = len - 1;
        }
        self.should_refresh_passwords = false;
        proof {
            assert(self.state@ =~= (StateView {
                list: names@.map_values(|n: String| n@),
                sel: clamp_sel(old(self).state@.sel, names@.len() as int),
                ..old(self).state@
            }));
        }
    }

    /// Re-read the listing from the store: replace the full listing with the
    /// names the store reports (exactly as [`App::install_listing`] states),
    /// clamp its selection, and mark the listing fresh. A store failure
    /// leaves everything untouched.
    fn refresh_passwords(&mut self) -> (r: Result<(), VaultError>)
        requires
            old(self).state@.wf(),
        ensures
            final(self).state@.wf(),
            final(self).signer == old(self).signer,
            final(self).export_pgp_secret_file_path == old(self).export_pgp_secret_file_path,
            match r {
                Ok(()) => {
                    &&& !final(self).should_refresh_passwords
                    &&& final(self).state@.sel == clamp_sel(
                        old(self).state@.sel,
                        final(self).state@.list.len() as int,
                    )
                    &&& final(self).state@ == (StateView {
                        list: final(self).state@.list,
                        sel: final(self).state@.sel,
                        ..old(self).state@
                    })
                },
                Err(e) => {
                    &&& final(self).state == old(self).state
                    &&& final(self).should_refresh_passwords == old(self).should_refresh_passwords
                    &&& e == VaultError::Storage
                },
            },
    {
        let names = match self.store.list() {
            Ok(n) => n,
            Err(_) => {
                return Err(VaultError::Storage);
            },
        };
        self.install_listing(names);
        Ok(())
    }

    /// Apply one key event to the page state: the transition function of the
    /// interface. Pure transitions follow [`pure_step`] exactly; effectful
    /// ones (edit-fill, delete, clipboard copy, save, export) behave as the
    /// matching clause of [`dispatch_post`] states. The error flag is not
    /// touched here; [`App::handle_input`] records it.
    #[verifier::rlimit(100)]
    fn dispatch_input(&mut self, input: KeyCode) -> (r: Result<(), VaultError>)
        requires
            old(self).state@.wf(),
        ensures
            final(self).state@.wf(),
            final(self).signer == old(self).signer,
            final(self).export_pgp_secret_file_path == old(self).export_pgp_secret_file_path,
            final(self).state@.last_error == old(self).state@.last_error,
            dispatch_post(
                old(self).state@,
                final(self).state@,
                old(self).should_refresh_passwords,
                final(self).should_refresh_passwords,
                old(self).signer,
                old(self).export_pgp_secret_file_path@,
                input,
                r,
            ),
    {
        match self.state.active_page {
            ActivePage::PasswordsList => match input {
                KeyCode::Down => {
                    let len = self.state.passwords_list.len();
                    if len != 0 && self.state.active_password_record < len - 1 {
                        self.state.active_password_record = self.state.active_password_record + 1;
                    }
                    Ok(())
                },
                KeyCode::Up => {
                    if self.state.active_password_record != 0 {
                        self.state.active_password_record = self.state.active_password_record - 1;
                    }
                    Ok(())
                },
                KeyCode::Char(c) => {
                    if c == '/' {
                        let cloned = crate::password::clone_passwords(&self.state.passwords_list);
                        self.state.passwords_list_search = cloned;
                        let len = self.state.passwords_list_search.len();
                        if len == 0 {
                            self.state.active_password_record_search = 0;
                        } else if self.state.active_password_record_search > len - 1 {
                            self.state.active_password_record_search = len - 1;
                        }
                        self.state.active_page = ActivePage::SearchPasswordsListName;
                        Ok(())
                    } else if c == 'p' {
                        self.state.export_pgp_secret_location = Some(
                            self.export_pgp_secret_file_path.clone(),
                        );
                        self.state.export_pgp_secret_location_error = false;
                        self.state.export_pgp_secret_master_password = Some(String::new());
                        self.state.active_page = ActivePage::ExportPgpLocation;
                        Ok(())
                    } else if c == 'a' {
                        self.state.active_page = ActivePage::CreateNewPasswordName;
                        Ok(())
                    } else if c == 'e' {
                        match self.fill_selected_password_for_editing() {
                            Ok(()) => {
                                let ghost mid = self.state@;
                                self.state.active_page = ActivePage::EditPasswordName;
                                proof {
                                    let (data, p) = choose|data: Seq<u8>, p: Seq<u8>|
                                        {
                                            &&& #[trigger] spec_decrypt(old(self).signer, data)
                                                == Ok::<Seq<u8>, VaultError>(p)
                                            &&& vstd::utf8::valid_utf8(p)
                                            &&& mid == (StateView {
                                                name_input: Some(
                                                    old(self).state@.list[old(self).state@.sel],
                                                ),
                                                body_input: Some(
                                                    #[trigger] vstd::utf8::decode_utf8(p),
                                                ),
                                                editing_origin: Some(
                                                    old(self).state@.list[old(self).state@.sel],
                                                ),
                                                ..old(self).state@
                                            })
                                        };
                                    assert(spec_decrypt(old(self).signer, data) == Ok::<
                                        Seq<u8>,
                                        VaultError,
                                    >(p) && vstd::utf8::valid_utf8(p) && self.state@ == (StateView {
                                        page: ActivePage::EditPasswordName,
                                        name_input: Some(
                                            old(self).state@.list[old(self).state@.sel],
                                        ),
                                        body_input: Some(vstd::utf8::decode_utf8(p)),
                                        editing_origin: Some(
                                            old(self).state@.list[old(self).state@.sel],
                                        ),
                                        ..old(self).state@
                                    }));
                                }
                                Ok(())
                            },
                            Err(e) => Err(e),
                        }
                    } else if c == 'd' {
                        self.delete_selected_password()
                    } else if c == '\n' {
                        self.copy_selected_password_to_clipboard()
                    } else if c == 'x' {
                        self.export_pgp_private_key()
                    } else {
                        Ok(())
                    }
                },
                _ => Ok(()),
            },
            ActivePage::CreateNewPasswordName => match input {
                KeyCode::Char(c) => {
                    if c == '\n' {
                        self.state.active_page = ActivePage::CreateNewPasswordBody;
                    } else {
                        push_to_buf(&mut self.state.password_name_input, c);
                    }
                    Ok(())
                },
                KeyCode::Tab => {
                    self.state.active_page = ActivePage::CreateNewPasswordBody;
                    Ok(())
                },
                KeyCode::Ctrl(c) => {
                    if c == 'c' {
                        self.state.password_name_input = None;
                        self.state.password_input = None;
                        self.state.active_page = ActivePage::PasswordsList;
                    }
                    Ok(())
                },
                KeyCode::Backspace => {
                    pop_from_buf(&mut self.state.password_name_input);
                    Ok(())
                },
                _ => Ok(()),
            },
            ActivePage::CreateNewPasswordBody => match input {
                KeyCode::BackTab => {
                    self.state.active_page = ActivePage::CreateNewPasswordName;
                    Ok(())
                },
                KeyCode::Ctrl(c) => {
                    if c == 'c' {
                        self.state.password_name_input = None;
                        self.state.password_input = None;
                        self.state.active_page = ActivePage::PasswordsList;
                        Ok(())
                    } else if c == 'd' {
                        let pass_name = match &self.state.password_name_input {
                            Some(s) => s.clone(),
                            None => String::new(),
                        };
                        let pass = match &self.state.password_input {
                            Some(s) => s.clone(),
                            None => String::new(),
                        };
                        match self.save_password(pass_name, pass) {
                            Ok(()) => {
                                self.state.password_name_input = None;
                                self.state.password_input = None;
                                self.should_refresh_passwords = true;
                                self.state.active_page = ActivePage::PasswordsList;
                                Ok(())
                            },
                            Err(e) => Err(e),
                        }
                    } else {
                        Ok(())
                    }
                },
                KeyCode::Char(c) => {
                    push_to_buf(&mut self.state.password_input, c);
                    Ok(())
                },
                KeyCode::Backspace => {
                    pop_from_buf(&mut self.state.password_input);
                    Ok(())
                },
                _ => Ok(()),
            },
            ActivePage::EditPasswordName => match input {
                KeyCode::Char(c) => {
                    if c == '\n' {
                        self.state.active_page = ActivePage::EditPasswordBody;
                    } else {
                        push_to_buf(&mut self.state.password_name_input, c);
                    }
                    Ok(())
                },
                KeyCode::Tab => {
                    self.state.active_page = ActivePage::EditPasswordBody;
                    Ok(())
                },
                KeyCode::Ctrl(c) => {
                    if c == 'c' {
                        self.state.password_name_input = None;
                        self.state.password_input = None;
                        self.state.editing_origin = None;
                        self.state.active_page = ActivePage::PasswordsList;
                    }
                    Ok(())
                },
                KeyCode::Backspace => {
                    pop_from_buf(&mut self.state.password_name_input);
                    Ok(())
                },
                _ => Ok(()),
            },
            ActivePage::EditPasswordBody => match input {
                KeyCode::BackTab => {
                    self.state.active_page = ActivePage::EditPasswordName;
                    Ok(())
                },
                KeyCode::Ctrl(c) => {
                    if c == 'c' {
                        self.state.password_name_input = None;
                        self.state.password_input = None;
                        self.state.editing_origin = None;
                        self.state.active_page = ActivePage::PasswordsList;
                        Ok(())
                    } else if c == 'd' {
                        let pass_name = match &self.state.password_name_input {
                            Some(s) => s.clone(),
                            None => String::new(),
                        };
                        let pass = match &self.state.password_input {
                            Some(s) => s.clone(),
                            None => String::new(),
                        };
                        match self.save_password(pass_name.clone(), pass) {
                            Ok(()) => {
                                let origin_opt: Option<String> = match &self.state.editing_origin {
                                    Some(o) => Some(o.clone()),
                                    None => None,
                                };
                                let rename_ok: bool = match origin_opt {
                                    Some(origin) => {
                                        if origin == pass_name {
                                            true
                                        } else {
                                            match self.store.delete(origin.as_str()) {
                                                Ok(()) => true,
                                                Err(_) => false,
                                            }
                                        }
                                    },
                                    None => true,
                                };
                                if rename_ok {
                                    self.state.password_name_input = None;
                                    self.state.password_input = None;
                                    self.state.editing_origin = None;
                                    self.should_refresh_passwords = true;
                                    self.state.active_page = ActivePage::PasswordsList;
                                    Ok(())
                                } else {
                                    Err(VaultError::Storage)
                                }
                            },
                            Err(e) => Err(e),
                        }
                    } else {
                        Ok(())
                    }
                },
                KeyCode::Char(c) => {
                    push_to_buf(&mut self.state.password_input, c);
                    Ok(())
                },
                KeyCode::Backspace => {
                    pop_from_buf(&mut self.state.password_input);
                    Ok(())
                },
                _ => Ok(()),
            },
            ActivePage::SearchPasswordsList => match input {
                KeyCode::Down => {
                    let len = self.state.passwords_list_search.len();
                    if len != 0 && self.state.active_password_record_search < len - 1 {
                        self.state.active_password_record_search = self
                            .state
                            .active_password_record_search + 1;
                    }
                    Ok(())
                },
                KeyCode::Up => {
                    if self.state.active_password_record_search != 0 {
                        self.state.active_password_record_search = self
                            .state
                            .active_password_record_search - 1;
                    }
                    Ok(())
                },
                KeyCode::Esc => {
                    self.clear_search();
                    Ok(())
                },
                KeyCode::Tab => {
                    self.state.active_page = ActivePage::SearchPasswordsListName;
                    Ok(())
                },
                KeyCode::BackTab => {
                    self.state.active_page = ActivePage::SearchPasswordsListName;
                    Ok(())
                },
                KeyCode::Char(c) => {
                    if c == 'c' || c == 'q' {
                        self.clear_search();
                        Ok(())
                    } else if c == 'a' {
                        self.state.active_page = ActivePage::CreateNewPasswordName;
                        Ok(())
                    } else if c == 'e' {
                        match self.fill_selected_password_for_editing_search() {
                            Ok(()) => {
                                let ghost mid = self.state@;
                                self.state.active_page = ActivePage::EditPasswordName;
                                proof {
                                    let (data, p) = choose|data: Seq<u8>, p: Seq<u8>|
                                        {
                                            &&& #[trigger] spec_decrypt(old(self).signer, data)
                                                == Ok::<Seq<u8>, VaultError>(p)
                                            &&& vstd::utf8::valid_utf8(p)
                                            &&& mid == (StateView {
                                                name_input: Some(
                                                    old(self).state@.slist[old(self).state@.ssel],
                                                ),
                                                body_input: Some(
                                                    #[trigger] vstd::utf8::decode_utf8(p),
                                                ),
                                                editing_origin: Some(
                                                    old(self).state@.slist[old(self).state@.ssel],
                                                ),
                                                ..old(self).state@
                                            })
                                        };
                                    assert(spec_decrypt(old(self).signer, data) == Ok::<
                                        Seq<u8>,
                                        VaultError,
                                    >(p) && vstd::utf8::valid_utf8(p) && self.state@ == (StateView {
                                        page: ActivePage::EditPasswordName,
                                        name_input: Some(
                                            old(self).state@.slist[old(self).state@.ssel],
                                        ),
                                        body_input: Some(vstd::utf8::decode_utf8(p)),
                                        editing_origin: Some(
                                            old(self).state@.slist[old(self).state@.ssel],
                                        ),
                                        ..old(self).state@
                                    }));
                                }
                                Ok(())
                            },
                            Err(e) => Err(e),
                        }
                    } else if c == 'd' {
                        self.delete_selected_password_search()
                    } else if c == '\n' {
                        self.copy_selected_password_to_clipboard_search()
                    } else {
                        Ok(())
                    }
                },
                _ => Ok(()),
            },
            ActivePage::SearchPasswordsListName => match input {
                KeyCode::Char(c) => {
                    if c == '\n' {
                        self.state.active_page = ActivePage::SearchPasswordsList;
                    } else {
                        push_to_buf(&mut self.state.passwords_list_search_term, c);
                        self.filter_passwords_list();
                    }
                    Ok(())
                },
                KeyCode::Tab => {
                    self.state.active_page = ActivePage::SearchPasswordsList;
                    Ok(())
                },
                KeyCode::BackTab => {
                    self.state.active_page = ActivePage::SearchPasswordsList;
                    Ok(())
                },
                KeyCode::Ctrl(c) => {
                    if c == 'c' {
                        self.clear_search();
                    }
                    Ok(())
                },
                KeyCode::Backspace => {
                    pop_from_buf(&mut self.state.passwords_list_search_term);
                    self.filter_passwords_list();
                    Ok(())
                },
                _ => Ok(()),
            },
            ActivePage::ExportPgpLocation => match input {
                KeyCode::Char(c) => {
                    if c == '\n' {
                        if !self.check_if_pgp_export_location_valid() {
                            self.state.export_pgp_secret_location_error = true;
                        } else {
                            self.state.active_page = ActivePage::ExportPgpMasterPassword;
                        }
                    } else {
                        push_to_buf(&mut self.state.export_pgp_secret_location, c);
                    }
                    Ok(())
                },
                KeyCode::Ctrl(c) => {
                    if c == 'c' {
                        self.state.export_pgp_secret_master_password = None;
                        self.state.export_pgp_secret_location = None;
                        self.state.active_page = ActivePage::PasswordsList;
                    }
                    Ok(())
                },
                KeyCode::Backspace => {
                    pop_from_buf(&mut self.state.export_pgp_secret_location);
                    Ok(())
                },
                _ => Ok(()),
            },
            ActivePage::ExportPgpMasterPassword => match input {
                KeyCode::Char(c) => {
                    if c == '\n' {
                        match self.export_pgp_private_key() {
                            Ok(()) => {
                                self.state.active_page = ActivePage::PasswordsList;
                                Ok(())
                            },
                            Err(e) => Err(e),
                        }
                    } else {
                        push_to_buf(&mut self.state.export_pgp_secret_master_password, c);
                        Ok(())
                    }
                },
                KeyCode::Ctrl(c) => {
                    if c == 'c' {
                        self.state.export_pgp_secret_master_password = None;
                        self.state.export_pgp_secret_location = None;
                        self.state.active_page = ActivePage::PasswordsList;
                    }
                    Ok(())
                },
                KeyCode::Backspace => {
                    pop_from_buf(&mut self.state.export_pgp_secret_master_password);
                    Ok(())
                },
                _ => Ok(()),
            },
        }
    }

    /// Leave the search flow: clear the term, empty the filtered listing,
    /// reset its selection and return to the main listing.
    fn clear_search(&mut self)
        ensures
            final(self).signer == old(self).signer,
            final(self).export_pgp_secret_file_path == old(self).export_pgp_secret_file_path,
            final(self).should_refresh_passwords == old(self).should_refresh_passwords,
            final(self).state@ == search_cleared(old(self).state@),
    {
        self.state.passwords_list_search_term = None;
        self.state.passwords_list_search = Vec::new();
        self.state.active_password_record_search = 0;
        self.state.active_page = ActivePage::PasswordsList;
        proof {
            assert(self.state@.slist =~= Seq::<Seq<char>>::empty());
            assert(self.state@ =~= search_cleared(old(self).state@));
        }
    }

    /// Apply one key event to the page state and record its outcome in the
    /// visible error flag: cleared on success, the exact error on failure.
    /// The transition itself is pinned by [`handle_input_post`].
    pub fn handle_input(&mut self, input: KeyCode) -> (r: Result<(), VaultError>)
        requires
            old(self).state@.wf(),
        ensures
            final(self).state@.wf(),
            final(self).signer == old(self).signer,
            final(self).export_pgp_secret_file_path == old(self).export_pgp_secret_file_path,
            handle_input_post(
                old(self).state@,
                final(self).state@,
                old(self).should_refresh_passwords,
                final(self).should_refresh_passwords,
                old(self).signer,
                old(self).export_pgp_secret_file_path@,
                input,
                r,
            ),
    {
        let r = self.dispatch_input(input);
        let ghost mid = self.state@;
        match &r {
            Ok(()) => {
                self.state.last_error = None;
            },
            Err(e) => {
                self.state.last_error = Some(*e);
            },
        }
        proof {
            assert(StateView { last_error: old(self).state@.last_error, ..self.state@ } =~= mid);
        }
        r
    }

    /// Consume one event from the merged stream. A tick refreshes a stale
    /// listing and asks for a redraw; a terminate key on a terminate page
    /// (the main listing) asks for shutdown without touching the state, as
    /// does the final `Terminate` event; any other key goes through
    /// [`App::handle_input`], whose outcome lands in the error flag, and asks
    /// for a redraw.
    pub fn handle_event(&mut self, event: Event) -> (d: Directive)
        requires
            old(self).state@.wf(),
        ensures
            final(self).state@.wf(),
            final(self).signer == old(self).signer,
            final(self).export_pgp_secret_file_path == old(self).export_pgp_secret_file_path,
            match event {
                Event::Terminate => d == Directive::Shutdown && final(self).state == old(self).state && final(self).should_refresh_passwords == old(self).should_refresh_passwords,
                Event::KeyEvent(k) => if is_terminate_spec(k) && spec_terminate_page(
                    old(self).state@.page,
                ) {
                    d == Directive::Shutdown && final(self).state == old(self).state && final(self).should_refresh_passwords == old(self).should_refresh_passwords
                } else {
                    d == Directive::Render && exists|r: Result<(), VaultError>|
                        #[trigger] handle_input_post(
                            old(self).state@,
                            final(self).state@,
                            old(self).should_refresh_passwords,
                            final(self).should_refresh_passwords,
                            old(self).signer,
                            old(self).export_pgp_secret_file_path@,
                            k,
                            r,
                        )
                },
                Event::Tick => d == Directive::Render && tick_post(
                    old(self).state@,
                    final(self).state@,
                    old(self).should_refresh_passwords,
                    final(self).should_refresh_passwords,
                ),
            },
    {
        match event {
            Event::Terminate => Directive::Shutdown,
            Event::KeyEvent(k) => {
                if k.is_terminate() && is_terminate_page(self.state.active_page) {
                    Directive::Shutdown
                } else {
                    let r = self.handle_input(k);
                    proof {
                        assert(handle_input_post(
                            old(self).state@,
                            self.state@,
                            old(self).should_refresh_passwords,
                            self.should_refresh_passwords,
                            old(self).signer,
                            old(self).export_pgp_secret_file_path@,
                            k,
                            r,
                        ));
                    }
                    let _ = r;
                    Directive::Render
                }
            },
            Event::Tick => {
                if self.should_refresh_passwords {
                    match self.refresh_passwords() {
                        Ok(()) => {
                            self.state.last_error = None;
                        },
                        Err(e) => {
                            self.state.last_error = Some(e);
                        },
                    }
                }
                Directive::Render
            },
        }
    }
}

/// The outcome the export pipeline guarantees: a signer that does not unlock
/// fails closed with the matching key error before anything is written; an
/// unlockable signer either exports or reports a storage failure.
pub open spec fn export_outcome(signer: Signer, r: Result<(), VaultError>) -> bool {
    &&& !signer.is_unlockable() ==> r == Err::<(), VaultError>(
        if !valid_armored_key(signer.key_view()) {
            VaultError::KeyFormat
        } else {
            VaultError::WrongPassphrase
        },
    )
    &&& signer.is_unlockable() ==> (r is Ok || r == Err::<(), VaultError>(VaultError::Storage))
}

/// Whether the export-location buffer holds a usable location: a non-empty
/// one. An absent buffer fails the check like an empty one.
pub open spec fn spec_export_loc_valid(loc: Option<Seq<char>>) -> bool {
    match loc {
        Some(l) => l.len() != 0,
        None => false,
    }
}

/// Witness that a decryption really happened: some ciphertext decrypts under
/// this signer to valid UTF-8 plaintext. Such a witness is only obtainable
/// where the key parses and the stored passphrase unlocks it, so an operation
/// whose success implies this did its cryptographic work.
pub open spec fn decrypted_utf8_exists(signer: Signer) -> bool {
    exists|data: Seq<u8>, p: Seq<u8>|
        #![trigger spec_decrypt(signer, data), vstd::utf8::valid_utf8(p)]
        {
            &&& spec_decrypt(signer, data) == Ok::<Seq<u8>, VaultError>(p)
            &&& vstd::utf8::valid_utf8(p)
        }
}

/// Whether this page treats the terminate keys as "end the application".
/// Only the main listing does; every other page treats `Ctrl+c` as "cancel
/// this flow" and `q` as ordinary input.
pub open spec fn spec_terminate_page(page: ActivePage) -> bool {
    page == ActivePage::PasswordsList
}

/// The executable counterpart of [`spec_terminate_page`].
pub fn is_terminate_page(page: ActivePage) -> (r: bool)
    ensures
        r == spec_terminate_page(page),
{
    match page {
        ActivePage::PasswordsList => true,
        _ => false,
    }
}

/// The state after the search term changed to `t`: the filtered listing is
/// rebuilt from the full listing (case-insensitive substring match on the
/// name, empty term keeps everything, order preserved) and the search
/// selection is clamped to it.
pub open spec fn refiltered(v: StateView, t: Option<Seq<char>>) -> StateView {
    let f = filtered_names(v.list, lower_of(opt_or_empty(t)));
    StateView { term: t, slist: f, ssel: clamp_sel(v.ssel, f.len() as int), ..v }
}

/// Leaving the search flow: term and filtered listing cleared, selection
/// reset, back on the main listing.
pub open spec fn search_cleared(v: StateView) -> StateView {
    StateView {
        term: None,
        slist: Seq::empty(),
        ssel: 0,
        page: ActivePage::PasswordsList,
        ..v
    }
}

/// Cancelling a create flow: name and body buffers cleared, back on the main
/// listing.
pub open spec fn create_cancelled(v: StateView) -> StateView {
    StateView { name_input: None, body_input: None, page: ActivePage::PasswordsList, ..v }
}

/// Cancelling an edit flow: name, body and edit-origin buffers cleared, back
/// on the main listing.
pub open spec fn edit_cancelled(v: StateView) -> StateView {
    StateView {
        name_input: None,
        body_input: None,
        editing_origin: None,
        page: ActivePage::PasswordsList,
        ..v
    }
}

/// Cancelling the export flow: both export buffers cleared, back on the main
/// listing.
pub open spec fn export_cancelled(v: StateView) -> StateView {
    StateView {
        export_pass: None,
        export_loc: None,
        page: ActivePage::PasswordsList,
        ..v
    }
}

/// Which page/input pairs perform side effects (vault, storage, clipboard or
/// export-file work). Every other pair is a pure transition, pinned exactly
/// by [`pure_step`].
pub open spec fn is_effectful(page: ActivePage, input: KeyCode) -> bool {
    ||| (page == ActivePage::PasswordsList && (input == KeyCode::Char('e') || input
        == KeyCode::Char('d') || input == KeyCode::Char('\n') || input == KeyCode::Char('x')))
    ||| (page == ActivePage::SearchPasswordsList && (input == KeyCode::Char('e') || input
        == KeyCode::Char('d') || input == KeyCode::Char('\n')))
    ||| (page == ActivePage::CreateNewPasswordBody && input == KeyCode::Ctrl('d'))
    ||| (page == ActivePage::EditPasswordBody && input == KeyCode::Ctrl('d'))
    ||| (page == ActivePage::ExportPgpMasterPassword && input == KeyCode::Char('\n'))
}

/// The pure transitions of the page state machine, page by page. For an
/// effectful pair (see [`is_effectful`]) the value of this function is not
/// used; [`dispatch_post`] describes those transitions instead.
pub open spec fn pure_step(v: StateView, input: KeyCode, path: Seq<char>) -> StateView {
    match v.page {
        ActivePage::PasswordsList => match input {
            KeyCode::Down => StateView { sel: nav_down(v.sel, v.list.len() as int), ..v },
            KeyCode::Up => StateView { sel: nav_up(v.sel), ..v },
            KeyCode::Char(c) => if c == '/' {
                StateView {
                    slist: v.list,
                    ssel: clamp_sel(v.ssel, v.list.len() as int),
                    page: ActivePage::SearchPasswordsListName,
                    ..v
                }
            } else if c == 'p' {
                StateView {
                    export_loc: Some(path),
                    export_loc_error: false,
                    export_pass: Some(Seq::empty()),
                    page: ActivePage::ExportPgpLocation,
                    ..v
                }
            } else if c == 'a' {
                StateView { page: ActivePage::CreateNewPasswordName, ..v }
            } else {
                v
            },
            _ => v,
        },
        ActivePage::CreateNewPasswordName => match input {
            KeyCode::Char(c) => if c == '\n' {
                StateView { page: ActivePage::CreateNewPasswordBody, ..v }
            } else {
                StateView { name_input: buf_push(v.name_input, c), ..v }
            },
            KeyCode::Tab => StateView { page: ActivePage::CreateNewPasswordBody, ..v },
            KeyCode::Ctrl(c) => if c == 'c' {
                create_cancelled(v)
            } else {
                v
            },
            KeyCode::Backspace => StateView { name_input: buf_pop(v.name_input), ..v },
            _ => v,
        },
        ActivePage::CreateNewPasswordBody => match input {
            KeyCode::BackTab => StateView { page: ActivePage::CreateNewPasswordName, ..v },
            KeyCode::Ctrl(c) => if c == 'c' {
                create_cancelled(v)
            } else {
                v
            },
            KeyCode::Char(c) => StateView { body_input: buf_push(v.body_input, c), ..v },
            KeyCode::Backspace => StateView { body_input: buf_pop(v.body_input), ..v },
            _ => v,
        },
        ActivePage::EditPasswordName => match input {
            KeyCode::Char(c) => if c == '\n' {
                StateView { page: ActivePage::EditPasswordBody, ..v }
            } else {
                StateView { name_input: buf_push(v.name_input, c), ..v }
            },
            KeyCode::Tab => StateView { page: ActivePage::EditPasswordBody, ..v },
            KeyCode::Ctrl(c) => if c == 'c' {
                edit_cancelled(v)
            } else {
                v
            },
            KeyCode::Backspace => StateView { name_input: buf_pop(v.name_input), ..v },
            _ => v,
        },
        ActivePage::EditPasswordBody => match input {
            KeyCode::BackTab => StateView { page: ActivePage::EditPasswordName, ..v },
            KeyCode::Ctrl(c) => if c == 'c' {
                edit_cancelled(v)
            } else {
                v
            },
            KeyCode::Char(c) => StateView { body_input: buf_push(v.body_input, c), ..v },
            KeyCode::Backspace => StateView { body_input: buf_pop(v.body_input), ..v },
            _ => v,
        },
        ActivePage::SearchPasswordsList => match input {
            KeyCode::Down => StateView { ssel: nav_down(v.ssel, v.slist.len() as int), ..v },
            KeyCode::Up => StateView { ssel: nav_up(v.ssel), ..v },
            KeyCode::Esc => search_cleared(v),
            KeyCode::Tab => StateView { page: ActivePage::SearchPasswordsListName, ..v },
            KeyCode::BackTab => StateView { page: ActivePage::SearchPasswordsListName, ..v },
            KeyCode::Char(c) => if c == 'c' || c == 'q' {
                search_cleared(v)
            } else if c == 'a' {
                StateView { page: ActivePage::CreateNewPasswordName, ..v }
            } else {
                v
            },
            _ => v,
        },
        ActivePage::SearchPasswordsListName => match input {
            KeyCode::Char(c) => if c == '\n' {
                StateView { page: ActivePage::SearchPasswordsList, ..v }
            } else {
                refiltered(v, buf_push(v.term, c))
            },
            KeyCode::Tab => StateView { page: ActivePage::SearchPasswordsList, ..v },
            KeyCode::BackTab => StateView { page: ActivePage::SearchPasswordsList, ..v },
            KeyCode::Ctrl(c) => if c == 'c' {
                search_cleared(v)
            } else {
                v
            },
            KeyCode::Backspace => refiltered(v, buf_pop(v.term)),
            _ => v,
        },
        ActivePage::ExportPgpLocation => match input {
            KeyCode::Char(c) => if c == '\n' {
                if !spec_export_loc_valid(v.export_loc) {
                    StateView { export_loc_error: true, ..v }
                } else {
                    StateView { page: ActivePage::ExportPgpMasterPassword, ..v }
                }
            } else {
                StateView { export_loc: buf_push(v.export_loc, c), ..v }
            },
            KeyCode::Ctrl(c) => if c == 'c' {
                export_cancelled(v)
            } else {
                v
            },
            KeyCode::Backspace => StateView { export_loc: buf_pop(v.export_loc), ..v },
            _ => v,
        },
        ActivePage::ExportPgpMasterPassword => match input {
            KeyCode::Char(c) => if c == '\n' {
                v
            } else {
                StateView { export_pass: buf_push(v.export_pass, c), ..v }
            },
            KeyCode::Ctrl(c) => if c == 'c' {
                export_cancelled(v)
            } else {
                v
            },
            KeyCode::Backspace => StateView { export_pass: buf_pop(v.export_pass), ..v },
            _ => v,
        },
    }
}

/// The state after the record named `name` was read, decrypted and loaded
/// into the edit flow: some ciphertext decrypted (under this signer) to some
/// valid UTF-8 plaintext, the name and edit-origin buffers hold `name`, the
/// body buffer holds that plaintext, and the edit-name page is active.
pub open spec fn filled_for_edit(
    pre: StateView,
    post: StateView,
    signer: Signer,
    name: Seq<char>,
) -> bool {
    exists|data: Seq<u8>, p: Seq<u8>|
        {
            &&& #[trigger] spec_decrypt(signer, data) == Ok::<Seq<u8>, VaultError>(p)
            &&& vstd::utf8::valid_utf8(p)
            &&& post == (StateView {
                page: ActivePage::EditPasswordName,
                name_input: Some(name),
                body_input: Some(#[trigger] vstd::utf8::decode_utf8(p)),
                editing_origin: Some(name),
                ..pre
            })
        }
}

/// The outcome of a save (`Ctrl+d`) from a create or edit body page: on
/// success the body was encryptable under the master key, the buffers are
/// cleared (including the edit origin when saving from the edit flow), the
/// listing is marked stale and the main listing page is active; on failure
/// nothing changes and the error is the exact encryption error — or
/// `Storage`, which on an encryptable body is the only possible failure.
pub open spec fn save_case(
    pre: StateView,
    post: StateView,
    sr: bool,
    sr2: bool,
    signer: Signer,
    r: Result<(), VaultError>,
    from_edit: bool,
) -> bool {
    let data = vstd::utf8::encode_utf8(opt_or_empty(pre.body_input));
    match r {
        Ok(()) => {
            &&& valid_armored_key(signer.key_view())
            &&& encryptable(signer.key_view(), data)
            &&& sr2 == true
            &&& post == (if from_edit {
                edit_cancelled(pre)
            } else {
                create_cancelled(pre)
            })
        },
        Err(e) => {
            &&& post == pre
            &&& sr2 == sr
            &&& (e == spec_encrypt_err(signer, data) || e == VaultError::Storage)
            &&& (valid_armored_key(signer.key_view()) && encryptable(signer.key_view(), data)
                ==> e == VaultError::Storage)
        },
    }
}

/// The full postcondition of one input dispatch, before the error flag is
/// recorded: pure pairs step exactly by [`pure_step`]; each effectful pair
/// has its own clause.
pub open spec fn dispatch_post(
    pre: StateView,
    post: StateView,
    sr: bool,
    sr2: bool,
    signer: Signer,
    path: Seq<char>,
    input: KeyCode,
    r: Result<(), VaultError>,
) -> bool {
    if !is_effectful(pre.page, input) {
        &&& r is Ok
        &&& post == pure_step(pre, input, path)
        &&& sr2 == sr
    } else if pre.page == ActivePage::PasswordsList && input == KeyCode::Char('e') {
        match r {
            Ok(()) => sr2 == sr && pre.list.len() > 0 && filled_for_edit(
                pre,
                post,
                signer,
                pre.list[pre.sel],
            ),
            Err(e) => sr2 == sr && post == pre && (pre.list.len() == 0 <==> e
                == VaultError::InvalidSelection),
        }
    } else if pre.page == ActivePage::PasswordsList && input == KeyCode::Char('d') {
        match r {
            Ok(()) => sr2 == sr && pre.list.len() > 0 && post == (StateView {
                list: pre.list.remove(pre.sel),
                sel: clamp_sel(pre.sel, pre.list.len() - 1),
                ..pre
            }),
            Err(e) => sr2 == sr && post == pre && (pre.list.len() == 0 <==> e
                == VaultError::InvalidSelection) && (pre.list.len() > 0 ==> e
                == VaultError::Storage),
        }
    } else if pre.page == ActivePage::PasswordsList && input == KeyCode::Char('\n') {
        &&& sr2 == sr
        &&& post == pre
        &&& (r is Ok ==> pre.list.len() > 0 && decrypted_utf8_exists(signer))
        &&& (r matches Err(e) ==> (pre.list.len() == 0 <==> e == VaultError::InvalidSelection))
    } else if pre.page == ActivePage::PasswordsList && input == KeyCode::Char('x') {
        &&& sr2 == sr
        &&& post == pre
        &&& export_outcome(signer, r)
    } else if pre.page == ActivePage::SearchPasswordsList && input == KeyCode::Char('e') {
        match r {
            Ok(()) => sr2 == sr && pre.slist.len() > 0 && filled_for_edit(
                pre,
                post,
                signer,
                pre.slist[pre.ssel],
            ),
            Err(e) => sr2 == sr && post == pre && (pre.slist.len() == 0 <==> e
                == VaultError::InvalidSelection),
        }
    } else if pre.page == ActivePage::SearchPasswordsList && input == KeyCode::Char('d') {
        match r {
            Ok(()) => sr2 == sr && pre.slist.len() > 0 && post == (StateView {
                slist: pre.slist.remove(pre.ssel),
                ssel: clamp_sel(pre.ssel, pre.slist.len() - 1),
                ..pre
            }),
            Err(e) => sr2 == sr && post == pre && (pre.slist.len() == 0 <==> e
                == VaultError::InvalidSelection) && (pre.slist.len() > 0 ==> e
                == VaultError::Storage),
        }
    } else if pre.page == ActivePage::SearchPasswordsList && input == KeyCode::Char('\n') {
        &&& sr2 == sr
        &&& post == pre
        &&& (r is Ok ==> pre.slist.len() > 0 && decrypted_utf8_exists(signer))
        &&& (r matches Err(e) ==> (pre.slist.len() == 0 <==> e == VaultError::InvalidSelection))
    } else if pre.page == ActivePage::CreateNewPasswordBody && input == KeyCode::Ctrl('d') {
        save_case(pre, post, sr, sr2, signer, r, false)
    } else if pre.page == ActivePage::EditPasswordBody && input == KeyCode::Ctrl('d') {
        save_case(pre, post, sr, sr2, signer, r, true)
    } else {
        // ExportPgpMasterPassword, Enter: run the export pipeline, then back
        // to the listing; on failure stay on the page.
        &&& sr2 == sr
        &&& export_outcome(signer, r)
        &&& match r {
            Ok(()) => post == (StateView { page: ActivePage::PasswordsList, ..pre }),
            Err(_) => post == pre,
        }
    }
}

/// The postcondition of [`App::handle_input`]: the dispatch outcome of
/// [`dispatch_post`], with the result additionally recorded in the state's
/// error flag (cleared on success, the exact error on failure).
pub open spec fn handle_input_post(
    pre: StateView,
    post: StateView,
    sr: bool,
    sr2: bool,
    signer: Signer,
    path: Seq<char>,
    input: KeyCode,
    r: Result<(), VaultError>,
) -> bool {
    &&& dispatch_post(
        pre,
        StateView { last_error: pre.last_error, ..post },
        sr,
        sr2,
        signer,
        path,
        input,
        r,
    )
    &&& post.last_error == (match r {
        Ok(_) => None::<VaultError>,
        Err(e) => Some(e),
    })
}

/// What a tick does: nothing while the listing is fresh; otherwise the
/// listing is re-read from the store — on success it is replaced (with the
/// selection clamped), marked fresh and the error flag cleared; on failure
/// only the error flag changes, and the refresh stays pending.
pub open spec fn tick_post(pre: StateView, post: StateView, sr: bool, sr2: bool) -> bool {
    if !sr {
        post == pre && sr2 == sr
    } else {
        ||| (!sr2 && post.sel == clamp_sel(pre.sel, post.list.len() as int) && post == (StateView {
            list: post.list,
            sel: post.sel,
            last_error: None,
            ..pre
        }))
        ||| (sr2 && post == (StateView { last_error: Some(VaultError::Storage), ..pre }))
    }
}

} // verus!
