//! Durable named-location bookmarks ("marks") for a multi-pane text-editing
//! workspace, together with a bounded nine-slot quick switcher.
//!
//! A mark associates a symbolic key (an arbitrary name, or a digit string)
//! with a location inside a document: a weakly-held reference to a live view,
//! plus a project-relative path and an optional absolute path used to reopen
//! the file after the view is gone. The crate provides
//!
//! - the mark registry ([`marks::GlobalMarks`]): a keyed store of marks,
//! - the pane locator ([`workspace::find_pane_for_mark`]): a read-only search
//!   of the live pane set for a view that already shows a mark's target,
//! - the navigation resolver ([`resolver`]): the decision steps of a jump,
//!   including the two-stage fallback (project path, then absolute path) that
//!   runs when the original view no longer exists,
//! - the quick-switcher chord state machine ([`chord`]): parses
//!   `{command key} [digit] [digit]` sequences into add/delete/swap/go
//!   commands over the nine digit-keyed slots, and
//! - the quick-switcher view model ([`switcher`]): rows, selection and
//!   per-row data for a generic list picker, and
//! - the named-mark commands ([`vim`]): creating digit-keyed and named marks
//!   from a selection, and deciding where a jump command finds its target.
//!
//! The surrounding editor performs the actual user-interface work (focusing
//! panes, opening files, rendering rows). This crate owns the data and every
//! decision, and each public function carries a contract that pins down the
//! decision for all inputs.

pub mod chord;
pub mod digits;
pub mod keymap;
pub mod marks;
pub mod resolver;
pub mod switcher;
pub mod vim;
pub mod workspace;
