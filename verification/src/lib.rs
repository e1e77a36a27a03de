//! State engine of a small secret manager: which directories of the tree are
//! expanded, which node is selected, where the context menu is anchored, which
//! file is open, and how an encrypted secret becomes editable text.
//!
//! The library never touches the disk, the screen or the decryption engine.
//! It is told what happened, changes its state, and says what has to be done
//! next. [`file_explorer`] is the whole of it; [`explorer`] is the tree's part
//! alone; [`tree`] finds the visible nodes and [`visibility`] says what they
//! are; [`crypto`] judges what a decryption handed back.

pub mod application;
pub mod context_menu;
pub mod crypto;
pub mod error_popup;
pub mod explorer;
pub mod file_explorer;
pub mod password_prompt;
pub mod paths;
pub mod setup;
pub mod toolkit;
pub mod tree;
pub mod visibility;
