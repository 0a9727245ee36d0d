//! CopyIt's library: the snippet model, the category rules, the vault behind
//! protected snippets, the editor's decisions and the library-level bookkeeping
//! the desktop front end drives.
pub mod text;
pub mod order;
pub mod model;
pub mod crypto;
pub mod vault;
pub mod storage;
pub mod editor;
pub mod seed;
pub mod theme;
pub mod preview;
pub mod ids;
pub mod session;
pub mod library;
pub mod edits;
pub mod startup;
pub mod store;
pub mod clipboard;
pub mod records;
