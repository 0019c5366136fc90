//! The editing and autosave core of a local, single-user note-taking tool,
//! with the parts of the application around it that need neither a disk
//! nor a terminal.
//!
//! The core, leaf first: [`text`] indexes a UTF-8 buffer by grapheme
//! cluster, line and column; [`editor`] is the editing buffer with its
//! bounded undo history; [`journal`] is the crash-recovery journal as a
//! mirror of its directory and a list of file operations; [`autosave`] is
//! the runtime that debounces saves and keeps the journal.
//!
//! Around it: [`search`] reads queries, [`notes`] and [`store_query`] say how
//! the store is searched, [`summary`] and [`stamp`] print notes and instants,
//! [`state`], [`tag_editor`] and [`keys`] hold the state of the application
//! and the meaning of keys, [`highlight`] and [`view`] prepare what is drawn,
//! [`cli`] checks and reports for the command line, [`config`] holds the
//! settings, and [`strings`] collects small helpers on text.

pub mod autosave;
pub mod cli;
pub mod config;
pub mod editor;
pub mod highlight;
pub mod journal;
pub mod keys;
pub mod notes;
pub mod search;
pub mod stamp;
pub mod state;
pub mod store_query;
pub mod strings;
pub mod summary;
pub mod tag_editor;
pub mod text;
pub mod view;
