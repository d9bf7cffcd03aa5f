//! Sorts the files of a directory tree into per-category folders.

pub mod blacklist;
pub mod categories;
pub mod classify;
pub mod config;
pub mod dispatch;
pub mod entry;
pub mod index_page;
pub mod notice;
pub mod text;
pub mod transfer;
pub mod walker;
