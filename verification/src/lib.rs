//! A mail client for the terminal: mail over IMAP, its parts and flags, the account store, and
//! what the client shows and does.

pub mod account_form;
pub mod action;
pub mod app;
pub mod arriving;
pub mod attachments;
pub mod charset;
pub mod charset_names;
pub mod client;
pub mod codec;
pub mod columns;
pub mod compose;
pub mod conveying;
pub mod course;
pub mod dates;
pub mod entities;
pub mod events;
pub mod flags;
pub mod folder_list;
pub mod handling;
pub mod header;
pub mod imap;
pub mod keeping;
pub mod keys;
pub mod likeness;
pub mod mail_list;
pub mod mail_view;
pub mod mime;
pub mod number;
pub mod numbering;
pub mod picturing;
pub mod reading;
pub mod replies;
pub mod requests;
pub mod status_bar;
pub mod store;
pub mod summary;
pub mod text;
pub mod types;
pub mod ui;
pub mod utils;
pub mod vault;
pub mod writing;
