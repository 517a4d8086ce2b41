//! Safe, verified building blocks of a Win32 wrapper: the null-terminated
//! UTF-16 string buffer used to talk to native APIs, the detection of text
//! encodings, the plain data structs exchanged with common controls and the
//! shell, the rules by which child controls follow a resized window, and the
//! decisions of a directory listing.
#![allow(non_snake_case, non_camel_case_types)]

pub mod comctl_structs;
pub mod dir_list;
pub mod encoding;
pub mod handles;
pub mod layout;
pub mod privs;
pub mod shell_icons;
pub mod shell_structs;
pub mod utf16;
pub mod w_string;

pub use w_string::WString;
