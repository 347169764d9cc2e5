//! Conversion of TAR headers into entry metadata. Devices, fifos, sparse
//! files and other special types are refused.

use vstd::prelude::*;
use vstd::string::*;
use crate::entry::{EntryInfo, EntryKind};
use crate::error::Error;

verus! {

/// How the engine treats a TAR entry type.
#[derive(Debug, Clone, Copy, PartialEq, Eq, Structural)]
pub enum TarClass {
    File,
    Directory,
    Link,
    Unsupported,
}

/// The class of a raw type byte: regular (`0` or NUL) and contiguous (`7`)
/// are files, `5` is a directory, hard (`1`) and symbolic (`2`) links are
/// links, anything else is refused.
pub open spec fn tar_class(t: u8) -> TarClass {
    if t == 0x30 || t == 0 || t == 0x37 {
        TarClass::File
    } else if t == 0x35 {
        TarClass::Directory
    } else if t == 0x31 || t == 0x32 {
        TarClass::Link
    } else {
        TarClass::Unsupported
    }
}

/// The class of a raw type byte.
pub fn classify(t: u8) -> (r: TarClass)
    ensures
        r == tar_class(t),
{
    if t == 0x30 || t == 0 || t == 0x37 {
        TarClass::File
    } else if t == 0x35 {
        TarClass::Directory
    } else if t == 0x31 || t == 0x32 {
        TarClass::Link
    } else {
        TarClass::Unsupported
    }
}

pub open spec fn hex_digit_text(n: u8) -> Seq<char> {
    if n == 0 { "0"@ } else if n == 1 { "1"@ } else if n == 2 { "2"@ } else if n == 3 { "3"@ }
    else if n == 4 { "4"@ } else if n == 5 { "5"@ } else if n == 6 { "6"@ } else if n == 7 { "7"@ }
    else if n == 8 { "8"@ } else if n == 9 { "9"@ } else if n == 10 { "a"@ } else if n == 11 { "b"@ }
    else if n == 12 { "c"@ } else if n == 13 { "d"@ } else if n == 14 { "e"@ } else { "f"@ }
}

fn hex_digit(n: u8) -> (r: &'static str)
    ensures
        r@ == hex_digit_text(n),
{
    if n == 0 { "0" } else if n == 1 { "1" } else if n == 2 { "2" } else if n == 3 { "3" }
    else if n == 4 { "4" } else if n == 5 { "5" } else if n == 6 { "6" } else if n == 7 { "7" }
    else if n == 8 { "8" } else if n == 9 { "9" } else if n == 10 { "a" } else if n == 11 { "b" }
    else if n == 12 { "c" } else if n == 13 { "d" } else if n == 14 { "e" } else { "f" }
}

/// The readable name of a type byte; an unknown byte shows in hex.
pub open spec fn type_name_text(t: u8) -> Seq<char> {
    if t == 0x30 || t == 0 { "regular file"@ }
    else if t == 0x31 { "hard link"@ }
    else if t == 0x32 { "symbolic link"@ }
    else if t == 0x33 { "character device"@ }
    else if t == 0x34 { "block device"@ }
    else if t == 0x35 { "directory"@ }
    else if t == 0x36 { "fifo (named pipe)"@ }
    else if t == 0x37 { "continuous file"@ }
    else if t == 0x4c { "GNU long name"@ }
    else if t == 0x4b { "GNU long link"@ }
    else if t == 0x53 { "GNU sparse file"@ }
    else { "unknown (0x"@ + hex_digit_text(t / 16) + hex_digit_text(t % 16) + ")"@ }
}

/// A human-readable name of a type byte.
pub fn entry_type_name(t: u8) -> (r: String)
    ensures
        r@ == type_name_text(t),
{
    if t == 0x30 || t == 0 { String::from_str("regular file") }
    else if t == 0x31 { String::from_str("hard link") }
    else if t == 0x32 { String::from_str("symbolic link") }
    else if t == 0x33 { String::from_str("character device") }
    else if t == 0x34 { String::from_str("block device") }
    else if t == 0x35 { String::from_str("directory") }
    else if t == 0x36 { String::from_str("fifo (named pipe)") }
    else if t == 0x37 { String::from_str("continuous file") }
    else if t == 0x4c { String::from_str("GNU long name") }
    else if t == 0x4b { String::from_str("GNU long link") }
    else if t == 0x53 { String::from_str("GNU sparse file") }
    else {
        let mut s = String::from_str("unknown (0x");
        s.append(hex_digit(t / 16));
        s.append(hex_digit(t % 16));
        s.append(")");
        s
    }
}

/// The metadata of a TAR entry from its header fields: name, raw type
/// byte, declared size, mode and link target. Refuses special types with
/// `UnsupportedEntryType`; a link without a recorded target gets an empty one.
pub fn tar_entry_info(
    name: String,
    type_byte: u8,
    size: u64,
    mode: Option<u32>,
    link_target: Option<String>,
) -> (r: Result<EntryInfo, Error>)
    ensures
        tar_class(type_byte) == TarClass::Unsupported ==> (r matches Err(
            Error::UnsupportedEntryType { entry, entry_type },
        ) && entry@ == name@ && entry_type@ == type_name_text(type_byte)),
        tar_class(type_byte) != TarClass::Unsupported ==> (r matches Ok(e) && e.name@ == name@
            && e.size == size && e.mode == mode && match tar_class(type_byte) {
            TarClass::File => e.kind == EntryKind::File,
            TarClass::Directory => e.kind == EntryKind::Directory,
            _ => e.kind matches EntryKind::Symlink { target } && target@ == match link_target {
                Some(t) => t@,
                None => Seq::<char>::empty(),
            },
        }),
{
    let kind = match classify(type_byte) {
        TarClass::File => EntryKind::File,
        TarClass::Directory => EntryKind::Directory,
        TarClass::Link => EntryKind::Symlink {
            target: match link_target {
                Some(t) => t,
                None => String::new(),
            },
        },
        TarClass::Unsupported => {
            return Err(
                Error::UnsupportedEntryType { entry: name, entry_type: entry_type_name(type_byte) },
            );
        },
    };
    Ok(EntryInfo { name, size, kind, mode })
}

} // verus!
