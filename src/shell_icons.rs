//! Which shell icons an image list can take, and how to ask the shell for
//! them.

use vstd::prelude::*;
use vstd::string::StringExecFns;
use crate::handles::SIZE;

verus! {

/// Shell file info flag: retrieve the icon.
pub const SHGFI_ICON: u32 = 0x0100;

/// Shell file info flag: retrieve the large icon.
pub const SHGFI_LARGEICON: u32 = 0x0000;

/// Shell file info flag: retrieve the small icon.
pub const SHGFI_SMALLICON: u32 = 0x0001;

/// Shell file info flag: do not touch the file, go by its name and
/// attributes.
pub const SHGFI_USEFILEATTRIBUTES: u32 = 0x0010;

/// File attribute of an ordinary file.
pub const FILE_ATTRIBUTE_NORMAL: u32 = 0x0080;

/// The error for a request that is not implemented.
pub const E_NOTIMPL: i32 = -2147467263;

/// A request to the shell for the icon of a file type: the file name to ask
/// about, and the flags to ask with.
pub struct IconQuery {
    pub file_name: String,
    pub flags: u32,
}

/// Whether an image list of this icon size can take shell icons: the
/// shell hands out 16 by 16 and 32 by 32 icons only.
pub open spec fn takes_shell_icons(sz: SIZE) -> bool {
    (sz.cx == 16 && sz.cy == 16) || (sz.cx == 32 && sz.cy == 32)
}

/// The flags that ask the shell for icons of this size.
pub open spec fn icon_flags(sz: SIZE) -> u32 {
    if sz.cx == 16 {
        SHGFI_USEFILEATTRIBUTES | SHGFI_ICON | SHGFI_SMALLICON
    } else {
        SHGFI_USEFILEATTRIBUTES | SHGFI_ICON | SHGFI_LARGEICON
    }
}

/// The requests that load the icons of the given file extensions into an
/// image list whose icons are `icon_size`: one for `*.ext` for each
/// extension, in order. Icon sizes the shell does not hand out give
/// `E_NOTIMPL`.
pub fn shell_icon_queries(icon_size: SIZE, file_extensions: &[&str]) -> (r: Result<
    Vec<IconQuery>,
    i32,
>)
    ensures
        !takes_shell_icons(icon_size) ==> r == Err::<Vec<IconQuery>, i32>(E_NOTIMPL),
        takes_shell_icons(icon_size) ==> (r matches Ok(qs) && qs@.len() == file_extensions@.len()
            && forall|i: int|
            0 <= i < qs@.len() ==> {
                &&& #[trigger] qs@[i].file_name@ == seq!['*', '.'] + file_extensions@[i]@
                &&& qs@[i].flags == icon_flags(icon_size)
            }),
{
    let small = icon_size.cx == 16 && icon_size.cy == 16;
    let large = icon_size.cx == 32 && icon_size.cy == 32;
    if !small && !large {
        return Err(E_NOTIMPL);
    }
    let flags = if small {
        SHGFI_USEFILEATTRIBUTES | SHGFI_ICON | SHGFI_SMALLICON
    } else {
        SHGFI_USEFILEATTRIBUTES | SHGFI_ICON | SHGFI_LARGEICON
    };
    let mut out: Vec<IconQuery> = Vec::new();
    let mut i: usize = 0;
    while i < file_extensions.len()
        invariant
            i <= file_extensions@.len(),
            out@.len() == i,
            flags == icon_flags(icon_size),
            forall|j: int|
                0 <= j < i ==> {
                    &&& #[trigger] out@[j].file_name@ == seq!['*', '.'] + file_extensions@[j]@
                    &&& out@[j].flags == flags
                },
        decreases file_extensions@.len() - i,
    {
        let mut name = String::from_str("*.");
        proof {
            reveal_strlit("*.");
        }
        name.append(file_extensions[i]);
        out.push(IconQuery { file_name: name, flags });
        i = i + 1;
    }
    Ok(out)
}

} // verus!
