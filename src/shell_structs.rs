//! Shell structs, as plain values: handles as their raw values, flag sets as
//! their integers, and text fields as fixed-size UTF-16 arrays. The size
//! headers that only native code reads are not part of this model.

use vstd::prelude::*;
use crate::handles::{GUID, HICON, HWND};
use crate::privs::{copy_str_to_arr, str_arr_units, string_from_arr};
use crate::utf16::{text_units, utf16_lossy, zeros};

verus! {

/// Length of a file system path, in UTF-16 units.
pub const MAX_PATH: usize = 260;

/// `SHITEMID` struct: one item of a shell item ID list.
#[derive(Clone, Copy, Default, Debug)]
pub struct SHITEMID {
    cb: u16,
    abID: [u8; 1],
}

/// `ITEMIDLIST` struct: a shell item ID list.
#[derive(Clone, Copy, Default, Debug)]
pub struct ITEMIDLIST {
    pub mkid: SHITEMID,
}

/// `NOTIFYICONDATA` struct: an icon in the notification area.
#[derive(Clone, Copy, Debug)]
pub struct NOTIFYICONDATA {
    pub hWnd: HWND,
    pub uID: u32,
    pub uFlags: u32,
    pub uCallbackMessage: u32,
    pub hIcon: HICON,
    szTip: [u16; 128],
    pub dwState: u32,
    pub dwStateMask: u32,
    szInfo: [u16; 256],
    pub uVersion: u32,
    szInfoTitle: [u16; 64],
    pub dwInfoFlags: u32,
    pub guidItem: GUID,
    pub hBalloonIcon: HICON,
}

impl Default for NOTIFYICONDATA {
    /// All fields zero.
    fn default() -> (r: NOTIFYICONDATA)
        ensures
            r.spec_szTip() == zeros(128 as nat),
            r.spec_szInfo() == zeros(256 as nat),
            r.spec_szInfoTitle() == zeros(64 as nat),
    {
        let r = NOTIFYICONDATA {
            hWnd: HWND(0),
            uID: 0,
            uFlags: 0,
            uCallbackMessage: 0,
            hIcon: HICON(0),
            szTip: [0u16; 128],
            dwState: 0,
            dwStateMask: 0,
            szInfo: [0u16; 256],
            uVersion: 0,
            szInfoTitle: [0u16; 64],
            dwInfoFlags: 0,
            guidItem: GUID { data1: 0, data2: 0, data3: 0, data4: [0u8; 8] },
            hBalloonIcon: HICON(0),
        };
        assert(r.szTip@ =~= zeros(128 as nat));
        assert(r.szInfo@ =~= zeros(256 as nat));
        assert(r.szInfoTitle@ =~= zeros(64 as nat));
        r
    }
}

impl NOTIFYICONDATA {
    /// The units of the `szTip` field.
    pub closed spec fn spec_szTip(&self) -> Seq<u16> {
        self.szTip@
    }

    /// Returns the `szTip` field.
    pub fn szTip(&self) -> (r: String)
        ensures
            r@ == utf16_lossy(text_units(self.spec_szTip())),
    {
        string_from_arr(self.szTip.as_slice())
    }

    /// Sets the `szTip` field, cut to fit with its terminator.
    pub fn set_szTip(&mut self, text: &str)
        ensures
            final(self).spec_szTip() == str_arr_units(text@, 128 as nat),
            final(self).spec_szInfo() == old(self).spec_szInfo(),
            final(self).spec_szInfoTitle() == old(self).spec_szInfoTitle(),
    {
        copy_str_to_arr(text, &mut self.szTip);
    }

    /// The units of the `szInfo` field.
    pub closed spec fn spec_szInfo(&self) -> Seq<u16> {
        self.szInfo@
    }

    /// Returns the `szInfo` field.
    pub fn szInfo(&self) -> (r: String)
        ensures
            r@ == utf16_lossy(text_units(self.spec_szInfo())),
    {
        string_from_arr(self.szInfo.as_slice())
    }

    /// Sets the `szInfo` field, cut to fit with its terminator.
    pub fn set_szInfo(&mut self, text: &str)
        ensures
            final(self).spec_szInfo() == str_arr_units(text@, 256 as nat),
            final(self).spec_szTip() == old(self).spec_szTip(),
            final(self).spec_szInfoTitle() == old(self).spec_szInfoTitle(),
    {
        copy_str_to_arr(text, &mut self.szInfo);
    }

    /// The units of the `szInfoTitle` field.
    pub closed spec fn spec_szInfoTitle(&self) -> Seq<u16> {
        self.szInfoTitle@
    }

    /// Returns the `szInfoTitle` field.
    pub fn szInfoTitle(&self) -> (r: String)
        ensures
            r@ == utf16_lossy(text_units(self.spec_szInfoTitle())),
    {
        string_from_arr(self.szInfoTitle.as_slice())
    }

    /// Sets the `szInfoTitle` field, cut to fit with its terminator.
    pub fn set_szInfoTitle(&mut self, text: &str)
        ensures
            final(self).spec_szInfoTitle() == str_arr_units(text@, 64 as nat),
            final(self).spec_szTip() == old(self).spec_szTip(),
            final(self).spec_szInfo() == old(self).spec_szInfo(),
    {
        copy_str_to_arr(text, &mut self.szInfoTitle);
    }
}

/// `SHFILEINFO` struct: information about a file system object.
#[derive(Clone, Copy, Debug)]
pub struct SHFILEINFO {
    pub hIcon: HICON,
    pub iIcon: i32,
    dwAttributes: u32,
    szDisplayName: [u16; MAX_PATH],
    szTypeName: [u16; 80],
}

impl Default for SHFILEINFO {
    /// All fields zero.
    fn default() -> (r: SHFILEINFO)
        ensures
            r.spec_szDisplayName() == zeros(MAX_PATH as nat),
            r.spec_szTypeName() == zeros(80 as nat),
    {
        let r = SHFILEINFO {
            hIcon: HICON(0),
            iIcon: 0,
            dwAttributes: 0,
            szDisplayName: [0u16; MAX_PATH],
            szTypeName: [0u16; 80],
        };
        assert(r.szDisplayName@ =~= zeros(MAX_PATH as nat));
        assert(r.szTypeName@ =~= zeros(80 as nat));
        r
    }
}

impl SHFILEINFO {
    /// The units of the `szDisplayName` field.
    pub closed spec fn spec_szDisplayName(&self) -> Seq<u16> {
        self.szDisplayName@
    }

    /// Returns the `szDisplayName` field.
    pub fn szDisplayName(&self) -> (r: String)
        ensures
            r@ == utf16_lossy(text_units(self.spec_szDisplayName())),
    {
        string_from_arr(self.szDisplayName.as_slice())
    }

    /// Sets the `szDisplayName` field, cut to fit with its terminator.
    pub fn set_szDisplayName(&mut self, text: &str)
        ensures
            final(self).spec_szDisplayName() == str_arr_units(text@, MAX_PATH as nat),
            final(self).spec_szTypeName() == old(self).spec_szTypeName(),
    {
        copy_str_to_arr(text, &mut self.szDisplayName);
    }

    /// The units of the `szTypeName` field.
    pub closed spec fn spec_szTypeName(&self) -> Seq<u16> {
        self.szTypeName@
    }

    /// Returns the `szTypeName` field.
    pub fn szTypeName(&self) -> (r: String)
        ensures
            r@ == utf16_lossy(text_units(self.spec_szTypeName())),
    {
        string_from_arr(self.szTypeName.as_slice())
    }

    /// Sets the `szTypeName` field, cut to fit with its terminator.
    pub fn set_szTypeName(&mut self, text: &str)
        ensures
            final(self).spec_szTypeName() == str_arr_units(text@, 80 as nat),
            final(self).spec_szDisplayName() == old(self).spec_szDisplayName(),
    {
        copy_str_to_arr(text, &mut self.szTypeName);
    }
}

/// `SHSTOCKICONINFO` struct: information about a stock shell icon.
#[derive(Clone, Copy, Debug)]
pub struct SHSTOCKICONINFO {
    pub hIcon: HICON,
    pub iSysImageIndex: i32,
    pub iIcon: i32,
    szPath: [u16; MAX_PATH],
}

impl Default for SHSTOCKICONINFO {
    /// All fields zero.
    fn default() -> (r: SHSTOCKICONINFO)
        ensures
            r.spec_szPath() == zeros(MAX_PATH as nat),
    {
        let r = SHSTOCKICONINFO {
            hIcon: HICON(0),
            iSysImageIndex: 0,
            iIcon: 0,
            szPath: [0u16; MAX_PATH],
        };
        assert(r.szPath@ =~= zeros(MAX_PATH as nat));
        r
    }
}

impl SHSTOCKICONINFO {
    /// The units of the `szPath` field.
    pub closed spec fn spec_szPath(&self) -> Seq<u16> {
        self.szPath@
    }

    /// Returns the `szPath` field.
    pub fn szPath(&self) -> (r: String)
        ensures
            r@ == utf16_lossy(text_units(self.spec_szPath())),
    {
        string_from_arr(self.szPath.as_slice())
    }

    /// Sets the `szPath` field, cut to fit with its terminator.
    pub fn set_szPath(&mut self, text: &str)
        ensures
            final(self).spec_szPath() == str_arr_units(text@, MAX_PATH as nat),
    {
        copy_str_to_arr(text, &mut self.szPath);
    }
}

} // verus!
