//! Common controls structs, as plain values: handles as their raw values,
//! flag sets as their integers, and text fields as fixed-size UTF-16 arrays.
//! The size headers and pointer fields that only native code reads or fills
//! are not part of this model.

use vstd::prelude::*;
use crate::handles::{
    COLORREF, HBITMAP, HDC, HIMAGELIST, HINSTANCE, HTREEITEM, HWND, POINT, RECT, SIZE, SYSTEMTIME,
};
use crate::privs::{copy_str_to_arr, string_from_arr, str_arr_units};
use crate::utf16::{text_units, utf16_lossy, zeros};

verus! {

/// Length of a link's ID, in UTF-16 units.
pub const MAX_LINKID_TEXT: usize = 48;

/// Length of a link's URL, in UTF-16 units.
pub const L_MAX_URL_LENGTH: usize = 2084;

/// `MONTHDAYSTATE` struct: one bit for each day of a month, set where the
/// day is shown in bold.
#[derive(Clone, Copy, PartialEq, Eq, Structural, Default, Debug)]
pub struct MONTHDAYSTATE(pub u32);

/// Whether the bit of day `index` is set in `v`.
pub open spec fn day_bit(v: u32, index: u32) -> bool {
    (v >> index) & 1u32 == 1u32
}

impl MONTHDAYSTATE {
    /// Returns the state of the bit of the given day index.
    pub fn get_day(&self, index: u8) -> (r: bool)
        requires
            index <= 31,
        ensures
            r == day_bit(self.0, index as u32),
    {
        let i = index as u32;
        let v = self.0;
        let bit = (v >> i) & 1;
        assert(bit != 0 <==> bit == 1u32) by (bit_vector)
            requires
                bit == (v >> i) & 1u32,
        ;
        bit != 0
    }

    /// Sets the state of the bit of the given day index, leaving the other
    /// days as they were.
    pub fn set_day(&mut self, index: u8, state: bool)
        requires
            index <= 31,
        ensures
            day_bit(final(self).0, index as u32) == state,
            forall|j: u32| j <= 31 && j != index ==> day_bit(final(self).0, j) == day_bit(old(self).0, j),
    {
        let i = index as u32;
        let v = self.0;
        if state {
            self.0 = v | (1u32 << i);
            assert(forall|j: u32| j <= 31 ==> #[trigger] (((v | (1u32 << i)) >> j) & 1u32) == if j == i {
                1u32
            } else {
                (v >> j) & 1u32
            }) by (bit_vector)
                requires
                    i <= 31,
            ;
        } else {
            self.0 = v & !(1u32 << i);
            assert(forall|j: u32| j <= 31 ==> #[trigger] (((v & !(1u32 << i)) >> j) & 1u32) == if j == i {
                0u32
            } else {
                (v >> j) & 1u32
            }) by (bit_vector)
                requires
                    i <= 31,
            ;
        }
    }
}

/// Notification code of a [`NMHDR`], convertible to and from the codes of
/// each kind of control.
#[derive(Clone, Copy, PartialEq, Eq, Structural, Default, Debug)]
pub struct NmhdrCode(i32);

impl NmhdrCode {
    /// The integer value of the code.
    pub closed spec fn spec_raw(&self) -> i32 {
        self.0
    }

    /// Wraps a raw notification code.
    pub fn from_code(v: i32) -> (r: NmhdrCode)
        ensures
            r.spec_raw() == v,
    {
        NmhdrCode(v)
    }

    /// Returns the primitive integer underlying value.
    pub fn raw(&self) -> (r: i32)
        ensures
            r == self.spec_raw(),
    {
        self.0
    }
}

impl From<i32> for NmhdrCode {
    fn from(v: i32) -> (r: NmhdrCode) {
        NmhdrCode(v)
    }
}

impl vstd::std_specs::convert::FromSpecImpl<i32> for NmhdrCode {
    open spec fn obeys_from_spec() -> bool {
        true
    }

    closed spec fn from_spec(v: i32) -> NmhdrCode {
        NmhdrCode(v)
    }
}

/// `NMHDR` struct: the header of every notification.
#[derive(Clone, Copy, PartialEq, Eq, Structural, Default, Debug)]
pub struct NMHDR {
    /// The control sending the message.
    pub hwndFrom: HWND,
    idFrom: usize,
    /// Notification code.
    pub code: NmhdrCode,
}

impl NMHDR {
    /// The raw `idFrom` field.
    pub closed spec fn spec_idFrom(&self) -> usize {
        self.idFrom
    }

    /// The same header with another raw `idFrom`.
    pub closed spec fn spec_with_idFrom(&self, id: usize) -> NMHDR {
        NMHDR { idFrom: id, ..*self }
    }

    /// Returns the `idFrom` field, the ID of the control sending the message.
    pub fn idFrom(&self) -> (r: u16)
        ensures
            r == self.spec_idFrom() as u16,
    {
        self.idFrom as u16
    }

    /// Sets the `idFrom` field, the ID of the control sending the message.
    pub fn set_idFrom(&mut self, val: u16)
        ensures
            *final(self) == old(self).spec_with_idFrom(val as usize),
    {
        self.idFrom = val as usize;
    }
}

/// A bitmap given by its handle, or by a module instance and a resource ID.
#[derive(Clone, Copy, PartialEq, Eq, Structural, Debug)]
pub enum BmpInstId {
    /// A bitmap handle.
    Bmp(HBITMAP),
    /// A module instance and the ID of a bitmap resource in it.
    InstId(HINSTANCE, u16),
}

/// The bitmap that an instance handle and an ID stand for: the ID is a
/// bitmap handle when the instance is null.
pub open spec fn bmp_inst_id(hinst: HINSTANCE, id: usize) -> BmpInstId {
    if hinst.0 == 0 {
        BmpInstId::Bmp(HBITMAP(id))
    } else {
        BmpInstId::InstId(hinst, id as u16)
    }
}

/// What the fields set from `val` read back as: `val` itself, but for an
/// instance that is null, whose ID then reads as a bitmap handle.
pub open spec fn bmp_inst_id_stored(val: BmpInstId) -> BmpInstId {
    match val {
        BmpInstId::Bmp(h) => BmpInstId::Bmp(h),
        BmpInstId::InstId(hinst, id) => bmp_inst_id(hinst, id as usize),
    }
}

/// `TBREPLACEBITMAP` struct: a toolbar bitmap to replace, and its
/// replacement.
#[derive(Clone, Copy, Default, Debug)]
pub struct TBREPLACEBITMAP {
    hInstOld: HINSTANCE,
    nIDOld: usize,
    hInstNew: HINSTANCE,
    nIDNew: usize,
    pub nButtons: i32,
}

impl TBREPLACEBITMAP {
    /// The bitmap to replace.
    pub closed spec fn spec_olds(&self) -> BmpInstId {
        bmp_inst_id(self.hInstOld, self.nIDOld)
    }

    /// The number of buttons using the bitmap.
    pub closed spec fn spec_nButtons(&self) -> i32 {
        self.nButtons
    }

    /// The replacement bitmap.
    pub closed spec fn spec_news(&self) -> BmpInstId {
        bmp_inst_id(self.hInstNew, self.nIDNew)
    }

    /// Returns the `hInstOld` and `nIDOld` fields.
    pub fn olds(&self) -> (r: BmpInstId)
        ensures
            r == self.spec_olds(),
    {
        if self.hInstOld.0 == 0 {
            BmpInstId::Bmp(HBITMAP::from_ptr(self.nIDOld))
        } else {
            BmpInstId::InstId(self.hInstOld, self.nIDOld as u16)
        }
    }

    /// Sets the `hInstOld` and `nIDOld` fields.
    pub fn set_olds(&mut self, val: BmpInstId)
        ensures
            final(self).spec_olds() == bmp_inst_id_stored(val),
            final(self).spec_news() == old(self).spec_news(),
            final(self).spec_nButtons() == old(self).spec_nButtons(),
    {
        match val {
            BmpInstId::Bmp(hbmp) => {
                self.hInstOld = HINSTANCE::null();
                self.nIDOld = hbmp.ptr();
            },
            BmpInstId::InstId(hinst, id) => {
                self.hInstOld = hinst;
                self.nIDOld = id as usize;
            },
        }
    }

    /// Returns the `hInstNew` and `nIDNew` fields.
    pub fn news(&self) -> (r: BmpInstId)
        ensures
            r == self.spec_news(),
    {
        if self.hInstNew.0 == 0 {
            BmpInstId::Bmp(HBITMAP::from_ptr(self.nIDNew))
        } else {
            BmpInstId::InstId(self.hInstNew, self.nIDNew as u16)
        }
    }

    /// Sets the `hInstNew` and `nIDNew` fields.
    pub fn set_news(&mut self, val: BmpInstId)
        ensures
            final(self).spec_news() == bmp_inst_id_stored(val),
            final(self).spec_olds() == old(self).spec_olds(),
            final(self).spec_nButtons() == old(self).spec_nButtons(),
    {
        match val {
            BmpInstId::Bmp(hbmp) => {
                self.hInstNew = HINSTANCE::null();
                self.nIDNew = hbmp.ptr();
            },
            BmpInstId::InstId(hinst, id) => {
                self.hInstNew = hinst;
                self.nIDNew = id as usize;
            },
        }
    }
}

/// `BUTTON_IMAGELIST` struct: image list and alignment of a button's image.
#[derive(Clone, Copy, Default, Debug)]
pub struct BUTTON_IMAGELIST {
    pub himl: HIMAGELIST,
    pub margin: RECT,
    pub uAlign: u32,
}

/// `BUTTON_SPLITINFO` struct: settings of a split button.
#[derive(Clone, Copy, Default, Debug)]
pub struct BUTTON_SPLITINFO {
    pub mask: u32,
    pub himlGlyph: HIMAGELIST,
    pub uSplitStyle: u32,
    pub size: SIZE,
}

/// `COLORSCHEME` struct: colors used to draw buttons.
#[derive(Clone, Copy, Default, Debug)]
pub struct COLORSCHEME {
    pub clrBtnHighlight: COLORREF,
    pub clrBtnShadow: COLORREF,
}

/// `DATETIMEPICKERINFO` struct: parts and states of a date and time picker.
#[derive(Clone, Copy, Default, Debug)]
pub struct DATETIMEPICKERINFO {
    pub rcCheck: RECT,
    pub stateCheck: u32,
    pub rcButton: RECT,
    pub stateButton: u32,
    pub hwndEdit: HWND,
    pub hwndUD: HWND,
    pub hwndDropDown: HWND,
}

/// `HDHITTESTINFO` struct: position to hit-test in a header control.
#[derive(Clone, Copy, Default, Debug)]
pub struct HDHITTESTINFO {
    pub pt: POINT,
    pub flags: u32,
    pub iItem: i32,
}

/// `INITCOMMONCONTROLSEX` struct: classes of common controls to load.
#[derive(Clone, Copy, Default, Debug)]
pub struct INITCOMMONCONTROLSEX {
    pub icc: u32,
}

/// `LVGROUPMETRICS` struct: border sizes and colors of list view groups.
#[derive(Clone, Copy, Default, Debug)]
pub struct LVGROUPMETRICS {
    pub mask: u32,
    pub Left: u32,
    pub Top: u32,
    pub Right: u32,
    pub Bottom: u32,
    pub crLeft: COLORREF,
    pub crTop: COLORREF,
    pub crRight: COLORREF,
    pub crBottom: COLORREF,
    pub crHeader: COLORREF,
    pub crFooter: COLORREF,
}

/// `LVHITTESTINFO` struct: position to hit-test in a list view.
#[derive(Clone, Copy, Default, Debug)]
pub struct LVHITTESTINFO {
    pub pt: POINT,
    pub flags: u32,
    pub iItem: i32,
    pub iSubItem: i32,
    pub iGroup: i32,
}

/// `LVINSERTMARK` struct: insertion point of a list view.
#[derive(Clone, Copy, Default, Debug)]
pub struct LVINSERTMARK {
    pub dwFlags: u32,
    pub iItem: i32,
}

/// `LVITEMINDEX` struct: index of a list view item within its group.
#[derive(Clone, Copy, Default, Debug)]
pub struct LVITEMINDEX {
    pub iItem: i32,
    pub iGroup: i32,
}

/// `LVTILEVIEWINFO` struct: settings of a list view in tile view.
#[derive(Clone, Copy, Default, Debug)]
pub struct LVTILEVIEWINFO {
    pub dwMask: u32,
    pub dwFlags: u32,
    pub sizeTile: SIZE,
    pub cLines: i32,
    pub rcLabelMargin: RECT,
}

/// `MCHITTESTINFO` struct: position to hit-test in a month calendar.
#[derive(Clone, Copy, Default, Debug)]
pub struct MCHITTESTINFO {
    pub pt: POINT,
    pub uHit: u32,
    pub st: SYSTEMTIME,
    pub rc: RECT,
    pub iOffset: i32,
    pub iRow: i32,
    pub iCol: i32,
}

/// `NMBCDROPDOWN` struct: notification of a split button's drop-down arrow.
#[derive(Clone, Copy, Default, Debug)]
pub struct NMBCDROPDOWN {
    pub hdr: NMHDR,
    pub rcButton: RECT,
}

/// `NMBCHOTITEM` struct: notification of a button becoming hot.
#[derive(Clone, Copy, Default, Debug)]
pub struct NMBCHOTITEM {
    pub hdr: NMHDR,
    pub dwFlags: u32,
}

/// `NMCHAR` struct: notification of a character key.
#[derive(Clone, Copy, Default, Debug)]
pub struct NMCHAR {
    pub hdr: NMHDR,
    pub ch: u32,
    pub dwItemPrev: u32,
    pub dwItemNext: u32,
}

/// `NMCUSTOMDRAW` struct: custom draw notification.
#[derive(Clone, Copy, Default, Debug)]
pub struct NMCUSTOMDRAW {
    pub hdr: NMHDR,
    pub dwDrawStage: u32,
    pub hdc: HDC,
    pub rc: RECT,
    pub dwItemSpec: usize,
    pub uItemState: u32,
    pub lItemlParam: isize,
}

/// `NMDATETIMECHANGE` struct: notification of a date and time picker change.
#[derive(Clone, Copy, Default, Debug)]
pub struct NMDATETIMECHANGE {
    pub nmhdr: NMHDR,
    pub dwFlags: u32,
    pub st: SYSTEMTIME,
}

/// `NMHDFILTERBTNCLICK` struct: notification of a header filter button click.
#[derive(Clone, Copy, Default, Debug)]
pub struct NMHDFILTERBTNCLICK {
    pub hdr: NMHDR,
    pub iItem: i32,
    pub rc: RECT,
}

/// `NMITEMACTIVATE` struct: notification of a list view item activation.
#[derive(Clone, Copy, Default, Debug)]
pub struct NMITEMACTIVATE {
    pub hdr: NMHDR,
    pub iItem: i32,
    pub iSubItem: i32,
    pub uNewState: u32,
    pub uOldState: u32,
    pub uChanged: u32,
    pub ptAction: POINT,
    pub lParam: isize,
    pub uKeyFlags: u32,
}

/// `NMIPADDRESS` struct: notification of an IP address field change.
#[derive(Clone, Copy, Default, Debug)]
pub struct NMIPADDRESS {
    pub hdr: NMHDR,
    pub iField: i32,
    pub iValue: i32,
}

/// `NMLISTVIEW` struct: list view notification.
#[derive(Clone, Copy, Default, Debug)]
pub struct NMLISTVIEW {
    pub hdr: NMHDR,
    pub iItem: i32,
    pub iSubItem: i32,
    pub uNewState: u32,
    pub uOldState: u32,
    pub uChanged: u32,
    pub ptAction: POINT,
    pub lParam: isize,
}

/// `NMLVCACHEHINT` struct: notification of a list view cache range.
#[derive(Clone, Copy, Default, Debug)]
pub struct NMLVCACHEHINT {
    pub hdr: NMHDR,
    pub iFrom: i32,
    pub iTo: i32,
}

/// `NMLVCUSTOMDRAW` struct: list view custom draw notification.
#[derive(Clone, Copy, Default, Debug)]
pub struct NMLVCUSTOMDRAW {
    pub mcd: NMCUSTOMDRAW,
    pub clrText: COLORREF,
    pub clrTextBk: COLORREF,
    pub iSubItem: i32,
    pub dwItemType: u32,
    pub clrFace: COLORREF,
    pub iIconEffect: i32,
    pub iIconPhase: i32,
    pub iPartId: i32,
    pub iStateId: i32,
    pub rcText: RECT,
    pub uAlign: u32,
}

/// `NMLVKEYDOWN` struct: notification of a key pressed in a list view.
#[derive(Clone, Copy, Default, Debug)]
pub struct NMLVKEYDOWN {
    pub hdr: NMHDR,
    pub wVKey: u16,
}

/// `NMLVODSTATECHANGE` struct: notification of a state change of list view items.
#[derive(Clone, Copy, Default, Debug)]
pub struct NMLVODSTATECHANGE {
    pub hdr: NMHDR,
    pub iFrom: i32,
    pub iTo: i32,
    pub uNewState: u32,
    pub uOldState: u32,
}

/// `NMLVSCROLL` struct: notification of a list view scroll.
#[derive(Clone, Copy, Default, Debug)]
pub struct NMLVSCROLL {
    pub hdr: NMHDR,
    pub dx: i32,
    pub dy: i32,
}

/// `NMMOUSE` struct: notification of a mouse click.
#[derive(Clone, Copy, Default, Debug)]
pub struct NMMOUSE {
    pub hdr: NMHDR,
    pub dwItemSpec: usize,
    pub dwItemData: usize,
    pub pt: POINT,
    pub dwHitInfo: isize,
}

/// `NMTRBTHUMBPOSCHANGING` struct: notification of a trackbar thumb move.
#[derive(Clone, Copy, Default, Debug)]
pub struct NMTRBTHUMBPOSCHANGING {
    pub hdr: NMHDR,
    pub dwPos: u32,
    pub nReason: u32,
}

/// `NMSELCHANGE` struct: notification of a month calendar selection change.
#[derive(Clone, Copy, Default, Debug)]
pub struct NMSELCHANGE {
    pub nmhdr: NMHDR,
    pub stSelStart: SYSTEMTIME,
    pub stSelEnd: SYSTEMTIME,
}

/// `NMTCKEYDOWN` struct: notification of a key pressed in a tab control.
#[derive(Clone, Copy, Default, Debug)]
pub struct NMTCKEYDOWN {
    pub hdr: NMHDR,
    pub wVKey: u16,
    pub flags: u32,
}

/// `NMTVCUSTOMDRAW` struct: tree view custom draw notification.
#[derive(Clone, Copy, Default, Debug)]
pub struct NMTVCUSTOMDRAW {
    pub nmcd: NMCUSTOMDRAW,
    pub clrText: COLORREF,
    pub clrTextBk: COLORREF,
    pub iLevel: i32,
}

/// `NMTVITEMCHANGE` struct: notification of a tree view item change.
#[derive(Clone, Copy, Default, Debug)]
pub struct NMTVITEMCHANGE {
    pub hdr: NMHDR,
    pub uChanged: u32,
    pub hItem: HTREEITEM,
    pub uStateNew: u32,
    pub uStateOld: u32,
    pub lParam: isize,
}

/// `NMUPDOWN` struct: notification of an up-down control change.
#[derive(Clone, Copy, Default, Debug)]
pub struct NMUPDOWN {
    pub hdr: NMHDR,
    pub iPos: i32,
    pub iDelta: i32,
}

/// `NMVIEWCHANGE` struct: notification of a month calendar view change.
#[derive(Clone, Copy, Default, Debug)]
pub struct NMVIEWCHANGE {
    pub nmhdr: NMHDR,
    pub dwOldView: u32,
    pub dwNewView: u32,
}

/// `PBRANGE` struct: range of a progress bar.
#[derive(Clone, Copy, Default, Debug)]
pub struct PBRANGE {
    pub iLow: i32,
    pub iHigh: i32,
}

/// `TBINSERTMARK` struct: insertion mark of a toolbar.
#[derive(Clone, Copy, Default, Debug)]
pub struct TBINSERTMARK {
    pub iButton: i32,
    pub dwFlags: u32,
}

/// `TBMETRICS` struct: metrics of a toolbar.
#[derive(Clone, Copy, Default, Debug)]
pub struct TBMETRICS {
    pub dwMask: u32,
    pub cxPad: i32,
    pub cyPad: i32,
    pub cxBarPad: i32,
    pub cyBarPad: i32,
    pub cxButtonSpacing: i32,
    pub cyButtonSpacing: i32,
}

/// `TCHITTESTINFO` struct: position to hit-test in a tab control.
#[derive(Clone, Copy, Default, Debug)]
pub struct TCHITTESTINFO {
    pub pt: POINT,
    pub flags: u32,
}

/// `TVHITTESTINFO` struct: position to hit-test in a tree view.
#[derive(Clone, Copy, Default, Debug)]
pub struct TVHITTESTINFO {
    pub pt: POINT,
    pub flags: u32,
    pub hitem: HTREEITEM,
}

/// `UDACCEL` struct: acceleration step of an up-down control.
#[derive(Clone, Copy, Default, Debug)]
pub struct UDACCEL {
    pub nSec: u32,
    pub nInc: u32,
}

/// `NMLINK` struct: notification of a link click.
#[derive(Clone, Copy, Default, Debug)]
pub struct NMLINK {
    pub hdr: NMHDR,
    pub item: LITEM,
}

/// `NMLVLINK` struct: notification of a link clicked in a list view.
#[derive(Clone, Copy, Default, Debug)]
pub struct NMLVLINK {
    pub hdr: NMHDR,
    pub link: LITEM,
    pub iItem: i32,
    pub iSubItem: i32,
}

/// `LITEM` struct: a link in a SysLink control.
#[derive(Clone, Copy, Debug)]
pub struct LITEM {
    pub mask: u32,
    pub iLink: i32,
    pub state: u32,
    pub stateMask: u32,
    szID: [u16; MAX_LINKID_TEXT],
    szUrl: [u16; L_MAX_URL_LENGTH],
}

impl Default for LITEM {
    fn default() -> (r: LITEM)
        ensures
            r.spec_head() == (0u32, 0i32, 0u32, 0u32),
            r.spec_szID() == Seq::new(MAX_LINKID_TEXT as nat, |i: int| 0u16),
            r.spec_szUrl() == Seq::new(L_MAX_URL_LENGTH as nat, |i: int| 0u16),
    {
        let r = LITEM {
            mask: 0,
            iLink: 0,
            state: 0,
            stateMask: 0,
            szID: [0u16; MAX_LINKID_TEXT],
            szUrl: [0u16; L_MAX_URL_LENGTH],
        };
        assert(r.szID@ =~= Seq::new(MAX_LINKID_TEXT as nat, |i: int| 0u16));
        assert(r.szUrl@ =~= Seq::new(L_MAX_URL_LENGTH as nat, |i: int| 0u16));
        r
    }
}

impl LITEM {
    /// The `mask`, `iLink`, `state` and `stateMask` fields.
    pub closed spec fn spec_head(&self) -> (u32, i32, u32, u32) {
        (self.mask, self.iLink, self.state, self.stateMask)
    }

    /// The units of the `szID` field.
    pub closed spec fn spec_szID(&self) -> Seq<u16> {
        self.szID@
    }

    /// The units of the `szUrl` field.
    pub closed spec fn spec_szUrl(&self) -> Seq<u16> {
        self.szUrl@
    }

    /// Returns the `szID` field.
    pub fn szID(&self) -> (r: String)
        ensures
            r@ == utf16_lossy(text_units(self.spec_szID())),
    {
        string_from_arr(self.szID.as_slice())
    }

    /// Sets the `szID` field, cut to fit with its terminator.
    pub fn set_szID(&mut self, text: &str)
        ensures
            final(self).spec_szID() == str_arr_units(text@, MAX_LINKID_TEXT as nat),
            final(self).spec_szUrl() == old(self).spec_szUrl(),
    {
        copy_str_to_arr(text, &mut self.szID);
    }

    /// Returns the `szUrl` field.
    pub fn szUrl(&self) -> (r: String)
        ensures
            r@ == utf16_lossy(text_units(self.spec_szUrl())),
    {
        string_from_arr(self.szUrl.as_slice())
    }

    /// Sets the `szUrl` field, cut to fit with its terminator.
    pub fn set_szUrl(&mut self, text: &str)
        ensures
            final(self).spec_szUrl() == str_arr_units(text@, L_MAX_URL_LENGTH as nat),
            final(self).spec_szID() == old(self).spec_szID(),
    {
        copy_str_to_arr(text, &mut self.szUrl);
    }
}

/// `NMLVEMPTYMARKUP` struct: markup shown by an empty list view.
#[derive(Clone, Copy, Debug)]
pub struct NMLVEMPTYMARKUP {
    pub hdr: NMHDR,
    pub dwFlags: u32,
    szMarkup: [u16; L_MAX_URL_LENGTH],
}

impl Default for NMLVEMPTYMARKUP {
    /// All fields zero.
    fn default() -> (r: NMLVEMPTYMARKUP)
        ensures
            r.spec_szMarkup() == zeros(L_MAX_URL_LENGTH as nat),
    {
        let r = NMLVEMPTYMARKUP {
            hdr: NMHDR { hwndFrom: HWND(0), idFrom: 0, code: NmhdrCode(0) },
            dwFlags: 0,
            szMarkup: [0u16; L_MAX_URL_LENGTH],
        };
        assert(r.szMarkup@ =~= zeros(L_MAX_URL_LENGTH as nat));
        r
    }
}

impl NMLVEMPTYMARKUP {
    /// The units of the `szMarkup` field.
    pub closed spec fn spec_szMarkup(&self) -> Seq<u16> {
        self.szMarkup@
    }

    /// Returns the `szMarkup` field.
    pub fn szMarkup(&self) -> (r: String)
        ensures
            r@ == utf16_lossy(text_units(self.spec_szMarkup())),
    {
        string_from_arr(self.szMarkup.as_slice())
    }

    /// Sets the `szMarkup` field, cut to fit with its terminator.
    pub fn set_szMarkup(&mut self, text: &str)
        ensures
            final(self).spec_szMarkup() == str_arr_units(text@, L_MAX_URL_LENGTH as nat),
    {
        copy_str_to_arr(text, &mut self.szMarkup);
    }
}

/// `NMDATETIMEFORMAT` struct: a request for the text a date and time picker shows.
#[derive(Clone, Copy, Debug)]
pub struct NMDATETIMEFORMAT {
    pub nmhdr: NMHDR,
    pub st: SYSTEMTIME,
    szDisplay: [u16; 64],
}

impl Default for NMDATETIMEFORMAT {
    /// All fields zero.
    fn default() -> (r: NMDATETIMEFORMAT)
        ensures
            r.spec_szDisplay() == zeros(64 as nat),
    {
        let r = NMDATETIMEFORMAT {
            nmhdr: NMHDR { hwndFrom: HWND(0), idFrom: 0, code: NmhdrCode(0) },
            st: SYSTEMTIME {
                wYear: 0,
                wMonth: 0,
                wDayOfWeek: 0,
                wDay: 0,
                wHour: 0,
                wMinute: 0,
                wSecond: 0,
                wMilliseconds: 0,
            },
            szDisplay: [0u16; 64],
        };
        assert(r.szDisplay@ =~= zeros(64 as nat));
        r
    }
}

impl NMDATETIMEFORMAT {
    /// The units of the `szDisplay` field.
    pub closed spec fn spec_szDisplay(&self) -> Seq<u16> {
        self.szDisplay@
    }

    /// Returns the `szDisplay` field.
    pub fn pszDisplay(&self) -> (r: String)
        ensures
            r@ == utf16_lossy(text_units(self.spec_szDisplay())),
    {
        string_from_arr(self.szDisplay.as_slice())
    }

    /// Sets the `szDisplay` field, cut to fit with its terminator.
    pub fn set_pszDisplay(&mut self, text: &str)
        ensures
            final(self).spec_szDisplay() == str_arr_units(text@, 64 as nat),
    {
        copy_str_to_arr(text, &mut self.szDisplay);
    }
}


/// `TVITEM` struct: attributes of a tree view item.
#[derive(Clone, Copy, Default, Debug)]
pub struct TVITEM {
    pub mask: u32,
    pub hItem: HTREEITEM,
    pub state: u32,
    pub stateMask: u32,
    pub iImage: i32,
    pub iSelectedImage: i32,
    pub cChildren: i32,
    pub lParam: isize,
}

/// `TVITEMEX` struct: attributes of a tree view item, extended.
#[derive(Clone, Copy, Default, Debug)]
pub struct TVITEMEX {
    pub mask: u32,
    pub hItem: HTREEITEM,
    pub state: u32,
    pub stateMask: u32,
    pub iImage: i32,
    pub iSelectedImage: i32,
    pub cChildren: i32,
    pub lParam: isize,
    pub iIntegral: i32,
    pub uStateEx: u32,
    pub iExpandedImage: i32,
}

/// `NMTREEVIEW` struct: tree view notification.
#[derive(Clone, Copy, Default, Debug)]
pub struct NMTREEVIEW {
    pub hdr: NMHDR,
    pub action: u32,
    pub itemOld: TVITEM,
    pub itemNew: TVITEM,
    pub ptDrag: POINT,
}

/// Inserts a tree view item as the root.
pub const TVI_ROOT: isize = -0x10000;

/// Inserts a tree view item first among its siblings.
pub const TVI_FIRST: isize = -0x0FFFF;

/// Inserts a tree view item last among its siblings.
pub const TVI_LAST: isize = -0x0FFFE;

/// Inserts a tree view item in alphabetical order.
pub const TVI_SORT: isize = -0x0FFFD;

/// Where a tree view item is inserted: after an item, or at a special place.
#[derive(Clone, Copy, PartialEq, Eq, Structural, Debug)]
pub enum TreeitemTvi {
    /// After this item.
    Treeitem(HTREEITEM),
    /// At one of the places `TVI_ROOT`, `TVI_FIRST`, `TVI_LAST`, `TVI_SORT`.
    Tvi(isize),
}

/// Whether a value is one of the special insertion places.
pub open spec fn is_tvi(v: isize) -> bool {
    v == TVI_ROOT || v == TVI_FIRST || v == TVI_LAST || v == TVI_SORT
}

/// The insertion place that a raw value stands for.
pub open spec fn treeitem_tvi_of(v: isize) -> TreeitemTvi {
    if is_tvi(v) {
        TreeitemTvi::Tvi(v)
    } else {
        TreeitemTvi::Treeitem(HTREEITEM(v as usize))
    }
}

/// The raw value of an insertion place.
pub open spec fn treeitem_tvi_raw(t: TreeitemTvi) -> isize {
    match t {
        TreeitemTvi::Treeitem(h) => h.0 as isize,
        TreeitemTvi::Tvi(v) => v,
    }
}

impl TreeitemTvi {
    /// The insertion place that a raw value stands for.
    pub fn from_isize(v: isize) -> (r: TreeitemTvi)
        ensures
            r == treeitem_tvi_of(v),
    {
        if v == TVI_ROOT || v == TVI_FIRST || v == TVI_LAST || v == TVI_SORT {
            TreeitemTvi::Tvi(v)
        } else {
            TreeitemTvi::Treeitem(HTREEITEM::from_ptr(v as usize))
        }
    }

    /// The raw value of the insertion place.
    pub fn as_isize(&self) -> (r: isize)
        ensures
            r == treeitem_tvi_raw(*self),
    {
        match self {
            TreeitemTvi::Treeitem(h) => h.ptr() as isize,
            TreeitemTvi::Tvi(v) => *v,
        }
    }
}

/// `TVINSERTSTRUCT` struct: a tree view item to insert, and where.
#[derive(Clone, Copy, Default, Debug)]
pub struct TVINSERTSTRUCT {
    pub hParent: HTREEITEM,
    hInsertAfter: isize,
    pub itemex: TVITEMEX,
}

impl TVINSERTSTRUCT {
    /// The raw `hInsertAfter` field.
    pub closed spec fn spec_hInsertAfter(&self) -> isize {
        self.hInsertAfter
    }

    /// The same struct with another raw `hInsertAfter`.
    pub closed spec fn spec_with_hInsertAfter(&self, v: isize) -> TVINSERTSTRUCT {
        TVINSERTSTRUCT { hInsertAfter: v, ..*self }
    }

    /// Returns the `hInsertAfter` field.
    pub fn hInsertAfter(&self) -> (r: TreeitemTvi)
        ensures
            r == treeitem_tvi_of(self.spec_hInsertAfter()),
    {
        TreeitemTvi::from_isize(self.hInsertAfter)
    }

    /// Sets the `hInsertAfter` field.
    pub fn set_hInsertAfter(&mut self, val: TreeitemTvi)
        ensures
            *final(self) == old(self).spec_with_hInsertAfter(treeitem_tvi_raw(val)),
            final(self).spec_hInsertAfter() == treeitem_tvi_raw(val),
    {
        self.hInsertAfter = val.as_isize();
    }
}

/// An insertion place reads back as it was set: a special place, or an item
/// whose handle value fits the signed field.
pub proof fn lemma_insert_after_round_trip(t: TreeitemTvi)
    requires
        match t {
            TreeitemTvi::Treeitem(h) => h.0 <= isize::MAX,
            TreeitemTvi::Tvi(v) => is_tvi(v),
        },
    ensures
        treeitem_tvi_of(treeitem_tvi_raw(t)) == t,
{
}

} // verus!
