//! Native handles, held as the address values Windows gives out, and the
//! small geometry and time structs that other structs embed.

use vstd::prelude::*;

verus! {

/// Handle to a window, held as its raw address value.
#[derive(Clone, Copy, PartialEq, Eq, Structural, Debug, Default)]
pub struct HWND(pub usize);

impl HWND {
    /// The null handle.
    pub fn null() -> (r: HWND)
        ensures
            r.0 == 0,
    {
        HWND(0)
    }

    /// Wraps a raw handle value.
    pub fn from_ptr(p: usize) -> (r: HWND)
        ensures
            r.0 == p,
    {
        HWND(p)
    }

    /// The raw handle value.
    pub fn ptr(&self) -> (r: usize)
        ensures
            r == self.0,
    {
        self.0
    }

    /// Whether this is the null handle.
    pub fn is_null(&self) -> (r: bool)
        ensures
            r == (self.0 == 0),
    {
        self.0 == 0
    }

    /// The raw value of a handle.
    pub open spec fn raw(&self) -> usize {
        self.0
    }
}

/// Handle to an icon, held as its raw address value.
#[derive(Clone, Copy, PartialEq, Eq, Structural, Debug, Default)]
pub struct HICON(pub usize);

impl HICON {
    /// The null handle.
    pub fn null() -> (r: HICON)
        ensures
            r.0 == 0,
    {
        HICON(0)
    }

    /// Wraps a raw handle value.
    pub fn from_ptr(p: usize) -> (r: HICON)
        ensures
            r.0 == p,
    {
        HICON(p)
    }

    /// The raw handle value.
    pub fn ptr(&self) -> (r: usize)
        ensures
            r == self.0,
    {
        self.0
    }

    /// Whether this is the null handle.
    pub fn is_null(&self) -> (r: bool)
        ensures
            r == (self.0 == 0),
    {
        self.0 == 0
    }

    /// The raw value of a handle.
    pub open spec fn raw(&self) -> usize {
        self.0
    }
}

/// Handle to a bitmap, held as its raw address value.
#[derive(Clone, Copy, PartialEq, Eq, Structural, Debug, Default)]
pub struct HBITMAP(pub usize);

impl HBITMAP {
    /// The null handle.
    pub fn null() -> (r: HBITMAP)
        ensures
            r.0 == 0,
    {
        HBITMAP(0)
    }

    /// Wraps a raw handle value.
    pub fn from_ptr(p: usize) -> (r: HBITMAP)
        ensures
            r.0 == p,
    {
        HBITMAP(p)
    }

    /// The raw handle value.
    pub fn ptr(&self) -> (r: usize)
        ensures
            r == self.0,
    {
        self.0
    }

    /// Whether this is the null handle.
    pub fn is_null(&self) -> (r: bool)
        ensures
            r == (self.0 == 0),
    {
        self.0 == 0
    }

    /// The raw value of a handle.
    pub open spec fn raw(&self) -> usize {
        self.0
    }
}

/// Handle to a module instance, held as its raw address value.
#[derive(Clone, Copy, PartialEq, Eq, Structural, Debug, Default)]
pub struct HINSTANCE(pub usize);

impl HINSTANCE {
    /// The null handle.
    pub fn null() -> (r: HINSTANCE)
        ensures
            r.0 == 0,
    {
        HINSTANCE(0)
    }

    /// Wraps a raw handle value.
    pub fn from_ptr(p: usize) -> (r: HINSTANCE)
        ensures
            r.0 == p,
    {
        HINSTANCE(p)
    }

    /// The raw handle value.
    pub fn ptr(&self) -> (r: usize)
        ensures
            r == self.0,
    {
        self.0
    }

    /// Whether this is the null handle.
    pub fn is_null(&self) -> (r: bool)
        ensures
            r == (self.0 == 0),
    {
        self.0 == 0
    }

    /// The raw value of a handle.
    pub open spec fn raw(&self) -> usize {
        self.0
    }
}

/// Handle to a tree-view item, held as its raw address value.
#[derive(Clone, Copy, PartialEq, Eq, Structural, Debug, Default)]
pub struct HTREEITEM(pub usize);

impl HTREEITEM {
    /// The null handle.
    pub fn null() -> (r: HTREEITEM)
        ensures
            r.0 == 0,
    {
        HTREEITEM(0)
    }

    /// Wraps a raw handle value.
    pub fn from_ptr(p: usize) -> (r: HTREEITEM)
        ensures
            r.0 == p,
    {
        HTREEITEM(p)
    }

    /// The raw handle value.
    pub fn ptr(&self) -> (r: usize)
        ensures
            r == self.0,
    {
        self.0
    }

    /// Whether this is the null handle.
    pub fn is_null(&self) -> (r: bool)
        ensures
            r == (self.0 == 0),
    {
        self.0 == 0
    }

    /// The raw value of a handle.
    pub open spec fn raw(&self) -> usize {
        self.0
    }
}

/// Handle to an image list, held as its raw address value.
#[derive(Clone, Copy, PartialEq, Eq, Structural, Debug, Default)]
pub struct HIMAGELIST(pub usize);

impl HIMAGELIST {
    /// The null handle.
    pub fn null() -> (r: HIMAGELIST)
        ensures
            r.0 == 0,
    {
        HIMAGELIST(0)
    }

    /// Wraps a raw handle value.
    pub fn from_ptr(p: usize) -> (r: HIMAGELIST)
        ensures
            r.0 == p,
    {
        HIMAGELIST(p)
    }

    /// The raw handle value.
    pub fn ptr(&self) -> (r: usize)
        ensures
            r == self.0,
    {
        self.0
    }

    /// Whether this is the null handle.
    pub fn is_null(&self) -> (r: bool)
        ensures
            r == (self.0 == 0),
    {
        self.0 == 0
    }

    /// The raw value of a handle.
    pub open spec fn raw(&self) -> usize {
        self.0
    }
}

/// Handle to a device context, held as its raw address value.
#[derive(Clone, Copy, PartialEq, Eq, Structural, Debug, Default)]
pub struct HDC(pub usize);

impl HDC {
    /// The null handle.
    pub fn null() -> (r: HDC)
        ensures
            r.0 == 0,
    {
        HDC(0)
    }

    /// Wraps a raw handle value.
    pub fn from_ptr(p: usize) -> (r: HDC)
        ensures
            r.0 == p,
    {
        HDC(p)
    }

    /// The raw handle value.
    pub fn ptr(&self) -> (r: usize)
        ensures
            r == self.0,
    {
        self.0
    }

    /// Whether this is the null handle.
    pub fn is_null(&self) -> (r: bool)
        ensures
            r == (self.0 == 0),
    {
        self.0 == 0
    }

    /// The raw value of a handle.
    pub open spec fn raw(&self) -> usize {
        self.0
    }
}

/// A point, in pixels.
#[derive(Clone, Copy, PartialEq, Eq, Structural, Debug, Default)]
pub struct POINT {
    pub x: i32,
    pub y: i32,
}

impl POINT {
    /// The point at `x`, `y`.
    pub fn with(x: i32, y: i32) -> (r: POINT)
        ensures
            r.x == x && r.y == y,
    {
        POINT { x, y }
    }
}

/// A width and a height, in pixels.
#[derive(Clone, Copy, PartialEq, Eq, Structural, Debug, Default)]
pub struct SIZE {
    pub cx: i32,
    pub cy: i32,
}

impl SIZE {
    /// The size `cx` by `cy`.
    pub fn with(cx: i32, cy: i32) -> (r: SIZE)
        ensures
            r.cx == cx && r.cy == cy,
    {
        SIZE { cx, cy }
    }
}

/// A rectangle, by its edges.
#[derive(Clone, Copy, PartialEq, Eq, Structural, Debug, Default)]
pub struct RECT {
    pub left: i32,
    pub top: i32,
    pub right: i32,
    pub bottom: i32,
}

/// A date and time, field by field.
#[derive(Clone, Copy, PartialEq, Eq, Structural, Debug, Default)]
pub struct SYSTEMTIME {
    pub wYear: u16,
    pub wMonth: u16,
    pub wDayOfWeek: u16,
    pub wDay: u16,
    pub wHour: u16,
    pub wMinute: u16,
    pub wSecond: u16,
    pub wMilliseconds: u16,
}

/// A color as red, green and blue bytes packed into a `u32`.
#[derive(Clone, Copy, PartialEq, Eq, Structural, Debug, Default)]
pub struct COLORREF(pub u32);

/// A globally unique identifier.
#[derive(Clone, Copy, PartialEq, Eq, Debug, Default)]
pub struct GUID {
    pub data1: u32,
    pub data2: u16,
    pub data3: u16,
    pub data4: [u8; 8],
}

} // verus!
