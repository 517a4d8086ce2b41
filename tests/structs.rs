use winsafe::comctl_structs::{BmpInstId, NmhdrCode, LITEM, MONTHDAYSTATE, NMDATETIMEFORMAT, NMHDR, NMLVEMPTYMARKUP, TBREPLACEBITMAP, MAX_LINKID_TEXT};
use winsafe::comctl_structs::{TreeitemTvi, TVINSERTSTRUCT, TVI_FIRST, TVI_ROOT, TVI_SORT};
use winsafe::handles::{HBITMAP, HINSTANCE, HTREEITEM, HWND};
use winsafe::privs::{str_to_iso88591, string_from_arr, copy_str_to_arr};
use winsafe::shell_structs::{NOTIFYICONDATA, SHFILEINFO, SHSTOCKICONINFO};
use winsafe::WString;

#[test]
fn month_day_state_bits() {
    let mut m = MONTHDAYSTATE::default();
    m.set_day(0, true);
    m.set_day(31, true);
    assert!(m.get_day(0));
    assert!(m.get_day(31));
    assert!(!m.get_day(15));
    assert_eq!(m.0, 0x8000_0001);
    m.set_day(0, false);
    assert_eq!(m.0, 0x8000_0000);
}

#[test]
fn nmhdr_id_and_code() {
    let mut h = NMHDR::default();
    h.set_idFrom(1234);
    assert_eq!(h.idFrom(), 1234);
    h.code = NmhdrCode::from(-101);
    assert_eq!(h.code.raw(), -101);
    assert_eq!(NmhdrCode::from_code(7).raw(), 7);
    h.hwndFrom = HWND::from_ptr(0x10);
    assert_eq!(h.idFrom(), 1234);
}

#[test]
fn tbreplacebitmap_pairs() {
    let mut t = TBREPLACEBITMAP::default();
    t.set_olds(BmpInstId::Bmp(HBITMAP::from_ptr(0x55)));
    t.set_news(BmpInstId::InstId(HINSTANCE::from_ptr(0x1000), 42));
    assert_eq!(t.olds(), BmpInstId::Bmp(HBITMAP::from_ptr(0x55)));
    assert_eq!(t.news(), BmpInstId::InstId(HINSTANCE::from_ptr(0x1000), 42));
    t.set_news(BmpInstId::InstId(HINSTANCE::null(), 9));
    assert_eq!(t.news(), BmpInstId::Bmp(HBITMAP::from_ptr(9)));
}

#[test]
fn litem_text_fields() {
    let mut item = LITEM::default();
    assert_eq!(item.szID(), "");
    item.set_szID("link-1");
    item.set_szUrl("https://example.com/");
    assert_eq!(item.szID(), "link-1");
    assert_eq!(item.szUrl(), "https://example.com/");
    let long = "x".repeat(100);
    item.set_szID(&long);
    assert_eq!(item.szID(), "x".repeat(MAX_LINKID_TEXT - 1));
    assert_eq!(item.szUrl(), "https://example.com/");
}

#[test]
fn text_fields_of_other_structs() {
    let mut d = NMDATETIMEFORMAT::default();
    d.set_pszDisplay("Monday");
    assert_eq!(d.pszDisplay(), "Monday");
    let mut e = NMLVEMPTYMARKUP::default();
    e.set_szMarkup("<a>nothing</a>");
    assert_eq!(e.szMarkup(), "<a>nothing</a>");
    let mut n = NOTIFYICONDATA::default();
    n.set_szTip("tip");
    n.set_szInfo("info");
    n.set_szInfoTitle("title");
    assert_eq!((n.szTip(), n.szInfo(), n.szInfoTitle()), ("tip".to_owned(), "info".to_owned(), "title".to_owned()));
    let mut f = SHFILEINFO::default();
    f.set_szDisplayName("file.txt");
    f.set_szTypeName("Text Document");
    assert_eq!(f.szDisplayName(), "file.txt");
    assert_eq!(f.szTypeName(), "Text Document");
    let mut s = SHSTOCKICONINFO::default();
    s.set_szPath("C:\\icons");
    assert_eq!(s.szPath(), "C:\\icons");
}

#[test]
fn fixed_arrays_round_trip() {
    let mut arr = [0xFFFFu16; 6];
    copy_str_to_arr("héllo, world", &mut arr);
    assert_eq!(arr, [0x68, 0xE9, 0x6C, 0x6C, 0x6F, 0]);
    assert_eq!(string_from_arr(&arr), "héllo");
    assert_eq!(string_from_arr(&[]), "");
}

#[test]
fn iso88591_bytes() {
    assert_eq!(str_to_iso88591("aé"), vec![0x61, 0xE9, 0]);
    assert_eq!(str_to_iso88591(""), vec![0]);
    assert_eq!(str_to_iso88591("€"), vec![0xAC, 0]);
}

#[test]
fn case_mapping_in_place() {
    let mut w = WString::from_str("Hello, Ação ÉCOLE");
    w.make_lowercase();
    assert_eq!(w.to_string(), "hello, ação école");
    w.make_uppercase();
    assert_eq!(w.to_string(), "HELLO, AÇÃO ÉCOLE");
    let mut g = WString::from_str("ΣΊΣΥΦΟΣ 𐐨");
    g.make_lowercase();
    assert_eq!(g.to_string(), "σίσυφοσ 𐐨");
    g.make_uppercase();
    assert_eq!(g.to_string(), "ΣΊΣΥΦΟΣ 𐐀");
    let mut e = WString::new();
    e.make_uppercase();
    assert!(!e.is_allocated());
}

#[test]
fn case_mapping_keeps_length() {
    let mut w = WString::from_str("straße İ");
    w.make_uppercase();
    assert_eq!(w.to_string(), "STRAßE İ");
    w.make_lowercase();
    assert_eq!(w.str_len(), 8);
    assert_eq!(w.to_string(), "straße İ");
}

#[test]
fn tree_view_insert_after() {
    let mut ins = TVINSERTSTRUCT::default();
    assert_eq!(ins.hInsertAfter(), TreeitemTvi::Treeitem(HTREEITEM::from_ptr(0)));
    ins.set_hInsertAfter(TreeitemTvi::Tvi(TVI_ROOT));
    assert_eq!(ins.hInsertAfter(), TreeitemTvi::Tvi(TVI_ROOT));
    ins.set_hInsertAfter(TreeitemTvi::Treeitem(HTREEITEM::from_ptr(0x1234)));
    assert_eq!(ins.hInsertAfter(), TreeitemTvi::Treeitem(HTREEITEM::from_ptr(0x1234)));
    assert_eq!(TreeitemTvi::from_isize(-0x0FFFF), TreeitemTvi::Tvi(TVI_FIRST));
    assert_eq!(TreeitemTvi::Tvi(TVI_SORT).as_isize(), -0x0FFFD);
}
