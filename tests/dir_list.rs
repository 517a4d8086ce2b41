use winsafe::dir_list::{rtrim_backslash, DirList, DirListAction, DirListEvent, DirListOutput};

#[test]
fn trims_one_trailing_backslash() {
    assert_eq!(rtrim_backslash("C:\\Temp\\"), "C:\\Temp");
    assert_eq!(rtrim_backslash("C:\\Temp"), "C:\\Temp");
    assert_eq!(rtrim_backslash("C:\\Temp\\\\"), "C:\\Temp\\");
    assert_eq!(rtrim_backslash(""), "");
}

#[test]
fn listing_runs_its_course() {
    let mut list = DirList::new("C:\\Temp\\", None);
    match list.next_action() {
        DirListAction::FindFirst(p) => assert_eq!(p, "C:\\Temp\\*"),
        _ => panic!("expected a first search"),
    }
    assert!(matches!(list.on_event(DirListEvent::Found(".".to_owned())), DirListOutput::Skip));
    assert!(matches!(list.next_action(), DirListAction::FindNext));
    assert!(matches!(list.on_event(DirListEvent::Found("..".to_owned())), DirListOutput::Skip));
    match list.on_event(DirListEvent::Found("a.txt".to_owned())) {
        DirListOutput::Entry(p) => assert_eq!(p, "C:\\Temp\\a.txt"),
        _ => panic!("expected an entry"),
    }
    match list.on_event(DirListEvent::Found("...".to_owned())) {
        DirListOutput::Entry(p) => assert_eq!(p, "C:\\Temp\\..."),
        _ => panic!("expected an entry"),
    }
    assert!(matches!(list.on_event(DirListEvent::NotFound), DirListOutput::End));
}

#[test]
fn listing_with_filter_and_error() {
    let mut list = DirList::new("D:\\data", Some("*.mp3"));
    match list.next_action() {
        DirListAction::FindFirst(p) => assert_eq!(p, "D:\\data\\*.mp3"),
        _ => panic!("expected a first search"),
    }
    assert!(matches!(list.on_event(DirListEvent::Failed(5)), DirListOutput::Error(5)));
    assert!(matches!(list.next_action(), DirListAction::Done));
}
