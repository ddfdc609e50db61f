use mdbx_browse::browser::{Browser, CursorEvent, DISPLAY_WINDOW};
use mdbx_browse::errors::BrowseError;

/// Drives a browse session from a table's entries the way the event loop
/// does: the cursor is only consulted while the session wants more, so the
/// number of entries taken from `table` says how far the cursor ever moved.
fn drive(table: Vec<(Vec<u8>, Vec<u8>)>) -> (Result<Vec<(String, String)>, BrowseError>, usize) {
    let mut cursor = table.into_iter();
    let mut touched = 0;
    let mut browser = Browser::new();
    while browser.wants_next() {
        let event = match cursor.next() {
            Some((k, v)) => {
                touched += 1;
                CursorEvent::Entry(k, v)
            }
            None => CursorEvent::End,
        };
        if let Err(e) = browser.step(event) {
            return (Err(e), touched);
        }
    }
    (Ok(browser.into_entries()), touched)
}

#[test]
fn fresh_session_wants_entries() {
    let browser = Browser::new();
    assert!(browser.wants_next());
}

#[test]
fn empty_table_yields_nothing() {
    let (entries, touched) = drive(vec![]);
    assert_eq!(entries.unwrap(), vec![]);
    assert_eq!(touched, 0);
}

#[test]
fn two_entries_rendered_in_order() {
    let table = vec![(vec![0x01], vec![0xff]), (vec![0x02], vec![0xab])];
    let entries = drive(table).0.unwrap();
    assert_eq!(
        entries,
        vec![
            ("01".to_string(), "ff".to_string()),
            ("02".to_string(), "ab".to_string())
        ]
    );
}

#[test]
fn window_caps_at_twenty_and_never_touches_the_rest() {
    let table: Vec<(Vec<u8>, Vec<u8>)> = (0u8..25).map(|k| (vec![k], vec![k])).collect();
    let (entries, touched) = drive(table);
    let entries = entries.unwrap();
    assert_eq!(entries.len(), 20);
    assert_eq!(DISPLAY_WINDOW, 20);
    assert_eq!(touched, 20);
    assert_eq!(entries[0].0, "00");
    assert_eq!(entries[19].0, "13");
}

#[test]
fn keys_stay_in_nondecreasing_order() {
    let table: Vec<(Vec<u8>, Vec<u8>)> = vec![
        (vec![], vec![0x01]),
        (vec![0x00], vec![0x02]),
        (vec![0x00, 0x01], vec![0x03]),
        (vec![0x10], vec![0x04]),
        (vec![0x10], vec![0x05]),
        (vec![0xff, 0xff], vec![0x06]),
    ];
    let entries = drive(table).0.unwrap();
    let decoded: Vec<Vec<u8>> = entries
        .iter()
        .map(|(k, _)| mdbx_browse::codec::decode_hex(k).unwrap())
        .collect();
    for pair in decoded.windows(2) {
        assert!(pair[0] <= pair[1]);
    }
}

#[test]
fn cursor_fault_is_a_cursor_error() {
    let mut browser = Browser::new();
    browser
        .step(CursorEvent::Entry(vec![0x01], vec![0x02]))
        .unwrap();
    let r = browser.step(CursorEvent::Fault);
    assert_eq!(r, Err(BrowseError::CursorError));
    assert!(!browser.wants_next());
}

#[test]
fn end_closes_the_session() {
    let mut browser = Browser::new();
    browser
        .step(CursorEvent::Entry(vec![0xde, 0xad], vec![0xbe, 0xef]))
        .unwrap();
    assert_eq!(browser.step(CursorEvent::End), Ok(false));
    assert!(!browser.wants_next());
    assert_eq!(
        browser.into_entries(),
        vec![("dead".to_string(), "beef".to_string())]
    );
}

#[test]
fn entry_values_round_trip_through_hex() {
    let key = vec![0x00, 0x10, 0xfe];
    let value = vec![0x7f, 0x80, 0x81];
    let table = vec![(key.clone(), value.clone())];
    let entries = drive(table).0.unwrap();
    assert_eq!(mdbx_browse::codec::decode_hex(&entries[0].0), Some(key));
    assert_eq!(mdbx_browse::codec::decode_hex(&entries[0].1), Some(value));
}
