use sc_session::{
    collect_readers, handle_acquired, open_card, open_context, reader_at, set_flag, Error,
    Release,
};
use std::cell::Cell;

#[test]
fn acquisition_needs_status_and_handle() {
    assert!(handle_acquired(0, false));
    assert!(handle_acquired(3, false));
    assert!(!handle_acquired(-1, false));
    assert!(!handle_acquired(0, true));
    assert!(!handle_acquired(-1, true));
}

#[test]
fn context_created_with_handle() {
    let r = open_context(0, 0x1000usize, false, |_| -> String {
        panic!("no diagnostic on success")
    });
    assert!(matches!(r, Ok(0x1000)));
}

#[test]
fn context_null_handle_with_zero_status_fails() {
    let r = open_context(0, 0usize, true, |s| format!("stub status {}", s));
    match r {
        Err(Error::InitializationError(text)) => assert_eq!(text, "stub status 0"),
        other => panic!("unexpected {:?}", other),
    }
}

#[test]
fn context_negative_status_fails() {
    let r = open_context(-1101, 0x1000usize, false, |_| "Card not present".to_string());
    match r {
        Err(Error::InitializationError(text)) => assert_eq!(text, "Card not present"),
        other => panic!("unexpected {:?}", other),
    }
}

#[test]
fn connect_with_card_present() {
    let r = open_card(0, 0x2000usize, false, |_| -> String { panic!("no diagnostic") });
    assert!(matches!(r, Ok(0x2000)));
}

#[test]
fn connect_without_card_fails() {
    let r = open_card(0, 0usize, true, |_| "Card not present".to_string());
    match r {
        Err(Error::ConnectionError(text)) => assert_eq!(text, "Card not present"),
        other => panic!("unexpected {:?}", other),
    }
}

#[test]
fn connect_negative_status_embeds_diagnostic() {
    let r = open_card(-1104, 0usize, true, |s| format!("stub: code {}", s));
    match r {
        Err(Error::ConnectionError(text)) => assert_eq!(text, "stub: code -1104"),
        other => panic!("unexpected {:?}", other),
    }
}

#[test]
fn reader_lookup_outcomes() {
    assert!(matches!(reader_at(4, 0x30usize, false), Ok(0x30)));
    assert!(matches!(reader_at(4, 0usize, true), Err(Error::ReaderUnavailable(4))));
}

#[test]
fn all_readers_in_index_order() {
    let r = collect_readers(2, |i| Ok(i));
    assert_eq!(r.unwrap(), vec![0u32, 1u32]);
}

#[test]
fn all_readers_empty_when_none() {
    let r = collect_readers(0, |_| -> Result<u32, Error> { panic!("no lookup expected") });
    assert!(r.unwrap().is_empty());
}

#[test]
fn all_readers_stop_at_first_failure() {
    let calls = Cell::new(0u32);
    let r = collect_readers(3, |i| {
        calls.set(calls.get() + 1);
        if i == 1 {
            Err(Error::ReaderUnavailable(i))
        } else {
            Ok(i)
        }
    });
    assert!(matches!(r, Err(Error::ReaderUnavailable(1))));
    assert_eq!(calls.get(), 2);
}

#[test]
fn default_driver_flag_is_idempotent() {
    let once = set_flag(0x10, 0x08);
    assert_eq!(once, 0x18);
    assert_eq!(set_flag(once, 0x08), once);
    assert_eq!(set_flag(0x08, 0x08), 0x08);
}

#[test]
fn release_fires_exactly_once() {
    let mut latch = Release::armed();
    assert!(latch.pending());
    let mut fired = 0u32;
    for _ in 0..3 {
        if latch.fire() {
            fired += 1;
        }
    }
    assert_eq!(fired, 1);
    assert!(!latch.pending());
}
