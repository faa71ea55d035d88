use heim_process::name::name_end;
use heim_process::{short_name, Status};

#[test]
fn known_raw_states() {
    assert_eq!(Status::from_raw(1), Some(Status::Idle));
    assert_eq!(Status::from_raw(2), Some(Status::Running));
    assert_eq!(Status::from_raw(3), Some(Status::Sleeping));
    assert_eq!(Status::from_raw(4), Some(Status::Stopped));
    assert_eq!(Status::from_raw(5), Some(Status::Zombie));
}

#[test]
fn unknown_raw_states_are_not_guessed() {
    for code in i8::MIN..=i8::MAX {
        if !(1..=5).contains(&code) {
            assert_eq!(Status::from_raw(code), None);
        }
    }
}

#[test]
fn name_ends_at_first_nul() {
    assert_eq!(name_end(&vec![b'a', b'b', 0, b'c', 0]), 2);
    assert_eq!(name_end(&vec![0, b'a']), 0);
    assert_eq!(name_end(&vec![]), 0);
    assert_eq!(name_end(&vec![b'a', b'b', b'c']), 3);
}

#[test]
fn short_name_of_padded_buffer() {
    let mut comm = vec![0u8; 17];
    comm[..5].copy_from_slice(b"launc");
    assert_eq!(short_name(&comm), "launc");
}

#[test]
fn short_name_ignores_what_follows_the_nul() {
    assert_eq!(short_name(&vec![b's', b'h', 0, b'x', b'y', 0]), "sh");
}

#[test]
fn short_name_of_buffer_without_nul_is_the_whole_buffer() {
    assert_eq!(short_name(&vec![b'i', b'n', b'i', b't']), "init");
}

#[test]
fn short_name_of_empty_buffer_is_empty() {
    assert_eq!(short_name(&vec![]), "");
    assert_eq!(short_name(&vec![0, 0, 0]), "");
}

#[test]
fn short_name_decodes_utf8() {
    // "é" is 0xC3 0xA9.
    assert_eq!(short_name(&vec![b'c', b'a', b'f', 0xC3, 0xA9, 0]), "caf\u{e9}");
}

#[test]
fn short_name_replaces_malformed_bytes() {
    assert_eq!(short_name(&vec![b'a', 0xFF, b'b', 0]), "a\u{FFFD}b");
    assert_eq!(short_name(&vec![0xC3, 0]), "\u{FFFD}");
}
