use std::collections::VecDeque;

use lc3_backend::io::{
    clear_input, clear_output, get_and_clear_output, InputError, InvalidText, PrintBuffer,
};
use lc3_backend::loading::{
    check_load, malformed_report, object_encoding, undecodable_report, LoadError, ObjEncoding,
};
use lc3_backend::notices::{assembled_message, common_ancestor, display_path, linked_message};
use lc3_backend::text::push_hex4;

fn path(components: &[&str]) -> Vec<String> {
    components.iter().map(|c| c.to_string()).collect()
}

#[test]
fn print_buffer_collects_text() {
    let mut buffer = PrintBuffer::new();
    assert_eq!(buffer.take(), "");
    assert_eq!(buffer.write(b"hello"), Ok(5));
    assert_eq!(buffer.write(b""), Ok(0));
    assert_eq!(buffer.write(", w\u{f6}rld".as_bytes()), Ok(8));
    buffer.flush();
    assert_eq!(buffer.take(), "hello, w\u{f6}rld");
    assert_eq!(buffer.take(), "");
}

#[test]
fn print_buffer_refuses_broken_text() {
    let mut buffer = PrintBuffer::new();
    assert_eq!(buffer.write(b"ok"), Ok(2));
    assert_eq!(buffer.write(&[0x66, 0xFF, 0x67]), Err(InvalidText));
    assert_eq!(buffer.write(&[0xC3]), Err(InvalidText));
    assert_eq!(buffer.take(), "ok");
}

#[test]
fn input_buffer_is_cleared() {
    let mut keys = VecDeque::from(vec![b'q']);
    clear_input(&mut keys);
    assert!(keys.is_empty());
    assert_eq!(InputError::InvalidInput.message(), "more than one byte was sent at once");
}

#[test]
fn output_is_read_leniently_and_cleared() {
    let mut out = b"Hi \xE2\x9C\x93".to_vec();
    assert_eq!(get_and_clear_output(&mut out), "Hi \u{2713}");
    assert!(out.is_empty());
    let mut out = vec![b'a', 0xFF, b'b'];
    assert_eq!(get_and_clear_output(&mut out), "a\u{FFFD}b");
    assert!(out.is_empty());
    let mut out = b"gone".to_vec();
    clear_output(&mut out);
    assert!(out.is_empty());
}

#[test]
fn text_is_tried_before_binary() {
    assert!(matches!(object_encoding(b"LC-3 OBJ FILE".to_vec()), ObjEncoding::Text(s) if s == "LC-3 OBJ FILE"));
    assert!(matches!(object_encoding(vec![]), ObjEncoding::Text(s) if s.is_empty()));
    assert!(matches!(object_encoding(b"obj\x21\x10\x00\x01".to_vec()), ObjEncoding::Text(s) if s == "obj!\u{10}\0\u{1}"));
    let binary = vec![b'o', b'b', b'j', 0x21, 0x10, 0x00, 0x01, 0x00, 0x00, 0x30, 0x01, 0x00, 0xFF, 0x25, 0xF0];
    assert!(matches!(object_encoding(binary.clone()), ObjEncoding::Binary(b) if b == binary));
}

#[test]
fn programs_stay_out_of_reserved_memory() {
    let user = vec![(0x3000, Some(1)), (0x3001, None), (0xFDFF, Some(2))];
    assert_eq!(check_load(&user, false), Ok(()));
    assert_eq!(check_load(&vec![], false), Ok(()));
    for addr in [0x0000u16, 0x01FF, 0x2FFF, 0xFE00, 0xFFFF] {
        let words = vec![(0x3000, Some(1)), (addr, None)];
        assert_eq!(check_load(&words, false), Err(LoadError::OverlapWithReserved));
        assert_eq!(check_load(&words, true), Ok(()));
    }
}

#[test]
fn common_ancestor_is_the_shared_lead() {
    assert_eq!(common_ancestor(&vec![]), 0);
    assert_eq!(common_ancestor(&vec![path(&["/", "home", "a.asm"])]), 3);
    assert_eq!(common_ancestor(&vec![path(&["/", "home", "a.asm"]), path(&["/", "home", "a.obj"])]), 2);
    assert_eq!(
        common_ancestor(&vec![
            path(&["/", "home", "x", "a.obj"]),
            path(&["/", "home", "x", "b.obj"]),
            path(&["/", "home", "out.obj"]),
        ]),
        2
    );
    assert_eq!(common_ancestor(&vec![path(&["/", "a"]), path(&["/", "a", "b"])]), 2);
    assert_eq!(common_ancestor(&vec![path(&["/", "a", "b"]), path(&["/", "a"])]), 2);
    assert_eq!(common_ancestor(&vec![path(&["a"]), path(&["b"])]), 0);
    assert_eq!(common_ancestor(&vec![path(&[]), path(&["b"])]), 0);
    assert_eq!(common_ancestor(&vec![path(&["a", "b"]), path(&["a", "b"]), path(&["a", "c"])]), 1);
}

#[test]
fn paths_are_shown_below_their_ancestor() {
    assert_eq!(display_path(&path(&["/", "home", "a.asm"]), 2), path(&["a.asm"]));
    assert_eq!(display_path(&path(&["/", "home", "a.asm"]), 0), path(&["/", "home", "a.asm"]));
    assert_eq!(display_path(&path(&["/", "home", "a.asm"]), 3), path(&["/", "home", "a.asm"]));
    assert_eq!(display_path(&path(&["/", "home", "a.asm"]), 7), path(&["/", "home", "a.asm"]));
    assert_eq!(display_path(&path(&[]), 0), path(&[]));
}

#[test]
fn success_lines_name_their_files() {
    assert_eq!(assembled_message("a.asm", "a.obj"), "successfully assembled a.asm into a.obj\n");
    assert_eq!(linked_message(&vec![], "out.obj"), "successfully linked object files [] to out.obj\n");
    assert_eq!(linked_message(&path(&["a.obj"]), "out.obj"), "successfully linked object files [a.obj] to out.obj\n");
    assert_eq!(
        linked_message(&path(&["a.obj", "b.obj", "c.obj"]), "out.obj"),
        "successfully linked object files [a.obj, b.obj, c.obj] to out.obj\n"
    );
}

#[test]
fn words_are_four_hex_digits() {
    for (value, text) in [(0u16, "0000"), (0x3000, "3000"), (0xABCD, "ABCD"), (0xFFFF, "FFFF"), (0x09AF, "09AF"), (0x1234, "1234"), (0x5678, "5678"), (0x00E0, "00E0")] {
        let mut s = String::from("x");
        push_hex4(&mut s, value);
        assert_eq!(s, format!("x{text}"));
        assert_eq!(s, format!("x{value:04X}"));
    }
}

#[test]
fn unreadable_object_files_are_reported_by_name() {
    let d = malformed_report(Some("prog.obj".to_string()));
    assert_eq!(d.headline(), "prog.obj: malformed object file");
    assert_eq!(malformed_report(None).headline(), "malformed object file");
    let d = undecodable_report(Some("lib.obj".to_string()));
    assert_eq!(d.headline(), "lib.obj: cannot deserialize object file");
    assert!(d.span.is_none() && d.help.is_none() && d.source.is_none());
    assert_eq!(LoadError::OverlapWithReserved.message(), "object file overlaps with reserved memory");
}
