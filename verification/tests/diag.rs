use lc3_backend::diag::{append_report, is_white_space, Diagnostic, ErrSpan, Severity, Span};

fn span(start: usize, end: usize) -> Span {
    Span { start, end }
}

fn some(s: &str) -> Option<String> {
    Some(s.to_string())
}

#[test]
fn span_lists_take_their_shape_from_their_length() {
    assert!(ErrSpan::from_spans(vec![]).is_none());
    assert!(matches!(ErrSpan::from_spans(vec![span(1, 2)]), Some(ErrSpan::One(s)) if s == span(1, 2)));
    assert!(matches!(
        ErrSpan::from_spans(vec![span(1, 2), span(3, 4)]),
        Some(ErrSpan::Two(a, b)) if a == span(1, 2) && b == span(3, 4)
    ));
    let many = ErrSpan::from_spans(vec![span(1, 2), span(3, 4), span(5, 6)]).unwrap();
    assert!(matches!(&many, ErrSpan::Many(v) if v.len() == 3));
    assert_eq!(many.count(), 3);
    assert_eq!(many.first(), Some(span(1, 2)));
    assert_eq!(many.get(2), span(5, 6));
    let two = ErrSpan::Two(span(7, 8), span(9, 10));
    assert_eq!(two.count(), 2);
    assert_eq!(two.first(), Some(span(7, 8)));
    assert_eq!(ErrSpan::Many(vec![]).first(), None);
    assert_eq!(ErrSpan::Many(vec![]).count(), 0);
    assert_eq!(two.get(0), span(7, 8));
    assert_eq!(two.get(1), span(9, 10));
    assert_eq!(ErrSpan::One(span(4, 5)).get(0), span(4, 5));
}

#[test]
fn headline_names_the_file_where_wanted() {
    let d = Diagnostic::io("cannot open".to_string(), some("prog.asm"));
    assert_eq!(d.headline(), "prog.asm: cannot open");
    assert_eq!(d.severity(), Severity::Error);

    let d = Diagnostic::io("cannot open".to_string(), None);
    assert_eq!(d.headline(), "cannot open");

    let d = Diagnostic::simple("oops".to_string());
    assert_eq!(d.headline(), "oops");

    let d = Diagnostic::ensemble("bad operand".to_string(), some("prog.asm"), "ADD".to_string(), None, None);
    assert_eq!(d.headline(), "bad operand");
}

#[test]
fn empty_help_is_no_help() {
    let mut d = Diagnostic::simple("oops".to_string());
    assert_eq!(d.help_text(), None);
    d.help = some("");
    assert_eq!(d.help_text(), None);
    d.help = some("try again");
    assert_eq!(d.help_text(), some("try again"));
}

#[test]
fn labels_follow_the_spans() {
    let mut d = Diagnostic::simple("oops".to_string());
    assert_eq!(d.labels(), None);
    d.span = Some(ErrSpan::One(span(3, 9)));
    assert_eq!(d.labels(), Some(vec![span(3, 9)]));
    d.span = Some(ErrSpan::Two(span(3, 9), span(1, 2)));
    assert_eq!(d.labels(), Some(vec![span(3, 9), span(1, 2)]));
    d.span = ErrSpan::from_spans(vec![span(1, 2), span(3, 4), span(5, 6), span(7, 8)]);
    assert_eq!(d.labels(), Some(vec![span(1, 2), span(3, 4), span(5, 6), span(7, 8)]));
}

#[test]
fn one_span_carries_the_help_on_its_label() {
    let d = Diagnostic::ensemble(
        "bad operand".to_string(),
        some("prog.asm"),
        ".orig x3000\nADD R0\n.end".to_string(),
        Some(ErrSpan::One(span(12, 18))),
        some("ADD takes three operands"),
    );
    let layout = d.layout();
    assert_eq!(layout.headline, "bad operand");
    assert_eq!(layout.file_id, "prog.asm");
    assert_eq!(layout.offset, 12);
    assert_eq!(layout.labels.len(), 1);
    assert_eq!(layout.labels[0].span, span(12, 18));
    assert_eq!(layout.labels[0].message, some("ADD takes three operands"));
    assert!(layout.labels[0].colored);
    assert_eq!(layout.note, None);
    assert_eq!(layout.source, ".orig x3000\nADD R0\n.end");
}

#[test]
fn one_span_without_help_has_a_bare_label() {
    let d = Diagnostic::ensemble("bad".to_string(), None, "x".to_string(), Some(ErrSpan::One(span(0, 1))), None);
    let layout = d.layout();
    assert_eq!(layout.file_id, "source");
    assert_eq!(layout.labels.len(), 1);
    assert_eq!(layout.labels[0].message, None);
    assert_eq!(layout.note, None);
}

#[test]
fn several_spans_put_the_help_in_a_note() {
    let d = Diagnostic::ensemble(
        "overlapping labels".to_string(),
        some("prog.asm"),
        "A\nA\n".to_string(),
        Some(ErrSpan::Two(span(2, 3), span(0, 1))),
        some("rename one"),
    );
    let layout = d.layout();
    assert_eq!(layout.offset, 2);
    assert_eq!(layout.labels.len(), 2);
    assert_eq!(layout.labels[0].span, span(2, 3));
    assert_eq!(layout.labels[1].span, span(0, 1));
    assert!(layout.labels.iter().all(|l| l.colored && l.message == some("")));
    assert_eq!(layout.note, some("rename one"));

    let d = Diagnostic::ensemble(
        "overlapping blocks".to_string(),
        None,
        "abcdefgh".to_string(),
        ErrSpan::from_spans(vec![span(5, 6), span(1, 2), span(3, 4)]),
        None,
    );
    let layout = d.layout();
    assert_eq!(layout.offset, 5);
    assert_eq!(layout.labels.iter().map(|l| l.span).collect::<Vec<_>>(), vec![span(5, 6), span(1, 2), span(3, 4)]);
    assert!(layout.labels.iter().all(|l| l.colored && l.message == some("")));
    assert_eq!(layout.note, None);
}

#[test]
fn help_without_a_span_is_pinned_to_the_start() {
    let mut d = Diagnostic::io("cannot read".to_string(), some("a.obj"));
    d.help = some("check the path");
    let layout = d.layout();
    assert_eq!(layout.headline, "a.obj: cannot read");
    assert_eq!(layout.file_id, "a.obj");
    assert_eq!(layout.offset, 0);
    assert_eq!(layout.labels.len(), 1);
    assert_eq!(layout.labels[0].span, span(0, 0));
    assert_eq!(layout.labels[0].message, None);
    assert!(!layout.labels[0].colored);
    assert_eq!(layout.note, some("check the path"));
    assert_eq!(layout.source, "");
}

#[test]
fn a_bare_message_has_no_labels() {
    let layout = Diagnostic::simple("oops".to_string()).layout();
    assert_eq!(layout.headline, "oops");
    assert_eq!(layout.file_id, "source");
    assert_eq!(layout.offset, 0);
    assert!(layout.labels.is_empty());
    assert_eq!(layout.note, None);
    assert_eq!(layout.source, "");
}

#[test]
fn an_empty_span_list_anchors_at_the_start() {
    let d = Diagnostic::ensemble("bad".to_string(), None, "x".to_string(), Some(ErrSpan::Many(vec![])), Some("h".to_string()));
    let layout = d.layout();
    assert_eq!(layout.offset, 0);
    assert!(layout.labels.is_empty());
    assert_eq!(layout.note, Some("h".to_string()));
    assert_eq!(d.labels(), Some(vec![]));
}

#[test]
fn white_space_is_what_unicode_says() {
    for c in ['\t', '\n', '\u{b}', '\u{c}', '\r', ' ', '\u{85}', '\u{a0}', '\u{1680}', '\u{2000}', '\u{200a}', '\u{2028}', '\u{2029}', '\u{202f}', '\u{205f}', '\u{3000}'] {
        assert!(is_white_space(c));
    }
    for c in ['\u{8}', '\u{e}', '\u{1f}', '!', 'a', '\u{84}', '\u{86}', '\u{200b}', '\u{1681}', '\u{feff}', '\u{3001}'] {
        assert!(!is_white_space(c));
    }
    for u in 0..0x3100u32 {
        if let Some(c) = char::from_u32(u) {
            assert_eq!(is_white_space(c), c.is_whitespace());
        }
    }
}

#[test]
fn reports_are_added_without_leading_space() {
    let mut out = b"before:".to_vec();
    append_report(&mut out, "\n \t  Error: oops\n  at line 1 \n");
    assert_eq!(out, b"before:Error: oops\n  at line 1 \n".to_vec());
    append_report(&mut out, "");
    append_report(&mut out, " \n\u{a0}\u{3000}");
    assert_eq!(out, b"before:Error: oops\n  at line 1 \n".to_vec());
    let mut out = Vec::new();
    append_report(&mut out, "\u{2003}\u{d7} caf\u{e9} ");
    assert_eq!(out, "\u{d7} caf\u{e9} ".as_bytes().to_vec());
    let mut out = Vec::new();
    append_report(&mut out, "x ");
    assert_eq!(out, b"x ".to_vec());
}
