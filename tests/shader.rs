use particle_trails::shader::{
    assemble, import_paths, is_directive_line, parse_source, source_lines, split_bytes,
    ShaderError, SourceItem, DIRECTIVE_MARKER,
};

fn directive(rest: &str) -> Vec<u8> {
    let mut line = DIRECTIVE_MARKER.to_vec();
    line.extend_from_slice(rest.as_bytes());
    line
}

fn lines(text: &str) -> Vec<String> {
    source_lines(text.as_bytes())
        .into_iter()
        .map(|l| String::from_utf8(l).unwrap())
        .collect()
}

#[test]
fn spliced_file_replaces_the_directive_line() {
    let mut a = directive(" \"b.wgsl\"");
    a.extend_from_slice(b"\ntail\n");
    let b = b"body\n".to_vec();

    let b_items = parse_source(&b).unwrap();
    assert!(import_paths(&b_items).is_empty());
    let b_out = assemble(&b_items, &Vec::new());

    let a_items = parse_source(&a).unwrap();
    assert_eq!(import_paths(&a_items), vec![b"b.wgsl".to_vec()]);
    let a_out = assemble(&a_items, &vec![b_out]);

    assert_eq!(String::from_utf8(a_out).unwrap(), "body\ntail\n");
}

#[test]
fn directive_with_several_paths_keeps_their_order() {
    let mut text = b"first\n".to_vec();
    text.extend(directive(" \"x.wgsl\" \"y.wgsl\""));
    text.extend_from_slice(b"\nlast");
    let items = parse_source(&text).unwrap();
    assert_eq!(
        items,
        vec![
            SourceItem::Text(b"first".to_vec()),
            SourceItem::Import(b"x.wgsl".to_vec()),
            SourceItem::Import(b"y.wgsl".to_vec()),
            SourceItem::Text(b"last".to_vec()),
        ]
    );
    let out = assemble(&items, &vec![b"X\n".to_vec(), b"Y\n".to_vec()]);
    assert_eq!(out, b"first\nX\nY\nlast\n".to_vec());
}

#[test]
fn directive_without_paths_is_dropped() {
    let mut text = directive("");
    text.extend_from_slice(b"\nkept\n");
    let items = parse_source(&text).unwrap();
    assert_eq!(items, vec![SourceItem::Text(b"kept".to_vec())]);
    assert_eq!(assemble(&items, &Vec::new()), b"kept\n".to_vec());
}

#[test]
fn unterminated_path_is_a_parse_error() {
    let mut text = b"ok\n".to_vec();
    text.extend(directive(" \"a.wgsl\" \"b.wgsl"));
    text.extend_from_slice(b"\n");
    text.extend(directive(" \"c.wgsl"));
    assert_eq!(parse_source(&text), Err(ShaderError::Unterminated { line: 1 }));
}

#[test]
fn quotes_outside_a_directive_are_copied() {
    let text = b"let s = \"open;\n";
    let items = parse_source(text).unwrap();
    assert_eq!(items, vec![SourceItem::Text(b"let s = \"open;".to_vec())]);
}

#[test]
fn marker_must_open_the_line() {
    let mut text = b" ".to_vec();
    text.extend(directive(" \"a.wgsl\""));
    assert!(!is_directive_line(&text));
    assert!(is_directive_line(&directive("")));
    assert!(!is_directive_line(b"//!"));
    let items = parse_source(&text).unwrap();
    assert_eq!(items, vec![SourceItem::Text(text.clone())]);
}

#[test]
fn lines_follow_a_buffered_reader() {
    assert_eq!(lines(""), Vec::<String>::new());
    assert_eq!(lines("a"), vec!["a"]);
    assert_eq!(lines("a\n"), vec!["a"]);
    assert_eq!(lines("a\r\nb\r\n"), vec!["a", "b"]);
    assert_eq!(lines("a\n\nb\r"), vec!["a", "", "b\r"]);
    assert_eq!(lines("\n"), vec![""]);
}

#[test]
fn empty_source_assembles_to_nothing() {
    let items = parse_source(b"").unwrap();
    assert!(items.is_empty());
    assert!(assemble(&items, &Vec::new()).is_empty());
}

#[test]
fn split_keeps_empty_pieces() {
    assert_eq!(
        split_bytes(b"\"a\"\"", b'"'),
        vec![b"".to_vec(), b"a".to_vec(), b"".to_vec(), b"".to_vec()]
    );
    assert_eq!(split_bytes(b"", b'"'), vec![b"".to_vec()]);
}
