use zcad::dxf_raw::{DxfPair, DxfParseError, DxfRawParser, DxfWriter};
use zcad::dxf_objects::{layout_record, layouts, object_groups, viewport_record, viewports, LayoutText, ViewportText};

#[test]
fn test_parse_pair() {
    let pair = DxfPair::new(10, "100.5");
    assert_eq!(pair.value.trim().parse::<f64>().ok(), Some(100.5));

    let pair = DxfPair::new(70, "42");
    assert_eq!(pair.as_i32(), Some(42));
}

#[test]
fn test_dxf_writer() {
    let mut writer = DxfWriter::new();
    writer.begin_section("HEADER");
    writer.write_pair(9, "$ACADVER");
    writer.write_pair(1, "AC1027");
    writer.end_section();

    let output = writer.finish();
    assert!(output.contains("SECTION"));
    assert!(output.contains("HEADER"));
    assert!(output.contains("AC1027"));
    assert!(output.contains("EOF"));
}

#[test]
fn writer_exact_layout() {
    let mut writer = DxfWriter::new();
    writer.begin_section("ENTITIES");
    let h = writer.write_handle();
    assert_eq!(h, "64");
    writer.write_handle_only();
    assert_eq!(writer.new_handle(), "66");
    writer.write_point(10, "1.5", "-2");
    writer.write_pair(-1, "x");
    writer.write_pair(1000, "long");
    writer.end_section();
    let out = writer.finish();
    let expected = [
        "  0", "SECTION", "  2", "ENTITIES", "  5", "64", "  5", "65", " 10", "1.5", " 20", "-2",
        " 30", "0", " -1", "x", "1000", "long", "  0", "ENDSEC", "  0", "EOF",
    ]
    .join("\n");
    assert_eq!(out, expected);
}

#[test]
fn pair_integers() {
    assert_eq!(DxfPair::new(70, "  -7 ").as_i32(), Some(-7));
    assert_eq!(DxfPair::new(70, "+12").as_i64(), Some(12));
    assert_eq!(DxfPair::new(70, "2147483648").as_i32(), None);
    assert_eq!(DxfPair::new(70, "2147483648").as_i64(), Some(2147483648));
    assert_eq!(DxfPair::new(70, "4x").as_i32(), None);
    assert_eq!(DxfPair::new(70, "").as_i32(), None);
    assert_eq!(DxfPair::new(70, "-").as_i64(), None);
}

#[test]
fn parser_reads_pairs_until_eof() {
    let text = "  0\r\nSECTION\n  2\nHEADER\n  0\nENDSEC\n  0\nEOF\n  0\nIGNORED\n";
    let mut p = DxfRawParser::parse(text).unwrap();
    let first = p.current().unwrap();
    assert_eq!(first.code, 0);
    assert_eq!(first.value, "SECTION");
    assert!(p.skip_to(2, Some("HEADER")));
    assert_eq!(p.current().unwrap().value, "ENDSEC");
    assert!(p.skip_to(0, Some("EOF")));
    assert!(p.current().is_none());
    assert!(p.advance().is_none());
    p.back();
    assert_eq!(p.current().unwrap().value, "EOF");
    p.rewind();
    assert!(!p.skip_to(2, Some("NOPE")));
    assert!(p.current().is_none());
}

#[test]
fn parser_errors_and_dangling_code() {
    match DxfRawParser::parse("  0\nSECTION\nabc\nX\n") {
        Err(DxfParseError::InvalidGroupCode(l)) => assert_eq!(l, "abc"),
        Ok(_) => panic!("expected an error"),
    }
    let mut p = DxfRawParser::parse("  8\nLayer1\n 62").unwrap();
    let v = p.read_until_zero();
    assert_eq!(v.len(), 1);
    assert_eq!(v[0].value, "Layer1");
    assert!(p.current().is_none());
}

#[test]
fn read_until_zero_stops_at_code_zero() {
    let mut p = DxfRawParser::parse("5\nA1\n8\n0\n0\nLINE\n").unwrap();
    let v = p.read_until_zero();
    assert_eq!(v.len(), 2);
    assert_eq!(v[1].code, 8);
    assert_eq!(p.current().unwrap().value, "LINE");
}

fn sample_layout(name: &str, tab_order: i32) -> LayoutText {
    LayoutText {
        name: name.to_string(),
        block_record_handle: "1F".to_string(),
        paper_width: "420".to_string(),
        paper_height: "297".to_string(),
        left_margin: "10".to_string(),
        bottom_margin: "10".to_string(),
        right_margin: "10".to_string(),
        top_margin: "10".to_string(),
        tab_order,
    }
}

fn sample_viewport(id: i32) -> ViewportText {
    ViewportText {
        center_x: "1.5".to_string(),
        center_y: "2".to_string(),
        width: "300".to_string(),
        height: "200".to_string(),
        id,
        view_center_x: "0".to_string(),
        view_center_y: "0".to_string(),
        view_height: "200".to_string(),
        status: 1,
    }
}

#[test]
fn written_layouts_and_viewports_read_back() {
    let mut writer = DxfWriter::new();
    writer.begin_section("ENTITIES");
    writer.write_viewport(&sample_viewport(1), "1F");
    writer.write_viewport(&sample_viewport(2), "1F");
    writer.end_section();
    writer.begin_section("OBJECTS");
    let h1 = writer.write_layout(&sample_layout("Layout2", 2), "1A");
    let h2 = writer.write_layout(&sample_layout("Model", 0), "1A");
    let h3 = writer.write_layout(&sample_layout("Layout1", 1), "1A");
    let h4 = writer.write_layout(&sample_layout("Layout1b", 1), "1A");
    writer.end_section();
    let text = writer.finish();

    let mut parser = DxfRawParser::parse(&text).unwrap();
    let layouts = layouts(&mut parser);
    let names: Vec<&str> = layouts.iter().map(|l| l.name.as_str()).collect();
    assert_eq!(names, vec!["Model", "Layout1", "Layout1b", "Layout2"]);
    assert!(layouts[0].is_model_space);
    assert!(!layouts[1].is_model_space);
    assert_eq!(layouts[0].handle, h2);
    assert_eq!(layouts[1].handle, h3);
    assert_eq!(layouts[2].handle, h4);
    assert_eq!(layouts[3].handle, h1);
    assert_eq!(layouts[3].paper_width.as_deref(), Some("420"));
    assert_eq!(layouts[3].block_record_handle, "1F");
    assert_eq!(layouts[3].tab_order, 2);

    let vps = viewports(&mut parser);
    assert_eq!(vps.len(), 1);
    assert_eq!(vps[0].id, 2);
    assert_eq!(vps[0].center_x.as_deref(), Some("1.5"));
    assert_eq!(vps[0].owner_handle, "1F");
    assert_eq!(vps[0].status, 1);
}

#[test]
fn layout_defaults_and_last_pair_wins() {
    let pairs = vec![DxfPair::new(71, "x"), DxfPair::new(1, " A "), DxfPair::new(1, " Model "), DxfPair::new(44, " 12.5 ")];
    let r = layout_record(&pairs);
    assert_eq!(r.name, "Model");
    assert!(r.is_model_space);
    assert_eq!(r.tab_order, 1);
    assert_eq!(r.paper_width.as_deref(), Some(" 12.5 "));
    assert_eq!(r.paper_height, None);
    let r = layout_record(&[]);
    assert_eq!(r.name, "Layout1");
    assert_eq!(r.handle, "");
    let v = viewport_record(&[DxfPair::new(69, "7"), DxfPair::new(68, "?")]);
    assert_eq!(v.id, 7);
    assert_eq!(v.status, 1);
    assert_eq!(viewport_record(&[]).id, 2);
}

#[test]
fn object_groups_stop_at_section_end() {
    let text = "0\nSECTION\n2\nOBJECTS\n0\nLAYOUT\n1\nA\n0\nENDSEC\n0\nLAYOUT\n1\nB\n0\nEOF\n";
    let mut parser = DxfRawParser::parse(text).unwrap();
    let groups = object_groups(&mut parser, "OBJECTS", "LAYOUT");
    assert_eq!(groups.len(), 1);
    assert_eq!(groups[0][0].value, "A");
    assert!(object_groups(&mut parser, "ENTITIES", "LAYOUT").is_empty());
}

#[test]
fn written_pairs_read_back() {
    let written: Vec<(i32, &str)> = vec![(0, "SECTION"), (2, "ENTITIES"), (0, "LINE"), (8, " 0 "), (10, "1.5"), (-5, "x"), (1000, ""), (0, "ENDSEC")];
    let mut writer = DxfWriter::new();
    for (code, value) in &written {
        writer.write_pair(*code, value);
    }
    let text = writer.finish();
    let mut parser = DxfRawParser::parse(&text).unwrap();
    let mut read: Vec<(i32, String)> = Vec::new();
    while let Some(pair) = parser.advance() {
        read.push((pair.code, pair.value.clone()));
    }
    let mut expected: Vec<(i32, String)> = written.iter().map(|(c, v)| (*c, v.to_string())).collect();
    expected.push((0, "EOF".to_string()));
    assert_eq!(read, expected);
}

#[test]
fn handles_of_one_writer_are_distinct() {
    let mut writer = DxfWriter::new();
    let mut seen: Vec<String> = Vec::new();
    for i in 0..40 {
        let h = if i % 3 == 0 { writer.new_handle() } else { writer.write_handle() };
        assert!(!seen.contains(&h));
        seen.push(h);
    }
    assert_eq!(seen[0], "64");
    assert_eq!(seen[28], "80");
}

#[test]
fn many_written_pairs_read_back() {
    let mut written: Vec<(i32, String)> = Vec::new();
    for i in 0..500i32 {
        let code = if i % 7 == 0 { 0 } else { (i * 37) % 1071 - 5 };
        let value = match i % 5 {
            0 => format!("NAME{}", i),
            1 => format!("{}.{}", i, i % 13),
            2 => String::new(),
            3 => format!(" {} ", i),
            _ => format!("-{}", i * 3),
        };
        written.push((code, value));
    }
    let mut writer = DxfWriter::new();
    for (code, value) in &written {
        writer.write_pair(*code, value);
    }
    let text = writer.finish();
    let mut parser = DxfRawParser::parse(&text).unwrap();
    assert_eq!(parser.current().map(|p| (p.code, p.value.clone())), Some(written[0].clone()));
    let mut read: Vec<(i32, String)> = Vec::new();
    while let Some(pair) = parser.advance() {
        read.push((pair.code, pair.value.clone()));
    }
    written.push((0, "EOF".to_string()));
    assert_eq!(read, written);
    assert!(parser.advance().is_none());
}
