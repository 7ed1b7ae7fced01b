use zcad::entity::{DimensionType, TextAlignment};
use zcad::color::{aci_to_color, color_to_aci, Color, ColorSource};
use zcad::input_parser::{InputParser, InputSyntax, ParseError};
use zcad::tile::{decode_tile_key, optimize_dirty_regions, tile_key, Tile, TileRegion};
use zcad::ui_state::{looks_like_data_input, read_command, Command, CommandInput, DrawingTool, InputType, SnapMode};

#[test]
fn tile_keys_roundtrip() {
    for &(x, y) in &[(0, 0), (-1, 5), (i32::MIN, i32::MAX), (123, -456)] {
        let k = tile_key(x, y);
        assert_eq!(decode_tile_key(k), (x, y));
    }
    assert_eq!(tile_key(1, 2), (1u64 << 32) | 2);
    assert_eq!(tile_key(0, -1), 0xFFFF_FFFF);
}

#[test]
fn tiles_and_regions() {
    let mut t: Tile<(f64, f64), u32, u64> = Tile::new((0.0, 0.0), 10, 20, 64, 32, 1);
    assert!(t.dirty);
    t.add_vertices(&[1, 2, 3], 2);
    assert_eq!(t.vertex_count(), 3);
    assert_eq!(t.last_update, Some(2));
    t.mark_clean();
    assert!(!t.dirty);
    t.clear();
    assert_eq!(t.vertex_count(), 0);
    assert!(t.dirty);

    let mut clean: Tile<(f64, f64), u32, u64> = Tile::new((0.0, 0.0), 0, 0, 8, 8, 1);
    clean.mark_clean();
    let tiles = vec![(7u64, t.clone()), (8u64, clean), (7u64, t)];
    let regions = optimize_dirty_regions(&tiles);
    assert_eq!(regions.len(), 1);
    assert_eq!(regions[0].tiles, vec![7]);
    assert_eq!((regions[0].min_x, regions[0].min_y, regions[0].max_x, regions[0].max_y), (10, 20, 74, 52));
    assert_eq!(regions[0].width(), 64);
    assert_eq!(regions[0].height(), 32);
    let r = TileRegion { min_x: 5, min_y: 5, max_x: 5, max_y: 9, tiles: vec![] };
    assert_eq!(r.width(), 0);
    assert_eq!(r.height(), 4);
}

#[test]
fn aci_colors() {
    for i in 0..=8u16 {
        assert_eq!(color_to_aci(&aci_to_color(i)), i);
    }
    assert_eq!(color_to_aci(&aci_to_color(256)), 256);
    assert_eq!(aci_to_color(200), Color::rgb(255, 255, 255));
    assert!(aci_to_color(0).is_by_block());
    assert!(aci_to_color(256).is_by_layer());
    assert_eq!(color_to_aci(&Color::rgb(1, 2, 3)), 7);
    let documented = [((255, 0, 0), 1), ((255, 255, 0), 2), ((0, 255, 0), 3), ((0, 255, 255), 4), ((0, 0, 255), 5), ((255, 0, 255), 6), ((255, 255, 255), 7)];
    for ((r, g, b), aci) in documented {
        assert_eq!(color_to_aci(&Color::rgb(r, g, b)), aci);
    }
    let by_layer = Color { r: 255, g: 0, b: 0, source: ColorSource::ByLayer };
    assert_eq!(color_to_aci(&by_layer), 256);
    assert!(by_layer.is_by_layer());
    assert!(!by_layer.is_by_block());
    let by_block = Color { r: 1, g: 2, b: 3, source: ColorSource::ByBlock };
    assert_eq!(color_to_aci(&by_block), 0);
}

#[test]
fn input_forms() {
    assert_eq!(InputParser::split_input("  "), Err(ParseError::InvalidFormat("Empty input".to_string())));
    assert_eq!(
        InputParser::split_input(" 100,50 "),
        Ok(InputSyntax::Coordinates { relative: false, x: "100".to_string(), y: "50".to_string() })
    );
    assert_eq!(
        InputParser::split_input("@100,50"),
        Ok(InputSyntax::Coordinates { relative: true, x: "100".to_string(), y: "50".to_string() })
    );
    assert_eq!(
        InputParser::split_input("@100<45"),
        Ok(InputSyntax::LengthAngle { relative: true, length: "100".to_string(), angle: "45".to_string() })
    );
    assert_eq!(
        InputParser::split_input("100<45"),
        Ok(InputSyntax::LengthAngle { relative: false, length: "100".to_string(), angle: "45".to_string() })
    );
    assert_eq!(InputParser::split_input("<45"), Ok(InputSyntax::Angle { angle: "45".to_string() }));
    assert_eq!(InputParser::split_input("@<45"), Ok(InputSyntax::Angle { angle: "45".to_string() }));
    assert_eq!(
        InputParser::split_input("1<2<3"),
        Ok(InputSyntax::LengthAngle { relative: false, length: "1<2".to_string(), angle: "3".to_string() })
    );
    assert_eq!(InputParser::split_input("100"), Ok(InputSyntax::Number { text: "100".to_string() }));
}

#[test]
fn command_line_reading() {
    assert_eq!(read_command("  ", None), CommandInput::Repeat);
    assert_eq!(read_command("l", None), CommandInput::Run(Command::SetTool(DrawingTool::Line)));
    assert_eq!(read_command(" Zoom Extents ", None), CommandInput::Run(Command::ZoomExtents));
    assert_eq!(read_command("esc", None), CommandInput::Cancel);
    assert_eq!(read_command("frobnicate", None), CommandInput::Unknown);
    assert_eq!(
        read_command("r", Some(DrawingTool::Dimension)),
        CommandInput::Run(Command::DataInput("r".to_string()))
    );
    assert_eq!(read_command("r", Some(DrawingTool::Line)), CommandInput::Run(Command::SetTool(DrawingTool::Rectangle)));
    assert_eq!(
        read_command(" @10,5 ", Some(DrawingTool::Line)),
        CommandInput::Run(Command::DataInput("@10,5".to_string()))
    );
    assert_eq!(read_command("10", None), CommandInput::Unknown);
    assert!(looks_like_data_input("<45"));
    assert!(!looks_like_data_input("LINE"));
}

#[test]
fn tools_and_hints() {
    assert_eq!(DrawingTool::DimensionRadius.name(), "Radius Dimension");
    assert_eq!(DrawingTool::NoTool.shortcut(), None);
    assert_eq!(DrawingTool::Select.shortcut(), Some("Space"));
    assert_eq!(InputType::Radius.hint(), "输入半径 (如: 50)");
    let m = SnapMode::default();
    assert!(m.endpoint && m.intersection && !m.grid);
}

#[test]
fn geometry_enumeration_defaults() {
    assert_eq!(TextAlignment::default(), TextAlignment::Left);
    assert_ne!(TextAlignment::Center, TextAlignment::Right);
    assert_eq!(DimensionType::default(), DimensionType::Aligned);
    assert_ne!(DimensionType::Linear, DimensionType::Aligned);
}
