use hypercmd::{
    Command, DecodeError, FacetInfo, LayerMask, OutOfRange, PuzzleCommand, PuzzleShape,
    PuzzleTypeEnum, Value, PARTIAL_SCRAMBLE_MOVE_COUNT_MAX, PARTIAL_SCRAMBLE_MOVE_COUNT_MIN,
};

fn tag(s: &str) -> Value {
    Value::Str(s.to_string())
}

fn map1(k: &str, v: Value) -> Value {
    Value::Mapping(vec![(k.to_string(), v)])
}

fn single_entry(v: &Value) -> (&str, &Value) {
    match v {
        Value::Mapping(es) => {
            assert_eq!(es.len(), 1);
            (es[0].0.as_str(), &es[0].1)
        }
        other => panic!("expected a mapping, got {:?}", other),
    }
}

fn all_commands() -> Vec<Command> {
    vec![
        Command::Open,
        Command::Save,
        Command::SaveAs,
        Command::Exit,
        Command::Undo,
        Command::Redo,
        Command::Reset,
        Command::ScrambleN(1),
        Command::ScrambleN(20),
        Command::ScrambleFull,
        Command::NewPuzzle(PuzzleTypeEnum::Rubiks3D { layer_count: 3 }),
        Command::NewPuzzle(PuzzleTypeEnum::Rubiks4D { layer_count: 255 }),
        Command::ToggleBlindfold,
        Command::Noop,
    ]
}

#[test]
fn scramble_n_encodes_as_mapping() {
    let c = Command::ScrambleN(5);
    let v = c.encode();
    let (k, p) = single_entry(&v);
    assert_eq!(k, "scramble_n");
    assert!(matches!(p, Value::UInt(5)));
    assert_eq!(Command::decode(&v), Ok(Command::ScrambleN(5)));
    assert_eq!(c.short_description(), "Scramble 5");
}

#[test]
fn save_as_encodes_as_bare_tag() {
    let v = Command::SaveAs.encode();
    match &v {
        Value::Str(s) => assert_eq!(s, "save_as"),
        other => panic!("expected a tag, got {:?}", other),
    }
    assert_eq!(Command::decode(&v), Ok(Command::SaveAs));
    assert_eq!(Command::SaveAs.short_description(), "Save As");
}

#[test]
fn unknown_command_tag_decodes_to_noop() {
    let c = Command::decode(&tag("teleport")).unwrap();
    assert_eq!(c, Command::Noop);
    assert_eq!(c.short_description(), "");
    assert_eq!(Command::decode(&map1("teleport", Value::UInt(3))), Ok(Command::Noop));
}

#[test]
fn twist_without_axis_omits_the_field() {
    let c = PuzzleCommand::Twist {
        axis: None,
        direction: "CW".to_string(),
        layers: LayerMask(1),
    };
    let v = c.encode();
    let (k, p) = single_entry(&v);
    assert_eq!(k, "twist");
    match p {
        Value::Mapping(fs) => {
            assert!(fs.iter().all(|(name, _)| name != "axis"));
            assert_eq!(fs.len(), 2);
        }
        other => panic!("expected fields, got {:?}", other),
    }
    assert_eq!(PuzzleCommand::decode(&v), Ok(c));
}

#[test]
fn recenter_without_axis_label() {
    let ty = PuzzleTypeEnum::default();
    assert_eq!(PuzzleCommand::Recenter { axis: None }.short_description(ty), "Recenter");
}

#[test]
fn facet_lookup_in_and_out_of_range() {
    let facets: Vec<FacetInfo> = ["R", "L", "U", "D", "F", "B"]
        .iter()
        .map(|n| FacetInfo { name: n.to_string() })
        .collect();
    let shape = PuzzleShape { name: Some("cube".to_string()), ndim: 3, facets };
    for i in 0..6 {
        assert_eq!(shape.info(i).unwrap(), &shape.facets[i]);
    }
    assert_eq!(shape.info(6), Err(OutOfRange { index: 6, len: 6 }));
}

#[test]
fn empty_shape_has_no_facets() {
    let shape = PuzzleShape { name: None, ndim: 0, facets: Vec::new() };
    assert_eq!(shape.info(0), Err(OutOfRange { index: 0, len: 0 }));
}

#[test]
fn every_command_round_trips() {
    for c in all_commands() {
        assert_eq!(Command::decode(&c.encode()), Ok(c.clone()));
    }
}

#[test]
fn every_puzzle_command_round_trips() {
    let cs = vec![
        PuzzleCommand::SelectAxis("R".to_string()),
        PuzzleCommand::SelectAxis(String::new()),
        PuzzleCommand::SelectLayers(LayerMask(5)),
        PuzzleCommand::SelectLayers(LayerMask(u32::MAX)),
        PuzzleCommand::Twist { axis: Some("U".to_string()), direction: "CCW".to_string(), layers: LayerMask(3) },
        PuzzleCommand::Twist { axis: Some(String::new()), direction: "CW".to_string(), layers: LayerMask(1) },
        PuzzleCommand::Recenter { axis: Some("F".to_string()) },
        PuzzleCommand::Recenter { axis: None },
        PuzzleCommand::Noop,
    ];
    for c in cs {
        assert_eq!(PuzzleCommand::decode(&c.encode()), Ok(c.clone()));
    }
}

#[test]
fn unknown_puzzle_command_tag_decodes_to_noop() {
    assert_eq!(PuzzleCommand::decode(&tag("spin")), Ok(PuzzleCommand::Noop));
    assert_eq!(PuzzleCommand::decode(&map1("spin", tag("x"))), Ok(PuzzleCommand::Noop));
}

#[test]
fn defaults_are_noop() {
    assert_eq!(Command::default(), Command::Noop);
    assert_eq!(PuzzleCommand::default(), PuzzleCommand::Noop);
}

#[test]
fn scramble_bounds() {
    assert_eq!(PARTIAL_SCRAMBLE_MOVE_COUNT_MIN, 1);
    assert_eq!(PARTIAL_SCRAMBLE_MOVE_COUNT_MAX, 20);
}

#[test]
fn command_labels() {
    let expected = [
        (Command::Open, "Open"),
        (Command::Save, "Save"),
        (Command::SaveAs, "Save As"),
        (Command::Exit, "Exit"),
        (Command::Undo, "Undo"),
        (Command::Redo, "Redo"),
        (Command::Reset, "Reset"),
        (Command::ScrambleN(20), "Scramble 20"),
        (Command::ScrambleN(0), "Scramble 0"),
        (Command::ScrambleFull, "Scramble fully"),
        (Command::NewPuzzle(PuzzleTypeEnum::Rubiks3D { layer_count: 3 }), "New 3x3x3"),
        (Command::NewPuzzle(PuzzleTypeEnum::Rubiks4D { layer_count: 12 }), "New 12x12x12x12"),
        (Command::ToggleBlindfold, "BLD"),
        (Command::Noop, ""),
    ];
    for (c, label) in expected {
        assert_eq!(c.short_description(), label);
    }
}

#[test]
fn puzzle_type_query() {
    let ty = PuzzleTypeEnum::Rubiks3D { layer_count: 2 };
    assert_eq!(Command::NewPuzzle(ty).get_puzzle_type(), ty);
    assert_eq!(Command::Undo.get_puzzle_type(), PuzzleTypeEnum::Rubiks4D { layer_count: 3 });
    assert_eq!(PuzzleTypeEnum::default().name(), "3x3x3x3");
}

#[test]
fn layer_mask_digits() {
    assert_eq!(LayerMask(0b101).digits(), "13");
    assert_eq!(LayerMask(0).digits(), "");
    assert_eq!(LayerMask(1 << 9 | 1 << 10).digits(), "1011");
    assert!(LayerMask::default().is_default());
    assert!(!LayerMask(2).is_default());
}

#[test]
fn puzzle_command_labels() {
    let ty = PuzzleTypeEnum::Rubiks3D { layer_count: 3 };
    assert_eq!(PuzzleCommand::SelectAxis("R".to_string()).short_description(ty), "R");
    assert_eq!(PuzzleCommand::SelectLayers(LayerMask(6)).short_description(ty), "23");
    assert_eq!(PuzzleCommand::Noop.short_description(ty), "");
    let twist = |axis: Option<&str>, layers: u32| PuzzleCommand::Twist {
        axis: axis.map(|a| a.to_string()),
        direction: "CW".to_string(),
        layers: LayerMask(layers),
    };
    assert_eq!(twist(Some("R"), 1).short_description(ty), "RCW");
    assert_eq!(twist(Some("R"), 3).short_description(ty), "12RCW");
    assert_eq!(twist(None, 1).short_description(ty), "ØCW");
    assert_eq!(twist(Some("O"), 1).short_description(ty), "<invalid twist: unknown axis O>");
    let ty4 = PuzzleTypeEnum::Rubiks4D { layer_count: 3 };
    assert_eq!(twist(Some("O"), 1).short_description(ty4), "OCW");
    assert_eq!(
        PuzzleCommand::Recenter { axis: Some("F".to_string()) }.short_description(ty),
        "Recenter F"
    );
    assert_eq!(
        PuzzleCommand::Recenter { axis: Some("Q".to_string()) }.short_description(ty),
        "<invalid twist: unknown axis Q>"
    );
}

#[test]
fn decode_errors() {
    assert_eq!(Command::decode(&map1("scramble_n", tag("five"))), Err(DecodeError::WrongShape));
    assert_eq!(Command::decode(&tag("scramble_n")), Err(DecodeError::WrongShape));
    assert_eq!(Command::decode(&Value::UInt(1)), Err(DecodeError::WrongShape));
    assert_eq!(Command::decode(&Value::Mapping(Vec::new())), Err(DecodeError::WrongShape));
    assert_eq!(Command::decode(&map1("save", Value::UInt(1))), Err(DecodeError::WrongShape));
    let big = map1("new_puzzle", map1("rubiks_3d", map1("layer_count", Value::UInt(256))));
    assert_eq!(Command::decode(&big), Err(DecodeError::TooLarge));
    let missing = map1("new_puzzle", map1("rubiks_3d", Value::Mapping(Vec::new())));
    assert_eq!(Command::decode(&missing), Err(DecodeError::MissingField));
    let no_dir = map1("twist", Value::Mapping(vec![("layers".to_string(), Value::UInt(1))]));
    assert_eq!(PuzzleCommand::decode(&no_dir), Err(DecodeError::MissingField));
    let wide = map1("select_layers", Value::UInt(1 << 32));
    assert_eq!(PuzzleCommand::decode(&wide), Err(DecodeError::TooLarge));
    assert_eq!(PuzzleCommand::decode(&tag("twist")), Err(DecodeError::WrongShape));
}

#[test]
fn scramble_move_count_is_clamped() {
    assert_eq!(hypercmd::clamp_scramble_move_count(0), 1);
    assert_eq!(hypercmd::clamp_scramble_move_count(1), 1);
    assert_eq!(hypercmd::clamp_scramble_move_count(7), 7);
    assert_eq!(hypercmd::clamp_scramble_move_count(20), 20);
    assert_eq!(hypercmd::clamp_scramble_move_count(21), 20);
    assert_eq!(hypercmd::clamp_scramble_move_count(usize::MAX), 20);
}
