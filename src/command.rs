//! Application-level commands: the intents behind the menus.
use vstd::prelude::*;
use crate::puzzle::{default_puzzle_type, PuzzleTypeEnum};
use crate::text::{decimal, push_decimal};
use crate::value::{
    entry, entry_model, find_entry, find_field, lemma_entries_of, str_value, text_eq, DecodeError,
    Model, Value,
};

verus! {

/// Minimum number of moves for a partial scramble.
pub const PARTIAL_SCRAMBLE_MOVE_COUNT_MIN: usize = 1;

/// Maximum number of moves for a partial scramble.
pub const PARTIAL_SCRAMBLE_MOVE_COUNT_MAX: usize = 20;

/// Brings a requested partial-scramble move count into the accepted range.
pub fn clamp_scramble_move_count(n: usize) -> (r: usize)
    ensures
        PARTIAL_SCRAMBLE_MOVE_COUNT_MIN <= r <= PARTIAL_SCRAMBLE_MOVE_COUNT_MAX,
        n < PARTIAL_SCRAMBLE_MOVE_COUNT_MIN ==> r == PARTIAL_SCRAMBLE_MOVE_COUNT_MIN,
        n > PARTIAL_SCRAMBLE_MOVE_COUNT_MAX ==> r == PARTIAL_SCRAMBLE_MOVE_COUNT_MAX,
        PARTIAL_SCRAMBLE_MOVE_COUNT_MIN <= n <= PARTIAL_SCRAMBLE_MOVE_COUNT_MAX ==> r == n,
{
    if n < PARTIAL_SCRAMBLE_MOVE_COUNT_MIN {
        PARTIAL_SCRAMBLE_MOVE_COUNT_MIN
    } else if n > PARTIAL_SCRAMBLE_MOVE_COUNT_MAX {
        PARTIAL_SCRAMBLE_MOVE_COUNT_MAX
    } else {
        n
    }
}

/// A global user intent, such as a menu action.
#[derive(Clone, Debug, PartialEq, Eq, Structural)]
pub enum Command {
    // File menu
    Open,
    Save,
    SaveAs,
    Exit,
    // Edit menu
    Undo,
    Redo,
    Reset,
    // Scramble menu
    ScrambleN(usize),
    ScrambleFull,
    // Puzzle menu
    NewPuzzle(PuzzleTypeEnum),
    ToggleBlindfold,
    /// No intent; also what an unknown tag decodes to.
    Noop,
}

impl Default for Command {
    fn default() -> (r: Command)
        ensures
            r == Command::Noop,
    {
        Command::Noop
    }
}

/// The label shown to users for a command.
pub open spec fn command_label(c: Command) -> Seq<char> {
    match c {
        Command::Open => "Open"@,
        Command::Save => "Save"@,
        Command::SaveAs => "Save As"@,
        Command::Exit => "Exit"@,
        Command::Undo => "Undo"@,
        Command::Redo => "Redo"@,
        Command::Reset => "Reset"@,
        Command::ScrambleN(n) => "Scramble "@ + decimal(n as nat),
        Command::ScrambleFull => "Scramble fully"@,
        Command::NewPuzzle(ty) => "New "@ + ty.name_spec(),
        Command::ToggleBlindfold => "BLD"@,
        Command::Noop => Seq::empty(),
    }
}

/// The tag of each command without payload, in its encoded form.
pub open spec fn unit_tag(c: Command) -> Seq<char> {
    match c {
        Command::Open => "open"@,
        Command::Save => "save"@,
        Command::SaveAs => "save_as"@,
        Command::Exit => "exit"@,
        Command::Undo => "undo"@,
        Command::Redo => "redo"@,
        Command::Reset => "reset"@,
        Command::ScrambleFull => "scramble_full"@,
        Command::ToggleBlindfold => "toggle_blindfold"@,
        _ => "none"@,
    }
}

/// The encoded form of a puzzle type: a mapping from its tag to its fields.
pub open spec fn puzzle_type_model(ty: PuzzleTypeEnum) -> Model {
    match ty {
        PuzzleTypeEnum::Rubiks3D { layer_count } => entry_model(
            "rubiks_3d"@,
            entry_model("layer_count"@, Model::UInt(layer_count as nat)),
        ),
        PuzzleTypeEnum::Rubiks4D { layer_count } => entry_model(
            "rubiks_4d"@,
            entry_model("layer_count"@, Model::UInt(layer_count as nat)),
        ),
    }
}

/// The encoded form of a command.
pub open spec fn command_model(c: Command) -> Model {
    match c {
        Command::ScrambleN(n) => entry_model("scramble_n"@, Model::UInt(n as nat)),
        Command::NewPuzzle(ty) => entry_model("new_puzzle"@, puzzle_type_model(ty)),
        _ => Model::Str(unit_tag(c)),
    }
}

/// The command without payload whose tag is `tag`, if there is one.
pub open spec fn unit_command(tag: Seq<char>) -> Option<Command> {
    if tag == "open"@ {
        Some(Command::Open)
    } else if tag == "save"@ {
        Some(Command::Save)
    } else if tag == "save_as"@ {
        Some(Command::SaveAs)
    } else if tag == "exit"@ {
        Some(Command::Exit)
    } else if tag == "undo"@ {
        Some(Command::Undo)
    } else if tag == "redo"@ {
        Some(Command::Redo)
    } else if tag == "reset"@ {
        Some(Command::Reset)
    } else if tag == "scramble_full"@ {
        Some(Command::ScrambleFull)
    } else if tag == "toggle_blindfold"@ {
        Some(Command::ToggleBlindfold)
    } else if tag == "none"@ {
        Some(Command::Noop)
    } else {
        None
    }
}

/// Whether `tag` is the tag of some command.
pub open spec fn is_command_tag(tag: Seq<char>) -> bool {
    unit_command(tag) is Some || tag == "scramble_n"@ || tag == "new_puzzle"@
}

/// Decodes the fields of a puzzle type: the layer count.
pub open spec fn decode_layer_count(m: Model) -> Result<u8, DecodeError> {
    match m {
        Model::Mapping(fs) => match find_field(fs, "layer_count"@) {
            Option::None => Err(DecodeError::MissingField),
            Some(Model::UInt(n)) => if n <= u8::MAX {
                Ok(n as u8)
            } else {
                Err(DecodeError::TooLarge)
            },
            Some(_) => Err(DecodeError::WrongShape),
        },
        _ => Err(DecodeError::WrongShape),
    }
}

/// Decodes a puzzle type.
pub open spec fn decode_puzzle_type(m: Model) -> Result<PuzzleTypeEnum, DecodeError> {
    match m {
        Model::Mapping(es) => if es.len() != 1 {
            Err(DecodeError::WrongShape)
        } else if es[0].0 == "rubiks_3d"@ {
            match decode_layer_count(es[0].1) {
                Ok(n) => Ok(PuzzleTypeEnum::Rubiks3D { layer_count: n }),
                Err(e) => Err(e),
            }
        } else if es[0].0 == "rubiks_4d"@ {
            match decode_layer_count(es[0].1) {
                Ok(n) => Ok(PuzzleTypeEnum::Rubiks4D { layer_count: n }),
                Err(e) => Err(e),
            }
        } else {
            Err(DecodeError::WrongShape)
        },
        _ => Err(DecodeError::WrongShape),
    }
}

/// Decodes a command. A tag that names no command gives `Noop`, whatever its payload.
pub open spec fn decode_command(m: Model) -> Result<Command, DecodeError> {
    match m {
        Model::Str(tag) => match unit_command(tag) {
            Some(c) => Ok(c),
            Option::None => if is_command_tag(tag) {
                Err(DecodeError::WrongShape)
            } else {
                Ok(Command::Noop)
            },
        },
        Model::Mapping(es) => if es.len() != 1 {
            Err(DecodeError::WrongShape)
        } else if es[0].0 == "scramble_n"@ {
            match es[0].1 {
                Model::UInt(n) => if n <= usize::MAX {
                    Ok(Command::ScrambleN(n as usize))
                } else {
                    Err(DecodeError::TooLarge)
                },
                _ => Err(DecodeError::WrongShape),
            }
        } else if es[0].0 == "new_puzzle"@ {
            match decode_puzzle_type(es[0].1) {
                Ok(ty) => Ok(Command::NewPuzzle(ty)),
                Err(e) => Err(e),
            }
        } else if is_command_tag(es[0].0) {
            Err(DecodeError::WrongShape)
        } else {
            Ok(Command::Noop)
        },
        Model::UInt(_) => Err(DecodeError::WrongShape),
    }
}

fn unit_command_of(tag: &String) -> (r: Option<Command>)
    ensures
        r == unit_command(tag@),
{
    if text_eq(tag, "open") {
        Some(Command::Open)
    } else if text_eq(tag, "save") {
        Some(Command::Save)
    } else if text_eq(tag, "save_as") {
        Some(Command::SaveAs)
    } else if text_eq(tag, "exit") {
        Some(Command::Exit)
    } else if text_eq(tag, "undo") {
        Some(Command::Undo)
    } else if text_eq(tag, "redo") {
        Some(Command::Redo)
    } else if text_eq(tag, "reset") {
        Some(Command::Reset)
    } else if text_eq(tag, "scramble_full") {
        Some(Command::ScrambleFull)
    } else if text_eq(tag, "toggle_blindfold") {
        Some(Command::ToggleBlindfold)
    } else if text_eq(tag, "none") {
        Some(Command::Noop)
    } else {
        None
    }
}

fn is_command_tag_of(tag: &String) -> (r: bool)
    ensures
        r == is_command_tag(tag@),
{
    unit_command_of(tag).is_some() || text_eq(tag, "scramble_n") || text_eq(tag, "new_puzzle")
}

/// Encodes a puzzle type.
pub fn encode_puzzle_type(ty: PuzzleTypeEnum) -> (r: Value)
    ensures
        r@ == puzzle_type_model(ty),
{
    match ty {
        PuzzleTypeEnum::Rubiks3D { layer_count } => entry(
            "rubiks_3d",
            entry("layer_count", Value::UInt(layer_count as u64)),
        ),
        PuzzleTypeEnum::Rubiks4D { layer_count } => entry(
            "rubiks_4d",
            entry("layer_count", Value::UInt(layer_count as u64)),
        ),
    }
}

fn decode_layer_count_of(v: &Value) -> (r: Result<u8, DecodeError>)
    ensures
        r == decode_layer_count(v@),
{
    match v {
        Value::Mapping(fs) => {
            proof {
                lemma_entries_of(*fs);
            }
            match find_entry(fs, "layer_count") {
                None => Err(DecodeError::MissingField),
                Some(Value::UInt(n)) => if *n <= 255 {
                    Ok(*n as u8)
                } else {
                    Err(DecodeError::TooLarge)
                },
                Some(_) => Err(DecodeError::WrongShape),
            }
        },
        _ => Err(DecodeError::WrongShape),
    }
}

/// Decodes a puzzle type.
pub fn decode_puzzle_type_of(v: &Value) -> (r: Result<PuzzleTypeEnum, DecodeError>)
    ensures
        r == decode_puzzle_type(v@),
{
    match v {
        Value::Mapping(es) => {
            proof {
                lemma_entries_of(*es);
            }
            if es.len() != 1 {
                Err(DecodeError::WrongShape)
            } else if text_eq(&es[0].0, "rubiks_3d") {
                match decode_layer_count_of(&es[0].1) {
                    Ok(n) => Ok(PuzzleTypeEnum::Rubiks3D { layer_count: n }),
                    Err(e) => Err(e),
                }
            } else if text_eq(&es[0].0, "rubiks_4d") {
                match decode_layer_count_of(&es[0].1) {
                    Ok(n) => Ok(PuzzleTypeEnum::Rubiks4D { layer_count: n }),
                    Err(e) => Err(e),
                }
            } else {
                Err(DecodeError::WrongShape)
            }
        },
        _ => Err(DecodeError::WrongShape),
    }
}

impl Command {
    /// The puzzle type that this command asks for: the one of `NewPuzzle`, else the default.
    pub fn get_puzzle_type(&self) -> (r: PuzzleTypeEnum)
        ensures
            r == (match *self {
                Command::NewPuzzle(ty) => ty,
                _ => default_puzzle_type(),
            }),
    {
        match self {
            Command::NewPuzzle(puzzle_type) => *puzzle_type,
            _ => PuzzleTypeEnum::default(),
        }
    }

    /// The label shown to users for this command.
    pub fn short_description(&self) -> (r: String)
        ensures
            r@ == command_label(*self),
    {
        match self {
            Command::Open => String::from_str("Open"),
            Command::Save => String::from_str("Save"),
            Command::SaveAs => String::from_str("Save As"),
            Command::Exit => String::from_str("Exit"),
            Command::Undo => String::from_str("Undo"),
            Command::Redo => String::from_str("Redo"),
            Command::Reset => String::from_str("Reset"),
            Command::ScrambleN(n) => {
                let mut s = String::from_str("Scramble ");
                push_decimal(&mut s, *n as u64);
                s
            },
            Command::ScrambleFull => String::from_str("Scramble fully"),
            Command::NewPuzzle(ty) => {
                let mut s = String::from_str("New ");
                let name = ty.name();
                s.append(name.as_str());
                s
            },
            Command::ToggleBlindfold => String::from_str("BLD"),
            Command::Noop => String::new(),
        }
    }

    /// The encoded form of this command.
    pub fn encode(&self) -> (r: Value)
        ensures
            r@ == command_model(*self),
    {
        match self {
            Command::Open => str_value("open"),
            Command::Save => str_value("save"),
            Command::SaveAs => str_value("save_as"),
            Command::Exit => str_value("exit"),
            Command::Undo => str_value("undo"),
            Command::Redo => str_value("redo"),
            Command::Reset => str_value("reset"),
            Command::ScrambleN(n) => entry("scramble_n", Value::UInt(*n as u64)),
            Command::ScrambleFull => str_value("scramble_full"),
            Command::NewPuzzle(ty) => entry("new_puzzle", encode_puzzle_type(*ty)),
            Command::ToggleBlindfold => str_value("toggle_blindfold"),
            Command::Noop => str_value("none"),
        }
    }

    /// Decodes a command; a tag that names no command gives `Noop`.
    pub fn decode(v: &Value) -> (r: Result<Command, DecodeError>)
        ensures
            r == decode_command(v@),
    {
        match v {
            Value::Str(tag) => match unit_command_of(tag) {
                Some(c) => Ok(c),
                None => if is_command_tag_of(tag) {
                    Err(DecodeError::WrongShape)
                } else {
                    Ok(Command::Noop)
                },
            },
            Value::Mapping(es) => {
                proof {
                    lemma_entries_of(*es);
                }
                if es.len() != 1 {
                    Err(DecodeError::WrongShape)
                } else if text_eq(&es[0].0, "scramble_n") {
                    match &es[0].1 {
                        Value::UInt(n) => if *n <= usize::MAX as u64 {
                            Ok(Command::ScrambleN(*n as usize))
                        } else {
                            Err(DecodeError::TooLarge)
                        },
                        _ => Err(DecodeError::WrongShape),
                    }
                } else if text_eq(&es[0].0, "new_puzzle") {
                    match decode_puzzle_type_of(&es[0].1) {
                        Ok(ty) => Ok(Command::NewPuzzle(ty)),
                        Err(e) => Err(e),
                    }
                } else if is_command_tag_of(&es[0].0) {
                    Err(DecodeError::WrongShape)
                } else {
                    Ok(Command::Noop)
                }
            },
            Value::UInt(_) => Err(DecodeError::WrongShape),
        }
    }
}

proof fn lemma_command_tags_distinct()
    ensures
        unit_command("open"@) == Some(Command::Open),
        unit_command("save"@) == Some(Command::Save),
        unit_command("save_as"@) == Some(Command::SaveAs),
        unit_command("exit"@) == Some(Command::Exit),
        unit_command("undo"@) == Some(Command::Undo),
        unit_command("redo"@) == Some(Command::Redo),
        unit_command("reset"@) == Some(Command::Reset),
        unit_command("scramble_full"@) == Some(Command::ScrambleFull),
        unit_command("toggle_blindfold"@) == Some(Command::ToggleBlindfold),
        unit_command("none"@) == Some(Command::Noop),
        unit_command("scramble_n"@) is None,
        unit_command("new_puzzle"@) is None,
        "scramble_n"@ != "new_puzzle"@,
        "rubiks_3d"@ != "rubiks_4d"@,
{
    reveal_strlit("open");
    assert("open"@.len() == 4 && "open"@[0] == 'o');
    reveal_strlit("save");
    assert("save"@.len() == 4 && "save"@[0] == 's');
    reveal_strlit("save_as");
    assert("save_as"@.len() == 7 && "save_as"@[0] == 's');
    reveal_strlit("exit");
    assert("exit"@.len() == 4 && "exit"@[0] == 'e');
    reveal_strlit("undo");
    assert("undo"@.len() == 4 && "undo"@[0] == 'u');
    reveal_strlit("redo");
    assert("redo"@.len() == 4 && "redo"@[0] == 'r');
    reveal_strlit("reset");
    assert("reset"@.len() == 5 && "reset"@[0] == 'r');
    reveal_strlit("scramble_full");
    assert("scramble_full"@.len() == 13 && "scramble_full"@[0] == 's');
    reveal_strlit("toggle_blindfold");
    assert("toggle_blindfold"@.len() == 16 && "toggle_blindfold"@[0] == 't');
    reveal_strlit("none");
    assert("none"@.len() == 4 && "none"@[0] == 'n');
    reveal_strlit("scramble_n");
    assert("scramble_n"@.len() == 10 && "scramble_n"@[0] == 's');
    reveal_strlit("new_puzzle");
    assert("new_puzzle"@.len() == 10 && "new_puzzle"@[0] == 'n');
    reveal_strlit("rubiks_3d");
    assert("rubiks_3d"@.len() == 9 && "rubiks_3d"@[0] == 'r');
    reveal_strlit("rubiks_4d");
    assert("rubiks_4d"@.len() == 9 && "rubiks_4d"@[0] == 'r');
    assert("rubiks_3d"@[7] != "rubiks_4d"@[7]);
}

/// Decoding the encoded form of a puzzle type gives it back.
pub proof fn lemma_puzzle_type_round_trip(ty: PuzzleTypeEnum)
    ensures
        decode_puzzle_type(puzzle_type_model(ty)) == Ok::<PuzzleTypeEnum, DecodeError>(ty),
{
    lemma_command_tags_distinct();
    let fs = seq![("layer_count"@, Model::UInt(ty.layer_count_spec()))];
    assert(find_field(fs, "layer_count"@) == Some(Model::UInt(ty.layer_count_spec())));
}

/// Decoding the encoded form of any command gives the same command back.
pub proof fn lemma_command_round_trip(c: Command)
    ensures
        decode_command(command_model(c)) == Ok::<Command, DecodeError>(c),
{
    lemma_command_tags_distinct();
    if let Command::NewPuzzle(ty) = c {
        lemma_puzzle_type_round_trip(ty);
    }
}

/// A tag that names no command decodes to `Noop`, bare or with any payload.
pub proof fn lemma_unknown_command_tag(tag: Seq<char>, payload: Model)
    requires
        !is_command_tag(tag),
    ensures
        decode_command(Model::Str(tag)) == Ok::<Command, DecodeError>(Command::Noop),
        decode_command(entry_model(tag, payload)) == Ok::<Command, DecodeError>(Command::Noop),
{
}

/// The bounds of a partial scramble form a non-empty range.
pub proof fn lemma_scramble_bounds()
    ensures
        PARTIAL_SCRAMBLE_MOVE_COUNT_MIN <= PARTIAL_SCRAMBLE_MOVE_COUNT_MAX,
{
}

} // verus!
