//! Puzzle-interaction commands: selecting axes and layers, twisting, recentering.
use vstd::prelude::*;
use crate::puzzle::{default_layer_mask, LayerMask, PuzzleTypeEnum};
use crate::value::{
    entries_of, entry, entry_model, find_entry, find_field, lemma_entries_of, str_value, text_eq, DecodeError,
    Model, Value,
};

verus! {

/// An intent that acts on the puzzle.
#[derive(Clone, Debug, PartialEq, Eq)]
pub enum PuzzleCommand {
    SelectAxis(String),
    SelectLayers(LayerMask),
    /// A twist; without an axis it acts on the axis currently selected.
    Twist { axis: Option<String>, direction: String, layers: LayerMask },
    /// A recentering; without an axis it acts on the axis currently selected.
    Recenter { axis: Option<String> },
    /// No intent; also what an unknown tag decodes to.
    Noop,
}

/// The mathematical form of a [`PuzzleCommand`], with strings as character sequences.
pub enum PuzzleCommandView {
    SelectAxis(Seq<char>),
    SelectLayers(LayerMask),
    Twist { axis: Option<Seq<char>>, direction: Seq<char>, layers: LayerMask },
    Recenter { axis: Option<Seq<char>> },
    Noop,
}

pub open spec fn opt_view(o: Option<String>) -> Option<Seq<char>> {
    match o {
        Some(s) => Some(s@),
        None => None,
    }
}

impl View for PuzzleCommand {
    type V = PuzzleCommandView;

    open spec fn view(&self) -> PuzzleCommandView {
        match self {
            PuzzleCommand::SelectAxis(a) => PuzzleCommandView::SelectAxis(a@),
            PuzzleCommand::SelectLayers(m) => PuzzleCommandView::SelectLayers(*m),
            PuzzleCommand::Twist { axis, direction, layers } => PuzzleCommandView::Twist {
                axis: opt_view(*axis),
                direction: direction@,
                layers: *layers,
            },
            PuzzleCommand::Recenter { axis } => PuzzleCommandView::Recenter { axis: opt_view(*axis) },
            PuzzleCommand::Noop => PuzzleCommandView::Noop,
        }
    }
}

impl Default for PuzzleCommand {
    fn default() -> (r: PuzzleCommand)
        ensures
            r@ == PuzzleCommandView::Noop,
    {
        PuzzleCommand::Noop
    }
}

/// The diagnostic given for an axis that the puzzle does not have.
pub open spec fn unknown_axis_label(axis: Seq<char>) -> Seq<char> {
    "<invalid twist: unknown axis "@ + axis + ">"@
}

/// The label of a twist: the layers when they are not the default ones, then
/// the axis (or `Ø` for the axis currently selected), then the direction.
pub open spec fn twist_label(
    ty: PuzzleTypeEnum,
    axis: Option<Seq<char>>,
    direction: Seq<char>,
    layers: LayerMask,
) -> Seq<char> {
    let l = if layers == default_layer_mask() {
        Seq::empty()
    } else {
        layers.digits_spec()
    };
    match axis {
        Some(a) => if ty.has_axis(a) {
            l + a + direction
        } else {
            unknown_axis_label(a)
        },
        None => l + "Ø"@ + direction,
    }
}

/// The label of a recentering.
pub open spec fn recenter_label(ty: PuzzleTypeEnum, axis: Option<Seq<char>>) -> Seq<char> {
    match axis {
        Some(a) => if ty.has_axis(a) {
            "Recenter "@ + a
        } else {
            unknown_axis_label(a)
        },
        None => "Recenter"@,
    }
}

/// The label shown to users for a puzzle command on a puzzle of type `ty`.
pub open spec fn puzzle_command_label(c: PuzzleCommandView, ty: PuzzleTypeEnum) -> Seq<char> {
    match c {
        PuzzleCommandView::SelectAxis(a) => a,
        PuzzleCommandView::SelectLayers(m) => m.digits_spec(),
        PuzzleCommandView::Twist { axis, direction, layers } => twist_label(
            ty,
            axis,
            direction,
            layers,
        ),
        PuzzleCommandView::Recenter { axis } => recenter_label(ty, axis),
        PuzzleCommandView::Noop => Seq::empty(),
    }
}

/// The `axis` field, present only when there is an axis.
pub open spec fn axis_fields(axis: Option<Seq<char>>) -> Seq<(Seq<char>, Model)> {
    match axis {
        Some(a) => seq![("axis"@, Model::Str(a))],
        None => Seq::empty(),
    }
}

/// The fields of an encoded twist.
pub open spec fn twist_fields(
    axis: Option<Seq<char>>,
    direction: Seq<char>,
    layers: LayerMask,
) -> Seq<(Seq<char>, Model)> {
    axis_fields(axis) + seq![
        ("direction"@, Model::Str(direction)),
        ("layers"@, Model::UInt(layers.0 as nat)),
    ]
}

/// The encoded form of a puzzle command.
pub open spec fn puzzle_command_model(c: PuzzleCommandView) -> Model {
    match c {
        PuzzleCommandView::SelectAxis(a) => entry_model("select_axis"@, Model::Str(a)),
        PuzzleCommandView::SelectLayers(m) => entry_model(
            "select_layers"@,
            Model::UInt(m.0 as nat),
        ),
        PuzzleCommandView::Twist { axis, direction, layers } => entry_model(
            "twist"@,
            Model::Mapping(twist_fields(axis, direction, layers)),
        ),
        PuzzleCommandView::Recenter { axis } => entry_model(
            "recenter"@,
            Model::Mapping(axis_fields(axis)),
        ),
        PuzzleCommandView::Noop => Model::Str("none"@),
    }
}

/// Whether `tag` is the tag of some puzzle command.
pub open spec fn is_puzzle_command_tag(tag: Seq<char>) -> bool {
    ||| tag == "select_axis"@
    ||| tag == "select_layers"@
    ||| tag == "twist"@
    ||| tag == "recenter"@
    ||| tag == "none"@
}

/// Decodes a string payload.
pub open spec fn decode_text(m: Model) -> Result<Seq<char>, DecodeError> {
    match m {
        Model::Str(s) => Ok(s),
        _ => Err(DecodeError::WrongShape),
    }
}

/// Decodes a layer mask payload.
pub open spec fn decode_mask(m: Model) -> Result<LayerMask, DecodeError> {
    match m {
        Model::UInt(n) => if n <= u32::MAX {
            Ok(LayerMask(n as u32))
        } else {
            Err(DecodeError::TooLarge)
        },
        _ => Err(DecodeError::WrongShape),
    }
}

/// Decodes the optional `axis` field: absent gives no axis.
pub open spec fn decode_axis(fs: Seq<(Seq<char>, Model)>) -> Result<Option<Seq<char>>, DecodeError> {
    match find_field(fs, "axis"@) {
        None => Ok(None),
        Some(m) => match decode_text(m) {
            Ok(a) => Ok(Some(a)),
            Err(e) => Err(e),
        },
    }
}

/// The value of a required field.
pub open spec fn required_field(fs: Seq<(Seq<char>, Model)>, key: Seq<char>) -> Result<
    Model,
    DecodeError,
> {
    match find_field(fs, key) {
        None => Err(DecodeError::MissingField),
        Some(m) => Ok(m),
    }
}

/// Decodes the fields of a twist.
pub open spec fn decode_twist(m: Model) -> Result<PuzzleCommandView, DecodeError> {
    match m {
        Model::Mapping(fs) => match decode_axis(fs) {
            Err(e) => Err(e),
            Ok(axis) => match required_field(fs, "direction"@) {
                Err(e) => Err(e),
                Ok(d) => match decode_text(d) {
                    Err(e) => Err(e),
                    Ok(direction) => match required_field(fs, "layers"@) {
                        Err(e) => Err(e),
                        Ok(l) => match decode_mask(l) {
                            Err(e) => Err(e),
                            Ok(layers) => Ok(PuzzleCommandView::Twist { axis, direction, layers }),
                        },
                    },
                },
            },
        },
        _ => Err(DecodeError::WrongShape),
    }
}

/// Decodes the fields of a recentering.
pub open spec fn decode_recenter(m: Model) -> Result<PuzzleCommandView, DecodeError> {
    match m {
        Model::Mapping(fs) => match decode_axis(fs) {
            Err(e) => Err(e),
            Ok(axis) => Ok(PuzzleCommandView::Recenter { axis }),
        },
        _ => Err(DecodeError::WrongShape),
    }
}

/// Decodes a puzzle command. A tag that names no puzzle command gives `Noop`,
/// whatever its payload.
pub open spec fn decode_puzzle_command(m: Model) -> Result<PuzzleCommandView, DecodeError> {
    match m {
        Model::Str(tag) => if tag == "none"@ {
            Ok(PuzzleCommandView::Noop)
        } else if is_puzzle_command_tag(tag) {
            Err(DecodeError::WrongShape)
        } else {
            Ok(PuzzleCommandView::Noop)
        },
        Model::Mapping(es) => if es.len() != 1 {
            Err(DecodeError::WrongShape)
        } else if es[0].0 == "select_axis"@ {
            match decode_text(es[0].1) {
                Ok(a) => Ok(PuzzleCommandView::SelectAxis(a)),
                Err(e) => Err(e),
            }
        } else if es[0].0 == "select_layers"@ {
            match decode_mask(es[0].1) {
                Ok(l) => Ok(PuzzleCommandView::SelectLayers(l)),
                Err(e) => Err(e),
            }
        } else if es[0].0 == "twist"@ {
            decode_twist(es[0].1)
        } else if es[0].0 == "recenter"@ {
            decode_recenter(es[0].1)
        } else if es[0].0 == "none"@ {
            Err(DecodeError::WrongShape)
        } else {
            Ok(PuzzleCommandView::Noop)
        },
        Model::UInt(_) => Err(DecodeError::WrongShape),
    }
}

/// A decoding result over views, from one over values.
pub open spec fn result_view<T: View>(r: Result<T, DecodeError>) -> Result<T::V, DecodeError> {
    match r {
        Ok(t) => Ok(t@),
        Err(e) => Err(e),
    }
}

fn decode_text_of(v: &Value) -> (r: Result<String, DecodeError>)
    ensures
        result_view(r) == decode_text(v@),
{
    match v {
        Value::Str(s) => Ok(s.clone()),
        _ => Err(DecodeError::WrongShape),
    }
}

fn decode_mask_of(v: &Value) -> (r: Result<LayerMask, DecodeError>)
    ensures
        r == decode_mask(v@),
{
    match v {
        Value::UInt(n) => if *n <= u32::MAX as u64 {
            Ok(LayerMask(*n as u32))
        } else {
            Err(DecodeError::TooLarge)
        },
        _ => Err(DecodeError::WrongShape),
    }
}

fn decode_axis_of(fs: &Vec<(String, Value)>) -> (r: Result<Option<String>, DecodeError>)
    ensures
        (match r {
            Ok(a) => Ok(opt_view(a)),
            Err(e) => Err(e),
        }) == decode_axis(Value::Mapping(*fs)@->Mapping_0),
{
    match find_entry(fs, "axis") {
        None => Ok(None),
        Some(v) => match decode_text_of(v) {
            Ok(a) => Ok(Some(a)),
            Err(e) => Err(e),
        },
    }
}

fn required_field_of<'a>(fs: &'a Vec<(String, Value)>, key: &str) -> (r: Result<&'a Value, DecodeError>)
    ensures
        (match r {
            Ok(v) => Ok(v@),
            Err(e) => Err(e),
        }) == required_field(Value::Mapping(*fs)@->Mapping_0, key@),
{
    match find_entry(fs, key) {
        None => Err(DecodeError::MissingField),
        Some(v) => Ok(v),
    }
}

fn decode_twist_of(v: &Value) -> (r: Result<PuzzleCommand, DecodeError>)
    ensures
        result_view(r) == decode_twist(v@),
{
    match v {
        Value::Mapping(fs) => {
            let axis = match decode_axis_of(fs) {
                Ok(a) => a,
                Err(e) => return Err(e),
            };
            let d = match required_field_of(fs, "direction") {
                Ok(d) => d,
                Err(e) => return Err(e),
            };
            let direction = match decode_text_of(d) {
                Ok(d) => d,
                Err(e) => return Err(e),
            };
            let l = match required_field_of(fs, "layers") {
                Ok(l) => l,
                Err(e) => return Err(e),
            };
            let layers = match decode_mask_of(l) {
                Ok(l) => l,
                Err(e) => return Err(e),
            };
            Ok(PuzzleCommand::Twist { axis, direction, layers })
        },
        _ => Err(DecodeError::WrongShape),
    }
}

fn decode_recenter_of(v: &Value) -> (r: Result<PuzzleCommand, DecodeError>)
    ensures
        result_view(r) == decode_recenter(v@),
{
    match v {
        Value::Mapping(fs) => match decode_axis_of(fs) {
            Ok(axis) => Ok(PuzzleCommand::Recenter { axis }),
            Err(e) => Err(e),
        },
        _ => Err(DecodeError::WrongShape),
    }
}

fn unknown_axis_description(axis: &String) -> (r: String)
    ensures
        r@ == unknown_axis_label(axis@),
{
    let mut s = String::from_str("<invalid twist: unknown axis ");
    s.append(axis.as_str());
    s.append(">");
    s
}

fn axis_entries(axis: &Option<String>) -> (r: Vec<(String, Value)>)
    ensures
        entries_of(r) == axis_fields(opt_view(*axis)),
{
    let mut fs: Vec<(String, Value)> = Vec::new();
    if let Some(a) = axis {
        fs.push((String::from_str("axis"), Value::Str(a.clone())));
    }
    proof {
        lemma_entries_of(fs);
        assert(entries_of(fs) =~= axis_fields(opt_view(*axis)));
    }
    fs
}

impl PuzzleCommand {
    /// The label shown to users for this command, on a puzzle of type `ty`.
    pub fn short_description(&self, ty: PuzzleTypeEnum) -> (r: String)
        ensures
            r@ == puzzle_command_label(self@, ty),
    {
        match self {
            PuzzleCommand::SelectAxis(axis_name) => axis_name.clone(),
            PuzzleCommand::SelectLayers(layers) => layers.digits(),
            PuzzleCommand::Twist { axis, direction, layers } => {
                let mut s = String::new();
                if !layers.is_default() {
                    let digits = layers.digits();
                    s.append(digits.as_str());
                }
                match axis {
                    Some(a) => if ty.is_axis_name(a.as_str()) {
                        s.append(a.as_str());
                        s.append(direction.as_str());
                        s
                    } else {
                        unknown_axis_description(a)
                    },
                    None => {
                        s.append("Ø");
                        s.append(direction.as_str());
                        s
                    },
                }
            },
            PuzzleCommand::Recenter { axis } => match axis {
                Some(a) => if ty.is_axis_name(a.as_str()) {
                    let mut s = String::from_str("Recenter ");
                    s.append(a.as_str());
                    s
                } else {
                    unknown_axis_description(a)
                },
                None => String::from_str("Recenter"),
            },
            PuzzleCommand::Noop => String::new(),
        }
    }

    /// The encoded form of this command.
    pub fn encode(&self) -> (r: Value)
        ensures
            r@ == puzzle_command_model(self@),
    {
        match self {
            PuzzleCommand::SelectAxis(a) => entry("select_axis", Value::Str(a.clone())),
            PuzzleCommand::SelectLayers(m) => entry("select_layers", Value::UInt(m.0 as u64)),
            PuzzleCommand::Twist { axis, direction, layers } => {
                let mut fs = axis_entries(axis);
                let ghost before = fs;
                fs.push((String::from_str("direction"), Value::Str(direction.clone())));
                fs.push((String::from_str("layers"), Value::UInt(layers.0 as u64)));
                proof {
                    lemma_entries_of(before);
                    lemma_entries_of(fs);
                    assert(entries_of(fs) =~= twist_fields(opt_view(*axis), direction@, *layers));
                }
                entry("twist", Value::Mapping(fs))
            },
            PuzzleCommand::Recenter { axis } => entry("recenter", Value::Mapping(axis_entries(axis))),
            PuzzleCommand::Noop => str_value("none"),
        }
    }

    /// Decodes a puzzle command; a tag that names no puzzle command gives `Noop`.
    pub fn decode(v: &Value) -> (r: Result<PuzzleCommand, DecodeError>)
        ensures
            result_view(r) == decode_puzzle_command(v@),
    {
        match v {
            Value::Str(tag) => if text_eq(tag, "none") {
                Ok(PuzzleCommand::Noop)
            } else if text_eq(tag, "select_axis") || text_eq(tag, "select_layers") || text_eq(
                tag,
                "twist",
            ) || text_eq(tag, "recenter") {
                Err(DecodeError::WrongShape)
            } else {
                Ok(PuzzleCommand::Noop)
            },
            Value::Mapping(es) => {
                proof {
                    lemma_entries_of(*es);
                }
                if es.len() != 1 {
                    Err(DecodeError::WrongShape)
                } else if text_eq(&es[0].0, "select_axis") {
                    match decode_text_of(&es[0].1) {
                        Ok(a) => Ok(PuzzleCommand::SelectAxis(a)),
                        Err(e) => Err(e),
                    }
                } else if text_eq(&es[0].0, "select_layers") {
                    match decode_mask_of(&es[0].1) {
                        Ok(l) => Ok(PuzzleCommand::SelectLayers(l)),
                        Err(e) => Err(e),
                    }
                } else if text_eq(&es[0].0, "twist") {
                    decode_twist_of(&es[0].1)
                } else if text_eq(&es[0].0, "recenter") {
                    decode_recenter_of(&es[0].1)
                } else if text_eq(&es[0].0, "none") {
                    Err(DecodeError::WrongShape)
                } else {
                    Ok(PuzzleCommand::Noop)
                }
            },
            Value::UInt(_) => Err(DecodeError::WrongShape),
        }
    }
}

proof fn lemma_puzzle_tags_distinct()
    ensures
        "select_axis"@ != "select_layers"@,
        "select_axis"@ != "twist"@,
        "select_axis"@ != "recenter"@,
        "select_axis"@ != "none"@,
        "select_layers"@ != "twist"@,
        "select_layers"@ != "recenter"@,
        "select_layers"@ != "none"@,
        "twist"@ != "recenter"@,
        "twist"@ != "none"@,
        "recenter"@ != "none"@,
        "axis"@ != "direction"@,
        "axis"@ != "layers"@,
        "direction"@ != "layers"@,
{
    reveal_strlit("select_axis");
    assert("select_axis"@.len() == 11 && "select_axis"@[0] == 's');
    reveal_strlit("select_layers");
    assert("select_layers"@.len() == 13 && "select_layers"@[0] == 's');
    reveal_strlit("twist");
    assert("twist"@.len() == 5 && "twist"@[0] == 't');
    reveal_strlit("recenter");
    assert("recenter"@.len() == 8 && "recenter"@[0] == 'r');
    reveal_strlit("none");
    assert("none"@.len() == 4 && "none"@[0] == 'n');
    reveal_strlit("axis");
    assert("axis"@.len() == 4 && "axis"@[0] == 'a');
    reveal_strlit("direction");
    assert("direction"@.len() == 9 && "direction"@[0] == 'd');
    reveal_strlit("layers");
    assert("layers"@.len() == 6 && "layers"@[0] == 'l');
}

/// Decoding the encoded form of any puzzle command gives the same command back;
/// an absent axis comes back absent.
pub proof fn lemma_puzzle_command_round_trip(c: PuzzleCommandView)
    ensures
        decode_puzzle_command(puzzle_command_model(c)) == Ok::<PuzzleCommandView, DecodeError>(c),
{
    lemma_puzzle_tags_distinct();
    reveal_with_fuel(find_field, 4);
    match c {
        PuzzleCommandView::Twist { axis, direction, layers } => {
            let rest = twist_fields(None, direction, layers);
            assert(rest.drop_first().drop_first() =~= Seq::<(Seq<char>, Model)>::empty());
            if axis is Some {
                assert(twist_fields(axis, direction, layers).drop_first() =~= rest);
            }
        },
        _ => {},
    }
}

/// A tag that names no puzzle command decodes to `Noop`, bare or with any payload.
pub proof fn lemma_unknown_puzzle_command_tag(tag: Seq<char>, payload: Model)
    requires
        !is_puzzle_command_tag(tag),
    ensures
        decode_puzzle_command(Model::Str(tag)) == Ok::<PuzzleCommandView, DecodeError>(
            PuzzleCommandView::Noop,
        ),
        decode_puzzle_command(entry_model(tag, payload)) == Ok::<PuzzleCommandView, DecodeError>(
            PuzzleCommandView::Noop,
        ),
{
}

} // verus!
