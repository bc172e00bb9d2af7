//! The puzzle-state vocabulary that commands refer to: puzzle types and layer masks.
use vstd::prelude::*;
use crate::text::{decimal, push_decimal};

verus! {

/// A kind of puzzle: an N-dimensional Rubik's cube with a number of layers per axis.
#[derive(Clone, Copy, Debug, PartialEq, Eq, Hash, Structural)]
pub enum PuzzleTypeEnum {
    Rubiks3D { layer_count: u8 },
    Rubiks4D { layer_count: u8 },
}

/// The puzzle type used when none is given.
pub open spec fn default_puzzle_type() -> PuzzleTypeEnum {
    PuzzleTypeEnum::Rubiks4D { layer_count: 3 }
}

impl Default for PuzzleTypeEnum {
    fn default() -> (r: PuzzleTypeEnum)
        ensures
            r == default_puzzle_type(),
    {
        PuzzleTypeEnum::Rubiks4D { layer_count: 3 }
    }
}

/// `d` copies of the decimal layer count, separated by `x` (`3x3x3`).
pub open spec fn dims_name(layer_count: nat, d: nat) -> Seq<char>
    decreases d,
{
    if d <= 1 {
        decimal(layer_count)
    } else {
        dims_name(layer_count, (d - 1) as nat) + seq!['x'] + decimal(layer_count)
    }
}

/// Whether `c` is the letter of a face axis of a `d`-dimensional cube.
pub open spec fn is_axis_letter(d: nat, c: char) -> bool {
    ||| c == 'R' || c == 'L' || c == 'U' || c == 'D' || c == 'F' || c == 'B'
    ||| d >= 4 && (c == 'O' || c == 'I')
}

impl PuzzleTypeEnum {
    pub open spec fn ndim_spec(self) -> nat {
        match self {
            PuzzleTypeEnum::Rubiks3D { .. } => 3,
            PuzzleTypeEnum::Rubiks4D { .. } => 4,
        }
    }

    pub open spec fn layer_count_spec(self) -> nat {
        match self {
            PuzzleTypeEnum::Rubiks3D { layer_count } => layer_count as nat,
            PuzzleTypeEnum::Rubiks4D { layer_count } => layer_count as nat,
        }
    }

    pub open spec fn name_spec(self) -> Seq<char> {
        dims_name(self.layer_count_spec(), self.ndim_spec())
    }

    /// Whether `axis` names an axis of this puzzle.
    pub open spec fn has_axis(self, axis: Seq<char>) -> bool {
        axis.len() == 1 && is_axis_letter(self.ndim_spec(), axis[0])
    }

    /// Number of dimensions.
    pub fn ndim(&self) -> (r: u8)
        ensures
            r as nat == self.ndim_spec(),
    {
        match self {
            PuzzleTypeEnum::Rubiks3D { .. } => 3,
            PuzzleTypeEnum::Rubiks4D { .. } => 4,
        }
    }

    /// Number of layers along each axis.
    pub fn layer_count(&self) -> (r: u8)
        ensures
            r as nat == self.layer_count_spec(),
    {
        match self {
            PuzzleTypeEnum::Rubiks3D { layer_count } => *layer_count,
            PuzzleTypeEnum::Rubiks4D { layer_count } => *layer_count,
        }
    }

    /// Human-readable name, such as `3x3x3x3`.
    pub fn name(&self) -> (r: String)
        ensures
            r@ == self.name_spec(),
    {
        let n = self.layer_count();
        let d = self.ndim();
        let mut s = String::new();
        push_decimal(&mut s, n as u64);
        let mut i: u8 = 1;
        while i < d
            invariant
                1 <= i <= d,
                d as nat == self.ndim_spec(),
                n as nat == self.layer_count_spec(),
                s@ == dims_name(n as nat, i as nat),
            decreases d - i,
        {
            s.append("x");
            proof { reveal_strlit("x"); }
            push_decimal(&mut s, n as u64);
            i = i + 1;
        }
        s
    }

    /// Whether `axis` names an axis of this puzzle.
    pub fn is_axis_name(&self, axis: &str) -> (r: bool)
        ensures
            r == self.has_axis(axis@),
    {
        if axis.unicode_len() != 1 {
            return false;
        }
        let c = axis.get_char(0);
        match c {
            'R' | 'L' | 'U' | 'D' | 'F' | 'B' => true,
            'O' | 'I' => self.ndim() >= 4,
            _ => false,
        }
    }
}

/// A set of layers along an axis: bit `i` stands for layer `i + 1`, counted from the outside.
#[derive(Clone, Copy, Debug, PartialEq, Eq, Hash, Structural)]
pub struct LayerMask(pub u32);

/// The layer mask used when none is given: the outermost layer alone.
pub open spec fn default_layer_mask() -> LayerMask {
    LayerMask(1)
}

impl Default for LayerMask {
    fn default() -> (r: LayerMask)
        ensures
            r == default_layer_mask(),
    {
        LayerMask(1)
    }
}

/// Whether bit `i` of `bits` is set.
pub open spec fn has_layer(bits: u32, i: u32) -> bool {
    (bits >> i) & 1u32 == 1u32
}

/// The decimal numbers of the layers below `i` that `bits` holds, in increasing order.
pub open spec fn digits_below(bits: u32, i: nat) -> Seq<char>
    decreases i,
{
    if i == 0 {
        seq![]
    } else {
        let prev = digits_below(bits, (i - 1) as nat);
        if i <= 32 && has_layer(bits, (i - 1) as u32) {
            prev + decimal(i)
        } else {
            prev
        }
    }
}

impl LayerMask {
    /// The layer numbers of the mask written one after another, as in `12`.
    pub open spec fn digits_spec(self) -> Seq<char> {
        digits_below(self.0, 32)
    }

    /// Whether this is the default mask.
    pub fn is_default(&self) -> (r: bool)
        ensures
            r == (*self == default_layer_mask()),
    {
        self.0 == 1
    }

    /// The layer numbers of the mask written one after another, as in `12`.
    pub fn digits(&self) -> (r: String)
        ensures
            r@ == self.digits_spec(),
    {
        let mut s = String::new();
        let mut i: u32 = 0;
        while i < 32
            invariant
                i <= 32,
                s@ == digits_below(self.0, i as nat),
            decreases 32 - i,
        {
            if (self.0 >> i) & 1u32 == 1u32 {
                push_decimal(&mut s, (i + 1) as u64);
            }
            i = i + 1;
        }
        s
    }
}

} // verus!
