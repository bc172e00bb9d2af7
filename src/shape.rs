//! Metadata of a puzzle's shape: its name, dimension and facets.
use vstd::prelude::*;

verus! {

/// What is known of one facet of a shape.
#[derive(Clone, Debug, PartialEq, Eq)]
pub struct FacetInfo {
    /// Facet name.
    pub name: String,
}

/// Puzzle shape metadata. A facet is identified by its position in `facets`.
#[derive(Debug)]
pub struct PuzzleShape {
    /// Shape name.
    pub name: Option<String>,
    /// Number of dimensions.
    pub ndim: u8,
    /// Puzzle facets.
    pub facets: Vec<FacetInfo>,
}

/// A facet index that is not one of the shape's facets.
#[derive(Clone, Copy, Debug, PartialEq, Eq, Hash, Structural)]
pub struct OutOfRange {
    /// The index asked for.
    pub index: usize,
    /// The number of facets.
    pub len: usize,
}

impl PuzzleShape {
    /// The facet at position `facet`, or `OutOfRange` if there is none.
    pub fn info(&self, facet: usize) -> (r: Result<&FacetInfo, OutOfRange>)
        ensures
            facet < self.facets.len() ==> r == Ok::<&FacetInfo, OutOfRange>(&self.facets[facet as int]),
            facet >= self.facets.len() ==> r == Err::<&FacetInfo, OutOfRange>(
                OutOfRange { index: facet, len: self.facets.len() },
            ),
    {
        if facet < self.facets.len() {
            Ok(&self.facets[facet])
        } else {
            Err(OutOfRange { index: facet, len: self.facets.len() })
        }
    }
}

} // verus!
