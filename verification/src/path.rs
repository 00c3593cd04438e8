//! A directory path modelled as a sequence of segments.

use vstd::prelude::*;
use vstd::string::StringExecFns;

verus! {

/// A filesystem directory path, held as its segments in order, with no
/// separator or other transformation applied.
pub struct DirPath {
    pub segments: Vec<String>,
}

impl DirPath {
    /// The path as the sequence of its segments' character sequences.
    pub open spec fn view(&self) -> Seq<Seq<char>> {
        self.segments@.map_values(|s: String| s@)
    }

    /// The empty path, with no segments.
    pub fn empty() -> (r: DirPath)
        ensures
            r@ == Seq::<Seq<char>>::empty(),
    {
        let r = DirPath { segments: Vec::new() };
        proof {
            assert(r@ =~= Seq::<Seq<char>>::empty());
        }
        r
    }

    /// Wraps a list of segments as a path, keeping them as given.
    pub fn from_segments(segments: Vec<String>) -> (r: DirPath)
        ensures
            r@ == segments@.map_values(|s: String| s@),
    {
        DirPath { segments }
    }

    /// Appends one segment at the end of the path.
    pub fn push(&mut self, segment: String)
        ensures
            final(self)@ == old(self)@.push(segment@),
    {
        let ghost before = self@;
        self.segments.push(segment);
        proof {
            assert(self@ =~= before.push(segment@));
        }
    }

    /// How many segments the path has.
    pub fn len(&self) -> (r: usize)
        ensures
            r == self@.len(),
    {
        self.segments.len()
    }
}

/// The name of the cache directory kept beneath the working directory.
pub open spec fn cache_segment() -> Seq<char> {
    "cache"@
}

/// Derives the cache directory path from a base directory: the base with a
/// literal "cache" segment appended, and no other transformation.
pub fn cache_directory(base: DirPath) -> (r: DirPath)
    ensures
        r@ == base@.push(cache_segment()),
{
    let mut r = base;
    let segment = String::from_str("cache");
    r.push(segment);
    r
}

} // verus!
