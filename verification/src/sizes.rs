//! The closed set of thumbnail sizes the cache knows.

use vstd::prelude::*;

verus! {

/// A standard thumbnail size. Each size owns one directory of the cache and
/// bounds the longer side of the thumbnails stored there.
#[derive(Clone, Copy, Debug, PartialEq, Eq, Structural, Hash)]
pub enum ThumbnailSize {
    Small,
    Normal,
    Large,
}

impl ThumbnailSize {
    /// The largest width or height, in pixels, of a thumbnail of this size.
    /// This is the library's one table of sizes: every other part asks here.
    pub open spec fn dimension(self) -> int {
        match self {
            ThumbnailSize::Small => 64,
            ThumbnailSize::Normal => 128,
            ThumbnailSize::Large => 256,
        }
    }

    /// The name of the cache directory of this size: the variant's name in
    /// lower case.
    pub open spec fn dir_name(self) -> Seq<char> {
        match self {
            ThumbnailSize::Small => seq!['s', 'm', 'a', 'l', 'l'],
            ThumbnailSize::Normal => seq!['n', 'o', 'r', 'm', 'a', 'l'],
            ThumbnailSize::Large => seq!['l', 'a', 'r', 'g', 'e'],
        }
    }

    /// Returns the target maximum dimension in pixels.
    pub fn to_dimension(&self) -> (d: u32)
        ensures
            d == self.dimension(),
    {
        match self {
            ThumbnailSize::Small => 64,
            ThumbnailSize::Normal => 128,
            ThumbnailSize::Large => 256,
        }
    }

    /// Returns the directory name of this size.
    pub fn to_string(&self) -> (s: String)
        ensures
            s@ == self.dir_name(),
    {
        match self {
            ThumbnailSize::Small => {
                proof { reveal_strlit("small"); }
                let s = "small".to_owned();
                assert(s@ =~= self.dir_name());
                s
            }
            ThumbnailSize::Normal => {
                proof { reveal_strlit("normal"); }
                let s = "normal".to_owned();
                assert(s@ =~= self.dir_name());
                s
            }
            ThumbnailSize::Large => {
                proof { reveal_strlit("large"); }
                let s = "large".to_owned();
                assert(s@ =~= self.dir_name());
                s
            }
        }
    }
}

} // verus!
