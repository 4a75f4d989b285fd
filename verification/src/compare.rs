//! One document, several backends: which pages are compared, which rasters
//! stand side by side in the composite of a page, and how the composite is
//! named.

use crate::command::join;
use crate::command::spec_join;
use crate::raster::composable;
use crate::raster::compose_all;
use crate::raster::composite_extent;
use crate::raster::pasted;
use crate::raster::pixmap_data;
use crate::raster::pixmap_size;
use crate::raster::referents;
use tiny_skia::Pixmap;
use vstd::prelude::*;
use vstd::string::StringExecFns;

verus! {

/// The number of pages that are compared: as many as the first backend has
/// rendered, and none where there is no backend.
pub open spec fn spec_page_count(documents: Seq<Vec<Pixmap>>) -> nat {
    if documents.len() == 0 {
        0
    } else {
        documents[0]@.len()
    }
}

/// Whether every backend has rendered the page at `index`.
pub open spec fn has_page(documents: Seq<Vec<Pixmap>>, index: int) -> bool {
    forall|j: int| 0 <= j < documents.len() ==> index < (#[trigger] documents[j])@.len()
}

/// The rasters of the page at `index`, one of each backend, in the order of
/// the backends.
pub open spec fn column(documents: Seq<Vec<Pixmap>>, index: int) -> Seq<Pixmap> {
    Seq::new(documents.len(), |j: int| documents[j]@[index])
}

/// The number of pages that are compared. The first backend of the list
/// decides.
pub fn page_count(documents: &Vec<Vec<Pixmap>>) -> (count: usize)
    ensures
        count == spec_page_count(documents@),
{
    if documents.len() == 0 {
        0
    } else {
        documents[0].len()
    }
}

/// The composite of the page at `index`: the rasters that the backends
/// have rendered of it, side by side in the order of the backends.
///
/// `documents` holds the pages of each backend. The result is `None` where
/// a backend has no page at `index` or the rasters have no composite.
pub fn compose_page(documents: &Vec<Vec<Pixmap>>, index: usize) -> (result: Option<Pixmap>)
    ensures
        result is Some <==> has_page(documents@, index as int) && composable(
            column(documents@, index as int),
        ),
        result matches Some(image) ==> {
            &&& pixmap_size(image).0 == composite_extent(column(documents@, index as int)).0
            &&& pixmap_size(image).1 == composite_extent(column(documents@, index as int)).1
            &&& pixmap_data(image) == pasted(column(documents@, index as int), documents@.len())
        },
{
    let mut tiles: Vec<&Pixmap> = Vec::new();
    let mut j: usize = 0;
    while j < documents.len()
        invariant
            0 <= j <= documents.len(),
            tiles@.len() == j,
            forall|k: int| 0 <= k < j ==> index < (#[trigger] documents@[k])@.len(),
            forall|k: int| 0 <= k < j ==> *tiles@[k] == documents@[k]@[index as int],
        decreases documents.len() - j,
    {
        if index >= documents[j].len() {
            assert(!(index < documents@[j as int]@.len()));
            return None;
        }
        tiles.push(&documents[j][index]);
        j = j + 1;
    }
    assert(referents(tiles@) =~= column(documents@, index as int));
    compose_all(&tiles)
}

/// The text of one decimal digit.
pub open spec fn digit_text(digit: nat) -> Seq<char> {
    if digit == 0 {
        "0"@
    } else if digit == 1 {
        "1"@
    } else if digit == 2 {
        "2"@
    } else if digit == 3 {
        "3"@
    } else if digit == 4 {
        "4"@
    } else if digit == 5 {
        "5"@
    } else if digit == 6 {
        "6"@
    } else if digit == 7 {
        "7"@
    } else if digit == 8 {
        "8"@
    } else {
        "9"@
    }
}

/// A number in decimal notation, without leading zeros.
pub open spec fn decimal_text(number: nat) -> Seq<char>
    decreases number,
{
    if number < 10 {
        digit_text(number)
    } else {
        decimal_text(number / 10) + digit_text(number % 10)
    }
}

/// The name of the composite of a page: the stem of the document's name, a
/// hyphen, the index of the page counted from zero, and the extension.
pub open spec fn spec_composite_name(stem: Seq<char>, index: nat) -> Seq<char> {
    stem + "-"@ + decimal_text(index) + ".png"@
}

fn digit(value: usize) -> (text: &'static str)
    requires
        value < 10,
    ensures
        text@ == digit_text(value as nat),
{
    if value == 0 {
        "0"
    } else if value == 1 {
        "1"
    } else if value == 2 {
        "2"
    } else if value == 3 {
        "3"
    } else if value == 4 {
        "4"
    } else if value == 5 {
        "5"
    } else if value == 6 {
        "6"
    } else if value == 7 {
        "7"
    } else if value == 8 {
        "8"
    } else {
        "9"
    }
}

/// Write a number in decimal notation.
pub fn decimal(number: usize) -> (text: String)
    ensures
        text@ == decimal_text(number as nat),
    decreases number,
{
    if number < 10 {
        String::from_str(digit(number))
    } else {
        decimal(number / 10).concat(digit(number % 10))
    }
}

/// The name of the file that holds the composite of the page at `index` of
/// the document whose name has the given stem.
pub fn composite_name(stem: &str, index: usize) -> (name: String)
    ensures
        name@ == spec_composite_name(stem@, index as nat),
{
    let name = String::from_str(stem);
    let name = name.concat("-");
    let name = name.concat(decimal(index).as_str());
    name.concat(".png")
}

/// The path of the composite of a page: under `root`, in a directory named
/// like the directory of the document, the file named by
/// [`composite_name`].
pub fn composite_path(root: &str, parent: &str, stem: &str, index: usize) -> (path: String)
    ensures
        path@ == spec_join(spec_join(root@, parent@), spec_composite_name(stem@, index as nat)),
{
    let dir = join(root, parent);
    join(dir.as_str(), composite_name(stem, index).as_str())
}

} // verus!
