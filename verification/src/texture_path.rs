//! From the path of an image file to the key of its texture.
//!
//! A path ends in `<folder>/<name>.<extension>`. The folder says what kind
//! of texture the file holds, the name says which one. The picture of a
//! building is named `<faction>_<type>`, in any mix of upper and lower case
//! for the type.

use vstd::prelude::*;
use vstd::string::StrSliceExecFns;
use crate::building::BuildingType;
use crate::general::{spec_contains, str_contains, Faction};
use crate::sprite::TextureType;

verus! {

/// The first position from `from` on at which `text` holds `a` or `b`; the
/// length of `text` if there is none.
pub open spec fn spec_find(text: Seq<char>, a: char, b: char, from: int) -> int
    decreases text.len() - from,
{
    if from >= text.len() {
        text.len() as int
    } else if text[from] == a || text[from] == b {
        from
    } else {
        spec_find(text, a, b, from + 1)
    }
}

/// The last position before `upto` at which `text` holds `c`; `-1` if there
/// is none.
pub open spec fn spec_find_last(text: Seq<char>, c: char, upto: int) -> int
    decreases upto,
{
    if upto <= 0 {
        -1
    } else if text[upto - 1] == c {
        upto - 1
    } else {
        spec_find_last(text, c, upto - 1)
    }
}

/// The lower-case form of a text as `str::to_lowercase` gives it. It follows
/// the Unicode tables, so it is named here, not spelled out.
pub uninterp spec fn spec_lowercase(text: Seq<char>) -> Seq<char>;

/// `str::to_lowercase`: the lower-case form of `text`. Believed of std: the
/// result depends on the characters of `text` alone.
#[verifier::external_body]
fn lowercase(text: &str) -> (lowered: String)
    ensures
        lowered@ == spec_lowercase(text@),
{
    text.to_lowercase()
}

/// Whether two texts hold the same characters.
pub fn same_text(a: &str, b: &str) -> (same: bool)
    ensures
        same == (a@ == b@),
{
    a.to_owned() == b.to_owned()
}

fn find(text: &str, a: char, b: char, from: usize) -> (at: usize)
    requires
        from <= text@.len(),
    ensures
        at == spec_find(text@, a, b, from as int),
        from <= at <= text@.len(),
{
    let len: usize = text.unicode_len();
    let mut i: usize = from;
    while i < len
        invariant
            from <= i <= len,
            len == text@.len(),
            spec_find(text@, a, b, from as int) == spec_find(text@, a, b, i as int),
        decreases len - i,
    {
        let c: char = text.get_char(i);
        if c == a || c == b {
            return i;
        }
        i += 1;
    }
    len
}

fn find_last(text: &str, c: char, upto: usize) -> (at: Option<usize>)
    requires
        upto <= text@.len(),
    ensures
        match at {
            Some(i) => i == spec_find_last(text@, c, upto as int) && i < upto,
            None => spec_find_last(text@, c, upto as int) == -1,
        },
{
    let mut i: usize = upto;
    while i > 0
        invariant
            i <= upto <= text@.len(),
            spec_find_last(text@, c, upto as int) == spec_find_last(text@, c, i as int),
        decreases i,
    {
        if text.get_char(i - 1) == c {
            return Some((i - 1) as usize);
        }
        i -= 1;
    }
    None
}

/// The faction that a file name speaks of.
pub open spec fn spec_faction_from(name: Seq<char>) -> Option<Faction> {
    if spec_contains(name, "placeholderfaction1"@) {
        Some(Faction::PlaceholderFaction1)
    } else {
        None
    }
}

/// The faction whose name occurs in `str`, if one does.
pub fn get_faction_from_string(str: &str) -> (faction: Option<Faction>)
    ensures
        faction == spec_faction_from(str@),
{
    if str_contains(str, "placeholderfaction1") {
        return Some(Faction::PlaceholderFaction1);
    }
    None
}

/// The building type with the lowered name `lowered`, given the lowered
/// names of the types; the first type wins.
pub open spec fn spec_match_building_type(
    lowered: Seq<char>,
    command_centre: Seq<char>,
    barracks: Seq<char>,
) -> Option<BuildingType> {
    if command_centre == lowered {
        Some(BuildingType::CommandCentre)
    } else if barracks == lowered {
        Some(BuildingType::Barracks)
    } else {
        None
    }
}

/// Picks the building type whose lowered name equals `lowered`, given the
/// lowered names of the types.
pub fn match_building_type(lowered: &str, command_centre: &str, barracks: &str) -> (found: Option<
    BuildingType,
>)
    ensures
        found == spec_match_building_type(lowered@, command_centre@, barracks@),
{
    if same_text(command_centre, lowered) {
        Some(BuildingType::CommandCentre)
    } else if same_text(barracks, lowered) {
        Some(BuildingType::Barracks)
    } else {
        None
    }
}

/// The part of a building's file name that names the type: what stands
/// between the first and the second separator, a separator being `_` or
/// `.`. A name without a separator has no such part.
pub open spec fn spec_type_part(name: Seq<char>) -> Option<Seq<char>> {
    let first = spec_find(name, '_', '.', 0);
    if first >= name.len() {
        None
    } else {
        Some(name.subrange(first + 1, spec_find(name, '_', '.', first + 1)))
    }
}

/// The building type that a file name speaks of: the type whose name, in
/// lower case, is the type part of the file name in lower case.
pub open spec fn spec_building_type_from(name: Seq<char>) -> Option<BuildingType> {
    match spec_type_part(name) {
        Some(part) => spec_match_building_type(
            spec_lowercase(spec_lowercase(part)),
            spec_lowercase(BuildingType::CommandCentre.spec_name()),
            spec_lowercase(BuildingType::Barracks.spec_name()),
        ),
        None => None,
    }
}

/// The building type that the file name `str` speaks of, if it speaks of
/// one.
pub fn get_building_type_from_string(str: &str) -> (building_type: Option<BuildingType>)
    ensures
        building_type == spec_building_type_from(str@),
{
    let len: usize = str.unicode_len();
    let first: usize = find(str, '_', '.', 0);
    if first >= len {
        return None;
    }
    let second: usize = find(str, '_', '.', first + 1);
    let part: &str = str.substring_char(first + 1, second);
    let b_type: String = lowercase(part);
    let lowered: String = lowercase(b_type.as_str());
    let command_centre: String = lowercase(BuildingType::CommandCentre.name());
    let barracks: String = lowercase(BuildingType::Barracks.name());
    match_building_type(lowered.as_str(), command_centre.as_str(), barracks.as_str())
}

/// The tile that a file name in the folder of ground textures stands for.
pub open spec fn spec_ground_index(name: Seq<char>) -> Option<usize> {
    if name == "grid"@ {
        Some(0usize)
    } else if name == "grass"@ {
        Some(1usize)
    } else if name == "dirt"@ {
        Some(2usize)
    } else {
        None
    }
}

/// The interface texture that a file name in the folder of interface
/// textures stands for.
pub open spec fn spec_ui_index(name: Seq<char>) -> Option<usize> {
    if name == "buttons"@ {
        Some(0usize)
    } else if name == "bottom_left_ui"@ {
        Some(1usize)
    } else {
        None
    }
}

/// The key of the texture in folder `subfolder` with the name `name`.
pub open spec fn spec_texture_type_of(subfolder: Seq<char>, name: Seq<char>) -> Option<TextureType> {
    if subfolder == "buildings"@ {
        match (spec_faction_from(name), spec_building_type_from(name)) {
            (Some(faction), Some(b_type)) => Some(TextureType::Building { faction, b_type }),
            _ => None,
        }
    } else if subfolder == "ground"@ {
        match spec_ground_index(name) {
            Some(tile_index) => Some(TextureType::World { tile_index }),
            None => None,
        }
    } else if subfolder == "UI"@ {
        match spec_ui_index(name) {
            Some(type_index) => Some(TextureType::UI { type_index }),
            None => None,
        }
    } else if subfolder == "filler"@ {
        Some(TextureType::Filler)
    } else {
        None
    }
}

/// The folder that a path names last: what stands between the last `/` and
/// the one before it, or the start of the path.
pub open spec fn spec_subfolder(path: Seq<char>) -> Seq<char> {
    let last = spec_find_last(path, '/', path.len() as int);
    path.subrange(spec_find_last(path, '/', last) + 1, last)
}

/// The name of the file that a path names: what stands behind the last `/`,
/// up to the first `.` in it.
pub open spec fn spec_file_name(path: Seq<char>) -> Seq<char> {
    let file = path.subrange(spec_find_last(path, '/', path.len() as int) + 1, path.len() as int);
    file.subrange(0, spec_find(file, '.', '.', 0))
}

/// The key of the texture that the file at `path` holds. A path without a
/// folder has none.
pub open spec fn spec_texture_type_from_path(path: Seq<char>) -> Option<TextureType> {
    if spec_find_last(path, '/', path.len() as int) < 0 {
        None
    } else {
        spec_texture_type_of(spec_subfolder(path), spec_file_name(path))
    }
}

/// The key of the texture that the file at `path` holds, if folder and
/// name are known ones.
pub fn get_texture_type_from_path(path: &str) -> (t_type: Option<TextureType>)
    ensures
        t_type == spec_texture_type_from_path(path@),
{
    let len: usize = path.unicode_len();
    let last: usize = match find_last(path, '/', len) {
        Some(at) => at,
        None => {
            return None;
        },
    };
    let start: usize = match find_last(path, '/', last) {
        Some(at) => at + 1,
        None => 0,
    };
    let subfolder: &str = path.substring_char(start, last);
    let file: &str = path.substring_char(last + 1, len);
    let name: &str = file.substring_char(0, find(file, '.', '.', 0));
    texture_type_of(subfolder, name)
}

/// The key of the texture in folder `subfolder` with the name `name`, if
/// both are known ones.
pub fn texture_type_of(subfolder: &str, name: &str) -> (t_type: Option<TextureType>)
    ensures
        t_type == spec_texture_type_of(subfolder@, name@),
{
    if same_text(subfolder, "buildings") {
        let faction = get_faction_from_string(name);
        let b_type = get_building_type_from_string(name);
        match (faction, b_type) {
            (Some(faction), Some(b_type)) => Some(TextureType::Building { faction, b_type }),
            _ => None,
        }
    } else if same_text(subfolder, "ground") {
        if same_text(name, "grid") {
            Some(TextureType::World { tile_index: 0 })
        } else if same_text(name, "grass") {
            Some(TextureType::World { tile_index: 1 })
        } else if same_text(name, "dirt") {
            Some(TextureType::World { tile_index: 2 })
        } else {
            None
        }
    } else if same_text(subfolder, "UI") {
        if same_text(name, "buttons") {
            Some(TextureType::UI { type_index: 0 })
        } else if same_text(name, "bottom_left_ui") {
            Some(TextureType::UI { type_index: 1 })
        } else {
            None
        }
    } else if same_text(subfolder, "filler") {
        Some(TextureType::Filler)
    } else {
        None
    }
}

} // verus!
