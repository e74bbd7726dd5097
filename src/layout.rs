use vstd::prelude::*;
use crate::sanitize::{has_no_path_syntax, sanitize_id, sanitized, push_char};

verus! {

/// A file of the store, relative to the per-user application-data directory:
/// the directory segments to descend through, then the file name.
pub struct Location {
    pub dirs: Vec<String>,
    pub file: String,
}

/// Abstract value of a [`Location`].
pub struct LocationModel {
    pub dirs: Seq<Seq<char>>,
    pub file: Seq<char>,
}

pub open spec fn segments_view(v: Seq<String>) -> Seq<Seq<char>> {
    v.map_values(|s: String| s@)
}

impl View for Location {
    type V = LocationModel;

    open spec fn view(&self) -> LocationModel {
        LocationModel { dirs: segments_view(self.dirs@), file: self.file@ }
    }
}

/// The data root: `RedPillCharting/Database`.
pub open spec fn database_dir() -> Seq<Seq<char>> {
    seq!["RedPillCharting"@, "Database"@]
}

/// Where chart states live: `<data root>/Drawings`.
pub open spec fn drawings_dir() -> Seq<Seq<char>> {
    database_dir().push("Drawings"@)
}

/// Where the sticky-notes collection lives: `<data root>/StickyNotes`.
pub open spec fn sticky_notes_dir() -> Seq<Seq<char>> {
    database_dir().push("StickyNotes"@)
}

/// The file of the chart state saved under `source_id`.
pub open spec fn chart_state_location(source_id: Seq<char>) -> LocationModel {
    LocationModel { dirs: drawings_dir(), file: sanitized(source_id) + ".json"@ }
}

/// The one file that holds all sticky notes.
pub open spec fn sticky_notes_location() -> LocationModel {
    LocationModel { dirs: sticky_notes_dir(), file: "sticky_notes.json"@ }
}

/// A file name that, joined to a directory, names an entry of that very
/// directory: not empty, not `.` or `..`, and without a separator.
pub open spec fn is_plain_file_name(f: Seq<char>) -> bool {
    &&& f.len() > 0
    &&& f != "."@
    &&& f != ".."@
    &&& forall|i: int| 0 <= i < f.len() ==> #[trigger] f[i] != '/' && f[i] != '\\' && f[i] != '\0'
}

fn segment(s: &str) -> (r: String)
    ensures
        r@ == s@,
{
    String::from_str(s)
}

/// The segments of the data root.
pub fn database_segments() -> (r: Vec<String>)
    ensures
        segments_view(r@) == database_dir(),
{
    let mut r: Vec<String> = Vec::new();
    r.push(segment("RedPillCharting"));
    r.push(segment("Database"));
    assert(segments_view(r@) =~= database_dir());
    r
}

/// The segments of the directory of chart states.
pub fn drawings_segments() -> (r: Vec<String>)
    ensures
        segments_view(r@) == drawings_dir(),
{
    let mut r = database_segments();
    r.push(segment("Drawings"));
    assert(segments_view(r@) =~= drawings_dir());
    r
}

/// The segments of the directory of the sticky-notes collection.
pub fn sticky_notes_segments() -> (r: Vec<String>)
    ensures
        segments_view(r@) == sticky_notes_dir(),
{
    let mut r = database_segments();
    r.push(segment("StickyNotes"));
    assert(segments_view(r@) =~= sticky_notes_dir());
    r
}

/// The file that holds the chart state of `source_id`: the sanitized
/// identifier with `.json` appended, in the `Drawings` directory.
pub fn chart_state_file(source_id: &str) -> (r: Location)
    ensures
        r@ == chart_state_location(source_id@),
        is_plain_file_name(r@.file),
{
    let mut file = sanitize_id(source_id);
    let ghost id = file@;
    push_char(&mut file, '.');
    push_char(&mut file, 'j');
    push_char(&mut file, 's');
    push_char(&mut file, 'o');
    push_char(&mut file, 'n');
    proof {
        reveal_strlit(".json");
        reveal_strlit(".");
        reveal_strlit("..");
        assert(file@ =~= id + ".json"@);
        assert(file@.len() >= 5);
        assert(file@ != "."@ && file@ != ".."@) by {
            assert("."@.len() == 1 && ".."@.len() == 2);
        }
        assert(forall|i: int| 0 <= i < id.len() ==> #[trigger] file@[i] == id[i]);
        assert(has_no_path_syntax(id));
    }
    let r = Location { dirs: drawings_segments(), file };
    assert(r@ =~= chart_state_location(source_id@));
    r
}

/// The file that holds the sticky-notes collection.
pub fn sticky_notes_file() -> (r: Location)
    ensures
        r@ == sticky_notes_location(),
{
    let r = Location { dirs: sticky_notes_segments(), file: segment("sticky_notes.json") };
    assert(r@ =~= sticky_notes_location());
    r
}

} // verus!
