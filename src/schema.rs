use vstd::prelude::*;
use crate::media::same_chars;

verus! {

/// Whether a name is one of the columns of the asset table.
pub open spec fn expected_column(s: Seq<char>) -> bool {
    s == "id"@ || s == "filename"@ || s == "extension"@ || s == "original_path"@ || s == "type"@
        || s == "thumbnail_path"@ || s == "duration_sec"@ || s == "file_size"@ || s
        == "waveform_data"@ || s == "metadata"@
}

/// Whether some column has the name.
pub open spec fn names_column(columns: Seq<String>, s: Seq<char>) -> bool {
    exists|i: int| 0 <= i < columns.len() && #[trigger] columns[i]@ == s
}

/// Whether the column names found in a stored table are exactly the expected
/// set, no more and no fewer. No columns at all means that the table does not
/// exist yet, which is valid: it will be created.
pub open spec fn schema_ok(columns: Seq<String>) -> bool {
    columns.len() == 0 || ((forall|i: int|
        0 <= i < columns.len() ==> expected_column(#[trigger] columns[i]@)) && (forall|s: Seq<char>|
        expected_column(s) ==> names_column(columns, s)))
}

fn is_expected(c: &str) -> (r: bool)
    ensures
        r == expected_column(c@),
{
    same_chars(c, "id") || same_chars(c, "filename") || same_chars(c, "extension") || same_chars(
        c,
        "original_path",
    ) || same_chars(c, "type") || same_chars(c, "thumbnail_path") || same_chars(c, "duration_sec")
        || same_chars(c, "file_size") || same_chars(c, "waveform_data") || same_chars(c, "metadata")
}

fn has_column(columns: &Vec<String>, name: &str) -> (r: bool)
    ensures
        r == names_column(columns@, name@),
{
    let mut i: usize = 0;
    while i < columns.len()
        invariant
            i <= columns@.len(),
            forall|j: int| 0 <= j < i ==> columns@[j]@ != name@,
        decreases columns@.len() - i,
    {
        if same_chars(columns[i].as_str(), name) {
            return true;
        }
        i = i + 1;
    }
    false
}

/// Whether a stored table may be used as it is: its columns are exactly the
/// expected ones, or it has none (it does not exist yet). A table that fails
/// this is to be discarded and created anew.
pub fn is_schema_valid(columns: &Vec<String>) -> (r: bool)
    ensures
        r == schema_ok(columns@),
{
    if columns.len() == 0 {
        return true;
    }
    let mut i: usize = 0;
    while i < columns.len()
        invariant
            i <= columns@.len(),
            forall|j: int| 0 <= j < i ==> expected_column(#[trigger] columns@[j]@),
        decreases columns@.len() - i,
    {
        if !is_expected(columns[i].as_str()) {
            return false;
        }
        i = i + 1;
    }
    let c0 = has_column(columns, "id");
    let c1 = has_column(columns, "filename");
    let c2 = has_column(columns, "extension");
    let c3 = has_column(columns, "original_path");
    let c4 = has_column(columns, "type");
    let c5 = has_column(columns, "thumbnail_path");
    let c6 = has_column(columns, "duration_sec");
    let c7 = has_column(columns, "file_size");
    let c8 = has_column(columns, "waveform_data");
    let c9 = has_column(columns, "metadata");
    let r = c0 && c1 && c2 && c3 && c4 && c5 && c6 && c7 && c8 && c9;
    proof {
        if !r {
            if !c0 {
                assert(expected_column("id"@));
            }
            if !c1 {
                assert(expected_column("filename"@));
            }
            if !c2 {
                assert(expected_column("extension"@));
            }
            if !c3 {
                assert(expected_column("original_path"@));
            }
            if !c4 {
                assert(expected_column("type"@));
            }
            if !c5 {
                assert(expected_column("thumbnail_path"@));
            }
            if !c6 {
                assert(expected_column("duration_sec"@));
            }
            if !c7 {
                assert(expected_column("file_size"@));
            }
            if !c8 {
                assert(expected_column("waveform_data"@));
            }
            if !c9 {
                assert(expected_column("metadata"@));
            }
        }
    }
    r
}

} // verus!
