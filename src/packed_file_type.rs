//! Classification of an entry by its path.

use vstd::prelude::*;

verus! {

/// The content types an entry can have, as its path tells them.
///
/// Many of them are recognised without having a decoder yet.
#[derive(Clone, Copy, Debug, PartialEq, Eq, Structural)]
pub enum PackedFileType {
    Anim,
    AnimFragment,
    AnimPack,
    AnimTable,
    CEO,
    DB,
    Image,
    Loc,
    MatchedCombat,
    RigidModel,
    StarPos,
    Text,
    Unknown,
}

/// `s` ends with `suffix`.
pub open spec fn has_suffix(s: Seq<char>, suffix: Seq<char>) -> bool {
    suffix.len() <= s.len() && s.subrange(s.len() - suffix.len(), s.len() as int) == suffix
}

/// A file name with one of the plain-text extensions.
pub open spec fn is_text_name(n: Seq<char>) -> bool {
    has_suffix(n, ".lua"@) || has_suffix(n, ".xml"@) || has_suffix(n, ".xml.shader"@)
        || has_suffix(n, ".xml.material"@) || has_suffix(n, ".variantmeshdefinition"@)
        || has_suffix(n, ".environment"@) || has_suffix(n, ".lighting"@)
        || has_suffix(n, ".wsmodel"@) || has_suffix(n, ".csv"@) || has_suffix(n, ".tsv"@)
        || has_suffix(n, ".inl"@) || has_suffix(n, ".battle_speech_camera"@)
        || has_suffix(n, ".bob"@) || has_suffix(n, ".cindyscene"@)
        || has_suffix(n, ".cindyscenemanager"@) || has_suffix(n, ".txt"@)
}

/// A file name with one of the image extensions.
pub open spec fn is_image_name(n: Seq<char>) -> bool {
    has_suffix(n, ".jpg"@) || has_suffix(n, ".jpeg"@) || has_suffix(n, ".tga"@)
        || has_suffix(n, ".dds"@) || has_suffix(n, ".png"@)
}

/// The content type of an entry at `path`; the first rule that applies wins.
pub open spec fn classify(path: Seq<Seq<char>>) -> PackedFileType {
    if path.len() == 0 {
        PackedFileType::Unknown
    } else if path[0] == "db"@ {
        PackedFileType::DB
    } else if has_suffix(path.last(), ".loc"@) {
        PackedFileType::Loc
    } else if has_suffix(path.last(), ".rigid_model_v2"@) {
        PackedFileType::RigidModel
    } else if is_text_name(path.last()) {
        PackedFileType::Text
    } else if is_image_name(path.last()) {
        PackedFileType::Image
    } else {
        PackedFileType::Unknown
    }
}

/// The segments of a path, as character sequences.
pub open spec fn path_view(path: Seq<String>) -> Seq<Seq<char>> {
    path.map_values(|s: String| s@)
}

/// The name under which a content type is shown.
pub open spec fn display_name_of(t: PackedFileType) -> Seq<char> {
    match t {
        PackedFileType::Anim => "Anim"@,
        PackedFileType::AnimFragment => "AnimFragment"@,
        PackedFileType::AnimPack => "AnimPack"@,
        PackedFileType::AnimTable => "AnimTable"@,
        PackedFileType::CEO => "CEO"@,
        PackedFileType::DB => "DB Table"@,
        PackedFileType::Image => "Image"@,
        PackedFileType::Loc => "Loc Table"@,
        PackedFileType::MatchedCombat => "Matched Combat"@,
        PackedFileType::RigidModel => "RigidModel"@,
        PackedFileType::StarPos => "StartPos"@,
        PackedFileType::Text => "Text"@,
        PackedFileType::Unknown => "Unknown"@,
    }
}

/// Whether `s` ends with `suffix`, compared character by character.
pub fn ends_with(s: &str, suffix: &str) -> (r: bool)
    ensures
        r == has_suffix(s@, suffix@),
{
    let n: usize = s.unicode_len();
    let m: usize = suffix.unicode_len();
    if m > n {
        return false;
    }
    let off: usize = n - m;
    let mut i: usize = 0;
    while i < m
        invariant
            i <= m,
            m <= n,
            off == n - m,
            n == s@.len(),
            m == suffix@.len(),
            forall|j: int| 0 <= j < i ==> s@[off + j] == suffix@[j],
        decreases m - i,
    {
        if s.get_char(off + i) != suffix.get_char(i) {
            assert(s@.subrange(off as int, n as int)[i as int] != suffix@[i as int]);
            return false;
        }
        i = i + 1;
    }
    assert(s@.subrange(off as int, n as int) =~= suffix@);
    true
}

/// Whether `a` and `b` hold the same text.
pub fn same_text(a: &str, b: &str) -> (r: bool)
    ensures
        r == (a@ == b@),
{
    if a.unicode_len() != b.unicode_len() {
        return false;
    }
    let r = ends_with(a, b);
    assert(a@ =~= a@.subrange(0, a@.len() as int));
    r
}

/// Whether `n` has one of the plain-text extensions.
fn is_text_file_name(n: &str) -> (r: bool)
    ensures
        r == is_text_name(n@),
{
    ends_with(n, ".lua") || ends_with(n, ".xml") || ends_with(n, ".xml.shader")
        || ends_with(n, ".xml.material") || ends_with(n, ".variantmeshdefinition")
        || ends_with(n, ".environment") || ends_with(n, ".lighting") || ends_with(n, ".wsmodel")
        || ends_with(n, ".csv") || ends_with(n, ".tsv") || ends_with(n, ".inl")
        || ends_with(n, ".battle_speech_camera") || ends_with(n, ".bob")
        || ends_with(n, ".cindyscene") || ends_with(n, ".cindyscenemanager")
        || ends_with(n, ".txt")
}

/// Whether `n` has one of the image extensions.
fn is_image_file_name(n: &str) -> (r: bool)
    ensures
        r == is_image_name(n@),
{
    ends_with(n, ".jpg") || ends_with(n, ".jpeg") || ends_with(n, ".tga") || ends_with(n, ".dds")
        || ends_with(n, ".png")
}

impl PackedFileType {
    /// The content type of the entry at `path`, decided by its first segment
    /// and the extension of its last one. It reads nothing but the path.
    pub fn get_packed_file_type(path: &[String]) -> (r: Self)
        ensures
            r == classify(path_view(path@)),
    {
        if path.len() == 0 {
            return PackedFileType::Unknown;
        }
        let first: &str = path[0].as_str();
        let name: &str = path[path.len() - 1].as_str();
        let r = if same_text(first, "db") {
            PackedFileType::DB
        } else if ends_with(name, ".loc") {
            PackedFileType::Loc
        } else if ends_with(name, ".rigid_model_v2") {
            PackedFileType::RigidModel
        } else if is_text_file_name(name) {
            PackedFileType::Text
        } else if is_image_file_name(name) {
            PackedFileType::Image
        } else {
            PackedFileType::Unknown
        };
        assert(path_view(path@)[0] == first@);
        assert(path_view(path@).last() == name@);
        r
    }

    /// The name under which this content type is shown.
    pub fn display_name(&self) -> (r: &'static str)
        ensures
            r@ == display_name_of(*self),
    {
        match self {
            PackedFileType::Anim => "Anim",
            PackedFileType::AnimFragment => "AnimFragment",
            PackedFileType::AnimPack => "AnimPack",
            PackedFileType::AnimTable => "AnimTable",
            PackedFileType::CEO => "CEO",
            PackedFileType::DB => "DB Table",
            PackedFileType::Image => "Image",
            PackedFileType::Loc => "Loc Table",
            PackedFileType::MatchedCombat => "Matched Combat",
            PackedFileType::RigidModel => "RigidModel",
            PackedFileType::StarPos => "StartPos",
            PackedFileType::Text => "Text",
            PackedFileType::Unknown => "Unknown",
        }
    }
}

} // verus!
