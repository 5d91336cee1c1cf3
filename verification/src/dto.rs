//! Plain response shapes. The unverified edge turns them into JSON; the
//! contracts here pin down every field it may publish.

use vstd::prelude::*;

verus! {

/// The version envelope returned by the version and update endpoints.
pub struct VersionDTO {
    pub version: usize,
}

/// The error envelope.
pub struct ErrorDTO {
    pub version: usize,
    pub error: String,
}

/// One font face as published on the wire: strings plus the numeric wire
/// values of the weight and width buckets.
pub struct FontDescriptorDTO {
    pub postscript: String,
    pub family: String,
    pub style: String,
    pub weight: usize,
    pub stretch: usize,
    pub italic: bool,
}

/// The mathematical shape of a [`FontDescriptorDTO`].
pub struct FontDescriptorDTOModel {
    pub postscript: Seq<char>,
    pub family: Seq<char>,
    pub style: Seq<char>,
    pub weight: int,
    pub stretch: int,
    pub italic: bool,
}

impl View for FontDescriptorDTO {
    type V = FontDescriptorDTOModel;

    open spec fn view(&self) -> FontDescriptorDTOModel {
        FontDescriptorDTOModel {
            postscript: self.postscript@,
            family: self.family@,
            style: self.style@,
            weight: self.weight as int,
            stretch: self.stretch as int,
            italic: self.italic,
        }
    }
}

/// The models of a sequence of wire faces.
pub open spec fn face_models(s: Seq<FontDescriptorDTO>) -> Seq<FontDescriptorDTOModel> {
    s.map_values(|d: FontDescriptorDTO| d@)
}

/// All faces of one font file: the `fontFiles` map entry for `path`. One
/// file may hold several faces, so the listing is grouped by path.
pub struct FontFileEntry {
    pub path: String,
    pub faces: Vec<FontDescriptorDTO>,
}

/// The mathematical shape of a [`FontFileEntry`].
pub struct FontFileEntryModel {
    pub path: Seq<char>,
    pub faces: Seq<FontDescriptorDTOModel>,
}

impl View for FontFileEntry {
    type V = FontFileEntryModel;

    open spec fn view(&self) -> FontFileEntryModel {
        FontFileEntryModel { path: self.path@, faces: face_models(self.faces@) }
    }
}

/// The models of a sequence of map entries.
pub open spec fn group_models(s: Seq<FontFileEntry>) -> Seq<FontFileEntryModel> {
    s.map_values(|g: FontFileEntry| g@)
}

/// The paths of a sequence of entry models, in entry order.
pub open spec fn group_paths_of(gs: Seq<FontFileEntryModel>) -> Seq<Seq<char>> {
    gs.map_values(|g: FontFileEntryModel| g.path)
}

/// The font listing: the protocol version and every enumerated face,
/// grouped by file path in order of first appearance.
pub struct FontFilesDTO {
    pub version: usize,
    pub font_files: Vec<FontFileEntry>,
}

} // verus!
