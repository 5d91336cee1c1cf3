//! The shared descriptor shape: canonical weight/width buckets and the
//! normalized description of one font face.

use vstd::prelude::*;

verus! {

/// Canonical weight bucket. The numeric wire value of each bucket is part of
/// the protocol: clients read it as a plain integer.
#[derive(Clone, Copy, PartialEq, Eq, Structural, Debug)]
pub enum FontWeight {
    Thin,
    ExtraLight,
    Light,
    Normal,
    Medium,
    SemiBold,
    Bold,
    ExtraBold,
    Black,
    ExtraBlack,
}

impl FontWeight {
    /// The integer each bucket is serialized as.
    pub open spec fn spec_wire_value(self) -> int {
        match self {
            FontWeight::Thin => 100,
            FontWeight::ExtraLight => 200,
            FontWeight::Light => 300,
            FontWeight::Normal => 400,
            FontWeight::Medium => 500,
            FontWeight::SemiBold => 600,
            FontWeight::Bold => 700,
            FontWeight::ExtraBold => 800,
            FontWeight::Black => 900,
            FontWeight::ExtraBlack => 950,
        }
    }

    pub fn wire_value(self) -> (v: usize)
        ensures
            v == self.spec_wire_value(),
    {
        match self {
            FontWeight::Thin => 100,
            FontWeight::ExtraLight => 200,
            FontWeight::Light => 300,
            FontWeight::Normal => 400,
            FontWeight::Medium => 500,
            FontWeight::SemiBold => 600,
            FontWeight::Bold => 700,
            FontWeight::ExtraBold => 800,
            FontWeight::Black => 900,
            FontWeight::ExtraBlack => 950,
        }
    }
}

/// Canonical width (stretch) bucket, serialized as a rounded percentage.
#[derive(Clone, Copy, PartialEq, Eq, Structural, Debug)]
pub enum FontWidth {
    UltraCondensed,
    ExtraCondensed,
    Condensed,
    SemiCondensed,
    Normal,
    SemiExpanded,
    Expanded,
    ExtraExpanded,
    UltraExpanded,
}

impl FontWidth {
    /// The integer each bucket is serialized as.
    pub open spec fn spec_wire_value(self) -> int {
        match self {
            FontWidth::UltraCondensed => 50,
            FontWidth::ExtraCondensed => 63,
            FontWidth::Condensed => 75,
            FontWidth::SemiCondensed => 88,
            FontWidth::Normal => 100,
            FontWidth::SemiExpanded => 113,
            FontWidth::Expanded => 125,
            FontWidth::ExtraExpanded => 150,
            FontWidth::UltraExpanded => 200,
        }
    }

    pub fn wire_value(self) -> (v: usize)
        ensures
            v == self.spec_wire_value(),
    {
        match self {
            FontWidth::UltraCondensed => 50,
            FontWidth::ExtraCondensed => 63,
            FontWidth::Condensed => 75,
            FontWidth::SemiCondensed => 88,
            FontWidth::Normal => 100,
            FontWidth::SemiExpanded => 113,
            FontWidth::Expanded => 125,
            FontWidth::ExtraExpanded => 150,
            FontWidth::UltraExpanded => 200,
        }
    }
}

/// One normalized font face, as the enumerator publishes it.
pub struct FontDescriptor {
    pub path: String,
    pub postscript: String,
    pub family: String,
    pub style: String,
    pub weight: FontWeight,
    pub width: FontWidth,
    pub italic: bool,
}

/// The mathematical shape of a [`FontDescriptor`]: strings as character
/// sequences, buckets as themselves.
pub struct FontDescriptorModel {
    pub path: Seq<char>,
    pub postscript: Seq<char>,
    pub family: Seq<char>,
    pub style: Seq<char>,
    pub weight: FontWeight,
    pub width: FontWidth,
    pub italic: bool,
}

/// The models of a sequence of descriptors.
pub open spec fn descriptor_models(s: Seq<FontDescriptor>) -> Seq<FontDescriptorModel> {
    s.map_values(|d: FontDescriptor| d@)
}

impl View for FontDescriptor {
    type V = FontDescriptorModel;

    open spec fn view(&self) -> FontDescriptorModel {
        FontDescriptorModel {
            path: self.path@,
            postscript: self.postscript@,
            family: self.family@,
            style: self.style@,
            weight: self.weight,
            width: self.width,
            italic: self.italic,
        }
    }
}

} // verus!
