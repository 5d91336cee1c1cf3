//! Verified core of the platform font enumerator.
//!
//! The native font-config subsystem is reached over a foreign-function
//! boundary that this crate cannot inspect, so the process is split in two:
//! the unverified edge walks the native result set and reports each entry as
//! a [`RawFontEntry`] of plain values, and everything after that point — the
//! per-entry skip/default/error policy, the weight and width classification,
//! and the assembly of [`FontDescriptor`] values — is verified here.

use vstd::prelude::*;

use crate::provider::fontprovider::{
    descriptor_models, FontDescriptor, FontDescriptorModel, FontWeight, FontWidth,
};

verus! {

/// The closed error set of the platform enumerator. No raw native error code
/// crosses this boundary.
#[derive(Debug)]
pub enum PlatformFontProviderErr {
    /// A native handle needed by the enumerator could not be acquired.
    Initialization(String),
    /// The bulk font query returned no result set at all.
    FontListEmpty(String),
    /// A native weight value fell outside every weight bucket.
    FontWeightMismatch(i32),
    /// A native width value fell outside every width bucket.
    FontWidthMismatch(i32),
    /// The font-directory listing could not be obtained.
    FontDirsEmpty(String),
    /// A native string failed text validation: the index itself is corrupt,
    /// so the whole enumeration fails rather than one entry being skipped.
    InvalidString,
}

/// Weight buckets on the platform-native scale.
#[derive(Clone, Copy, PartialEq, Eq, Structural, Debug)]
pub enum FcWeight {
    Thin,
    ExtraLight,
    Light,
    Book,
    Regular,
    Medium,
    DemiBold,
    Bold,
    ExtraBold,
    Black,
    ExtraBlack,
}

/// Width buckets on the platform-native scale.
#[derive(Clone, Copy, PartialEq, Eq, Structural, Debug)]
pub enum FcWidth {
    UltraCondensed,
    ExtraCondensed,
    Condensed,
    SemiCondensed,
    Normal,
    SemiExpanded,
    Expanded,
    ExtraExpanded,
    UltraExpanded,
}

/// The weight bucket of a non-negative native weight value. The cut points
/// are a wire contract and must be reproduced exactly.
pub open spec fn fc_weight_bucket(value: int) -> FcWeight
    recommends
        value >= 0,
{
    if value < 40 {
        FcWeight::Thin
    } else if value < 50 {
        FcWeight::ExtraLight
    } else if value < 75 {
        FcWeight::Light
    } else if value < 80 {
        FcWeight::Book
    } else if value < 100 {
        FcWeight::Regular
    } else if value < 180 {
        FcWeight::Medium
    } else if value < 200 {
        FcWeight::DemiBold
    } else if value < 205 {
        FcWeight::Bold
    } else if value < 210 {
        FcWeight::ExtraBold
    } else if value < 215 {
        FcWeight::Black
    } else {
        FcWeight::ExtraBlack
    }
}

/// Classification is total on non-negative input and a hard error below zero.
pub open spec fn spec_fc_weight_of(value: i32) -> Result<FcWeight, PlatformFontProviderErr> {
    if value >= 0 {
        Ok(fc_weight_bucket(value as int))
    } else {
        Err(PlatformFontProviderErr::FontWeightMismatch(value))
    }
}

/// The width bucket of a non-negative native width value. The cut points are
/// a wire contract and must be reproduced exactly.
pub open spec fn fc_width_bucket(value: int) -> FcWidth
    recommends
        value >= 0,
{
    if value < 63 {
        FcWidth::UltraCondensed
    } else if value < 75 {
        FcWidth::ExtraCondensed
    } else if value < 87 {
        FcWidth::Condensed
    } else if value < 100 {
        FcWidth::SemiCondensed
    } else if value < 113 {
        FcWidth::Normal
    } else if value < 125 {
        FcWidth::SemiExpanded
    } else if value < 150 {
        FcWidth::Expanded
    } else if value < 200 {
        FcWidth::ExtraExpanded
    } else {
        FcWidth::UltraExpanded
    }
}

/// Classification is total on non-negative input and a hard error below zero.
pub open spec fn spec_fc_width_of(value: i32) -> Result<FcWidth, PlatformFontProviderErr> {
    if value >= 0 {
        Ok(fc_width_bucket(value as int))
    } else {
        Err(PlatformFontProviderErr::FontWidthMismatch(value))
    }
}

impl FcWeight {
    /// Classify a native weight value into its bucket.
    pub fn try_from(value: i32) -> (r: Result<FcWeight, PlatformFontProviderErr>)
        ensures
            r == spec_fc_weight_of(value),
    {
        if value < 0 {
            Err(PlatformFontProviderErr::FontWeightMismatch(value))
        } else if value < 40 {
            Ok(FcWeight::Thin)
        } else if value < 50 {
            Ok(FcWeight::ExtraLight)
        } else if value < 75 {
            Ok(FcWeight::Light)
        } else if value < 80 {
            Ok(FcWeight::Book)
        } else if value < 100 {
            Ok(FcWeight::Regular)
        } else if value < 180 {
            Ok(FcWeight::Medium)
        } else if value < 200 {
            Ok(FcWeight::DemiBold)
        } else if value < 205 {
            Ok(FcWeight::Bold)
        } else if value < 210 {
            Ok(FcWeight::ExtraBold)
        } else if value < 215 {
            Ok(FcWeight::Black)
        } else {
            Ok(FcWeight::ExtraBlack)
        }
    }

    /// The textual form of a weight bucket, used as the style label when an
    /// entry carries no style string of its own.
    pub fn name(&self) -> (s: String)
        ensures
            s@ == spec_fc_weight_name(*self),
    {
        match self {
            FcWeight::Thin => String::from_str("Thin"),
            FcWeight::ExtraLight => String::from_str("ExtraLight"),
            FcWeight::Light => String::from_str("Light"),
            FcWeight::Book => String::from_str("Book"),
            FcWeight::Regular => String::from_str("Regular"),
            FcWeight::Medium => String::from_str("Medium"),
            FcWeight::DemiBold => String::from_str("DemiBold"),
            FcWeight::Bold => String::from_str("Bold"),
            FcWeight::ExtraBold => String::from_str("ExtraBold"),
            FcWeight::Black => String::from_str("Black"),
            FcWeight::ExtraBlack => String::from_str("ExtraBlack"),
        }
    }
}

/// The textual form of each native weight bucket.
pub open spec fn spec_fc_weight_name(w: FcWeight) -> Seq<char> {
    match w {
        FcWeight::Thin => "Thin"@,
        FcWeight::ExtraLight => "ExtraLight"@,
        FcWeight::Light => "Light"@,
        FcWeight::Book => "Book"@,
        FcWeight::Regular => "Regular"@,
        FcWeight::Medium => "Medium"@,
        FcWeight::DemiBold => "DemiBold"@,
        FcWeight::Bold => "Bold"@,
        FcWeight::ExtraBold => "ExtraBold"@,
        FcWeight::Black => "Black"@,
        FcWeight::ExtraBlack => "ExtraBlack"@,
    }
}

impl FcWidth {
    /// Classify a native width value into its bucket.
    pub fn try_from(value: i32) -> (r: Result<FcWidth, PlatformFontProviderErr>)
        ensures
            r == spec_fc_width_of(value),
    {
        if value < 0 {
            Err(PlatformFontProviderErr::FontWidthMismatch(value))
        } else if value < 63 {
            Ok(FcWidth::UltraCondensed)
        } else if value < 75 {
            Ok(FcWidth::ExtraCondensed)
        } else if value < 87 {
            Ok(FcWidth::Condensed)
        } else if value < 100 {
            Ok(FcWidth::SemiCondensed)
        } else if value < 113 {
            Ok(FcWidth::Normal)
        } else if value < 125 {
            Ok(FcWidth::SemiExpanded)
        } else if value < 150 {
            Ok(FcWidth::Expanded)
        } else if value < 200 {
            Ok(FcWidth::ExtraExpanded)
        } else {
            Ok(FcWidth::UltraExpanded)
        }
    }
}

/// The canonical bucket each native weight bucket is published as. `Book`
/// collapses onto `Normal`: a documented lossy mapping.
pub open spec fn spec_weight_from_fc(w: FcWeight) -> FontWeight {
    match w {
        FcWeight::Thin => FontWeight::Thin,
        FcWeight::ExtraLight => FontWeight::ExtraLight,
        FcWeight::Light => FontWeight::Light,
        FcWeight::Book => FontWeight::Normal,
        FcWeight::Regular => FontWeight::Normal,
        FcWeight::Medium => FontWeight::Medium,
        FcWeight::DemiBold => FontWeight::SemiBold,
        FcWeight::Bold => FontWeight::Bold,
        FcWeight::ExtraBold => FontWeight::ExtraBold,
        FcWeight::Black => FontWeight::Black,
        FcWeight::ExtraBlack => FontWeight::ExtraBlack,
    }
}

impl From<FcWeight> for FontWeight {
    fn from(value: FcWeight) -> FontWeight {
        match value {
            FcWeight::Thin => FontWeight::Thin,
            FcWeight::ExtraLight => FontWeight::ExtraLight,
            FcWeight::Light => FontWeight::Light,
            FcWeight::Book => FontWeight::Normal,
            FcWeight::Regular => FontWeight::Normal,
            FcWeight::Medium => FontWeight::Medium,
            FcWeight::DemiBold => FontWeight::SemiBold,
            FcWeight::Bold => FontWeight::Bold,
            FcWeight::ExtraBold => FontWeight::ExtraBold,
            FcWeight::Black => FontWeight::Black,
            FcWeight::ExtraBlack => FontWeight::ExtraBlack,
        }
    }
}

impl vstd::std_specs::convert::FromSpecImpl<FcWeight> for FontWeight {
    open spec fn obeys_from_spec() -> bool {
        true
    }

    open spec fn from_spec(v: FcWeight) -> FontWeight {
        spec_weight_from_fc(v)
    }
}

/// The canonical bucket each native width bucket is published as.
pub open spec fn spec_width_from_fc(w: FcWidth) -> FontWidth {
    match w {
        FcWidth::UltraCondensed => FontWidth::UltraCondensed,
        FcWidth::ExtraCondensed => FontWidth::ExtraCondensed,
        FcWidth::Condensed => FontWidth::Condensed,
        FcWidth::SemiCondensed => FontWidth::SemiCondensed,
        FcWidth::Normal => FontWidth::Normal,
        FcWidth::SemiExpanded => FontWidth::SemiExpanded,
        FcWidth::Expanded => FontWidth::Expanded,
        FcWidth::ExtraExpanded => FontWidth::ExtraExpanded,
        FcWidth::UltraExpanded => FontWidth::UltraExpanded,
    }
}

impl From<FcWidth> for FontWidth {
    fn from(value: FcWidth) -> FontWidth {
        match value {
            FcWidth::UltraCondensed => FontWidth::UltraCondensed,
            FcWidth::ExtraCondensed => FontWidth::ExtraCondensed,
            FcWidth::Condensed => FontWidth::Condensed,
            FcWidth::SemiCondensed => FontWidth::SemiCondensed,
            FcWidth::Normal => FontWidth::Normal,
            FcWidth::SemiExpanded => FontWidth::SemiExpanded,
            FcWidth::Expanded => FontWidth::Expanded,
            FcWidth::ExtraExpanded => FontWidth::ExtraExpanded,
            FcWidth::UltraExpanded => FontWidth::UltraExpanded,
        }
    }
}

impl vstd::std_specs::convert::FromSpecImpl<FcWidth> for FontWidth {
    open spec fn obeys_from_spec() -> bool {
        true
    }

    open spec fn from_spec(v: FcWidth) -> FontWidth {
        spec_width_from_fc(v)
    }
}

/// The final component of a path: the characters after the last `/`, or the
/// whole path when it holds no `/`, and empty when the path ends in `/`.
/// This is deliberately simpler than std's `Path`, which skips a trailing
/// `/` and special-cases `..`; the native index names plain files, where
/// neither case arises.
pub open spec fn spec_file_name(p: Seq<char>) -> Seq<char>
    decreases p.len(),
{
    if p.len() == 0 {
        p
    } else if p.last() == '/' {
        Seq::empty()
    } else {
        spec_file_name(p.drop_last()).push(p.last())
    }
}

/// The extension of a file name: the characters after its last `.`, provided
/// that `.` is not the file name's first character.
pub open spec fn spec_extension_of_name(n: Seq<char>) -> Option<Seq<char>>
    decreases n.len(),
{
    if n.len() == 0 {
        None
    } else if n.last() == '.' {
        if n.len() >= 2 {
            Some(Seq::<char>::empty())
        } else {
            None
        }
    } else {
        match spec_extension_of_name(n.drop_last()) {
            None => None,
            Some(e) => Some(e.push(n.last())),
        }
    }
}

/// The extension of a path's final component.
pub open spec fn spec_extension(p: Seq<char>) -> Option<Seq<char>> {
    spec_extension_of_name(spec_file_name(p))
}

/// Only TrueType and OpenType files are served.
pub open spec fn spec_supported_extension(p: Seq<char>) -> bool {
    ||| spec_extension(p) == Some(seq!['t', 't', 'f'])
    ||| spec_extension(p) == Some(seq!['o', 't', 'f'])
}

proof fn lemma_file_name_suffix(p: Seq<char>, k: int)
    requires
        0 <= k <= p.len(),
        forall|j: int| k <= j < p.len() ==> p[j] != '/',
        k == 0 || p[k - 1] == '/',
    ensures
        spec_file_name(p) == p.subrange(k, p.len() as int),
    decreases p.len(),
{
    if p.len() == k {
        if k == 0 {
            assert(p.subrange(0, 0) =~= p);
        } else {
            assert(p.last() == '/');
            assert(spec_file_name(p) =~= p.subrange(k, p.len() as int));
        }
    } else {
        assert(p.last() != '/');
        let q = p.drop_last();
        lemma_file_name_suffix(q, k);
        assert(q.subrange(k, q.len() as int).push(p.last()) =~= p.subrange(k, p.len() as int));
    }
}

proof fn lemma_extension_at(n: Seq<char>, d: int)
    requires
        1 <= d < n.len(),
        n[d] == '.',
        forall|j: int| d < j < n.len() ==> n[j] != '.',
    ensures
        spec_extension_of_name(n) == Some(n.subrange(d + 1, n.len() as int)),
    decreases n.len(),
{
    if d == n.len() - 1 {
        assert(n.last() == '.');
        assert(n.subrange(d + 1, n.len() as int) =~= Seq::<char>::empty());
    } else {
        assert(n.last() != '.');
        let q = n.drop_last();
        lemma_extension_at(q, d);
        assert(q.subrange(d + 1, q.len() as int).push(n.last()) =~= n.subrange(
            d + 1,
            n.len() as int,
        ));
    }
}

proof fn lemma_no_extension(n: Seq<char>)
    requires
        forall|j: int| 1 <= j < n.len() ==> n[j] != '.',
    ensures
        spec_extension_of_name(n) is None,
    decreases n.len(),
{
    if n.len() == 0 {
    } else if n.last() == '.' {
        assert(n.len() < 2);
    } else {
        lemma_no_extension(n.drop_last());
    }
}

/// Whether `s` is exactly the three given characters.
fn str_eq3(s: &str, c0: char, c1: char, c2: char) -> (r: bool)
    ensures
        r == (s@ == seq![c0, c1, c2]),
{
    let n = s.unicode_len();
    if n != 3 {
        proof {
            assert(seq![c0, c1, c2].len() == 3);
        }
        false
    } else {
        let b = s.get_char(0) == c0 && s.get_char(1) == c1 && s.get_char(2) == c2;
        proof {
            if b {
                assert(s@ =~= seq![c0, c1, c2]);
            } else {
                assert(seq![c0, c1, c2][0] == c0);
                assert(seq![c0, c1, c2][1] == c1);
                assert(seq![c0, c1, c2][2] == c2);
            }
        }
        b
    }
}

/// The platform font provider's verified side. Native handles are acquired
/// and released at the unverified edge; a value of this type exists only when
/// every acquisition stage succeeded.
pub struct PlatformFontProvider {
    pub api_version: usize,
}

impl PlatformFontProvider {
    /// Construction mirrors the staged acquisition of the native context,
    /// query pattern and attribute set, in that order: it succeeds only when
    /// every stage succeeded, and reports the first failing stage. A later
    /// flag is only meaningful when all earlier stages succeeded, since the
    /// edge stops acquiring at the first failure.
    pub fn new(
        config_acquired: bool,
        pattern_acquired: bool,
        object_set_acquired: bool,
    ) -> (r: Result<PlatformFontProvider, PlatformFontProviderErr>)
        ensures
            !config_acquired ==> (r matches Err(PlatformFontProviderErr::Initialization(m))
                && m@ == "FcInitLoadConfigAndFonts failed"@),
            config_acquired && !pattern_acquired ==> (r matches Err(
                PlatformFontProviderErr::Initialization(m),
            ) && m@ == "FcPatternCreate failed"@),
            config_acquired && pattern_acquired && !object_set_acquired ==> (r matches Err(
                PlatformFontProviderErr::Initialization(m),
            ) && m@ == "FcObjectSetBuild failed"@),
            config_acquired && pattern_acquired && object_set_acquired ==> (r matches Ok(p)
                && p.api_version == 35),
    {
        if !config_acquired {
            Err(
                PlatformFontProviderErr::Initialization(
                    String::from_str("FcInitLoadConfigAndFonts failed"),
                ),
            )
        } else if !pattern_acquired {
            Err(PlatformFontProviderErr::Initialization(String::from_str("FcPatternCreate failed")))
        } else if !object_set_acquired {
            Err(
                PlatformFontProviderErr::Initialization(
                    String::from_str("FcObjectSetBuild failed"),
                ),
            )
        } else {
            Ok(PlatformFontProvider { api_version: 35 })
        }
    }

    /// The provider's API version, as reported to clients.
    pub fn get_api_version(&self) -> (r: Result<usize, PlatformFontProviderErr>)
        ensures
            r == Ok::<usize, PlatformFontProviderErr>(self.api_version),
    {
        Ok(self.api_version)
    }

    /// The extension of `filename`: the characters after the last `.` of its
    /// final path component, unless that `.` opens the component.
    pub fn get_extension_from_filename(filename: &str) -> (r: Option<&str>)
        ensures
            match r {
                Some(e) => spec_extension(filename@) == Some(e@),
                None => spec_extension(filename@) is None,
            },
    {
        let n = filename.unicode_len();
        let mut start: usize = 0;
        let mut i: usize = 0;
        while i < n
            invariant
                n == filename@.len(),
                i <= n,
                start <= i,
                forall|j: int| start <= j < i ==> filename@[j] != '/',
                start == 0 || filename@[start - 1] == '/',
            decreases n - i,
        {
            if filename.get_char(i) == '/' {
                start = i + 1;
            }
            i += 1;
        }
        proof {
            lemma_file_name_suffix(filename@, start as int);
        }
        let ghost name = filename@.subrange(start as int, n as int);
        let mut dot: usize = 0;
        let mut has_dot: bool = false;
        let mut j: usize = start;
        while j < n
            invariant
                n == filename@.len(),
                start <= j <= n,
                has_dot ==> start <= dot < j && filename@[dot as int] == '.',
                has_dot ==> forall|k: int| dot < k < j ==> filename@[k] != '.',
                !has_dot ==> forall|k: int| start <= k < j ==> filename@[k] != '.',
            decreases n - j,
        {
            if filename.get_char(j) == '.' {
                dot = j;
                has_dot = true;
            }
            j += 1;
        }
        if has_dot && dot > start {
            proof {
                let d = dot - start;
                assert(name[d] == filename@[dot as int]);
                assert forall|k: int| d < k < name.len() implies name[k] != '.' by {
                    assert(name[k] == filename@[start + k]);
                }
                lemma_extension_at(name, d);
                assert(name.subrange(d + 1, name.len() as int) =~= filename@.subrange(
                    dot + 1,
                    n as int,
                ));
            }
            Some(filename.substring_char(dot + 1, n))
        } else {
            proof {
                assert forall|k: int| 1 <= k < name.len() implies name[k] != '.' by {
                    assert(name[k] == filename@[start + k]);
                }
                lemma_no_extension(name);
            }
            None
        }
    }

    /// Whether the path ends in one of the two supported extensions.
    pub fn has_supported_extension(filename: &str) -> (b: bool)
        ensures
            b == spec_supported_extension(filename@),
    {
        match Self::get_extension_from_filename(filename) {
            None => false,
            Some(e) => {
                let is_ttf = str_eq3(e, 't', 't', 'f');
                let is_otf = str_eq3(e, 'o', 't', 'f');
                is_ttf || is_otf
            },
        }
    }

    /// One enumeration pass over the native result set, read back by the
    /// edge as plain values: `None` when the bulk query returned no result
    /// set at all, otherwise one [`RawFontEntry`] per native entry, in
    /// result-set order.
    #[verifier::loop_isolation(false)]
    pub fn get_all_fonts(&self, font_set: Option<&Vec<RawFontEntry>>) -> (r: Result<
        Vec<FontDescriptor>,
        PlatformFontProviderErr,
    >)
        ensures
            font_set is None ==> (r matches Err(PlatformFontProviderErr::FontListEmpty(m))
                && m@ == "FcFontList failed"@),
            font_set matches Some(entries) ==> match r {
                Ok(fonts) => spec_fonts_of(raw_models(entries@)) == Ok::<
                    Seq<FontDescriptorModel>,
                    PlatformFontProviderErr,
                >(descriptor_models(fonts@)),
                Err(e) => spec_fonts_of(raw_models(entries@)) == Err::<
                    Seq<FontDescriptorModel>,
                    PlatformFontProviderErr,
                >(e),
            },
            r matches Ok(fonts) ==> forall|k: int|
                0 <= k < fonts@.len() ==> spec_supported_extension((#[trigger] fonts@[k])@.path),
    {
        let entries = match font_set {
            None => {
                return Err(
                    PlatformFontProviderErr::FontListEmpty(String::from_str("FcFontList failed")),
                );
            },
            Some(entries) => entries,
        };
        let ghost ms = raw_models(entries@);
        let mut fonts: Vec<FontDescriptor> = Vec::new();
        let mut i: usize = 0;
        proof {
            assert(ms.subrange(0, 0) =~= Seq::<RawFontEntryModel>::empty());
            assert(descriptor_models(fonts@) =~= Seq::<FontDescriptorModel>::empty());
        }
        while i < entries.len()
            invariant
                ms == raw_models(entries@),
                ms.len() == entries@.len(),
                i <= entries@.len(),
                spec_fonts_of(ms.subrange(0, i as int)) == Ok::<
                    Seq<FontDescriptorModel>,
                    PlatformFontProviderErr,
                >(descriptor_models(fonts@)),
                forall|k: int|
                    0 <= k < fonts@.len() ==> spec_supported_extension(
                        (#[trigger] fonts@[k])@.path,
                    ),
            decreases entries@.len() - i,
        {
            let entry = &entries[i];
            proof {
                assert(ms.subrange(0, i + 1).drop_last() =~= ms.subrange(0, i as int));
                assert(ms.subrange(0, i + 1).last() == entry@);
            }
            match build_descriptor(entry) {
                Err(e) => {
                    proof {
                        lemma_fonts_of_prefix_err(ms, i + 1);
                        assert(ms.subrange(0, ms.len() as int) =~= ms);
                    }
                    return Err(e);
                },
                Ok(None) => {},
                Ok(Some(d)) => {
                    let ghost prev = fonts@;
                    fonts.push(d);
                    proof {
                        assert(descriptor_models(prev.push(d)) =~= descriptor_models(prev).push(
                            d@,
                        ));
                    }
                },
            }
            i += 1;
        }
        proof {
            assert(ms.subrange(0, ms.len() as int) =~= ms);
        }
        Ok(fonts)
    }

    /// The configured font search directories, read back by the edge as
    /// plain values: `None` when the native listing could not be obtained,
    /// otherwise one [`RawStr`] per directory, in listing order.
    #[verifier::loop_isolation(false)]
    pub fn get_font_paths(&self, dirs: Option<&Vec<RawStr>>) -> (r: Result<
        Vec<String>,
        PlatformFontProviderErr,
    >)
        ensures
            dirs is None ==> (r matches Err(PlatformFontProviderErr::FontDirsEmpty(m))
                && m@ == "FcConfigGetFontDirs failed"@),
            dirs matches Some(items) ==> match r {
                Ok(paths) => spec_font_paths_of(raw_str_models(items@)) == Ok::<
                    Seq<Seq<char>>,
                    PlatformFontProviderErr,
                >(paths@.map_values(|p: String| p@)),
                Err(e) => spec_font_paths_of(raw_str_models(items@)) == Err::<
                    Seq<Seq<char>>,
                    PlatformFontProviderErr,
                >(e),
            },
    {
        let items = match dirs {
            None => {
                return Err(
                    PlatformFontProviderErr::FontDirsEmpty(
                        String::from_str("FcConfigGetFontDirs failed"),
                    ),
                );
            },
            Some(items) => items,
        };
        let ghost ms = raw_str_models(items@);
        let mut result: Vec<String> = Vec::new();
        let mut i: usize = 0;
        proof {
            assert(ms.subrange(0, 0) =~= Seq::<RawStrModel>::empty());
            assert(result@.map_values(|p: String| p@) =~= Seq::<Seq<char>>::empty());
        }
        while i < items.len()
            invariant
                ms == raw_str_models(items@),
                ms.len() == items@.len(),
                i <= items@.len(),
                spec_font_paths_of(ms.subrange(0, i as int)) == Ok::<
                    Seq<Seq<char>>,
                    PlatformFontProviderErr,
                >(result@.map_values(|p: String| p@)),
            decreases items@.len() - i,
        {
            proof {
                assert(ms.subrange(0, i + 1).drop_last() =~= ms.subrange(0, i as int));
                assert(ms.subrange(0, i + 1).last() == items@[i as int]@);
            }
            match &items[i] {
                RawStr::Null => {},
                RawStr::Invalid => {
                    proof {
                        lemma_font_paths_prefix_err(ms, i + 1);
                        assert(ms.subrange(0, ms.len() as int) =~= ms);
                    }
                    return Err(PlatformFontProviderErr::InvalidString);
                },
                RawStr::Text(s) => {
                    let ghost prev = result@;
                    let c = s.clone();
                    result.push(c);
                    proof {
                        assert(result@.map_values(|p: String| p@) =~= prev.map_values(
                            |p: String| p@,
                        ).push(s@));
                    }
                },
            }
            i += 1;
        }
        proof {
            assert(ms.subrange(0, ms.len() as int) =~= ms);
        }
        Ok(result)
    }
}

/// One string-valued attribute of a native entry, as the edge reports it:
/// absent (a null pointer), present but failing text validation, or valid
/// text.
pub enum RawStr {
    Null,
    Invalid,
    Text(String),
}

/// The mathematical shape of a [`RawStr`].
pub enum RawStrModel {
    Null,
    Invalid,
    Text(Seq<char>),
}

impl View for RawStr {
    type V = RawStrModel;

    open spec fn view(&self) -> RawStrModel {
        match self {
            RawStr::Null => RawStrModel::Null,
            RawStr::Invalid => RawStrModel::Invalid,
            RawStr::Text(s) => RawStrModel::Text(s@),
        }
    }
}

/// The models of a sequence of raw strings.
pub open spec fn raw_str_models(s: Seq<RawStr>) -> Seq<RawStrModel> {
    s.map_values(|x: RawStr| x@)
}

/// The slant value that marks an italic face.
pub const FC_SLANT_ITALIC: i32 = 100;

/// One entry of the native result set, read back as plain values. A string
/// attribute is [`RawStr::Null`] whether its query did not match or matched
/// with a null pointer: both mean the attribute is missing, and the missing
/// one gets its documented default (or, for the path, skips the entry). A
/// numeric attribute is `None` when its query did not match.
pub struct RawFontEntry {
    pub path: RawStr,
    pub family: RawStr,
    pub style: RawStr,
    pub postscript: RawStr,
    pub weight: Option<i32>,
    pub width: Option<i32>,
    pub slant: Option<i32>,
}

/// The mathematical shape of a [`RawFontEntry`].
pub struct RawFontEntryModel {
    pub path: RawStrModel,
    pub family: RawStrModel,
    pub style: RawStrModel,
    pub postscript: RawStrModel,
    pub weight: Option<i32>,
    pub width: Option<i32>,
    pub slant: Option<i32>,
}

impl View for RawFontEntry {
    type V = RawFontEntryModel;

    open spec fn view(&self) -> RawFontEntryModel {
        RawFontEntryModel {
            path: self.path@,
            family: self.family@,
            style: self.style@,
            postscript: self.postscript@,
            weight: self.weight,
            width: self.width,
            slant: self.slant,
        }
    }
}

/// The models of a sequence of raw entries.
pub open spec fn raw_models(s: Seq<RawFontEntry>) -> Seq<RawFontEntryModel> {
    s.map_values(|e: RawFontEntry| e@)
}

/// The descriptor a kept entry normalizes to: a missing family becomes the
/// empty string, a missing style the weight bucket's name, and a missing
/// postscript name `<family>-<style>`.
pub open spec fn spec_descriptor_of(e: RawFontEntryModel) -> FontDescriptorModel
    recommends
        e.path is Text,
        e.weight matches Some(v) && v >= 0,
        e.width matches Some(v) && v >= 0,
        e.slant is Some,
{
    let weight_raw = match e.weight {
        Some(v) => v,
        None => 0,
    };
    let width_raw = match e.width {
        Some(v) => v,
        None => 0,
    };
    let w = fc_weight_bucket(weight_raw as int);
    let family = match e.family {
        RawStrModel::Text(s) => s,
        _ => Seq::<char>::empty(),
    };
    let style = match e.style {
        RawStrModel::Text(s) => s,
        _ => spec_fc_weight_name(w),
    };
    let postscript = match e.postscript {
        RawStrModel::Text(s) => s,
        _ => family + "-"@ + style,
    };
    FontDescriptorModel {
        path: e.path->Text_0,
        postscript: postscript,
        family: family,
        style: style,
        weight: spec_weight_from_fc(w),
        width: spec_width_from_fc(fc_width_bucket(width_raw as int)),
        italic: e.slant == Some(FC_SLANT_ITALIC),
    }
}

/// The per-entry policy: which entries are skipped, which fail the whole
/// enumeration, and what the kept ones normalize to. An entry without a
/// path is skipped, and so is one missing a numeric attribute, which has no
/// documented default; out-of-range weight or width values and invalid
/// strings fail the whole pass; an unsupported extension skips the entry
/// before its remaining strings are even read; a missing string attribute
/// gets its default in [`spec_descriptor_of`].
pub open spec fn spec_entry_outcome(e: RawFontEntryModel) -> Result<
    Option<FontDescriptorModel>,
    PlatformFontProviderErr,
> {
    if e.path is Null {
        Ok(None)
    } else {
        match (e.weight, e.width, e.slant) {
            (Some(weight), Some(width), Some(_slant)) => {
                if weight < 0 {
                    Err(PlatformFontProviderErr::FontWeightMismatch(weight))
                } else if width < 0 {
                    Err(PlatformFontProviderErr::FontWidthMismatch(width))
                } else if e.path is Invalid {
                    Err(PlatformFontProviderErr::InvalidString)
                } else if !spec_supported_extension(e.path->Text_0) {
                    Ok(None)
                } else if e.family is Invalid {
                    Err(PlatformFontProviderErr::InvalidString)
                } else if e.style is Invalid {
                    Err(PlatformFontProviderErr::InvalidString)
                } else if e.postscript is Invalid {
                    Err(PlatformFontProviderErr::InvalidString)
                } else {
                    Ok(Some(spec_descriptor_of(e)))
                }
            },
            _ => Ok(None),
        }
    }
}

/// The outcome of one enumeration pass: the first hard error in entry order,
/// or the kept descriptors in entry order.
pub open spec fn spec_fonts_of(entries: Seq<RawFontEntryModel>) -> Result<
    Seq<FontDescriptorModel>,
    PlatformFontProviderErr,
>
    decreases entries.len(),
{
    if entries.len() == 0 {
        Ok(Seq::<FontDescriptorModel>::empty())
    } else {
        match spec_fonts_of(entries.drop_last()) {
            Err(e) => Err(e),
            Ok(fonts) => match spec_entry_outcome(entries.last()) {
                Err(e) => Err(e),
                Ok(None) => Ok(fonts),
                Ok(Some(d)) => Ok(fonts.push(d)),
            },
        }
    }
}

/// The outcome of reading back the configured font directories: text items
/// are kept in order, and an item that fails text validation fails the call.
pub open spec fn spec_font_paths_of(items: Seq<RawStrModel>) -> Result<
    Seq<Seq<char>>,
    PlatformFontProviderErr,
>
    decreases items.len(),
{
    if items.len() == 0 {
        Ok(Seq::<Seq<char>>::empty())
    } else {
        match spec_font_paths_of(items.drop_last()) {
            Err(e) => Err(e),
            Ok(paths) => match items.last() {
                RawStrModel::Text(s) => Ok(paths.push(s)),
                RawStrModel::Invalid => Err(PlatformFontProviderErr::InvalidString),
                RawStrModel::Null => Ok(paths),
            },
        }
    }
}

proof fn lemma_fonts_of_prefix_err(entries: Seq<RawFontEntryModel>, k: int)
    requires
        0 <= k <= entries.len(),
        spec_fonts_of(entries.subrange(0, k)) is Err,
    ensures
        spec_fonts_of(entries) == spec_fonts_of(entries.subrange(0, k)),
    decreases entries.len(),
{
    if entries.len() == k {
        assert(entries.subrange(0, k) =~= entries);
    } else {
        assert(entries.drop_last().subrange(0, k) =~= entries.subrange(0, k));
        lemma_fonts_of_prefix_err(entries.drop_last(), k);
    }
}

proof fn lemma_font_paths_prefix_err(items: Seq<RawStrModel>, k: int)
    requires
        0 <= k <= items.len(),
        spec_font_paths_of(items.subrange(0, k)) is Err,
    ensures
        spec_font_paths_of(items) == spec_font_paths_of(items.subrange(0, k)),
    decreases items.len(),
{
    if items.len() == k {
        assert(items.subrange(0, k) =~= items);
    } else {
        assert(items.drop_last().subrange(0, k) =~= items.subrange(0, k));
        lemma_font_paths_prefix_err(items.drop_last(), k);
    }
}

/// Normalize one native entry, or report why it is skipped or why the whole
/// enumeration must fail.
fn build_descriptor(entry: &RawFontEntry) -> (r: Result<
    Option<FontDescriptor>,
    PlatformFontProviderErr,
>)
    ensures
        match r {
            Ok(Some(d)) => spec_entry_outcome(entry@) == Ok::<
                Option<FontDescriptorModel>,
                PlatformFontProviderErr,
            >(Some(d@)),
            Ok(None) => spec_entry_outcome(entry@) == Ok::<
                Option<FontDescriptorModel>,
                PlatformFontProviderErr,
            >(None),
            Err(e) => spec_entry_outcome(entry@) == Err::<
                Option<FontDescriptorModel>,
                PlatformFontProviderErr,
            >(e),
        },
{
    match &entry.path {
        RawStr::Null => {
            return Ok(None);
        },
        _ => {},
    }
    let (weight_raw, width_raw, slant_raw) = match (entry.weight, entry.width, entry.slant) {
        (Some(a), Some(b), Some(c)) => (a, b, c),
        _ => {
            return Ok(None);
        },
    };
    let weight = match FcWeight::try_from(weight_raw) {
        Ok(w) => w,
        Err(e) => {
            return Err(e);
        },
    };
    let width = match FcWidth::try_from(width_raw) {
        Ok(w) => w,
        Err(e) => {
            return Err(e);
        },
    };
    let path: &String = match &entry.path {
        RawStr::Text(s) => s,
        _ => {
            return Err(PlatformFontProviderErr::InvalidString);
        },
    };
    if !PlatformFontProvider::has_supported_extension(path.as_str()) {
        return Ok(None);
    }
    let family: String = match &entry.family {
        RawStr::Null => String::new(),
        RawStr::Invalid => {
            return Err(PlatformFontProviderErr::InvalidString);
        },
        RawStr::Text(s) => s.clone(),
    };
    let style: String = match &entry.style {
        RawStr::Null => weight.name(),
        RawStr::Invalid => {
            return Err(PlatformFontProviderErr::InvalidString);
        },
        RawStr::Text(s) => s.clone(),
    };
    let postscript: String = match &entry.postscript {
        RawStr::Null => family.clone().concat("-").concat(style.as_str()),
        RawStr::Invalid => {
            return Err(PlatformFontProviderErr::InvalidString);
        },
        RawStr::Text(s) => s.clone(),
    };
    Ok(
        Some(
            FontDescriptor {
                path: path.clone(),
                postscript,
                family,
                style,
                weight: FontWeight::from(weight),
                width: FontWidth::from(width),
                italic: slant_raw == FC_SLANT_ITALIC,
            },
        ),
    )
}

} // verus!
