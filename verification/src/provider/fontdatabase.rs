//! The in-memory snapshot of enumerated fonts.

use vstd::prelude::*;

use crate::provider::fontprovider::{descriptor_models, FontDescriptor, FontDescriptorModel};
use crate::provider::platform::PlatformFontProviderErr;

verus! {

/// Errors of the font database.
#[derive(Debug)]
pub enum FontDatabaseErr {
    /// The database could not be built.
    Initialization(String),
    /// The enumeration pass failed; the provider's error is kept.
    PlatformFontProvider(PlatformFontProviderErr),
}

/// An ordered snapshot of font descriptors, built by one enumeration pass
/// and replaced only as a whole: a reader observes either the entire
/// previous snapshot or the entire new one, never a mix. Lookups are pure
/// in-memory reads; nothing here re-validates file existence on disk.
pub struct FontDatabase {
    fonts: Vec<FontDescriptor>,
}

impl View for FontDatabase {
    type V = Seq<FontDescriptorModel>;

    closed spec fn view(&self) -> Seq<FontDescriptorModel> {
        descriptor_models(self.fonts@)
    }
}

impl FontDatabase {
    /// Build the database from the result of one enumeration pass; an
    /// enumeration failure is passed on and nothing is built.
    pub fn new(fonts: Result<Vec<FontDescriptor>, PlatformFontProviderErr>) -> (r: Result<
        FontDatabase,
        FontDatabaseErr,
    >)
        ensures
            fonts matches Ok(f) ==> (r matches Ok(db) && db@ == descriptor_models(f@)),
            fonts matches Err(e) ==> r == Err::<FontDatabase, FontDatabaseErr>(
                FontDatabaseErr::PlatformFontProvider(e),
            ),
    {
        let mut instance = FontDatabase { fonts: Vec::new() };
        match instance.invalidate(fonts) {
            Ok(_) => Ok(instance),
            Err(e) => Err(e),
        }
    }

    /// Swap in the result of a fresh enumeration pass. The swap is atomic:
    /// on success the snapshot is exactly the new list, and on failure the
    /// previous snapshot stays untouched.
    pub fn invalidate(&mut self, fonts: Result<Vec<FontDescriptor>, PlatformFontProviderErr>) -> (r:
        Result<(), FontDatabaseErr>)
        ensures
            fonts matches Ok(f) ==> (r is Ok && final(self)@ == descriptor_models(f@)),
            fonts matches Err(e) ==> (r == Err::<(), FontDatabaseErr>(
                FontDatabaseErr::PlatformFontProvider(e),
            ) && final(self)@ == old(self)@),
    {
        match fonts {
            Ok(f) => {
                self.fonts = f;
                Ok(())
            },
            Err(e) => Err(FontDatabaseErr::PlatformFontProvider(e)),
        }
    }

    /// Whether some snapshot entry has exactly this path. Pure in-memory
    /// lookup; a file deleted since the last enumeration is not caught here.
    pub fn is_path_valid(&self, path: &String) -> (r: bool)
        ensures
            r == exists|i: int| 0 <= i < self@.len() && (#[trigger] self@[i]).path == path@,
    {
        let mut i: usize = 0;
        while i < self.fonts.len()
            invariant
                i <= self.fonts@.len(),
                forall|j: int| 0 <= j < i ==> (#[trigger] self@[j]).path != path@,
            decreases self.fonts@.len() - i,
        {
            if self.fonts[i].path == *path {
                assert(self@[i as int].path == path@);
                return true;
            }
            i += 1;
        }
        false
    }

    /// Read-only access to the snapshot, in enumeration order.
    pub fn fonts(&self) -> (r: &Vec<FontDescriptor>)
        ensures
            descriptor_models(r@) == self@,
    {
        &self.fonts
    }

    /// The number of snapshot entries.
    pub fn len(&self) -> (n: usize)
        ensures
            n == self@.len(),
    {
        self.fonts.len()
    }
}

/// Law: a refresh is atomic. Once `invalidate` has swapped in a fresh
/// enumeration `fresh`, every entry a reader can observe is an entry of
/// `fresh`, and no entry of the previous snapshot that is not also part of
/// `fresh` can still be observed: a read never sees entries of the old and
/// the new snapshot at once.
pub proof fn lemma_invalidate_is_atomic(
    pre: Seq<FontDescriptorModel>,
    post: Seq<FontDescriptorModel>,
    fresh: Seq<FontDescriptorModel>,
)
    requires
        post == fresh,
    ensures
        forall|i: int| 0 <= i < post.len() ==> fresh.contains(#[trigger] post[i]),
        forall|d: FontDescriptorModel| pre.contains(d) && !fresh.contains(d) ==> !post.contains(d),
{
    assert forall|i: int| 0 <= i < post.len() implies fresh.contains(#[trigger] post[i]) by {
        assert(fresh[i] == post[i]);
    }
}

} // verus!
