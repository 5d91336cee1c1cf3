//! The font-files endpoint: every snapshot face, grouped by file path in
//! order of first appearance, since one file may hold several faces.

use vstd::prelude::*;

use crate::dto::{
    face_models, group_models, group_paths_of, FontDescriptorDTO, FontDescriptorDTOModel,
    FontFileEntry, FontFileEntryModel, FontFilesDTO,
};
use crate::provider::fontprovider::{descriptor_models, FontDescriptor, FontDescriptorModel};
use crate::query::FontFilesQuery;
use crate::route::RouteError;
use crate::serverstate::ServerState;

verus! {

/// The wire face of one descriptor: its strings and the buckets' numeric
/// wire values.
pub open spec fn spec_dto_of(d: FontDescriptorModel) -> FontDescriptorDTOModel {
    FontDescriptorDTOModel {
        postscript: d.postscript,
        family: d.family,
        style: d.style,
        weight: d.weight.spec_wire_value(),
        stretch: d.width.spec_wire_value(),
        italic: d.italic,
    }
}

/// The group keys: each distinct path, in order of first appearance.
pub open spec fn spec_group_paths(descs: Seq<FontDescriptorModel>) -> Seq<Seq<char>>
    decreases descs.len(),
{
    if descs.len() == 0 {
        Seq::<Seq<char>>::empty()
    } else {
        let prev = spec_group_paths(descs.drop_last());
        if prev.contains(descs.last().path) {
            prev
        } else {
            prev.push(descs.last().path)
        }
    }
}

/// The faces published under one path: every descriptor with that path, in
/// enumeration order.
pub open spec fn spec_faces_for(descs: Seq<FontDescriptorModel>, path: Seq<char>) -> Seq<
    FontDescriptorDTOModel,
> {
    descs.filter(|d: FontDescriptorModel| d.path == path).map_values(
        |d: FontDescriptorModel| spec_dto_of(d),
    )
}

/// What a correct grouping of `descs` is: one entry per distinct path in
/// first-appearance order, each carrying exactly the faces of that path.
pub open spec fn spec_grouped(
    descs: Seq<FontDescriptorModel>,
    groups: Seq<FontFileEntryModel>,
) -> bool {
    &&& group_paths_of(groups) == spec_group_paths(descs)
    &&& forall|k: int|
        0 <= k < groups.len() ==> (#[trigger] groups[k]).faces == spec_faces_for(
            descs,
            groups[k].path,
        )
}

/// A path that appears in no descriptor selects no face.
proof fn lemma_faces_for_absent_path(descs: Seq<FontDescriptorModel>, path: Seq<char>)
    requires
        forall|i: int| 0 <= i < descs.len() ==> (#[trigger] descs[i]).path != path,
    ensures
        descs.filter(|d: FontDescriptorModel| d.path == path) =~= Seq::<
            FontDescriptorModel,
        >::empty(),
    decreases descs.len(),
{
    reveal(Seq::filter);
    if descs.len() == 0 {
    } else {
        assert(descs.last().path != path);
        lemma_faces_for_absent_path(descs.drop_last(), path);
    }
}

fn descriptor_dto(d: &FontDescriptor) -> (r: FontDescriptorDTO)
    ensures
        r@ == spec_dto_of(d@),
{
    FontDescriptorDTO {
        postscript: d.postscript.clone(),
        family: d.family.clone(),
        style: d.style.clone(),
        weight: d.weight.wire_value(),
        stretch: d.width.wire_value(),
        italic: d.italic,
    }
}

/// Group every listed face by its file path.
#[verifier::loop_isolation(false)]
pub fn build_font_files(version: usize, fonts: &Vec<FontDescriptor>) -> (r: FontFilesDTO)
    ensures
        r.version == version,
        spec_grouped(descriptor_models(fonts@), group_models(r.font_files@)),
{
    let ghost ds = descriptor_models(fonts@);
    let mut groups: Vec<FontFileEntry> = Vec::new();
    let mut i: usize = 0;
    proof {
        assert(ds.subrange(0, 0) =~= Seq::<FontDescriptorModel>::empty());
        assert(group_models(groups@) =~= Seq::<FontFileEntryModel>::empty());
        assert(group_paths_of(group_models(groups@)) =~= Seq::<Seq<char>>::empty());
    }
    while i < fonts.len()
        invariant
            ds == descriptor_models(fonts@),
            ds.len() == fonts@.len(),
            i <= fonts@.len(),
            spec_grouped(ds.subrange(0, i as int), group_models(groups@)),
            forall|k1: int, k2: int|
                0 <= k1 < k2 < groups@.len() ==> (#[trigger] groups@[k1])@.path != (
                #[trigger] groups@[k2])@.path,
        decreases fonts@.len() - i,
    {
        let d = &fonts[i];
        let dto = descriptor_dto(d);
        let ghost prefix = ds.subrange(0, i as int);
        let ghost prefix2 = ds.subrange(0, i + 1);
        let ghost gs = group_models(groups@);
        proof {
            assert(prefix2.drop_last() =~= prefix);
            assert(prefix2.last() == d@);
        }
        let mut j: usize = 0;
        let mut found: bool = false;
        let mut idx: usize = 0;
        while j < groups.len()
            invariant
                j <= groups@.len(),
                !found ==> forall|k: int| 0 <= k < j ==> (#[trigger] groups@[k])@.path != d@.path,
                found ==> idx < groups@.len() && groups@[idx as int]@.path == d@.path,
            decreases groups@.len() - j,
        {
            if !found {
                let g = &groups[j];
                if g.path == d.path {
                    found = true;
                    idx = j;
                }
            }
            j += 1;
        }
        if found {
            let mut entry = groups.remove(idx);
            let ghost faces0 = entry@.faces;
            entry.faces.push(dto);
            proof {
                assert(entry@.faces =~= faces0.push(dto@));
            }
            groups.insert(idx, entry);
            proof {
                let gs2 = group_models(groups@);
                assert(gs2 =~= gs.update(idx as int, entry@));
                // the path set is unchanged, so the key order is too
                assert(group_paths_of(gs2) =~= group_paths_of(gs));
                assert(spec_group_paths(prefix).contains(d@.path)) by {
                    assert(group_paths_of(gs)[idx as int] == d@.path);
                }
                assert(spec_group_paths(prefix2) == spec_group_paths(prefix));
                // every group still carries exactly the faces of its path
                assert forall|k: int| 0 <= k < gs2.len() implies (#[trigger] gs2[k]).faces
                    == spec_faces_for(prefix2, gs2[k].path) by {
                    reveal(Seq::filter);
                    assert(prefix2.drop_last() =~= prefix);
                    if k == idx {
                        assert(gs2[k].path == d@.path);
                        assert(prefix2.filter(|x: FontDescriptorModel| x.path == d@.path)
                            =~= prefix.filter(|x: FontDescriptorModel| x.path == d@.path).push(
                            d@,
                        ));
                        assert(spec_faces_for(prefix2, d@.path) =~= spec_faces_for(
                            prefix,
                            d@.path,
                        ).push(spec_dto_of(d@)));
                    } else {
                        assert(gs2[k] == gs[k]);
                        assert(gs[k].path != d@.path);
                        assert(prefix2.filter(|x: FontDescriptorModel| x.path == gs2[k].path)
                            =~= prefix.filter(|x: FontDescriptorModel| x.path == gs2[k].path));
                        assert(spec_faces_for(prefix2, gs2[k].path) =~= spec_faces_for(
                            prefix,
                            gs2[k].path,
                        ));
                    }
                }
            }
        } else {
            let path = d.path.clone();
            let mut faces: Vec<FontDescriptorDTO> = Vec::new();
            faces.push(dto);
            let entry = FontFileEntry { path, faces };
            proof {
                assert(entry@.faces =~= seq![dto@]);
            }
            groups.push(entry);
            proof {
                let gs2 = group_models(groups@);
                assert(gs2 =~= gs.push(entry@));
                // the new path is new to the prefix as well
                assert(!spec_group_paths(prefix).contains(d@.path)) by {
                    if spec_group_paths(prefix).contains(d@.path) {
                        let k = choose|k: int|
                            0 <= k < group_paths_of(gs).len() && group_paths_of(gs)[k] == d@.path;
                        assert(gs[k].path == d@.path);
                    }
                }
                assert(spec_group_paths(prefix2) == spec_group_paths(prefix).push(d@.path));
                assert(group_paths_of(gs2) =~= group_paths_of(gs).push(d@.path));
                assert forall|k: int| 0 <= k < gs2.len() implies (#[trigger] gs2[k]).faces
                    == spec_faces_for(prefix2, gs2[k].path) by {
                    reveal(Seq::filter);
                    assert(prefix2.drop_last() =~= prefix);
                    if k == gs2.len() - 1 {
                        assert forall|m: int| 0 <= m < prefix.len() implies (
                        #[trigger] prefix[m]).path != d@.path by {
                            if prefix[m].path == d@.path {
                                lemma_group_paths_complete(prefix, d@.path);
                            }
                        }
                        lemma_faces_for_absent_path(prefix, d@.path);
                        assert(prefix2.filter(|x: FontDescriptorModel| x.path == d@.path)
                            =~= Seq::<FontDescriptorModel>::empty().push(d@));
                        assert(spec_faces_for(prefix2, d@.path) =~= seq![spec_dto_of(d@)]);
                        assert(gs2[k].faces =~= spec_faces_for(prefix2, gs2[k].path));
                    } else {
                        assert(gs2[k] == gs[k]);
                        assert(gs[k].path != d@.path);
                        assert(prefix2.filter(|x: FontDescriptorModel| x.path == gs2[k].path)
                            =~= prefix.filter(|x: FontDescriptorModel| x.path == gs2[k].path));
                        assert(spec_faces_for(prefix2, gs2[k].path) =~= spec_faces_for(
                            prefix,
                            gs2[k].path,
                        ));
                    }
                }
            }
        }
        i += 1;
    }
    proof {
        assert(ds.subrange(0, ds.len() as int) =~= ds);
    }
    FontFilesDTO { version, font_files: groups }
}

/// A path occurs among the group keys exactly when some descriptor has it.
proof fn lemma_group_paths_complete(descs: Seq<FontDescriptorModel>, path: Seq<char>)
    ensures
        spec_group_paths(descs).contains(path) <==> exists|i: int|
            0 <= i < descs.len() && (#[trigger] descs[i]).path == path,
    decreases descs.len(),
{
    if descs.len() == 0 {
    } else {
        let q = descs.drop_last();
        lemma_group_paths_complete(q, path);
        let prev = spec_group_paths(q);
        let cur = spec_group_paths(descs);
        if prev.contains(path) {
            let k = choose|k: int| 0 <= k < prev.len() && prev[k] == path;
            if prev.contains(descs.last().path) {
                assert(cur == prev);
            } else {
                assert(cur == prev.push(descs.last().path));
                assert(cur[k] == path);
            }
            assert(cur.contains(path));
            let i = choose|i: int| 0 <= i < q.len() && (#[trigger] q[i]).path == path;
            assert(descs[i].path == path);
        }
        if descs.last().path == path {
            assert(descs[descs.len() - 1].path == path);
            if prev.contains(path) {
                assert(cur == prev);
            } else {
                assert(cur == prev.push(path));
                assert(cur[cur.len() - 1] == path);
            }
            assert(cur.contains(path));
        }
        if cur.contains(path) && descs.last().path != path && !prev.contains(path) {
            let k = choose|k: int| 0 <= k < cur.len() && cur[k] == path;
            if prev.contains(descs.last().path) {
                assert(prev[k] == path);
            } else {
                assert(cur == prev.push(descs.last().path));
                assert(k < prev.len());
                assert(prev[k] == path);
            }
            assert(false);
        }
        if (exists|i: int| 0 <= i < descs.len() && (#[trigger] descs[i]).path == path)
            && descs.last().path != path && !prev.contains(path) {
            let i = choose|i: int| 0 <= i < descs.len() && (#[trigger] descs[i]).path == path;
            assert(i < descs.len() - 1);
            assert(q[i].path == path);
            assert(false);
        }
    }
}

/// Decide a font-files request.
pub fn handler(state: &ServerState, query: &FontFilesQuery) -> (r: Result<
    FontFilesDTO,
    RouteError,
>)
    ensures
        state.font_provider_api_version < query.ft_min_ver ==> (r matches Err(
            RouteError::BadRequest(m),
        ) && m@ == "Unsupported FreeType version"@),
        state.font_provider_api_version >= query.ft_min_ver ==> (r matches Ok(dto)
            && dto.version == state.figma_api_version && spec_grouped(
            state.database@,
            group_models(dto.font_files@),
        )),
{
    if state.font_provider_api_version < query.ft_min_ver {
        return Err(RouteError::BadRequest(String::from_str("Unsupported FreeType version")));
    }
    let fonts = state.database.fonts();
    Ok(build_font_files(state.figma_api_version, fonts))
}

} // verus!
