//! The `(handle, saved path)` identities of the references a host drawing
//! holds directly: xref block records, raster-image definitions that an
//! image entity uses, and PDF underlay definitions.
use std::collections::HashSet;

use rustc_hash::FxBuildHasher;
use vstd::prelude::*;

use crate::xref_refresh::id_views;

verus! {

/// `rustc_hash::FxBuildHasher`, the hasher of the referenced-image set.
#[verifier::external_type_specification]
#[verifier::external_body]
pub struct ExFxBuildHasher(FxBuildHasher);

/// The handles held by an `FxHashSet<u64>`.
pub uninterp spec fn fx_handles(s: HashSet<u64, FxBuildHasher>) -> Set<u64>;

/// `FxHashSet::default()`: an empty set.
#[verifier::external_body]
fn fx_set_new() -> (r: HashSet<u64, FxBuildHasher>)
    ensures
        fx_handles(r) == Set::<u64>::empty(),
{
    HashSet::default()
}

/// `HashSet::insert` on an `FxHashSet<u64>`: the handle is added.
#[verifier::external_body]
fn fx_insert(s: &mut HashSet<u64, FxBuildHasher>, h: u64)
    ensures
        fx_handles(*final(s)) == fx_handles(*old(s)).insert(h),
{
    s.insert(h);
}

/// `HashSet::contains` on an `FxHashSet<u64>`.
#[verifier::external_body]
fn fx_contains(s: &HashSet<u64, FxBuildHasher>, h: u64) -> (r: bool)
    ensures
        r == fx_handles(*s).contains(h),
{
    s.contains(&h)
}

/// A block record as the reference scan reads it.
pub struct BlockRecordRef {
    pub handle: u64,
    pub is_xref: bool,
    pub is_xref_overlay: bool,
    pub xref_path: String,
}

/// An object of the drawing's object table as the reference scan reads it.
pub enum DefinitionRef {
    /// A raster image definition and its file name.
    Image { handle: u64, file_name: String },
    /// An underlay definition, its file path, and whether it is a PDF one.
    Underlay { handle: u64, is_pdf: bool, file_path: String },
    /// Any other object.
    Other,
}

/// Block records that are xrefs (attached or overlaid), as identities.
pub open spec fn block_ids(blocks: Seq<BlockRecordRef>) -> Seq<(u64, Seq<char>)>
    decreases blocks.len(),
{
    if blocks.len() == 0 {
        Seq::empty()
    } else {
        let b = blocks.last();
        let rest = block_ids(blocks.drop_last());
        if b.is_xref || b.is_xref_overlay {
            rest.push((b.handle, b.xref_path@))
        } else {
            rest
        }
    }
}

/// Image definitions used by some image entity, and PDF underlay
/// definitions, as identities.
pub open spec fn definition_ids(defs: Seq<DefinitionRef>, used: Set<u64>) -> Seq<(u64, Seq<char>)>
    decreases defs.len(),
{
    if defs.len() == 0 {
        Seq::empty()
    } else {
        let rest = definition_ids(defs.drop_last(), used);
        match defs.last() {
            DefinitionRef::Image { handle, file_name } => if used.contains(handle) {
                rest.push((handle, file_name@))
            } else {
                rest
            },
            DefinitionRef::Underlay { handle, is_pdf, file_path } => if is_pdf {
                rest.push((handle, file_path@))
            } else {
                rest
            },
            DefinitionRef::Other => rest,
        }
    }
}

/// The definition handles the image entities refer to.
pub open spec fn used_images(image_refs: Seq<Option<u64>>) -> Set<u64> {
    Set::new(|h: u64| image_refs.contains(Option::Some(h)))
}

/// `(key, saved path)` identities for every reference the host drawing
/// holds directly: xref block records, image definitions that some image
/// entity (`image_refs`: each raster image's definition handle) refers to,
/// and PDF underlay definitions — block records first, then definitions,
/// each in the order given.
pub fn direct_identities(
    blocks: &Vec<BlockRecordRef>,
    image_refs: &Vec<Option<u64>>,
    definitions: &Vec<DefinitionRef>,
) -> (r: Vec<(u64, String)>)
    ensures
        id_views(r@) == block_ids(blocks@) + definition_ids(definitions@, used_images(image_refs@)),
{
    let mut ids: Vec<(u64, String)> = Vec::new();
    let mut i: usize = 0;
    while i < blocks.len()
        invariant
            i <= blocks@.len(),
            id_views(ids@) == block_ids(blocks@.take(i as int)),
        decreases blocks.len() - i,
    {
        let b = &blocks[i];
        assert(blocks@.take(i + 1).drop_last() =~= blocks@.take(i as int));
        let ghost before = id_views(ids@);
        if b.is_xref || b.is_xref_overlay {
            ids.push((b.handle, b.xref_path.clone()));
            assert(id_views(ids@) =~= before.push((b.handle, b.xref_path@)));
        }
        i += 1;
    }
    assert(blocks@.take(i as int) =~= blocks@);
    let mut referenced = fx_set_new();
    let mut j: usize = 0;
    while j < image_refs.len()
        invariant
            j <= image_refs@.len(),
            forall|h: u64|
                fx_handles(referenced).contains(h) <==> image_refs@.take(j as int).contains(
                    Option::Some(h),
                ),
        decreases image_refs.len() - j,
    {
        let ghost before_set = fx_handles(referenced);
        if let Option::Some(h) = image_refs[j] {
            fx_insert(&mut referenced, h);
        }
        j += 1;
        proof {
            assert(fx_handles(referenced) == match image_refs@[j - 1] {
                Option::Some(h0) => before_set.insert(h0),
                Option::None => before_set,
            });
            let cur = image_refs@.take(j as int);
            let prev = image_refs@.take(j - 1);
            assert(cur =~= prev.push(image_refs@[j - 1]));
            assert forall|h: u64| fx_handles(referenced).contains(h) <==> cur.contains(
                Option::Some(h),
            ) by {
                assert(cur[j - 1] == image_refs@[j - 1]);
                if cur.contains(Option::Some(h)) {
                    let k = choose|k: int| 0 <= k < cur.len() && cur[k] == Option::Some(h);
                    if k < prev.len() {
                        assert(prev[k] == Option::Some(h));
                    }
                }
                if prev.contains(Option::Some(h)) {
                    let k = choose|k: int| 0 <= k < prev.len() && prev[k] == Option::Some(h);
                    assert(cur[k] == Option::Some(h));
                }
            }
        }
    }
    assert(image_refs@.take(j as int) =~= image_refs@);
    let ghost used = used_images(image_refs@);
    assert(fx_handles(referenced) =~= used);
    let ghost head = id_views(ids@);
    let mut k: usize = 0;
    while k < definitions.len()
        invariant
            k <= definitions@.len(),
            fx_handles(referenced) == used,
            id_views(ids@) == head + definition_ids(definitions@.take(k as int), used),
        decreases definitions.len() - k,
    {
        assert(definitions@.take(k + 1).drop_last() =~= definitions@.take(k as int));
        let ghost before = id_views(ids@);
        match &definitions[k] {
            DefinitionRef::Image { handle, file_name } => {
                if fx_contains(&referenced, *handle) {
                    ids.push((*handle, file_name.clone()));
                    assert(id_views(ids@) =~= before.push((*handle, file_name@)));
                }
            },
            DefinitionRef::Underlay { handle, is_pdf, file_path } => {
                if *is_pdf {
                    ids.push((*handle, file_path.clone()));
                    assert(id_views(ids@) =~= before.push((*handle, file_path@)));
                }
            },
            DefinitionRef::Other => {},
        }
        k += 1;
    }
    assert(definitions@.take(k as int) =~= definitions@);
    ids
}

} // verus!
