//! Turning what was read from a path, one file or a directory of files, into
//! model entries.
//!
//! Reading and parsing happen elsewhere. This module takes their outcome and
//! decides which meshes become entries and which failure ends the whole call.
use crate::entry::{views, ModelEntry, ModelEntryView};
use crate::wireframe::Mesh;
use vstd::prelude::*;

verus! {

/// Why a call of the loader failed as a whole.
#[derive(Debug, PartialEq, Eq)]
pub enum LoadError {
    /// The file did not parse as a mesh. Carries the parser's message.
    Parse(String),
    /// The file parsed, but its index buffer breaks the builder's input rules.
    Malformed,
    /// The directory could not be listed. Carries the message of the failure.
    Enumeration(String),
}

/// What parsing one file gave: its mesh, or the parser's message.
pub type Parsed<P> = Result<Mesh<P>, String>;

/// What was found at a path.
#[derive(Debug)]
pub enum MeshSource<P> {
    /// The path names a file; this is what parsing it gave.
    File(Parsed<P>),
    /// The path names a directory; this is what parsing each of its immediate
    /// entries gave, or the message of the failure to list them.
    Directory(Result<Vec<Parsed<P>>, String>),
}

/// A file contributes an entry when it parsed and its mesh is well formed.
pub open spec fn loadable<P>() -> spec_fn(Parsed<P>) -> bool {
    |outcome: Parsed<P>| outcome matches Ok(mesh) && mesh.well_formed()
}

/// A file is skipped when it did not parse or its mesh is malformed.
pub open spec fn skipped<P>() -> spec_fn(Parsed<P>) -> bool {
    |outcome: Parsed<P>| !loadable()(outcome)
}

/// The entries are those of the loadable files, one each, in the files' order.
pub open spec fn loaded_from<P>(models: Seq<ModelEntryView<P>>, outcomes: Seq<Parsed<P>>) -> bool {
    let kept = outcomes.filter(loadable());
    &&& models.len() == kept.len()
    &&& forall|k: int| 0 <= k < models.len() ==> (#[trigger] models[k]).built_from(kept[k]->Ok_0)
}

/// The failure that ends a load as a whole, if there is one: that of the one
/// file, or that of listing the directory. A file inside a directory never
/// makes the load fail.
pub open spec fn failure<P>(source: MeshSource<P>) -> Option<LoadError> {
    match source {
        MeshSource::File(Err(message)) => Some(LoadError::Parse(message)),
        MeshSource::File(Ok(mesh)) => if mesh.well_formed() {
            None
        } else {
            Some(LoadError::Malformed)
        },
        MeshSource::Directory(Err(message)) => Some(LoadError::Enumeration(message)),
        MeshSource::Directory(Ok(_)) => None,
    }
}

/// The entries are what a successful load of the source gives: the one entry
/// of a file, or the entries of a directory's loadable files in their order.
pub open spec fn loads<P>(source: MeshSource<P>, models: Seq<ModelEntryView<P>>) -> bool {
    match source {
        MeshSource::File(Ok(mesh)) => models.len() == 1 && models[0].built_from(mesh),
        MeshSource::Directory(Ok(outcomes)) => loaded_from(models, outcomes@),
        _ => false,
    }
}

/// How many of a directory's files a load skips.
pub open spec fn skipped_count<P>(outcomes: Seq<Parsed<P>>) -> nat {
    outcomes.filter(skipped()).len()
}

/// Every file is either kept or skipped.
pub proof fn lemma_kept_and_skipped<P>(outcomes: Seq<Parsed<P>>)
    ensures
        outcomes.filter(loadable()).len() + outcomes.filter(skipped()).len() == outcomes.len(),
    decreases outcomes.len(),
{
    reveal(Seq::filter);
    if outcomes.len() > 0 {
        lemma_kept_and_skipped(outcomes.drop_last());
    }
}

/// Builds the entry of one file from what parsing it gave. A parser's failure
/// is handed on with its message; a mesh that is not well formed is refused.
pub fn get_model<P: Copy>(outcome: Parsed<P>) -> (result: Result<ModelEntry<P>, LoadError>)
    ensures
        match outcome {
            Ok(mesh) => if mesh.well_formed() {
                result matches Ok(entry) && entry@.built_from(mesh)
            } else {
                result == Err::<ModelEntry<P>, LoadError>(LoadError::Malformed)
            },
            Err(message) => result == Err::<ModelEntry<P>, LoadError>(LoadError::Parse(message)),
        },
{
    match outcome {
        Ok(mesh) => {
            if mesh.is_well_formed() {
                Ok(ModelEntry::new(mesh))
            } else {
                Err(LoadError::Malformed)
            }
        },
        Err(message) => Err(LoadError::Parse(message)),
    }
}

/// Builds the entries of what was found at a path.
///
/// For a file, the result is its one entry, or the failure of that file. For a
/// directory, the call fails only if the directory could not be listed; every
/// loadable file gives an entry, in the files' order, and every other file is
/// skipped without effect on the rest: of `n` files of which `k` are skipped,
/// `n - k` entries come back.
pub fn load_models<P: Copy>(source: MeshSource<P>) -> (result: Result<
    Vec<ModelEntry<P>>,
    LoadError,
>)
    ensures
        match failure(source) {
            Some(error) => result == Err::<Vec<ModelEntry<P>>, LoadError>(error),
            None => result matches Ok(models) && loads(source, views(models@)),
        },
        source matches MeshSource::Directory(Ok(outcomes)) ==> result matches Ok(models)
            && models@.len() == outcomes@.len() - skipped_count(outcomes@),
{
    match source {
        MeshSource::File(outcome) => {
            match get_model(outcome) {
                Ok(entry) => {
                    let mut models: Vec<ModelEntry<P>> = Vec::new();
                    models.push(entry);
                    Ok(models)
                },
                Err(error) => Err(error),
            }
        },
        MeshSource::Directory(Err(message)) => Err(LoadError::Enumeration(message)),
        MeshSource::Directory(Ok(outcomes)) => {
            let ghost all = outcomes@;
            let mut models: Vec<ModelEntry<P>> = Vec::new();
            proof {
                reveal(Seq::filter);
                assert(all.take(0).filter(loadable()) =~= Seq::empty());
            }
            for outcome in it: outcomes.into_iter()
                invariant
                    it.seq() == all,
                    loaded_from(views(models@), all.take(it.index() as int)),
            {
                let ghost seen = all.take(it.index() as int);
                proof {
                    all.lemma_take_succ_push(it.index() as int);
                    seen.lemma_filter_push(outcome, loadable());
                }
                match get_model(outcome) {
                    Ok(entry) => {
                        proof {
                            models@.lemma_push_map_commute(
                                |entry: ModelEntry<P>| entry@,
                                entry,
                            );
                        }
                        models.push(entry);
                    },
                    Err(_) => {},
                }
            }
            proof {
                all.lemma_take_len();
                lemma_kept_and_skipped(all);
            }
            Ok(models)
        },
    }
}

} // verus!
