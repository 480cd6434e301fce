//! The resource store: every model entry loaded so far, in loading order.
use crate::entry::{views, ModelEntry, ModelEntryView, RenderMode};
use crate::gui::Config;
use crate::loader::{failure, load_models, loads, LoadError, MeshSource};
use crate::material::Srgba;
use vstd::prelude::*;

verus! {

/// All model entries loaded so far. Entries are added at the end and never
/// removed or moved; an entry's colour and render mode can be set in place.
#[derive(Debug)]
pub struct Resources<P> {
    models: Vec<ModelEntry<P>>,
}

impl<P> View for Resources<P> {
    type V = Seq<ModelEntryView<P>>;

    closed spec fn view(&self) -> Seq<ModelEntryView<P>> {
        views(self.models@)
    }
}

impl<P: Copy> Resources<P> {
    /// An empty store.
    pub fn new() -> (store: Self)
        ensures
            store@ == Seq::<ModelEntryView<P>>::empty(),
    {
        Resources { models: Vec::new() }
    }

    /// Adds the given entries at the end, in their order.
    pub fn extend(&mut self, models: Vec<ModelEntry<P>>)
        ensures
            final(self)@ == old(self)@ + views(models@),
    {
        let mut models = models;
        self.models.append(&mut models);
    }

    /// Loads what was found at a path and adds the entries at the end. Returns
    /// how many were added. If the load fails, the store stays as it is.
    pub fn import(&mut self, source: MeshSource<P>) -> (result: Result<usize, LoadError>)
        ensures
            match failure(source) {
                Some(error) => {
                    &&& result == Err::<usize, LoadError>(error)
                    &&& final(self)@ == old(self)@
                },
                None => {
                    &&& result matches Ok(added)
                    &&& final(self)@.len() == old(self)@.len() + added
                    &&& final(self)@.take(old(self)@.len() as int) == old(self)@
                    &&& loads(source, final(self)@.skip(old(self)@.len() as int))
                },
            },
    {
        match load_models(source) {
            Ok(models) => {
                let added = models.len();
                self.extend(models);
                Ok(added)
            },
            Err(error) => Err(error),
        }
    }

    /// The number of entries.
    pub fn len(&self) -> (count: usize)
        ensures
            count == self@.len(),
    {
        self.models.len()
    }

    /// The entry at `index`, if there is one.
    pub fn get(&self, index: usize) -> (found: Option<&ModelEntry<P>>)
        ensures
            match found {
                Some(entry) => index < self@.len() && entry@ == self@[index as int],
                None => index >= self@.len(),
            },
    {
        if index < self.models.len() {
            Some(&self.models[index])
        } else {
            None
        }
    }

    /// The entry that the viewer panel shows: the one at the selected
    /// position, if a position is selected and the store has an entry there.
    pub fn selected(&self, config: &Config) -> (found: Option<&ModelEntry<P>>)
        ensures
            match found {
                Some(entry) => config.selected_asset matches Some(index) && index < self@.len()
                    && entry@ == self@[index as int],
                None => config.selected_asset matches Some(index) ==> index >= self@.len(),
            },
    {
        match config.selected_asset {
            Some(index) => self.get(index),
            None => None,
        }
    }

    /// Sets the render mode of the entry at `index` and tells whether there
    /// is such an entry. No other entry changes.
    pub fn set_render_mode(&mut self, index: usize, mode: RenderMode) -> (found: bool)
        ensures
            found == (index < old(self)@.len()),
            found ==> final(self)@ == old(self)@.update(
                index as int,
                old(self)@[index as int].in_mode(mode),
            ),
            !found ==> final(self)@ == old(self)@,
    {
        if index < self.models.len() {
            self.models[index].set_render_mode(mode);
            true
        } else {
            false
        }
    }

    /// Sets the base colour of the entry at `index` and tells whether there is
    /// such an entry. No other entry changes.
    pub fn set_albedo(&mut self, index: usize, albedo: Srgba) -> (found: bool)
        ensures
            found == (index < old(self)@.len()),
            found ==> final(self)@ == old(self)@.update(
                index as int,
                old(self)@[index as int].recoloured(albedo),
            ),
            !found ==> final(self)@ == old(self)@,
    {
        if index < self.models.len() {
            self.models[index].set_albedo(albedo);
            true
        } else {
            false
        }
    }
}

} // verus!
