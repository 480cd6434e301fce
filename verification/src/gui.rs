//! What the panels of the user interface remember between frames, and how
//! their buttons change it.
use vstd::prelude::*;

verus! {

/// The state that the panels share.
#[derive(Debug)]
pub struct Config {
    /// Whether the asset panel is open.
    pub asset_menu: bool,
    /// Whether the list of assets is unfolded.
    pub showing_assets: bool,
    /// The position in the store of the entry that the viewer panel shows, if
    /// it shows one.
    pub selected_asset: Option<usize>,
}

impl Default for Config {
    /// The asset panel open, nothing selected.
    fn default() -> (config: Self)
        ensures
            config.asset_menu,
            !config.showing_assets,
            config.selected_asset is None,
    {
        Config { asset_menu: true, showing_assets: false, selected_asset: None }
    }
}

impl Config {
    /// The button of the top bar: opens the asset panel if it is closed and
    /// closes it if it is open.
    pub fn toggle_asset_menu(&mut self)
        ensures
            final(self).asset_menu == !old(self).asset_menu,
            final(self).showing_assets == old(self).showing_assets,
            final(self).selected_asset == old(self).selected_asset,
    {
        self.asset_menu = !self.asset_menu;
    }

    /// A button of the asset list: the viewer panel shows the entry at `index`.
    pub fn select(&mut self, index: usize)
        ensures
            final(self).selected_asset == Some(index),
            final(self).asset_menu == old(self).asset_menu,
            final(self).showing_assets == old(self).showing_assets,
    {
        self.selected_asset = Some(index);
    }

    /// The close button of the viewer panel: the panel shows no entry.
    pub fn close_viewer(&mut self)
        ensures
            final(self).selected_asset is None,
            final(self).asset_menu == old(self).asset_menu,
            final(self).showing_assets == old(self).showing_assets,
    {
        self.selected_asset = None;
    }
}

} // verus!
