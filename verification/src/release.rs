//! Releases and their downloadable assets.

use crate::text::{first_position, same_text};
use vstd::prelude::*;

verus! {

/// One downloadable file of a release.
#[derive(Debug, PartialEq, Eq)]
pub struct Asset {
    /// File name under which the asset was published.
    pub name: String,
    /// Location from which the asset is retrieved.
    pub url: String,
}

/// What an [`Asset`] stands for in contracts.
pub struct AssetView {
    pub name: Seq<char>,
    pub url: Seq<char>,
}

impl View for Asset {
    type V = AssetView;

    open spec fn view(&self) -> AssetView {
        AssetView { name: self.name@, url: self.url@ }
    }
}

impl DeepView for Asset {
    type V = AssetView;

    open spec fn deep_view(&self) -> AssetView {
        self@
    }
}

impl Clone for Asset {
    fn clone(&self) -> (copy: Asset)
        ensures
            copy@ == self@,
    {
        Asset { name: self.name.clone(), url: self.url.clone() }
    }
}

impl Asset {
    pub fn new(name: String, url: String) -> (asset: Asset)
        ensures
            asset@ == (AssetView { name: name@, url: url@ }),
    {
        Asset { name, url }
    }
}

/// One published version: its tag and the assets published with it.
#[derive(Debug, PartialEq, Eq)]
pub struct Release {
    /// Version tag, such as `v1.1.0`.
    pub tag: String,
    /// The assets of the release, in the order of the listing.
    pub assets: Vec<Asset>,
}

/// What a [`Release`] stands for in contracts.
pub struct ReleaseView {
    pub tag: Seq<char>,
    pub assets: Seq<AssetView>,
}

impl View for Release {
    type V = ReleaseView;

    open spec fn view(&self) -> ReleaseView {
        ReleaseView { tag: self.tag@, assets: self.assets.deep_view() }
    }
}

impl DeepView for Release {
    type V = ReleaseView;

    open spec fn deep_view(&self) -> ReleaseView {
        self@
    }
}

/// The names of `assets`, in their order.
pub open spec fn asset_names(assets: Seq<AssetView>) -> Seq<Seq<char>> {
    assets.map_values(|asset: AssetView| asset.name)
}

impl Release {
    pub fn new(tag: String, assets: Vec<Asset>) -> (release: Release)
        ensures
            release@ == (ReleaseView { tag: tag@, assets: assets.deep_view() }),
    {
        Release { tag, assets }
    }

    /// The first asset of the release that is named `name`.
    pub fn find_asset(&self, name: &str) -> (found: Option<&Asset>)
        ensures
            match asset_names(self@.assets).index_of_first(name@) {
                Some(at) => found matches Some(asset) && asset@ == self@.assets[at],
                None => found is None,
            },
    {
        let ghost names = asset_names(self@.assets);
        let mut i: usize = 0;
        while i < self.assets.len()
            invariant
                i <= self.assets.len(),
                names == asset_names(self@.assets),
                forall|j: int| 0 <= j < i ==> names[j] != name@,
            decreases self.assets.len() - i,
        {
            assert(names[i as int] == self.assets[i as int]@.name);
            if same_text(self.assets[i].name.as_str(), name) {
                proof {
                    first_position(names, name@, i as int);
                }
                return Some(&self.assets[i]);
            }
            i += 1;
        }
        proof {
            names.index_of_first_ensures(name@);
        }
        None
    }
}

} // verus!
