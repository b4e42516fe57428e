//! The catalog of published releases.

use crate::error::{FetchError, NotFoundError};
use crate::release::{Release, ReleaseView};
use crate::text::{first_position, same_text};
use vstd::prelude::*;

verus! {

/// The tags of `releases`, in their order.
pub open spec fn release_tags(releases: Seq<ReleaseView>) -> Seq<Seq<char>> {
    releases.map_values(|release: ReleaseView| release.tag)
}

/// No two of `releases` have the same tag.
pub open spec fn unique_tags(releases: Seq<ReleaseView>) -> bool {
    release_tags(releases).no_duplicates()
}

/// The releases of one remote listing, most recent first. No tag occurs
/// twice, and nothing changes after construction.
#[derive(Debug)]
pub struct ReleaseCatalog {
    releases: Vec<Release>,
}

impl View for ReleaseCatalog {
    type V = Seq<ReleaseView>;

    closed spec fn view(&self) -> Seq<ReleaseView> {
        self.releases.deep_view()
    }
}

/// Whether one of the first `upto` releases has the tag of the release at
/// `upto`.
fn repeats_earlier_tag(releases: &Vec<Release>, upto: usize) -> (repeated: bool)
    requires
        upto < releases.len(),
    ensures
        repeated == exists|j: int|
            0 <= j < upto && release_tags(releases.deep_view())[j] == release_tags(
                releases.deep_view(),
            )[upto as int],
{
    let ghost tags = release_tags(releases.deep_view());
    let mut j: usize = 0;
    while j < upto
        invariant
            j <= upto < releases.len(),
            tags == release_tags(releases.deep_view()),
            forall|k: int| 0 <= k < j ==> tags[k] != tags[upto as int],
        decreases upto - j,
    {
        assert(tags[j as int] == releases[j as int]@.tag);
        assert(tags[upto as int] == releases[upto as int]@.tag);
        if same_text(releases[j].tag.as_str(), releases[upto].tag.as_str()) {
            return true;
        }
        j += 1;
    }
    false
}

impl ReleaseCatalog {
    #[verifier::type_invariant]
    spec fn well_formed(&self) -> bool {
        unique_tags(self@)
    }

    /// The catalog of a listing, in the order of the listing. A listing in
    /// which a tag occurs twice is malformed.
    pub fn new(releases: Vec<Release>) -> (made: Result<ReleaseCatalog, FetchError>)
        ensures
            match made {
                Ok(catalog) => unique_tags(releases.deep_view()) && catalog@
                    == releases.deep_view(),
                Err(error) => !unique_tags(releases.deep_view()) && error == FetchError::Parse,
            },
    {
        let ghost tags = release_tags(releases.deep_view());
        let mut i: usize = 0;
        while i < releases.len()
            invariant
                i <= releases.len(),
                tags == release_tags(releases.deep_view()),
                forall|a: int, b: int| 0 <= a < b < i ==> tags[a] != tags[b],
            decreases releases.len() - i,
        {
            if repeats_earlier_tag(&releases, i) {
                return Err(FetchError::Parse);
            }
            i += 1;
        }
        Ok(ReleaseCatalog { releases })
    }

    /// The number of releases.
    pub fn len(&self) -> (count: usize)
        ensures
            count == self@.len(),
    {
        self.releases.len()
    }

    /// Whether a release has exactly the tag `tag`.
    pub fn contains(&self, tag: &str) -> (found: bool)
        ensures
            found == release_tags(self@).contains(tag@),
    {
        self.resolve(tag).is_ok()
    }

    /// The tags of the catalog, most recent first.
    pub fn list(&self) -> (tags: Vec<String>)
        ensures
            tags.deep_view() == release_tags(self@),
            tags.deep_view().no_duplicates(),
    {
        proof {
            use_type_invariant(self);
        }
        let mut tags: Vec<String> = Vec::new();
        let mut i: usize = 0;
        while i < self.releases.len()
            invariant
                i <= self.releases.len(),
                tags.len() == i,
                forall|j: int| 0 <= j < i ==> tags[j]@ == self.releases[j]@.tag,
            decreases self.releases.len() - i,
        {
            tags.push(self.releases[i].tag.clone());
            i += 1;
        }
        assert(tags.deep_view() =~= release_tags(self@));
        tags
    }

    /// The release with the tag `tag`.
    pub fn resolve(&self, tag: &str) -> (found: Result<&Release, NotFoundError>)
        ensures
            unique_tags(self@),
            match release_tags(self@).index_of_first(tag@) {
                Some(at) => found matches Ok(release) && release@ == self@[at],
                None => found is Err,
            },
            found is Ok <==> release_tags(self@).contains(tag@),
    {
        proof {
            use_type_invariant(self);
        }
        let ghost tags = release_tags(self@);
        proof {
            tags.index_of_first_ensures(tag@);
        }
        let mut i: usize = 0;
        while i < self.releases.len()
            invariant
                i <= self.releases.len(),
                tags == release_tags(self@),
                unique_tags(self@),
                forall|j: int| 0 <= j < i ==> tags[j] != tag@,
            decreases self.releases.len() - i,
        {
            assert(tags[i as int] == self.releases[i as int]@.tag);
            if same_text(self.releases[i].tag.as_str(), tag) {
                proof {
                    first_position(tags, tag@, i as int);
                }
                return Ok(&self.releases[i]);
            }
            i += 1;
        }
        Err(NotFoundError)
    }
}

} // verus!
