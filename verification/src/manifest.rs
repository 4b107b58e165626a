//! The capability manifest: what resources, content types, catalogs and
//! identifier prefixes this addon advertises, and the prefix check that
//! decides whether an identifier is in scope.

use vstd::prelude::*;
use crate::resources::Resource;
use crate::strutil::{str_eq, str_starts_with};

verus! {

/// A semantic version, held as its three numeric components.
#[derive(Clone, Copy, Debug, PartialEq, Eq, Structural)]
pub struct Version {
    pub major: u64,
    pub minor: u64,
    pub patch: u64,
}

/// The schema of one extra parameter a catalog accepts: its key name,
/// whether a request must carry it, an optional allow-list of values,
/// and the greatest number of values accepted.
pub struct ExtraPropSpec {
    pub name: String,
    pub is_required: bool,
    pub options: Vec<String>,
    pub options_limit: u64,
}

/// One catalog the manifest declares: its content type, id, optional
/// display name and extra-parameter schemas.
pub struct CatalogDescriptor {
    pub content_type: String,
    pub id: String,
    pub name: Option<String>,
    pub extra: Vec<ExtraPropSpec>,
}

/// Why a manifest was refused at construction.
#[derive(Clone, Copy, Debug, PartialEq, Eq, Structural)]
pub enum ManifestError {
    /// A catalog references a content type that `types` does not list.
    UnsupportedCatalogType,
}

/// The capability document, constructed once at startup and read-only
/// afterwards.
pub struct Manifest {
    pub id: String,
    pub name: String,
    pub version: Version,
    pub resources: Vec<Resource>,
    pub types: Vec<String>,
    pub catalogs: Vec<CatalogDescriptor>,
    pub id_prefixes: Option<Vec<String>>,
    pub description: Option<String>,
}

/// Whether `types` lists `t`.
pub open spec fn spec_types_contain(types: Seq<String>, t: Seq<char>) -> bool {
    exists|j: int| 0 <= j < types.len() && types[j]@ == t
}

/// The manifest invariant: every declared catalog's content type is one
/// of the supported types.
pub open spec fn catalogs_consistent(types: Seq<String>, catalogs: Seq<CatalogDescriptor>) -> bool {
    forall|i: int| 0 <= i < catalogs.len() ==> spec_types_contain(
        types,
        #[trigger] catalogs[i].content_type@,
    )
}

/// Extension of the manifest with the identifier-prefix policy.
pub trait ManifestExt {
    /// What the identifier check decides, as a predicate on the view of
    /// the identifier.
    spec fn spec_is_id_supported(&self, id: Seq<char>) -> bool;

    /// Whether `id` is in scope for this addon.
    fn is_id_supported(&self, id: &str) -> (r: bool)
        ensures
            r == self.spec_is_id_supported(id@),
    ;
}

impl ManifestExt for Manifest {
    /// With no prefix list every identifier is accepted; with one, an
    /// identifier is accepted exactly when some listed prefix opens it.
    open spec fn spec_is_id_supported(&self, id: Seq<char>) -> bool {
        self.id_prefixes matches Some(prefixes) ==> exists|i: int|
            0 <= i < prefixes@.len() && (#[trigger] prefixes@[i]@).is_prefix_of(id)
    }

    fn is_id_supported(&self, id: &str) -> (r: bool) {
        match &self.id_prefixes {
            None => true,
            Some(prefixes) => any_prefix_matches(prefixes, id),
        }
    }
}

/// Whether some prefix in the list opens `id`.
fn any_prefix_matches(prefixes: &Vec<String>, id: &str) -> (r: bool)
    ensures
        r == exists|i: int|
            0 <= i < prefixes@.len() && (#[trigger] prefixes@[i]@).is_prefix_of(id@),
{
    let mut i: usize = 0;
    while i < prefixes.len()
        invariant
            i <= prefixes@.len(),
            forall|j: int| 0 <= j < i ==> !(#[trigger] prefixes@[j]@).is_prefix_of(id@),
        decreases prefixes@.len() - i,
    {
        if str_starts_with(id, prefixes[i].as_str()) {
            assert((prefixes@[i as int]@).is_prefix_of(id@));
            return true;
        }
        i += 1;
    }
    false
}

impl Manifest {
    /// The manifest invariant, as a predicate on the whole document.
    pub open spec fn wf(&self) -> bool {
        catalogs_consistent(self.types@, self.catalogs@)
    }

    /// Construct a manifest, refusing one whose catalogs reference a
    /// content type absent from `types`.
    #[allow(clippy::too_many_arguments)]
    pub fn new(
        id: String,
        name: String,
        version: Version,
        resources: Vec<Resource>,
        types: Vec<String>,
        catalogs: Vec<CatalogDescriptor>,
        id_prefixes: Option<Vec<String>>,
        description: Option<String>,
    ) -> (r: Result<Manifest, ManifestError>)
        ensures
            (r is Ok) <==> catalogs_consistent(types@, catalogs@),
            (r is Err) ==> r == Result::<Manifest, ManifestError>::Err(
                ManifestError::UnsupportedCatalogType,
            ),
            r matches Ok(m) ==> m.wf() && m.id == id && m.name == name && m.version == version
                && m.resources == resources && m.types == types && m.catalogs == catalogs
                && m.id_prefixes == id_prefixes && m.description == description,
    {
        let mut i: usize = 0;
        while i < catalogs.len()
            invariant
                i <= catalogs@.len(),
                forall|j: int| 0 <= j < i ==> spec_types_contain(
                    types@,
                    #[trigger] catalogs@[j].content_type@,
                ),
            decreases catalogs@.len() - i,
        {
            if !types_contain(&types, catalogs[i].content_type.as_str()) {
                return Err(ManifestError::UnsupportedCatalogType);
            }
            i += 1;
        }
        Ok(Manifest { id, name, version, resources, types, catalogs, id_prefixes, description })
    }
}

/// The prefix policy, stated on its own: an unset prefix list accepts
/// every identifier, and a set one accepts exactly the identifiers
/// that some listed prefix opens.
pub proof fn lemma_prefix_policy(m: Manifest, id: Seq<char>)
    ensures
        m.id_prefixes is None ==> m.spec_is_id_supported(id),
        m.id_prefixes matches Some(prefixes) ==> (m.spec_is_id_supported(id) <==> exists|i: int|
            0 <= i < prefixes@.len() && (#[trigger] prefixes@[i]@).is_prefix_of(id)),
{
}

/// The manifest this deployment advertises: catalog and stream
/// resources for movies and series, a last-videos catalog filtered by
/// an identifier list, and the `tt` and `kitsu` identifier prefixes.
pub fn default_manifest() -> (r: Manifest)
    ensures
        r.wf(),
        r.id_prefixes matches Some(prefixes) && prefixes@.len() == 2 && prefixes@[0]@ == "tt"@
            && prefixes@[1]@ == "kitsu"@,
        r.catalogs@.len() == 2,
        r.catalogs@[1].id@ == "last-videos"@,
        r.catalogs@[1].content_type@ == "series"@,
{
    let types: Vec<String> = vec!["movie".to_owned(), "series".to_owned(), "others".to_owned()];
    let catalogs: Vec<CatalogDescriptor> = vec![
        CatalogDescriptor {
            content_type: "others".to_owned(),
            id: "bbbcatalog".to_owned(),
            name: Some("Rust test".to_owned()),
            extra: Vec::new(),
        },
        CatalogDescriptor {
            content_type: "series".to_owned(),
            id: "last-videos".to_owned(),
            name: Some("lastVideos".to_owned()),
            extra: vec![
                ExtraPropSpec {
                    name: "lastVideosIds".to_owned(),
                    is_required: true,
                    options: Vec::new(),
                    options_limit: 100,
                },
            ],
        },
    ];
    proof {
        assert(spec_types_contain(types@, catalogs@[0].content_type@)) by {
            assert(types@[2]@ == catalogs@[0].content_type@);
        }
        assert(spec_types_contain(types@, catalogs@[1].content_type@)) by {
            assert(types@[1]@ == catalogs@[1].content_type@);
        }
        assert forall|i: int| 0 <= i < catalogs@.len() implies spec_types_contain(
            types@,
            #[trigger] catalogs@[i].content_type@,
        ) by {
            assert(i == 0 || i == 1);
        }
    }
    let built = Manifest::new(
        "org.stremio.rusty-addon".to_owned(),
        "Rusty addon".to_owned(),
        Version { major: 0, minor: 1, patch: 0 },
        vec![Resource::Catalog, Resource::Stream],
        types,
        catalogs,
        Some(vec!["tt".to_owned(), "kitsu".to_owned()]),
        Some("Rust addon test".to_owned()),
    );
    match built {
        Ok(m) => m,
        Err(_) => {
            proof {
                assert(false);
            }
            vstd::pervasive::unreached()
        },
    }
}

/// Whether the type list holds the given content type.
fn types_contain(types: &Vec<String>, t: &str) -> (r: bool)
    ensures
        r == spec_types_contain(types@, t@),
{
    let mut j: usize = 0;
    while j < types.len()
        invariant
            j <= types@.len(),
            forall|k: int| 0 <= k < j ==> (#[trigger] types@[k]@) != t@,
        decreases types@.len() - j,
    {
        if str_eq(types[j].as_str(), t) {
            return true;
        }
        j += 1;
    }
    false
}

} // verus!
