//! The catalog resolver: an ordered lookup from identifiers to metadata
//! items. This deployment backs it with fixture entries, but the
//! dispatcher only relies on the resolution contract.

use vstd::prelude::*;
use crate::strutil::str_eq;

verus! {

/// One video of a series item.
pub struct Video {
    pub id: String,
    pub name: String,
}

/// The mathematical model of a video.
pub struct VideoView {
    pub id: Seq<char>,
    pub name: Seq<char>,
}

impl View for Video {
    type V = VideoView;

    open spec fn view(&self) -> VideoView {
        VideoView { id: self.id@, name: self.name@ }
    }
}

/// A metadata record for one piece of content. The dispatcher passes it
/// through unchanged; only the resolver reads it.
pub struct MetaItem {
    pub id: String,
    pub content_type: String,
    pub name: String,
    pub videos: Vec<Video>,
}

/// The mathematical model of a metadata record.
pub struct MetaItemView {
    pub id: Seq<char>,
    pub content_type: Seq<char>,
    pub name: Seq<char>,
    pub videos: Seq<VideoView>,
}

/// The models of a list of videos.
pub open spec fn videos_view(videos: Seq<Video>) -> Seq<VideoView> {
    videos.map_values(|v: Video| v@)
}

impl View for MetaItem {
    type V = MetaItemView;

    open spec fn view(&self) -> MetaItemView {
        MetaItemView {
            id: self.id@,
            content_type: self.content_type@,
            name: self.name@,
            videos: videos_view(self.videos@),
        }
    }
}

/// The models of a list of metadata records.
pub open spec fn metas_view(metas: Seq<MetaItem>) -> Seq<MetaItemView> {
    metas.map_values(|m: MetaItem| m@)
}

proof fn lemma_metas_view_push(metas: Seq<MetaItem>, m: MetaItem)
    ensures
        metas_view(metas.push(m)) =~= metas_view(metas).push(m@),
{
}

/// The first entry from position `i` on whose id is `id`, if any.
pub open spec fn lookup_from(entries: Seq<MetaItemView>, id: Seq<char>, i: int) -> Option<
    MetaItemView,
>
    decreases entries.len() - i,
    when 0 <= i
{
    if i >= entries.len() {
        None
    } else if entries[i].id == id {
        Some(entries[i])
    } else {
        lookup_from(entries, id, i + 1)
    }
}

/// The first entry whose id is `id`, if any.
pub open spec fn lookup_meta(entries: Seq<MetaItemView>, id: Seq<char>) -> Option<MetaItemView> {
    lookup_from(entries, id, 0)
}

/// The items that a list of identifiers resolves to: one looked-up item
/// per matched identifier, in input order, unmatched identifiers
/// dropped.
pub open spec fn resolved_metas(entries: Seq<MetaItemView>, ids: Seq<Seq<char>>) -> Seq<
    MetaItemView,
>
    decreases ids.len(),
{
    if ids.len() == 0 {
        Seq::empty()
    } else {
        resolved_metas(entries, ids.drop_last()) + (match lookup_meta(entries, ids.last()) {
            Some(m) => seq![m],
            None => Seq::<MetaItemView>::empty(),
        })
    }
}

/// The catalog resolver: entries keyed by identifier, looked up in
/// order.
pub struct CatalogResolver {
    pub entries: Vec<MetaItem>,
}

impl View for CatalogResolver {
    type V = Seq<MetaItemView>;

    open spec fn view(&self) -> Seq<MetaItemView> {
        metas_view(self.entries@)
    }
}

impl Video {
    /// An owned copy, equal to this video.
    pub fn duplicate(&self) -> (r: Video)
        ensures
            r@ == self@,
    {
        Video { id: self.id.clone(), name: self.name.clone() }
    }
}

impl MetaItem {
    /// An owned copy whose model is this item's model.
    pub fn duplicate(&self) -> (r: MetaItem)
        ensures
            r@ == self@,
    {
        let mut videos: Vec<Video> = Vec::new();
        let mut i: usize = 0;
        while i < self.videos.len()
            invariant
                i <= self.videos@.len(),
                videos@.len() == i,
                forall|j: int| 0 <= j < i ==> (#[trigger] videos@[j])@ == self.videos@[j]@,
            decreases self.videos@.len() - i,
        {
            videos.push(self.videos[i].duplicate());
            i += 1;
        }
        assert(videos_view(videos@) =~= videos_view(self.videos@));
        let r = MetaItem {
            id: self.id.clone(),
            content_type: self.content_type.clone(),
            name: self.name.clone(),
            videos,
        };
        r
    }
}

impl CatalogResolver {
    /// The first entry for `id`, if any.
    fn find(&self, id: &str) -> (r: Option<&MetaItem>)
        ensures
            match r {
                Some(m) => lookup_meta(self@, id@) == Some(m@),
                None => lookup_meta(self@, id@) is None,
            },
    {
        let mut j: usize = 0;
        while j < self.entries.len()
            invariant
                j <= self.entries@.len(),
                lookup_meta(self@, id@) == lookup_from(self@, id@, j as int),
            decreases self.entries@.len() - j,
        {
            if str_eq(self.entries[j].id.as_str(), id) {
                assert(self@[j as int].id == id@);
                return Some(&self.entries[j]);
            }
            assert(self@[j as int].id != id@);
            assert(lookup_from(self@, id@, j as int) == lookup_from(self@, id@, j + 1));
            j += 1;
        }
        None
    }

    /// Resolve an ordered identifier list into the items it matches,
    /// preserving input order and dropping unmatched identifiers.
    pub fn resolve(&self, ids: &Vec<String>) -> (r: Vec<MetaItem>)
        ensures
            metas_view(r@) == resolved_metas(self@, ids.deep_view()),
    {
        let ghost dv = ids.deep_view();
        let mut out: Vec<MetaItem> = Vec::new();
        let mut i: usize = 0;
        while i < ids.len()
            invariant
                i <= ids@.len(),
                dv == ids.deep_view(),
                dv.len() == ids@.len(),
                metas_view(out@) =~= resolved_metas(self@, dv.subrange(0, i as int)),
            decreases ids@.len() - i,
        {
            let ghost pre = out@;
            match self.find(ids[i].as_str()) {
                Some(m) => {
                    let copy = m.duplicate();
                    let ghost cv = copy@;
                    out.push(copy);
                    proof {
                        lemma_metas_view_push(pre, out@[out@.len() - 1]);
                        assert(metas_view(out@) =~= metas_view(pre).push(cv));
                    }
                },
                None => {},
            }
            proof {
                assert(dv.subrange(0, i + 1).drop_last() =~= dv.subrange(0, i as int));
                assert(dv.subrange(0, i + 1).last() == dv[i as int]);
                assert(dv[i as int] == ids@[i as int]@);
                assert(metas_view(out@) =~= resolved_metas(self@, dv.subrange(0, i + 1)));
            }
            i += 1;
        }
        proof {
            assert(dv.subrange(0, dv.len() as int) =~= dv);
        }
        out
    }

    /// The fixture entries this deployment serves: two series known by
    /// their public identifiers.
    pub fn fixture() -> (r: CatalogResolver)
        ensures
            r@.len() == 2,
            r@[0].id == "tt7772588"@,
            r@[0].content_type == "series"@,
            r@[1].id == "kitsu:44081"@,
            r@[1].content_type == "series"@,
    {
        let for_all_mankind = MetaItem {
            id: "tt7772588".to_owned(),
            content_type: "series".to_owned(),
            name: "For All Mankind".to_owned(),
            videos: vec![
                Video { id: "tt7772588:4:1".to_owned(), name: "Glasnost".to_owned() },
            ],
        };
        let kimetsu = MetaItem {
            id: "kitsu:44081".to_owned(),
            content_type: "series".to_owned(),
            name: "Demon Slayer: Kimetsu no Yaiba".to_owned(),
            videos: vec![
                Video { id: "kitsu:44081:1".to_owned(), name: "Cruelty".to_owned() },
            ],
        };
        let r = CatalogResolver { entries: vec![for_all_mankind, kimetsu] };
        assert(r@.len() == 2);
        r
    }
}

} // verus!
