//! The resource dispatcher: routes a validated request to a resolver
//! and shapes the result into the protocol's response envelope. It is
//! stateless per request; the only shared input is the read-only
//! manifest.

use vstd::prelude::*;
use crate::catalog::{metas_view, resolved_metas, CatalogResolver, MetaItem, MetaItemView};
use crate::codec::{
    decode, first_value_empty, interior_of, split_values, wellformed_segment, DecodeError,
};
use crate::manifest::{Manifest, ManifestExt};
use crate::resources::{Resource, ResourceType};
use crate::stream::{matching_streams, streams_view, StreamDescriptor, StreamDescriptorView, StreamResolver};

verus! {

/// Why a request was not answered with an envelope.
#[derive(Clone, Copy, Debug, PartialEq, Eq, Structural)]
pub enum RouteError {
    /// The extra-parameter segment does not parse: answer not-found.
    MalformedSegment,
    /// The identifier list holds no usable identifier, because it is
    /// empty or every identifier in it is unsupported: answer
    /// not-found.
    EmptyQuery,
    /// A declared but unimplemented resource was requested: answer
    /// not-implemented, never a silent empty success.
    UnresolvedCapability,
}

/// The protocol's response envelope: detailed metadata items for a
/// catalog request, or stream descriptors for a stream request.
pub enum ResourceResponse {
    MetasDetailed { metas_detailed: Vec<MetaItem> },
    Streams { streams: Vec<StreamDescriptor> },
}

/// The mathematical model of a response envelope.
pub enum ResourceResponseView {
    MetasDetailed { metas_detailed: Seq<MetaItemView> },
    Streams { streams: Seq<StreamDescriptorView> },
}

impl View for ResourceResponse {
    type V = ResourceResponseView;

    open spec fn view(&self) -> ResourceResponseView {
        match self {
            ResourceResponse::MetasDetailed { metas_detailed } => ResourceResponseView::MetasDetailed {
                metas_detailed: metas_view(metas_detailed@),
            },
            ResourceResponse::Streams { streams } => ResourceResponseView::Streams {
                streams: streams_view(streams@),
            },
        }
    }
}

/// The key of the one extra parameter the last-videos catalog accepts.
pub open spec fn last_videos_key() -> Seq<char> {
    "lastVideosIds"@
}

/// The identifiers of `vs` that the manifest supports, in input order.
pub open spec fn supported_values(m: Manifest, vs: Seq<Seq<char>>) -> Seq<Seq<char>>
    decreases vs.len(),
{
    if vs.len() == 0 {
        Seq::empty()
    } else {
        supported_values(m, vs.drop_last()) + (if m.spec_is_id_supported(vs.last()) {
            seq![vs.last()]
        } else {
            Seq::<Seq<char>>::empty()
        })
    }
}

/// Keep the identifiers the manifest supports, preserving order.
fn filter_supported(manifest: &Manifest, values: &Vec<String>) -> (r: Vec<String>)
    ensures
        r.deep_view() == supported_values(*manifest, values.deep_view()),
{
    let ghost dv = values.deep_view();
    let mut out: Vec<String> = Vec::new();
    let mut i: usize = 0;
    while i < values.len()
        invariant
            i <= values@.len(),
            dv == values.deep_view(),
            dv.len() == values@.len(),
            out.deep_view() =~= supported_values(*manifest, dv.subrange(0, i as int)),
        decreases values@.len() - i,
    {
        let ghost pre = out.deep_view();
        if manifest.is_id_supported(values[i].as_str()) {
            out.push(values[i].clone());
            assert(out.deep_view() =~= pre.push(dv[i as int]));
        }
        proof {
            assert(dv.subrange(0, i + 1).drop_last() =~= dv.subrange(0, i as int));
            assert(dv.subrange(0, i + 1).last() == dv[i as int]);
            assert(out.deep_view() =~= supported_values(*manifest, dv.subrange(0, i + 1)));
        }
        i += 1;
    }
    proof {
        assert(dv.subrange(0, dv.len() as int) =~= dv);
    }
    out
}

/// Whether a decoded segment leaves at least one supported identifier
/// to resolve: its first value is non-empty and the manifest supports
/// some value.
pub open spec fn has_usable_values(m: Manifest, path: Seq<char>) -> bool {
    &&& !first_value_empty(interior_of(last_videos_key(), path))
    &&& supported_values(m, split_values(interior_of(last_videos_key(), path))).len() > 0
}

/// Handle the last-videos catalog path: decode the identifier-list
/// segment, drop unsupported identifiers silently, resolve the rest in
/// order, and wrap the items as a detailed-metas envelope. A segment
/// that does not decode, or whose list is empty or entirely
/// unsupported, is answered not-found, with no partial envelope.
pub fn handle_catalog_resource_last_videos(
    manifest: &Manifest,
    catalog: &CatalogResolver,
    path: &str,
) -> (r: Result<ResourceResponse, RouteError>)
    ensures
        (r is Ok) <==> (wellformed_segment(last_videos_key(), path@) && has_usable_values(
            *manifest,
            path@,
        )),
        (r == Result::<ResourceResponse, RouteError>::Err(RouteError::MalformedSegment))
            <==> !wellformed_segment(last_videos_key(), path@),
        (r == Result::<ResourceResponse, RouteError>::Err(RouteError::EmptyQuery)) <==> (
        wellformed_segment(last_videos_key(), path@) && !has_usable_values(*manifest, path@)),
        r matches Ok(resp) ==> resp@ == (ResourceResponseView::MetasDetailed {
            metas_detailed: resolved_metas(
                catalog@,
                supported_values(
                    *manifest,
                    split_values(interior_of(last_videos_key(), path@)),
                ),
            ),
        }),
{
    match decode("lastVideosIds", path) {
        Err(DecodeError::MalformedSegment) => Err(RouteError::MalformedSegment),
        Err(DecodeError::EmptyQuery) => Err(RouteError::EmptyQuery),
        Ok(values) => {
            let supported = filter_supported(manifest, &values);
            if supported.is_empty() {
                assert(supported.deep_view().len() == 0);
                return Err(RouteError::EmptyQuery);
            }
            assert(supported.deep_view().len() > 0);
            let metas_detailed = catalog.resolve(&supported);
            Ok(ResourceResponse::MetasDetailed { metas_detailed })
        },
    }
}

/// Handle a generic catalog request. The generic catalog path is
/// declared by the manifest but unresolved in this scope: it answers a
/// tagged not-implemented outcome, never a silent empty success.
pub fn handle_catalog_resource(resource_type: ResourceType, endpoint_id: &str) -> (r: Result<
    ResourceResponse,
    RouteError,
>)
    ensures
        r == Result::<ResourceResponse, RouteError>::Err(RouteError::UnresolvedCapability),
{
    let _ = resource_type;
    let _ = endpoint_id;
    Err(RouteError::UnresolvedCapability)
}

/// Handle a stream request: every stream the resolver knows for the
/// pair, the empty envelope when it knows none.
pub fn handle_stream_resource(
    streams: &StreamResolver,
    resource_type: ResourceType,
    endpoint_id: &str,
) -> (r: ResourceResponse)
    ensures
        r@ == (ResourceResponseView::Streams {
            streams: matching_streams(streams@, resource_type, endpoint_id@),
        }),
{
    let found = streams.resolve(resource_type, endpoint_id);
    ResourceResponse::Streams { streams: found }
}

/// Dispatch a generic resource request by resource kind. Every
/// combination has a defined outcome: streams resolve, and the generic
/// catalog path surfaces its capability gap.
pub fn handle_resource(
    streams: &StreamResolver,
    resource: Resource,
    resource_type: ResourceType,
    endpoint_id: &str,
) -> (r: Result<ResourceResponse, RouteError>)
    ensures
        resource == Resource::Stream ==> (r matches Ok(resp) && resp@ == (
        ResourceResponseView::Streams {
            streams: matching_streams(streams@, resource_type, endpoint_id@),
        })),
        resource == Resource::Catalog ==> r == Result::<ResourceResponse, RouteError>::Err(
            RouteError::UnresolvedCapability,
        ),
{
    match resource {
        Resource::Stream => Ok(handle_stream_resource(streams, resource_type, endpoint_id)),
        Resource::Catalog => handle_catalog_resource(resource_type, endpoint_id),
    }
}

} // verus!
