//! The resource kinds and content types that the addon serves, with the
//! parsers that map a lower-case path segment to a variant.

use vstd::prelude::*;
use crate::strutil::str_eq;

verus! {

/// A resource kind of the addon protocol: a queryable catalog of
/// metadata items, or the playable streams of one item.
#[derive(Clone, Copy, Debug, PartialEq, Eq, Structural)]
pub enum Resource {
    Stream,
    Catalog,
}

/// A content type that the addon serves.
#[derive(Clone, Copy, Debug, PartialEq, Eq, Structural)]
pub enum ResourceType {
    Series,
    Movie,
}

/// The resource kind named by a path segment, if any.
pub open spec fn spec_resource_of(s: Seq<char>) -> Option<Resource> {
    if s == "stream"@ {
        Some(Resource::Stream)
    } else if s == "catalog"@ {
        Some(Resource::Catalog)
    } else {
        None
    }
}

/// The content type named by a path segment, if any.
pub open spec fn spec_resource_type_of(s: Seq<char>) -> Option<ResourceType> {
    if s == "series"@ {
        Some(ResourceType::Series)
    } else if s == "movie"@ {
        Some(ResourceType::Movie)
    } else {
        None
    }
}

impl Resource {
    /// Parse the `{resource}` element of a request path.
    pub fn from_path_segment(s: &str) -> (r: Option<Resource>)
        ensures
            r == spec_resource_of(s@),
    {
        if str_eq(s, "stream") {
            Some(Resource::Stream)
        } else if str_eq(s, "catalog") {
            Some(Resource::Catalog)
        } else {
            None
        }
    }
}

impl ResourceType {
    /// Parse the `{type}` element of a request path.
    pub fn from_path_segment(s: &str) -> (r: Option<ResourceType>)
        ensures
            r == spec_resource_type_of(s@),
    {
        if str_eq(s, "series") {
            Some(ResourceType::Series)
        } else if str_eq(s, "movie") {
            Some(ResourceType::Movie)
        } else {
            None
        }
    }
}

} // verus!
