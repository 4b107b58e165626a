//! The stream resolver: playable sources keyed by content type and
//! endpoint id. An empty result is a valid answer, not an error.

use vstd::prelude::*;
use crate::resources::ResourceType;
use crate::strutil::str_eq;

verus! {

/// The error hex reports for an undecodable string.
#[verifier::external_type_specification]
#[verifier::external_body]
pub struct ExFromHexError(hex::FromHexError);

/// Whether `c` is a hexadecimal digit.
pub open spec fn is_hex_digit(c: char) -> bool {
    (48 <= c as u32 && c as u32 <= 57) || (65 <= c as u32 && c as u32 <= 70) || (97 <= c as u32
        && c as u32 <= 102)
}

/// The numeric value of a hexadecimal digit.
pub open spec fn hex_digit_value(c: char) -> u8 {
    if 48 <= c as u32 && c as u32 <= 57 {
        (c as u32 - 48) as u8
    } else if 65 <= c as u32 && c as u32 <= 70 {
        (c as u32 - 55) as u8
    } else {
        (c as u32 - 87) as u8
    }
}

/// The byte a pair of hexadecimal digits denotes.
pub open spec fn hex_pair_value(hi: char, lo: char) -> u8 {
    (hex_digit_value(hi) * 16 + hex_digit_value(lo)) as u8
}

/// Whether a string decodes as bytes: an even number of characters,
/// all of them hexadecimal digits.
pub open spec fn hex_decodable(s: Seq<char>) -> bool {
    s.len() % 2 == 0 && (forall|i: int| 0 <= i < s.len() ==> is_hex_digit(#[trigger] s[i]))
}

/// The bytes a decodable string denotes, pair by pair.
pub open spec fn hex_bytes(s: Seq<char>) -> Seq<u8> {
    Seq::new(s.len() / 2, |i: int| hex_pair_value(s[2 * i], s[2 * i + 1]))
}

/// Relies on hex::decode: a string of hexadecimal digit pairs decodes
/// to the bytes those pairs denote, and any other input is refused.
/// A character outside the digit ranges, or one beyond ASCII, makes
/// some byte of the input invalid, so the character-level condition
/// matches the byte-level check hex performs.
#[verifier::external_body]
fn hex_decode(s: &str) -> (r: Result<Vec<u8>, hex::FromHexError>)
    ensures
        (r is Ok) <==> hex_decodable(s@),
        r matches Ok(b) ==> b@ == hex_bytes(s@),
{
    hex::decode(s)
}

/// A playable source: a direct URL, or a peer-to-peer descriptor.
pub enum StreamSource {
    Url { url: String },
    Torrent { info_hash: Vec<u8>, file_idx: Option<u32>, announce: Vec<String> },
}

/// The mathematical model of a source.
pub enum StreamSourceView {
    Url { url: Seq<char> },
    Torrent { info_hash: Seq<u8>, file_idx: Option<u32>, announce: Seq<Seq<char>> },
}

/// The models of a list of strings.
pub open spec fn strings_view(vs: Seq<String>) -> Seq<Seq<char>> {
    vs.map_values(|v: String| v@)
}

/// The model of an optional string.
pub open spec fn opt_string_view(o: Option<String>) -> Option<Seq<char>> {
    match o {
        None => None,
        Some(s) => Some(s@),
    }
}

/// The model of an optional string list.
pub open spec fn opt_strings_view(o: Option<Vec<String>>) -> Option<Seq<Seq<char>>> {
    match o {
        None => None,
        Some(vs) => Some(strings_view(vs@)),
    }
}

/// The models of a list of header pairs.
pub open spec fn pairs_view(vs: Seq<(String, String)>) -> Seq<(Seq<char>, Seq<char>)> {
    vs.map_values(|p: (String, String)| (p.0@, p.1@))
}

impl View for StreamSource {
    type V = StreamSourceView;

    open spec fn view(&self) -> StreamSourceView {
        match self {
            StreamSource::Url { url } => StreamSourceView::Url { url: url@ },
            StreamSource::Torrent { info_hash, file_idx, announce } => StreamSourceView::Torrent {
                info_hash: info_hash@,
                file_idx: *file_idx,
                announce: strings_view(announce@),
            },
        }
    }
}

/// Headers a client should attach to requests for a stream, and those
/// expected in responses.
pub struct StreamProxyHeaders {
    pub request: Vec<(String, String)>,
    pub response: Vec<(String, String)>,
}

/// The mathematical model of proxy headers.
pub struct StreamProxyHeadersView {
    pub request: Seq<(Seq<char>, Seq<char>)>,
    pub response: Seq<(Seq<char>, Seq<char>)>,
}

impl View for StreamProxyHeaders {
    type V = StreamProxyHeadersView;

    open spec fn view(&self) -> StreamProxyHeadersView {
        StreamProxyHeadersView { request: pairs_view(self.request@), response: pairs_view(self.response@) }
    }
}

/// The model of optional proxy headers.
pub open spec fn opt_headers_view(o: Option<StreamProxyHeaders>) -> Option<
    StreamProxyHeadersView,
> {
    match o {
        None => None,
        Some(h) => Some(h@),
    }
}

/// Protocol-defined behavior hints attached to a stream.
pub struct StreamBehaviorHints {
    pub not_web_ready: bool,
    pub binge_group: Option<String>,
    pub country_whitelist: Option<Vec<String>>,
    pub proxy_headers: Option<StreamProxyHeaders>,
}

/// The mathematical model of behavior hints.
pub struct StreamBehaviorHintsView {
    pub not_web_ready: bool,
    pub binge_group: Option<Seq<char>>,
    pub country_whitelist: Option<Seq<Seq<char>>>,
    pub proxy_headers: Option<StreamProxyHeadersView>,
}

impl View for StreamBehaviorHints {
    type V = StreamBehaviorHintsView;

    open spec fn view(&self) -> StreamBehaviorHintsView {
        StreamBehaviorHintsView {
            not_web_ready: self.not_web_ready,
            binge_group: opt_string_view(self.binge_group),
            country_whitelist: opt_strings_view(self.country_whitelist),
            proxy_headers: opt_headers_view(self.proxy_headers),
        }
    }
}

/// A playable source with its display fields and behavior hints.
pub struct StreamDescriptor {
    pub source: StreamSource,
    pub name: Option<String>,
    pub description: Option<String>,
    pub behavior_hints: StreamBehaviorHints,
}

/// The mathematical model of a stream descriptor.
pub struct StreamDescriptorView {
    pub source: StreamSourceView,
    pub name: Option<Seq<char>>,
    pub description: Option<Seq<char>>,
    pub behavior_hints: StreamBehaviorHintsView,
}

impl View for StreamDescriptor {
    type V = StreamDescriptorView;

    open spec fn view(&self) -> StreamDescriptorView {
        StreamDescriptorView {
            source: self.source@,
            name: opt_string_view(self.name),
            description: opt_string_view(self.description),
            behavior_hints: self.behavior_hints@,
        }
    }
}

/// One resolver entry: the stream served for one content type and
/// endpoint id.
pub struct StreamEntry {
    pub content_type: ResourceType,
    pub endpoint_id: String,
    pub stream: StreamDescriptor,
}

/// The mathematical model of a resolver entry.
pub struct StreamEntryView {
    pub content_type: ResourceType,
    pub endpoint_id: Seq<char>,
    pub stream: StreamDescriptorView,
}

impl View for StreamEntry {
    type V = StreamEntryView;

    open spec fn view(&self) -> StreamEntryView {
        StreamEntryView {
            content_type: self.content_type,
            endpoint_id: self.endpoint_id@,
            stream: self.stream@,
        }
    }
}

/// The models of a list of stream descriptors.
pub open spec fn streams_view(vs: Seq<StreamDescriptor>) -> Seq<StreamDescriptorView> {
    vs.map_values(|s: StreamDescriptor| s@)
}

/// The models of a list of resolver entries.
pub open spec fn entries_view(vs: Seq<StreamEntry>) -> Seq<StreamEntryView> {
    vs.map_values(|e: StreamEntry| e@)
}

/// The streams of every entry keyed by the given pair, in entry order.
pub open spec fn matching_streams(
    entries: Seq<StreamEntryView>,
    content_type: ResourceType,
    endpoint_id: Seq<char>,
) -> Seq<StreamDescriptorView>
    decreases entries.len(),
{
    if entries.len() == 0 {
        Seq::empty()
    } else {
        matching_streams(entries.drop_last(), content_type, endpoint_id) + (
        if entries.last().content_type == content_type && entries.last().endpoint_id
            == endpoint_id {
            seq![entries.last().stream]
        } else {
            Seq::<StreamDescriptorView>::empty()
        })
    }
}

/// The stream resolver: entries consulted in order, all matches
/// returned.
pub struct StreamResolver {
    pub entries: Vec<StreamEntry>,
}

impl View for StreamResolver {
    type V = Seq<StreamEntryView>;

    open spec fn view(&self) -> Seq<StreamEntryView> {
        entries_view(self.entries@)
    }
}

/// An owned copy of a byte vector.
fn dup_bytes(v: &Vec<u8>) -> (r: Vec<u8>)
    ensures
        r@ == v@,
{
    let mut out: Vec<u8> = Vec::new();
    let mut i: usize = 0;
    while i < v.len()
        invariant
            i <= v@.len(),
            out@ =~= v@.subrange(0, i as int),
        decreases v@.len() - i,
    {
        out.push(v[i]);
        assert(out@ =~= v@.subrange(0, i + 1));
        i += 1;
    }
    assert(v@.subrange(0, v@.len() as int) =~= v@);
    out
}

/// An owned copy of a string vector, model for model.
fn dup_strings(v: &Vec<String>) -> (r: Vec<String>)
    ensures
        strings_view(r@) == strings_view(v@),
{
    let mut out: Vec<String> = Vec::new();
    let mut i: usize = 0;
    while i < v.len()
        invariant
            i <= v@.len(),
            out@.len() == i,
            forall|j: int| 0 <= j < i ==> (#[trigger] out@[j])@ == v@[j]@,
        decreases v@.len() - i,
    {
        out.push(v[i].clone());
        i += 1;
    }
    assert(strings_view(out@) =~= strings_view(v@));
    out
}

/// An owned copy of a header-pair vector, model for model.
fn dup_pairs(v: &Vec<(String, String)>) -> (r: Vec<(String, String)>)
    ensures
        pairs_view(r@) == pairs_view(v@),
{
    let mut out: Vec<(String, String)> = Vec::new();
    let mut i: usize = 0;
    while i < v.len()
        invariant
            i <= v@.len(),
            out@.len() == i,
            forall|j: int| 0 <= j < i ==> (#[trigger] out@[j]).0@ == v@[j].0@ && out@[j].1@
                == v@[j].1@,
        decreases v@.len() - i,
    {
        let pair = (v[i].0.clone(), v[i].1.clone());
        out.push(pair);
        i += 1;
    }
    assert(pairs_view(out@) =~= pairs_view(v@));
    out
}

/// An owned copy of an optional string, model for model.
fn dup_opt_string(o: &Option<String>) -> (r: Option<String>)
    ensures
        opt_string_view(r) == opt_string_view(*o),
{
    match o {
        None => None,
        Some(s) => Some(s.clone()),
    }
}

impl StreamSource {
    /// An owned copy whose model is this source's model.
    pub fn duplicate(&self) -> (r: StreamSource)
        ensures
            r@ == self@,
    {
        match self {
            StreamSource::Url { url } => StreamSource::Url { url: url.clone() },
            StreamSource::Torrent { info_hash, file_idx, announce } => StreamSource::Torrent {
                info_hash: dup_bytes(info_hash),
                file_idx: *file_idx,
                announce: dup_strings(announce),
            },
        }
    }
}

impl StreamBehaviorHints {
    /// An owned copy whose model is these hints' model.
    pub fn duplicate(&self) -> (r: StreamBehaviorHints)
        ensures
            r@ == self@,
    {
        let country_whitelist = match &self.country_whitelist {
            None => None,
            Some(vs) => Some(dup_strings(vs)),
        };
        let proxy_headers = match &self.proxy_headers {
            None => None,
            Some(h) => Some(
                StreamProxyHeaders { request: dup_pairs(&h.request), response: dup_pairs(&h.response) },
            ),
        };
        StreamBehaviorHints {
            not_web_ready: self.not_web_ready,
            binge_group: dup_opt_string(&self.binge_group),
            country_whitelist,
            proxy_headers,
        }
    }
}

impl StreamDescriptor {
    /// An owned copy whose model is this descriptor's model.
    pub fn duplicate(&self) -> (r: StreamDescriptor)
        ensures
            r@ == self@,
    {
        StreamDescriptor {
            source: self.source.duplicate(),
            name: dup_opt_string(&self.name),
            description: dup_opt_string(&self.description),
            behavior_hints: self.behavior_hints.duplicate(),
        }
    }
}

proof fn lemma_streams_view_push(vs: Seq<StreamDescriptor>, s: StreamDescriptor)
    ensures
        streams_view(vs.push(s)) =~= streams_view(vs).push(s@),
{
}

impl StreamResolver {
    /// Resolve a content type and endpoint id into the streams known
    /// for the pair; no match is an empty list, not an error.
    pub fn resolve(&self, content_type: ResourceType, endpoint_id: &str) -> (r: Vec<
        StreamDescriptor,
    >)
        ensures
            streams_view(r@) == matching_streams(self@, content_type, endpoint_id@),
    {
        let mut out: Vec<StreamDescriptor> = Vec::new();
        let mut i: usize = 0;
        while i < self.entries.len()
            invariant
                i <= self.entries@.len(),
                streams_view(out@) =~= matching_streams(
                    self@.subrange(0, i as int),
                    content_type,
                    endpoint_id@,
                ),
            decreases self.entries@.len() - i,
        {
            let entry = &self.entries[i];
            let ghost pre = out@;
            if entry.content_type == content_type && str_eq(entry.endpoint_id.as_str(), endpoint_id) {
                out.push(entry.stream.duplicate());
                proof {
                    lemma_streams_view_push(pre, out@[out@.len() - 1]);
                }
            }
            proof {
                assert(self@.subrange(0, i + 1).drop_last() =~= self@.subrange(0, i as int));
                assert(self@.subrange(0, i + 1).last() == self@[i as int]);
                assert(streams_view(out@) =~= matching_streams(
                    self@.subrange(0, i + 1),
                    content_type,
                    endpoint_id@,
                ));
            }
            i += 1;
        }
        proof {
            assert(self@.subrange(0, self@.len() as int) =~= self@);
        }
        out
    }
}

/// Decode a peer-to-peer content hash given in hexadecimal, refusing a
/// string that is not a sequence of hexadecimal digit pairs.
pub fn decode_info_hash(hash_hex: &str) -> (r: Option<Vec<u8>>)
    ensures
        (r is Some) <==> hex_decodable(hash_hex@),
        r matches Some(b) ==> b@ == hex_bytes(hash_hex@),
{
    match hex_decode(hash_hex) {
        Ok(bytes) => Some(bytes),
        Err(_) => None,
    }
}

impl StreamResolver {
    /// The fixture entries this deployment serves: one direct-URL
    /// movie stream and, for a decodable fixture hash, one torrent
    /// series stream.
    pub fn fixture() -> (r: StreamResolver)
        ensures
            r@.len() >= 1,
            r@[0].content_type == ResourceType::Movie,
            r@[0].endpoint_id == "tt1254207.json"@,
            r@[0].stream.source == (StreamSourceView::Url {
                url:
                    "https://download.blender.org/peach/bigbuckbunny_movies/big_buck_bunny_720p_h264.mov"@,
            }),
            r@[0].stream.behavior_hints.not_web_ready == false,
            hex_decodable("ba44b8864cfb3ee13a7a20f8d2687baa1b9d5351"@) <==> r@.len() == 2,
            r@.len() == 2 ==> r@[1].content_type == ResourceType::Series
                && r@[1].endpoint_id == "tt13622776:1:5.json"@ && r@[1].stream.source == (
            StreamSourceView::Torrent {
                info_hash: hex_bytes("ba44b8864cfb3ee13a7a20f8d2687baa1b9d5351"@),
                file_idx: Some(0u32),
                announce: Seq::empty(),
            }),
    {
        let movie = StreamEntry {
            content_type: ResourceType::Movie,
            endpoint_id: "tt1254207.json".to_owned(),
            stream: StreamDescriptor {
                source: StreamSource::Url {
                    url:
                        "https://download.blender.org/peach/bigbuckbunny_movies/big_buck_bunny_720p_h264.mov".to_owned(),
                },
                name: Some("720p".to_owned()),
                description: Some("720p source for tt1254207.json".to_owned()),
                behavior_hints: StreamBehaviorHints {
                    not_web_ready: false,
                    binge_group: Some("1".to_owned()),
                    country_whitelist: None,
                    proxy_headers: Some(
                        StreamProxyHeaders {
                            request: vec![("req-header-1".to_owned(), "value-1".to_owned())],
                            response: vec![("resp-header-1".to_owned(), "value-1".to_owned())],
                        },
                    ),
                },
            },
        };
        match decode_info_hash("ba44b8864cfb3ee13a7a20f8d2687baa1b9d5351") {
            Some(info_hash) => {
                let series = StreamEntry {
                    content_type: ResourceType::Series,
                    endpoint_id: "tt13622776:1:5.json".to_owned(),
                    stream: StreamDescriptor {
                        source: StreamSource::Torrent {
                            info_hash,
                            file_idx: Some(0),
                            announce: Vec::new(),
                        },
                        name: Some("Torrentio (fake) 480p".to_owned()),
                        description: Some("Ahsoka.S01E05.480p.x264-RUBiK".to_owned()),
                        behavior_hints: StreamBehaviorHints {
                            not_web_ready: false,
                            binge_group: Some("torrentio|480p|RUBiK".to_owned()),
                            country_whitelist: None,
                            proxy_headers: None,
                        },
                    },
                };
                let r = StreamResolver { entries: vec![movie, series] };
                assert(r@.len() == 2);
                assert(r@[1].stream.source->Torrent_announce =~= Seq::<Seq<char>>::empty());
                r
            },
            None => {
                let r = StreamResolver { entries: vec![movie] };
                assert(r@.len() == 1);
                r
            },
        }
    }
}

} // verus!
