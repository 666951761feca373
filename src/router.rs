//! The virtual routing topology: which ports to link, how to read the
//! audio server's answers, and how to find the headset's own sink.

use vstd::prelude::*;
use crate::text::{
    decimal_text, decimal_u8, contains, contains_text, lines_of, lowered, parse_decimal, parse_unsigned, split_at_char,
    split_text, split_text_nonempty, text_lines, to_lowercase, trim, trimmed, views,
};

verus! {

/// The virtual sink that game audio goes to; the default output while the
/// agent runs.
pub const GAME_SINK: &'static str = "Arctis_Game";

/// The virtual sink that chat audio goes to.
pub const CHAT_SINK: &'static str = "Arctis_Chat";

/// One link from a port of a virtual sink to a port of the physical sink.
#[derive(Debug)]
pub struct PortLink {
    pub source: String,
    pub target: String,
}

/// The link for one channel: the sink's monitor port of that channel to
/// the device's playback port of the same channel.
pub open spec fn channel_link(sink: Seq<char>, device: Seq<char>, channel: Seq<char>) -> (Seq<char>, Seq<char>) {
    (sink + ":monitor_"@ + channel, device + ":playback_"@ + channel)
}

/// The two links of a sink: left channel, then right.
pub open spec fn sink_links_of(sink: Seq<char>, device: Seq<char>) -> Seq<(Seq<char>, Seq<char>)> {
    seq![channel_link(sink, device, "FL"@), channel_link(sink, device, "FR"@)]
}

/// The four links that attach both virtual sinks to a physical sink.
pub open spec fn relink_plan_of(device: Seq<char>) -> Seq<(Seq<char>, Seq<char>)> {
    sink_links_of(GAME_SINK@, device) + sink_links_of(CHAT_SINK@, device)
}

/// The source and target names of some port links.
pub open spec fn link_views(v: Seq<PortLink>) -> Seq<(Seq<char>, Seq<char>)> {
    v.map_values(|l: PortLink| (l.source@, l.target@))
}

fn channel_port_link(sink: &str, device: &str, channel: &str) -> (r: PortLink)
    ensures
        (r.source@, r.target@) == channel_link(sink@, device@, channel@),
{
    let source = sink.to_owned().concat(":monitor_").concat(channel);
    let target = device.to_owned().concat(":playback_").concat(channel);
    PortLink { source, target }
}

/// The links that attach `sink`'s two channels to the physical sink
/// `device`.
pub fn sink_links(sink: &str, device: &str) -> (r: Vec<PortLink>)
    ensures
        link_views(r@) == sink_links_of(sink@, device@),
{
    let mut v: Vec<PortLink> = Vec::new();
    v.push(channel_port_link(sink, device, "FL"));
    v.push(channel_port_link(sink, device, "FR"));
    assert(link_views(v@) =~= sink_links_of(sink@, device@));
    v
}

/// The four links that attach the game and chat sinks to the physical
/// sink `device`.
pub fn relink_plan(device: &str) -> (r: Vec<PortLink>)
    ensures
        link_views(r@) == relink_plan_of(device@),
{
    let mut v = sink_links(GAME_SINK, device);
    let mut w = sink_links(CHAT_SINK, device);
    let ghost a = v@;
    let ghost b = w@;
    v.append(&mut w);
    assert(v@ =~= a + b);
    assert(link_views(v@) =~= link_views(a) + link_views(b));
    v
}

/// The audio server's answer to one link request.
#[derive(Debug)]
pub enum LinkReply {
    /// The link was made.
    Linked,
    /// The request failed, with this message.
    Refused(String),
}

/// A reply that leaves the link in place: it was made, or it already
/// existed.
pub open spec fn link_in_place(reply: LinkReply) -> bool {
    match reply {
        LinkReply::Linked => true,
        LinkReply::Refused(message) => contains_text(message@, "exists"@),
    }
}

/// Whether a reply leaves the link in place; a refusal that says the link
/// exists counts as success.
pub fn link_accepted(reply: &LinkReply) -> (r: bool)
    ensures
        r == link_in_place(*reply),
{
    match reply {
        LinkReply::Linked => true,
        LinkReply::Refused(message) => contains(message.as_str(), "exists"),
    }
}

/// Every link of a plan is in place.
pub open spec fn all_in_place(replies: Seq<LinkReply>) -> bool {
    forall|i: int| 0 <= i < replies.len() ==> link_in_place(#[trigger] replies[i])
}

/// Whether a relink succeeded, from the replies to its link requests.
pub fn links_in_place(replies: &Vec<LinkReply>) -> (r: bool)
    ensures
        r == all_in_place(replies@),
{
    let mut i: usize = 0;
    while i < replies.len()
        invariant
            i <= replies@.len(),
            forall|j: int| 0 <= j < i ==> link_in_place(#[trigger] replies@[j]),
        decreases replies.len() - i,
    {
        if !link_accepted(&replies[i]) {
            return false;
        }
        i = i + 1;
    }
    true
}

/// Relinking is idempotent: a second relink to the same physical sink asks
/// for the same four links, and succeeds when the server answers each
/// request by linking it or by reporting that the link already exists.
pub proof fn relink_again_succeeds(device: Seq<char>, replies: Seq<LinkReply>)
    requires
        replies.len() == relink_plan_of(device).len(),
        forall|i: int|
            0 <= i < replies.len() ==> (#[trigger] replies[i] matches LinkReply::Refused(m)
                ==> contains_text(m@, "exists"@)),
    ensures
        replies.len() == 4,
        all_in_place(replies),
{
    assert forall|i: int| 0 <= i < replies.len() implies link_in_place(#[trigger] replies[i]) by {
        match replies[i] {
            LinkReply::Linked => {},
            LinkReply::Refused(m) => {},
        }
    }
}

/// The text of an optional string.
pub open spec fn opt_view(o: Option<String>) -> Option<Seq<char>> {
    match o {
        Some(s) => Some(s@),
        None => None,
    }
}

/// A line of the sink listing that names the headset: its lowercase form
/// holds both the model word and the model number.
pub open spec fn names_headset(lower: Seq<char>) -> bool {
    contains_text(lower, "arctis"@) && contains_text(lower, "7"@)
}

/// A headset line that also marks a USB or playback sink, preferred over
/// other matches.
pub open spec fn is_preferred(lower: Seq<char>) -> bool {
    contains_text(lower, "usb"@) || contains_text(lower, "playback"@) || contains_text(lower, "dot"@)
        || contains_text(lower, "wireless"@)
}

/// The sink name in a listing line: its second tab-separated field.
pub open spec fn sink_name_field(line: Seq<char>) -> Option<Seq<char>> {
    let f = split_text(line, '\t');
    if f.len() >= 2 {
        Some(f[1])
    } else {
        None
    }
}

/// The sink name a line offers, with its lowercase form `lower`, when
/// `preferred_only` admits it.
pub open spec fn offered_sink(line: Seq<char>, lower: Seq<char>, preferred_only: bool) -> Option<Seq<char>> {
    if names_headset(lower) && (is_preferred(lower) || !preferred_only) {
        sink_name_field(line)
    } else {
        None
    }
}

/// The first sink that the lines offer.
pub open spec fn first_offered(lines: Seq<Seq<char>>, lowers: Seq<Seq<char>>, preferred_only: bool) -> Option<Seq<char>>
    decreases lines.len(),
{
    if lines.len() == 0 || lowers.len() == 0 {
        None
    } else {
        match offered_sink(lines[0], lowers[0], preferred_only) {
            Some(n) => Some(n),
            None => first_offered(lines.drop_first(), lowers.drop_first(), preferred_only),
        }
    }
}

/// The headset's sink in a listing: the first preferred match, else the
/// first match, else none.
pub open spec fn device_sink_of(lines: Seq<Seq<char>>, lowers: Seq<Seq<char>>) -> Option<Seq<char>> {
    match first_offered(lines, lowers, true) {
        Some(n) => Some(n),
        None => first_offered(lines, lowers, false),
    }
}

/// Picks the headset's sink among listing lines, given each line's
/// lowercase form.
pub fn select_device_sink(lines: &Vec<String>, lowers: &Vec<String>) -> (r: Option<String>)
    requires
        lines@.len() == lowers@.len(),
    ensures
        opt_view(r) == device_sink_of(views(lines@), views(lowers@)),
{
    let ghost ls = views(lines@);
    let ghost ws = views(lowers@);
    let mut fallback: Option<String> = None;
    let mut i: usize = 0;
    assert(ls.subrange(0, ls.len() as int) =~= ls);
    assert(ws.subrange(0, ws.len() as int) =~= ws);
    while i < lines.len()
        invariant
            lines@.len() == lowers@.len(),
            ls == views(lines@),
            ws == views(lowers@),
            i <= lines@.len(),
            first_offered(ls, ws, true) == first_offered(
                ls.subrange(i as int, ls.len() as int),
                ws.subrange(i as int, ws.len() as int),
                true,
            ),
            first_offered(ls, ws, false) == match fallback {
                Some(f) => Some(f@),
                None => first_offered(
                    ls.subrange(i as int, ls.len() as int),
                    ws.subrange(i as int, ws.len() as int),
                    false,
                ),
            },
        decreases lines.len() - i,
    {
        let ghost rl = ls.subrange(i as int, ls.len() as int);
        let ghost rw = ws.subrange(i as int, ws.len() as int);
        assert(rl.drop_first() =~= ls.subrange(i + 1, ls.len() as int));
        assert(rw.drop_first() =~= ws.subrange(i + 1, ws.len() as int));
        assert(rl[0] == lines@[i as int]@);
        assert(rw[0] == lowers@[i as int]@);
        let lower = lowers[i].as_str();
        if contains(lower, "arctis") && contains(lower, "7") {
            let fields = split_at_char(lines[i].as_str(), '\t');
            if fields.len() >= 2 {
                let preferred = contains(lower, "usb") || contains(lower, "playback") || contains(
                    lower,
                    "dot",
                ) || contains(lower, "wireless");
                if preferred {
                    return Some(fields[1].clone());
                }
                if fallback.is_none() {
                    fallback = Some(fields[1].clone());
                }
            }
        }
        i = i + 1;
    }
    match fallback {
        Some(f) => Some(f),
        None => None,
    }
}

/// The lowercase forms of some lines.
fn lowercase_all(lines: &Vec<String>) -> (r: Vec<String>)
    ensures
        views(r@) == views(lines@).map_values(|l: Seq<char>| lowered(l)),
{
    let mut out: Vec<String> = Vec::new();
    let mut i: usize = 0;
    while i < lines.len()
        invariant
            i <= lines@.len(),
            views(out@) =~= views(lines@).subrange(0, i as int).map_values(|l: Seq<char>| lowered(l)),
        decreases lines.len() - i,
    {
        let low = to_lowercase(lines[i].as_str());
        let ghost before = out@;
        out.push(low);
        assert(views(out@) =~= views(before).push(low@));
        i = i + 1;
    }
    out
}

/// Finds the headset's sink in the server's short sink listing, one sink
/// per line with its name in the second tab-separated field.
pub fn find_device_sink(listing: &str) -> (r: Option<String>)
    ensures
        opt_view(r) == device_sink_of(
            text_lines(listing@),
            text_lines(listing@).map_values(|l: Seq<char>| lowered(l)),
        ),
{
    let lines = lines_of(listing);
    let lowers = lowercase_all(&lines);
    select_device_sink(&lines, &lowers)
}

/// The stream index a line of the stream listing gives: its first
/// tab-separated field, read as an unsigned 32-bit number.
pub open spec fn stream_id_of(line: Seq<char>) -> Option<u32> {
    match parse_unsigned(split_text(line, '\t')[0], u32::MAX as nat) {
        Some(v) => Some(v as u32),
        None => None,
    }
}

/// The stream indices of a listing, in order; lines without one are
/// passed over.
pub open spec fn stream_ids_of(lines: Seq<Seq<char>>) -> Seq<u32>
    decreases lines.len(),
{
    if lines.len() == 0 {
        Seq::empty()
    } else {
        let rest = stream_ids_of(lines.drop_last());
        match stream_id_of(lines.last()) {
            Some(v) => rest.push(v),
            None => rest,
        }
    }
}

/// Reads the indices of the playing streams from the server's short
/// stream listing.
pub fn stream_ids(listing: &str) -> (r: Vec<u32>)
    ensures
        r@ == stream_ids_of(text_lines(listing@)),
{
    let lines = lines_of(listing);
    let ghost ls = views(lines@);
    let mut out: Vec<u32> = Vec::new();
    let mut i: usize = 0;
    assert(ls.subrange(0, 0) =~= Seq::<Seq<char>>::empty());
    while i < lines.len()
        invariant
            ls == views(lines@),
            i <= lines@.len(),
            out@ == stream_ids_of(ls.subrange(0, i as int)),
        decreases lines.len() - i,
    {
        let fields = split_at_char(lines[i].as_str(), '\t');
        proof {
            split_text_nonempty(lines@[i as int]@, '\t');
        }
        let id = parse_decimal(fields[0].as_str(), u32::MAX);
        assert(ls.subrange(0, i + 1).drop_last() =~= ls.subrange(0, i as int));
        assert(ls.subrange(0, i + 1).last() == lines@[i as int]@);
        match id {
            Some(v) => out.push(v),
            None => {},
        }
        i = i + 1;
    }
    assert(ls.subrange(0, ls.len() as int) =~= ls);
    out
}

/// The default output named by the server's answer, once trimmed: none
/// when nothing is left.
pub fn default_sink_from_trimmed(t: &str) -> (r: Option<String>)
    ensures
        opt_view(r) == (if t@.len() == 0 { None } else { Some(t@) }),
{
    if t.is_empty() {
        None
    } else {
        Some(t.to_owned())
    }
}

/// The default output named by the server's answer to a query for it.
pub fn default_sink(output: &str) -> (r: Option<String>)
    ensures
        opt_view(r) == (if trimmed(output@).len() == 0 {
            None
        } else {
            Some(trimmed(output@))
        }),
{
    default_sink_from_trimmed(trim(output))
}

/// Description of the game sink.
pub const GAME_DESCRIPTION: &'static str = "Arctis 7+ Game";

/// Description of the chat sink.
pub const CHAT_DESCRIPTION: &'static str = "Arctis 7+ Chat";

/// The properties of a virtual sink: a null sink with the given name and
/// description, stereo, monitor ports that carry its volume, and kept when
/// no client uses it.
pub open spec fn sink_properties_of(name: Seq<char>, description: Seq<char>) -> Seq<char> {
    "{factory.name=support.null-audio-sink node.name="@ + name + " node.description=\""@
        + description
        + "\" media.class=Audio/Sink monitor.channel-volumes=true object.linger=true audio.position=[FL FR]}"@
}

/// Builds the properties with which a virtual sink is created.
pub fn sink_properties(name: &str, description: &str) -> (r: String)
    ensures
        r@ == sink_properties_of(name@, description@),
{
    "{factory.name=support.null-audio-sink node.name=".to_owned().concat(name).concat(
        " node.description=\"",
    ).concat(description).concat(
        "\" media.class=Audio/Sink monitor.channel-volumes=true object.linger=true audio.position=[FL FR]}",
    )
}

/// The volume argument for a level in percent: its decimal form and a
/// percent sign; the level is passed on as given, without rescaling.
pub fn volume_argument(percent: u8) -> (r: String)
    ensures
        r@ == decimal_text(percent as nat) + "%"@,
{
    decimal_u8(percent).concat("%")
}

} // verus!
