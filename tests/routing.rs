use chatmix::router::{
    default_sink, default_sink_from_trimmed, find_device_sink, link_accepted, links_in_place,
    relink_plan, select_device_sink, sink_links, sink_properties, stream_ids, volume_argument,
    LinkReply, PortLink, CHAT_SINK, GAME_DESCRIPTION, GAME_SINK,
};
use chatmix::text::{contains, lines_of, parse_decimal, same_text, split_at_char};
use std::collections::HashSet;

fn pair(l: &PortLink) -> (String, String) {
    (l.source.clone(), l.target.clone())
}

#[test]
fn sink_links_cover_both_channels() {
    let v: Vec<_> = sink_links("Arctis_Chat", "alsa_output.usb").iter().map(pair).collect();
    assert_eq!(
        v,
        vec![
            ("Arctis_Chat:monitor_FL".to_string(), "alsa_output.usb:playback_FL".to_string()),
            ("Arctis_Chat:monitor_FR".to_string(), "alsa_output.usb:playback_FR".to_string()),
        ]
    );
}

#[test]
fn relink_plan_links_game_then_chat() {
    let v: Vec<_> = relink_plan("dev").iter().map(pair).collect();
    assert_eq!(v.len(), 4);
    assert_eq!(v[0], (format!("{}:monitor_FL", GAME_SINK), "dev:playback_FL".to_string()));
    assert_eq!(v[1], (format!("{}:monitor_FR", GAME_SINK), "dev:playback_FR".to_string()));
    assert_eq!(v[2], (format!("{}:monitor_FL", CHAT_SINK), "dev:playback_FL".to_string()));
    assert_eq!(v[3], (format!("{}:monitor_FR", CHAT_SINK), "dev:playback_FR".to_string()));
}

#[test]
fn existing_link_counts_as_success() {
    assert!(link_accepted(&LinkReply::Linked));
    assert!(link_accepted(&LinkReply::Refused("failed to link ports: File exists".to_string())));
    assert!(!link_accepted(&LinkReply::Refused("failed to link ports: No such file or directory".to_string())));
    assert!(!link_accepted(&LinkReply::Refused(String::new())));
}

/// An in-memory audio server that answers like the real one: a second
/// request for an existing link is refused with "File exists".
struct FakeServer {
    links: HashSet<(String, String)>,
}

impl FakeServer {
    fn link(&mut self, l: &PortLink) -> LinkReply {
        if self.links.insert(pair(l)) {
            LinkReply::Linked
        } else {
            LinkReply::Refused("failed to link ports: File exists".to_string())
        }
    }

    fn relink(&mut self, device: &str) -> bool {
        let replies: Vec<LinkReply> = relink_plan(device).iter().map(|l| self.link(l)).collect();
        links_in_place(&replies)
    }
}

#[test]
fn relinking_twice_is_idempotent() {
    let mut server = FakeServer { links: HashSet::new() };
    assert!(server.relink("alsa_output.usb-SteelSeries"));
    assert_eq!(server.links.len(), 4);
    assert!(server.relink("alsa_output.usb-SteelSeries"));
    assert_eq!(server.links.len(), 4);
}

#[test]
fn a_real_link_failure_fails_the_relink() {
    let replies = vec![LinkReply::Linked, LinkReply::Refused("no such port".to_string())];
    assert!(!links_in_place(&replies));
    assert!(links_in_place(&Vec::new()));
}

const SINKS: &str = "47\talsa_output.pci-0000_00_1f.3.analog-stereo\tPipeWire\ts32le 2ch 48000Hz\tSUSPENDED\n\
52\tarctis_7_sink_generic\tPipeWire\ts16le 2ch 48000Hz\tIDLE\n\
58\talsa_output.usb-SteelSeries_Arctis_Nova_7-00.analog-stereo\tPipeWire\ts16le 2ch 48000Hz\tRUNNING\n";

#[test]
fn prefers_usb_sink_of_the_headset() {
    let s = find_device_sink(SINKS);
    assert_eq!(s.as_deref(), Some("alsa_output.usb-SteelSeries_Arctis_Nova_7-00.analog-stereo"));
}

#[test]
fn falls_back_to_first_headset_match() {
    let listing = "1\tspeakers\tx\n52\tArctis_7_generic\tPipeWire\n53\tarctis-7-other\tPipeWire\r\n";
    assert_eq!(find_device_sink(listing).as_deref(), Some("Arctis_7_generic"));
    assert_eq!(find_device_sink("1\tspeakers\n2\thdmi\n"), None);
    assert_eq!(find_device_sink(""), None);
    assert_eq!(find_device_sink("arctis 7 usb without tabs\n"), None);
}

#[test]
fn selection_uses_the_given_lowercase_forms() {
    let lines = vec!["1\tA".to_string(), "2\tB".to_string()];
    let lowers = vec!["plain".to_string(), "arctis 7".to_string()];
    assert_eq!(select_device_sink(&lines, &lowers).as_deref(), Some("B"));
}

#[test]
fn stream_ids_from_listing() {
    let listing = "12\t47\t44\tPipeWire\tfloat32le 2ch 48000Hz\n\nabc\tx\n+7\ty\n99999999999\tz\n3";
    assert_eq!(stream_ids(listing), vec![12, 7, 3]);
    assert_eq!(stream_ids(""), Vec::<u32>::new());
}

#[test]
fn default_sink_is_trimmed_and_required() {
    assert_eq!(default_sink("alsa_output.pci.analog-stereo\n").as_deref(), Some("alsa_output.pci.analog-stereo"));
    assert_eq!(default_sink("  \n"), None);
    assert_eq!(default_sink_from_trimmed("x").as_deref(), Some("x"));
    assert_eq!(default_sink_from_trimmed(""), None);
}

#[test]
fn virtual_sink_properties() {
    assert_eq!(
        sink_properties(GAME_SINK, GAME_DESCRIPTION),
        "{factory.name=support.null-audio-sink node.name=Arctis_Game node.description=\"Arctis 7+ Game\" media.class=Audio/Sink monitor.channel-volumes=true object.linger=true audio.position=[FL FR]}"
    );
}

#[test]
fn volume_argument_is_a_plain_percentage() {
    assert_eq!(volume_argument(0), "0%");
    assert_eq!(volume_argument(7), "7%");
    assert_eq!(volume_argument(42), "42%");
    assert_eq!(volume_argument(100), "100%");
    assert_eq!(volume_argument(255), "255%");
}

#[test]
fn text_helpers() {
    assert!(contains("abcabd", "abd"));
    assert!(contains("abc", ""));
    assert!(!contains("ab", "abc"));
    assert!(same_text("on", "on"));
    assert!(!same_text("on", "one"));
    assert_eq!(split_at_char("a\t\tb", '\t'), vec!["a", "", "b"]);
    assert_eq!(split_at_char("", '\t'), vec![""]);
    assert_eq!(lines_of("a\r\nb\n\nc\n"), vec!["a", "b", "", "c"]);
    assert_eq!(lines_of("\n"), vec![""]);
    assert_eq!(parse_decimal("4294967295", u32::MAX), Some(u32::MAX));
    assert_eq!(parse_decimal("4294967296", u32::MAX), None);
}
