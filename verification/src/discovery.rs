//! Passive network discovery logic: the probe messages broadcast to the
//! standard multicast address, the heuristic that accepts a reply as a
//! candidate device, header extraction from the HTTP-style reply text, and
//! deduplication of candidates by source address. Sending and receiving the
//! datagrams is the surrounding glue's business.

use vstd::prelude::*;

use crate::strutil::{
    contains_seq, find_char, lemma_find_char, lower_seq, split_once_str, split_seq, split_str,
    starts_with, str_contains, str_starts_with, str_views, to_lower, to_upper, trim_seq, trim_str,
    upper_seq,
};

verus! {

/// The standard multicast discovery address, as text.
pub const SSDP_MULTICAST_ADDR: &'static str = "239.255.255.250";

/// The standard multicast discovery port.
pub const SSDP_PORT: u16 = 1900;

/// One discovered candidate device.
#[derive(Debug, PartialEq)]
pub struct DiscoveredDevice {
    pub ip: String,
    pub location: String,
    pub friendly_name: Option<String>,
}

impl Clone for DiscoveredDevice {
    fn clone(&self) -> (r: Self)
        ensures
            r == *self,
    {
        let friendly_name = match &self.friendly_name {
            Some(n) => Some(n.clone()),
            None => None,
        };
        DiscoveredDevice { ip: self.ip.clone(), location: self.location.clone(), friendly_name }
    }
}

/// The search tokens probed, one datagram each: the vendor-specific device
/// token, the generic renderer token, and the catch-all, since receivers
/// reply inconsistently to generic and vendor-specific searches.
pub fn search_targets() -> (r: Vec<&'static str>)
    ensures
        r@.len() == 3,
        r@[0]@ == "urn:schemas-denon-com:device:ACT-Denon:1"@,
        r@[1]@ == "urn:schemas-upnp-org:device:MediaRenderer:1"@,
        r@[2]@ == "ssdp:all"@,
{
    let mut v: Vec<&'static str> = Vec::new();
    v.push("urn:schemas-denon-com:device:ACT-Denon:1");
    v.push("urn:schemas-upnp-org:device:MediaRenderer:1");
    v.push("ssdp:all");
    v
}

/// One probe datagram for a search token.
pub fn search_message(target: &str) -> (r: String)
    ensures
        r@ == "M-SEARCH * HTTP/1.1\r\nHOST: 239.255.255.250:1900\r\nMAN: \"ssdp:discover\"\r\nMX: 3\r\nST: "@
            + target@ + "\r\n\r\n"@,
{
    let mut s = String::from_str(
        "M-SEARCH * HTTP/1.1\r\nHOST: 239.255.255.250:1900\r\nMAN: \"ssdp:discover\"\r\nMX: 3\r\nST: ",
    );
    s.append(target);
    s.append("\r\n\r\n");
    s
}

/// Whether a reply's text marks a recognized device: it mentions a vendor
/// or protocol keyword case-insensitively, or the vendor device token
/// verbatim.
pub open spec fn is_device_reply(s: Seq<char>) -> bool {
    ||| contains_seq(lower_seq(s), "heos"@)
    ||| contains_seq(lower_seq(s), "denon"@)
    ||| contains_seq(lower_seq(s), "marantz"@)
    ||| contains_seq(s, "ACT-Denon"@)
}

/// Accept a reply as a candidate only if its text mentions a recognized
/// vendor or protocol keyword.
pub fn accept_reply(text: &str) -> (r: bool)
    ensures
        r == is_device_reply(text@),
{
    let low = to_lower(text);
    str_contains(low.as_str(), "heos") || str_contains(low.as_str(), "denon") || str_contains(
        low.as_str(),
        "marantz",
    ) || str_contains(text, "ACT-Denon")
}

// ---------------------------------------------------------------------------
// Header extraction
// ---------------------------------------------------------------------------

/// A line with one trailing carriage return removed.
pub open spec fn strip_cr(l: Seq<char>) -> Seq<char> {
    if l.len() > 0 && l.last() == '\r' {
        l.drop_last()
    } else {
        l
    }
}

/// The lines of an HTTP-style reply: split at each line feed, with one
/// trailing carriage return stripped from each line.
pub open spec fn lines_of(s: Seq<char>) -> Seq<Seq<char>> {
    split_seq(s, '\n').map_values(|l: Seq<char>| strip_cr(l))
}

/// The line names the header, compared case-insensitively.
pub open spec fn line_names_header(l: Seq<char>, key: Seq<char>) -> bool {
    starts_with(upper_seq(l), upper_seq(key) + seq![':'])
}

/// The value part of a header line: everything after the first colon, with
/// surrounding whitespace trimmed.
pub open spec fn header_line_value(l: Seq<char>) -> Seq<char> {
    if find_char(l, ':') == -1 {
        l
    } else {
        trim_seq(l.subrange(find_char(l, ':') + 1, l.len() as int))
    }
}

/// The value of the first line naming the header, if any does.
pub open spec fn header_value(lines: Seq<Seq<char>>, key: Seq<char>) -> Option<Seq<char>>
    decreases lines.len(),
{
    if lines.len() == 0 {
        None
    } else if line_names_header(lines[0], key) {
        Some(header_line_value(lines[0]))
    } else {
        header_value(lines.drop_first(), key)
    }
}

/// Extract a header's value from an HTTP-style reply, matching the header
/// name case-insensitively against each line.
pub fn parse_header(response: &str, header: &str) -> (r: Option<String>)
    ensures
        match r {
            Some(v) => header_value(lines_of(response@), header@) == Some(v@),
            None => header_value(lines_of(response@), header@) is None,
        },
{
    let parts = split_str(response, '\n');
    let n = parts.len();
    let ghost lvs = lines_of(response@);
    let mut prefix = to_upper(header);
    proof {
        reveal_strlit(":");
        assert(":"@ =~= seq![':']);
    }
    prefix.append(":");
    let mut i: usize = 0;
    proof {
        assert(lvs.skip(0) =~= lvs);
        assert(lvs.len() == str_views(parts@).len());
    }
    while i < n
        invariant
            n == parts@.len(),
            lvs == lines_of(response@),
            str_views(parts@) == split_seq(response@, '\n'),
            lvs.len() == n,
            prefix@ == upper_seq(header@) + seq![':'],
            0 <= i <= n,
            header_value(lvs, header@) == header_value(lvs.skip(i as int), header@),
        decreases n - i,
    {
        proof {
            assert(lvs[i as int] == strip_cr(parts@[i as int]@));
            assert(lvs.skip(i as int)[0] == lvs[i as int]);
            assert(lvs.skip(i as int).drop_first() =~= lvs.skip(i as int + 1));
        }
        let raw = parts[i].as_str();
        let raw_len = raw.unicode_len();
        let line = if raw_len > 0 && raw.get_char(raw_len - 1) == '\r' {
            raw.substring_char(0, raw_len - 1)
        } else {
            raw
        };
        proof {
            if raw_len > 0 && raw@.last() == '\r' {
                assert(line@ =~= strip_cr(raw@));
            }
        }
        let up = to_upper(line);
        if str_starts_with(up.as_str(), prefix.as_str()) {
            proof {
                lemma_find_char(line@, ':');
            }
            match split_once_str(line, ':') {
                Some(kv) => {
                    let value = String::from_str(trim_str(kv.1.as_str()));
                    return Some(value);
                },
                None => {
                    // A line naming the header always holds a colon: the
                    // uppercase image of the line begins with the key and a
                    // colon, and case mapping moves no colons.
                    proof {
                        let l = line@;
                        let p = upper_seq(header@) + seq![':'];
                        assert(upper_seq(l)[p.len() - 1] == p[p.len() - 1]) by {
                            assert(upper_seq(l).take(p.len() as int) == p);
                            assert(upper_seq(l).take(p.len() as int)[p.len() - 1] == upper_seq(
                                l,
                            )[p.len() - 1]);
                        }
                        assert(crate::strutil::up_char(l[p.len() - 1]) == ':');
                        assert(l[p.len() - 1] == ':');
                    }
                    return None;
                },
            }
        }
        i = i + 1;
    }
    proof {
        assert(lvs.skip(n as int) =~= Seq::<Seq<char>>::empty());
    }
    None
}

// ---------------------------------------------------------------------------
// Candidate collection
// ---------------------------------------------------------------------------

/// Some collected candidate already has this source address.
pub open spec fn has_ip(devs: Seq<DiscoveredDevice>, ip: Seq<char>) -> bool {
    exists|j: int| 0 <= j < devs.len() && (#[trigger] devs[j]).ip@ == ip
}

/// Add a candidate unless one with the same source address was already
/// collected: replies are deduplicated by source address.
pub fn add_candidate(devices: &mut Vec<DiscoveredDevice>, ip: String, location: String)
    ensures
        has_ip(old(devices)@, ip@) ==> final(devices)@ == old(devices)@,
        !has_ip(old(devices)@, ip@) ==> {
            &&& final(devices)@.len() == old(devices)@.len() + 1
            &&& final(devices)@.take(old(devices)@.len() as int) == old(devices)@
            &&& final(devices)@.last().ip@ == ip@
            &&& final(devices)@.last().location@ == location@
            &&& final(devices)@.last().friendly_name is None
        },
{
    let n = devices.len();
    let mut i: usize = 0;
    while i < n
        invariant
            n == devices@.len(),
            0 <= i <= n,
            forall|j: int| 0 <= j < i ==> (#[trigger] devices@[j]).ip@ != ip@,
        decreases n - i,
    {
        if crate::strutil::str_eq(devices[i].ip.as_str(), ip.as_str()) {
            return ;
        }
        i = i + 1;
    }
    let dev = DiscoveredDevice { ip, location, friendly_name: None };
    proof {
        if has_ip(devices@, dev.ip@) {
            let j = choose|j: int| 0 <= j < devices@.len() && (#[trigger] devices@[j]).ip@
                == dev.ip@;
        }
        assert(devices@.push(dev).take(devices@.len() as int) =~= devices@);
    }
    devices.push(dev);
}

/// The address of the first collected candidate, if any was.
pub fn first_candidate_ip(devices: &Vec<DiscoveredDevice>) -> (r: Option<String>)
    ensures
        devices@.len() == 0 ==> r is None,
        devices@.len() > 0 ==> (r matches Some(ip) && ip@ == devices@[0].ip@),
{
    if devices.len() > 0 {
        Some(devices[0].ip.clone())
    } else {
        None
    }
}

} // verus!
