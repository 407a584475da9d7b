//! Codec for the player's structured command protocol: commands serialize to
//! `heos://<namespace>/<action>?k1=v1&k2=v2` lines, and the free-form message
//! string of a reply is a second `&`-joined `key=value` encoding of its own.

use vstd::prelude::*;

use crate::strutil::{
    find_char, i64_to_string, lemma_find_char, lemma_find_char_concat, lemma_split_seq_concat,
    lemma_split_seq_whole, split_once_str, split_seq, split_str, str_eq, str_views, u64_to_string,
};

verus! {

// ---------------------------------------------------------------------------
// Command encoding
// ---------------------------------------------------------------------------

/// The scheme prefix every command line begins with.
pub open spec fn scheme_prefix() -> Seq<char> {
    seq!['h', 'e', 'o', 's', ':', '/', '/']
}

/// The line terminator appended to every command.
pub open spec fn crlf() -> Seq<char> {
    seq!['\r', '\n']
}

/// Views of a vector of owned key/value pairs.
pub open spec fn kv_views(v: Seq<(String, String)>) -> Seq<(Seq<char>, Seq<char>)> {
    v.map_values(|kv: (String, String)| (kv.0@, kv.1@))
}

/// `key=value` encoding of one parameter.
pub open spec fn pair_encoding(kv: (Seq<char>, Seq<char>)) -> Seq<char> {
    kv.0 + seq!['='] + kv.1
}

/// `&`-joined encoding of a parameter list, in insertion order.
pub open spec fn params_encoding(ps: Seq<(Seq<char>, Seq<char>)>) -> Seq<char>
    decreases ps.len(),
{
    if ps.len() == 0 {
        Seq::<char>::empty()
    } else if ps.len() == 1 {
        pair_encoding(ps[0])
    } else {
        pair_encoding(ps[0]) + seq!['&'] + params_encoding(ps.drop_first())
    }
}

/// Full wire encoding of a command: scheme, namespace, action, optional query,
/// line terminator.
pub open spec fn command_encoding(
    group: Seq<char>,
    command: Seq<char>,
    ps: Seq<(Seq<char>, Seq<char>)>,
) -> Seq<char> {
    scheme_prefix() + group + seq!['/'] + command + (if ps.len() == 0 {
        Seq::<char>::empty()
    } else {
        seq!['?'] + params_encoding(ps)
    }) + crlf()
}

proof fn lemma_params_encoding_push(ps: Seq<(Seq<char>, Seq<char>)>, kv: (Seq<char>, Seq<char>))
    ensures
        params_encoding(ps.push(kv)) == if ps.len() == 0 {
            pair_encoding(kv)
        } else {
            params_encoding(ps) + seq!['&'] + pair_encoding(kv)
        },
    decreases ps.len(),
{
    let whole = ps.push(kv);
    if ps.len() == 0 {
        assert(whole.len() == 1);
        assert(whole[0] == kv);
    } else {
        assert(whole[0] == ps[0]);
        assert(whole.drop_first() =~= ps.drop_first().push(kv));
        lemma_params_encoding_push(ps.drop_first(), kv);
        if ps.len() == 1 {
            assert(params_encoding(ps) == pair_encoding(ps[0]));
        } else {
            assert(pair_encoding(ps[0]) + seq!['&'] + (params_encoding(ps.drop_first())
                + seq!['&'] + pair_encoding(kv)) =~= (pair_encoding(ps[0]) + seq!['&']
                + params_encoding(ps.drop_first())) + seq!['&'] + pair_encoding(kv));
        }
    }
}

/// An outbound command for the structured protocol: a namespace, an action,
/// and ordered, pre-stringified parameters.
#[derive(Debug)]
pub struct HeosCommand {
    pub group: &'static str,
    pub command: &'static str,
    pub params: Vec<(String, String)>,
}

impl Clone for HeosCommand {
    fn clone(&self) -> (r: Self)
        ensures
            r.group@ == self.group@,
            r.command@ == self.command@,
            kv_views(r.params@) == kv_views(self.params@),
    {
        let mut params: Vec<(String, String)> = Vec::new();
        let n = self.params.len();
        let mut i: usize = 0;
        while i < n
            invariant
                n == self.params@.len(),
                0 <= i <= n,
                params@.len() == i,
                forall|j: int|
                    0 <= j < i ==> (#[trigger] params@[j]).0@ == self.params@[j].0@ && params@[j].1@
                        == self.params@[j].1@,
            decreases n - i,
        {
            let kv = (self.params[i].0.clone(), self.params[i].1.clone());
            params.push(kv);
            i = i + 1;
        }
        proof {
            assert(kv_views(params@) =~= kv_views(self.params@));
        }
        HeosCommand { group: self.group, command: self.command, params }
    }
}

impl HeosCommand {
    /// A command with no parameters yet.
    pub fn new(group: &'static str, command: &'static str) -> (r: Self)
        ensures
            r.group@ == group@,
            r.command@ == command@,
            kv_views(r.params@) == Seq::<(Seq<char>, Seq<char>)>::empty(),
    {
        let r = HeosCommand { group, command, params: Vec::new() };
        proof {
            assert(kv_views(r.params@) =~= Seq::<(Seq<char>, Seq<char>)>::empty());
        }
        r
    }

    /// The command with one more parameter appended.
    pub fn param(self, key: &str, value: &str) -> (r: Self)
        ensures
            r.group@ == self.group@,
            r.command@ == self.command@,
            kv_views(r.params@) == kv_views(self.params@).push((key@, value@)),
    {
        let mut r = self;
        let kv = (String::from_str(key), String::from_str(value));
        r.params.push(kv);
        proof {
            assert(kv_views(r.params@) =~= kv_views(self.params@).push((key@, value@)));
        }
        r
    }

    /// Serialize the command to its wire line, terminator included.
    pub fn to_string(&self) -> (s: String)
        ensures
            s@ == command_encoding(self.group@, self.command@, kv_views(self.params@)),
    {
        proof {
            reveal_strlit("heos://");
            reveal_strlit("/");
            reveal_strlit("?");
            reveal_strlit("&");
            reveal_strlit("=");
            reveal_strlit("\r\n");
            assert("heos://"@ =~= scheme_prefix());
            assert("/"@ =~= seq!['/']);
            assert("?"@ =~= seq!['?']);
            assert("&"@ =~= seq!['&']);
            assert("="@ =~= seq!['=']);
            assert("\r\n"@ =~= crlf());
        }
        let mut s = String::from_str("heos://");
        s.append(self.group);
        s.append("/");
        s.append(self.command);
        let ghost kvs = kv_views(self.params@);
        let n = self.params.len();
        if n > 0 {
            s.append("?");
            let mut i: usize = 0;
            proof {
                assert(kvs.take(0) =~= Seq::<(Seq<char>, Seq<char>)>::empty());
                assert(s@ =~= scheme_prefix() + self.group@ + seq!['/'] + self.command@
                    + seq!['?'] + params_encoding(kvs.take(0)));
            }
            while i < n
                invariant
                    n == self.params@.len(),
                    0 < n,
                    kvs == kv_views(self.params@),
                    0 <= i <= n,
                    s@ == scheme_prefix() + self.group@ + seq!['/'] + self.command@ + seq!['?']
                        + params_encoding(kvs.take(i as int)),
                decreases n - i,
            {
                if i > 0 {
                    s.append("&");
                }
                s.append(self.params[i].0.as_str());
                s.append("=");
                s.append(self.params[i].1.as_str());
                proof {
                    reveal_strlit("&");
                    reveal_strlit("=");
                    assert("&"@ =~= seq!['&']);
                    assert("="@ =~= seq!['=']);
                    let prior = kvs.take(i as int);
                    let kv = kvs[i as int];
                    assert(kvs.take(i as int + 1) =~= prior.push(kv));
                    lemma_params_encoding_push(prior, kv);
                    assert(kv == (self.params@[i as int].0@, self.params@[i as int].1@));
                    assert(pair_encoding(kv) == kv.0 + seq!['='] + kv.1);
                    if i == 0 {
                        assert(params_encoding(prior.push(kv)) == pair_encoding(kv));
                        assert(s@ =~= scheme_prefix() + self.group@ + seq!['/'] + self.command@
                            + seq!['?'] + params_encoding(prior.push(kv)));
                    } else {
                        assert(params_encoding(prior.push(kv)) == params_encoding(prior)
                            + seq!['&'] + pair_encoding(kv));
                        assert(s@ =~= scheme_prefix() + self.group@ + seq!['/'] + self.command@
                            + seq!['?'] + params_encoding(prior.push(kv)));
                    }
                }
                i = i + 1;
            }
            proof {
                assert(kvs.take(n as int) =~= kvs);
            }
        }
        s.append("\r\n");
        proof {
            assert(s@ =~= command_encoding(self.group@, self.command@, kvs));
        }
        s
    }
}

// ---------------------------------------------------------------------------
// Command builders
// ---------------------------------------------------------------------------

/// `register_for_change_events` with the enable flag spelled `on` or `off`.
pub fn register_for_change_events(enable: bool) -> (r: HeosCommand)
    ensures
        r.group@ == "system"@,
        r.command@ == "register_for_change_events"@,
        kv_views(r.params@) == seq![("enable"@, if enable { "on"@ } else { "off"@ })],
{
    let value: &str = if enable { "on" } else { "off" };
    let r = HeosCommand::new("system", "register_for_change_events").param("enable", value);
    proof {
        assert(kv_views(r.params@) =~= seq![("enable"@, value@)]);
    }
    r
}

/// `check_account` with no parameters.
pub fn check_account() -> (r: HeosCommand)
    ensures
        r.group@ == "system"@,
        r.command@ == "check_account"@,
        kv_views(r.params@) == Seq::<(Seq<char>, Seq<char>)>::empty(),
{
    HeosCommand::new("system", "check_account")
}

/// `heart_beat` with no parameters.
pub fn heart_beat() -> (r: HeosCommand)
    ensures
        r.group@ == "system"@,
        r.command@ == "heart_beat"@,
        kv_views(r.params@) == Seq::<(Seq<char>, Seq<char>)>::empty(),
{
    HeosCommand::new("system", "heart_beat")
}

/// `get_players` with no parameters.
pub fn get_players() -> (r: HeosCommand)
    ensures
        r.group@ == "player"@,
        r.command@ == "get_players"@,
        kv_views(r.params@) == Seq::<(Seq<char>, Seq<char>)>::empty(),
{
    HeosCommand::new("player", "get_players")
}

fn pid_command(group: &'static str, command: &'static str, pid: i64) -> (r: HeosCommand)
    ensures
        r.group@ == group@,
        r.command@ == command@,
        kv_views(r.params@) == seq![("pid"@, crate::strutil::int_rep(pid as int))],
{
    let pid_s = i64_to_string(pid);
    let r = HeosCommand::new(group, command).param("pid", pid_s.as_str());
    proof {
        assert(kv_views(r.params@) =~= seq![("pid"@, pid_s@)]);
    }
    r
}

/// `get_player_info` for one player.
pub fn get_player_info(pid: i64) -> (r: HeosCommand)
    ensures
        r.group@ == "player"@,
        r.command@ == "get_player_info"@,
        kv_views(r.params@) == seq![("pid"@, crate::strutil::int_rep(pid as int))],
{
    pid_command("player", "get_player_info", pid)
}

/// `get_play_state` for one player.
pub fn get_play_state(pid: i64) -> (r: HeosCommand)
    ensures
        r.group@ == "player"@,
        r.command@ == "get_play_state"@,
        kv_views(r.params@) == seq![("pid"@, crate::strutil::int_rep(pid as int))],
{
    pid_command("player", "get_play_state", pid)
}

/// `set_play_state` with the target transport state.
pub fn set_play_state(pid: i64, state: &str) -> (r: HeosCommand)
    ensures
        r.group@ == "player"@,
        r.command@ == "set_play_state"@,
        kv_views(r.params@) == seq![
            ("pid"@, crate::strutil::int_rep(pid as int)),
            ("state"@, state@),
        ],
{
    let r = pid_command("player", "set_play_state", pid).param("state", state);
    proof {
        assert(kv_views(r.params@) =~= seq![
            ("pid"@, crate::strutil::int_rep(pid as int)),
            ("state"@, state@),
        ]);
    }
    r
}

/// `get_now_playing_media` for one player.
pub fn get_now_playing_media(pid: i64) -> (r: HeosCommand)
    ensures
        r.group@ == "player"@,
        r.command@ == "get_now_playing_media"@,
        kv_views(r.params@) == seq![("pid"@, crate::strutil::int_rep(pid as int))],
{
    pid_command("player", "get_now_playing_media", pid)
}

/// `get_volume` for one player.
pub fn get_volume(pid: i64) -> (r: HeosCommand)
    ensures
        r.group@ == "player"@,
        r.command@ == "get_volume"@,
        kv_views(r.params@) == seq![("pid"@, crate::strutil::int_rep(pid as int))],
{
    pid_command("player", "get_volume", pid)
}

/// `set_volume` with an absolute level.
pub fn set_volume(pid: i64, level: u8) -> (r: HeosCommand)
    ensures
        r.group@ == "player"@,
        r.command@ == "set_volume"@,
        kv_views(r.params@) == seq![
            ("pid"@, crate::strutil::int_rep(pid as int)),
            ("level"@, crate::strutil::dec_rep(level as nat)),
        ],
{
    let level_s = u64_to_string(level as u64);
    let r = pid_command("player", "set_volume", pid).param("level", level_s.as_str());
    proof {
        assert(kv_views(r.params@) =~= seq![
            ("pid"@, crate::strutil::int_rep(pid as int)),
            ("level"@, crate::strutil::dec_rep(level as nat)),
        ]);
    }
    r
}

/// `volume_up` by a step.
pub fn volume_up(pid: i64, step: u8) -> (r: HeosCommand)
    ensures
        r.group@ == "player"@,
        r.command@ == "volume_up"@,
        kv_views(r.params@) == seq![
            ("pid"@, crate::strutil::int_rep(pid as int)),
            ("step"@, crate::strutil::dec_rep(step as nat)),
        ],
{
    let step_s = u64_to_string(step as u64);
    let r = pid_command("player", "volume_up", pid).param("step", step_s.as_str());
    proof {
        assert(kv_views(r.params@) =~= seq![
            ("pid"@, crate::strutil::int_rep(pid as int)),
            ("step"@, crate::strutil::dec_rep(step as nat)),
        ]);
    }
    r
}

/// `volume_down` by a step.
pub fn volume_down(pid: i64, step: u8) -> (r: HeosCommand)
    ensures
        r.group@ == "player"@,
        r.command@ == "volume_down"@,
        kv_views(r.params@) == seq![
            ("pid"@, crate::strutil::int_rep(pid as int)),
            ("step"@, crate::strutil::dec_rep(step as nat)),
        ],
{
    let step_s = u64_to_string(step as u64);
    let r = pid_command("player", "volume_down", pid).param("step", step_s.as_str());
    proof {
        assert(kv_views(r.params@) =~= seq![
            ("pid"@, crate::strutil::int_rep(pid as int)),
            ("step"@, crate::strutil::dec_rep(step as nat)),
        ]);
    }
    r
}

/// `get_mute` for one player.
pub fn get_mute(pid: i64) -> (r: HeosCommand)
    ensures
        r.group@ == "player"@,
        r.command@ == "get_mute"@,
        kv_views(r.params@) == seq![("pid"@, crate::strutil::int_rep(pid as int))],
{
    pid_command("player", "get_mute", pid)
}

/// `set_mute` with the target state spelled `on` or `off`.
pub fn set_mute(pid: i64, state: &str) -> (r: HeosCommand)
    ensures
        r.group@ == "player"@,
        r.command@ == "set_mute"@,
        kv_views(r.params@) == seq![
            ("pid"@, crate::strutil::int_rep(pid as int)),
            ("state"@, state@),
        ],
{
    let r = pid_command("player", "set_mute", pid).param("state", state);
    proof {
        assert(kv_views(r.params@) =~= seq![
            ("pid"@, crate::strutil::int_rep(pid as int)),
            ("state"@, state@),
        ]);
    }
    r
}

/// `toggle_mute` for one player.
pub fn toggle_mute(pid: i64) -> (r: HeosCommand)
    ensures
        r.group@ == "player"@,
        r.command@ == "toggle_mute"@,
        kv_views(r.params@) == seq![("pid"@, crate::strutil::int_rep(pid as int))],
{
    pid_command("player", "toggle_mute", pid)
}

/// `get_play_mode` for one player.
pub fn get_play_mode(pid: i64) -> (r: HeosCommand)
    ensures
        r.group@ == "player"@,
        r.command@ == "get_play_mode"@,
        kv_views(r.params@) == seq![("pid"@, crate::strutil::int_rep(pid as int))],
{
    pid_command("player", "get_play_mode", pid)
}

/// `set_play_mode` with repeat and shuffle spellings.
pub fn set_play_mode(pid: i64, repeat: &str, shuffle: &str) -> (r: HeosCommand)
    ensures
        r.group@ == "player"@,
        r.command@ == "set_play_mode"@,
        kv_views(r.params@) == seq![
            ("pid"@, crate::strutil::int_rep(pid as int)),
            ("repeat"@, repeat@),
            ("shuffle"@, shuffle@),
        ],
{
    let r = pid_command("player", "set_play_mode", pid).param("repeat", repeat).param(
        "shuffle",
        shuffle,
    );
    proof {
        assert(kv_views(r.params@) =~= seq![
            ("pid"@, crate::strutil::int_rep(pid as int)),
            ("repeat"@, repeat@),
            ("shuffle"@, shuffle@),
        ]);
    }
    r
}

/// `get_queue` over an inclusive range of queue positions.
pub fn get_queue(pid: i64, start: u32, end: u32) -> (r: HeosCommand)
    ensures
        r.group@ == "player"@,
        r.command@ == "get_queue"@,
        kv_views(r.params@) == seq![
            ("pid"@, crate::strutil::int_rep(pid as int)),
            (
                "range"@,
                crate::strutil::dec_rep(start as nat) + seq![','] + crate::strutil::dec_rep(
                    end as nat,
                ),
            ),
        ],
{
    let mut range_s = u64_to_string(start as u64);
    proof {
        reveal_strlit(",");
        assert(","@ =~= seq![',']);
    }
    range_s.append(",");
    range_s.append(u64_to_string(end as u64).as_str());
    let r = pid_command("player", "get_queue", pid).param("range", range_s.as_str());
    proof {
        assert(range_s@ =~= crate::strutil::dec_rep(start as nat) + seq![',']
            + crate::strutil::dec_rep(end as nat));
        assert(kv_views(r.params@) =~= seq![
            ("pid"@, crate::strutil::int_rep(pid as int)),
            ("range"@, range_s@),
        ]);
    }
    r
}

fn pid_qid_command(command: &'static str, pid: i64, qid: i64) -> (r: HeosCommand)
    ensures
        r.group@ == "player"@,
        r.command@ == command@,
        kv_views(r.params@) == seq![
            ("pid"@, crate::strutil::int_rep(pid as int)),
            ("qid"@, crate::strutil::int_rep(qid as int)),
        ],
{
    let qid_s = i64_to_string(qid);
    let r = pid_command("player", command, pid).param("qid", qid_s.as_str());
    proof {
        assert(kv_views(r.params@) =~= seq![
            ("pid"@, crate::strutil::int_rep(pid as int)),
            ("qid"@, crate::strutil::int_rep(qid as int)),
        ]);
    }
    r
}

/// `play_queue` at one queue entry.
pub fn play_queue(pid: i64, qid: i64) -> (r: HeosCommand)
    ensures
        r.group@ == "player"@,
        r.command@ == "play_queue"@,
        kv_views(r.params@) == seq![
            ("pid"@, crate::strutil::int_rep(pid as int)),
            ("qid"@, crate::strutil::int_rep(qid as int)),
        ],
{
    pid_qid_command("play_queue", pid, qid)
}

/// `remove_from_queue` at one queue entry.
pub fn remove_from_queue(pid: i64, qid: i64) -> (r: HeosCommand)
    ensures
        r.group@ == "player"@,
        r.command@ == "remove_from_queue"@,
        kv_views(r.params@) == seq![
            ("pid"@, crate::strutil::int_rep(pid as int)),
            ("qid"@, crate::strutil::int_rep(qid as int)),
        ],
{
    pid_qid_command("remove_from_queue", pid, qid)
}

/// `clear_queue` for one player.
pub fn clear_queue(pid: i64) -> (r: HeosCommand)
    ensures
        r.group@ == "player"@,
        r.command@ == "clear_queue"@,
        kv_views(r.params@) == seq![("pid"@, crate::strutil::int_rep(pid as int))],
{
    pid_command("player", "clear_queue", pid)
}

/// `play_next` for one player.
pub fn play_next(pid: i64) -> (r: HeosCommand)
    ensures
        r.group@ == "player"@,
        r.command@ == "play_next"@,
        kv_views(r.params@) == seq![("pid"@, crate::strutil::int_rep(pid as int))],
{
    pid_command("player", "play_next", pid)
}

/// `play_previous` for one player.
pub fn play_previous(pid: i64) -> (r: HeosCommand)
    ensures
        r.group@ == "player"@,
        r.command@ == "play_previous"@,
        kv_views(r.params@) == seq![("pid"@, crate::strutil::int_rep(pid as int))],
{
    pid_command("player", "play_previous", pid)
}

/// `get_music_sources` with no parameters.
pub fn get_music_sources() -> (r: HeosCommand)
    ensures
        r.group@ == "browse"@,
        r.command@ == "get_music_sources"@,
        kv_views(r.params@) == Seq::<(Seq<char>, Seq<char>)>::empty(),
{
    HeosCommand::new("browse", "get_music_sources")
}

/// `get_source_info` for one source.
pub fn get_source_info(sid: i64) -> (r: HeosCommand)
    ensures
        r.group@ == "browse"@,
        r.command@ == "get_source_info"@,
        kv_views(r.params@) == seq![("sid"@, crate::strutil::int_rep(sid as int))],
{
    let sid_s = i64_to_string(sid);
    let r = HeosCommand::new("browse", "get_source_info").param("sid", sid_s.as_str());
    proof {
        assert(kv_views(r.params@) =~= seq![("sid"@, sid_s@)]);
    }
    r
}

/// `browse` at the top of one source.
pub fn browse_source(sid: i64) -> (r: HeosCommand)
    ensures
        r.group@ == "browse"@,
        r.command@ == "browse"@,
        kv_views(r.params@) == seq![("sid"@, crate::strutil::int_rep(sid as int))],
{
    let sid_s = i64_to_string(sid);
    let r = HeosCommand::new("browse", "browse").param("sid", sid_s.as_str());
    proof {
        assert(kv_views(r.params@) =~= seq![("sid"@, sid_s@)]);
    }
    r
}

/// `browse` inside a container of one source.
pub fn browse_source_container(sid: i64, cid: &str) -> (r: HeosCommand)
    ensures
        r.group@ == "browse"@,
        r.command@ == "browse"@,
        kv_views(r.params@) == seq![
            ("sid"@, crate::strutil::int_rep(sid as int)),
            ("cid"@, cid@),
        ],
{
    let r = browse_source(sid).param("cid", cid);
    proof {
        assert(kv_views(r.params@) =~= seq![
            ("sid"@, crate::strutil::int_rep(sid as int)),
            ("cid"@, cid@),
        ]);
    }
    r
}

/// `play_stream` of one station.
pub fn play_station(pid: i64, sid: i64, mid: &str) -> (r: HeosCommand)
    ensures
        r.group@ == "browse"@,
        r.command@ == "play_stream"@,
        kv_views(r.params@) == seq![
            ("pid"@, crate::strutil::int_rep(pid as int)),
            ("sid"@, crate::strutil::int_rep(sid as int)),
            ("mid"@, mid@),
        ],
{
    let pid_s = i64_to_string(pid);
    let sid_s = i64_to_string(sid);
    let r = HeosCommand::new("browse", "play_stream").param("pid", pid_s.as_str()).param(
        "sid",
        sid_s.as_str(),
    ).param("mid", mid);
    proof {
        assert(kv_views(r.params@) =~= seq![
            ("pid"@, crate::strutil::int_rep(pid as int)),
            ("sid"@, crate::strutil::int_rep(sid as int)),
            ("mid"@, mid@),
        ]);
    }
    r
}

/// `play_input` of a named input of the player itself.
pub fn play_input(pid: i64, input: &str) -> (r: HeosCommand)
    ensures
        r.group@ == "browse"@,
        r.command@ == "play_input"@,
        kv_views(r.params@) == seq![
            ("pid"@, crate::strutil::int_rep(pid as int)),
            ("input"@, input@),
        ],
{
    let pid_s = i64_to_string(pid);
    let r = HeosCommand::new("browse", "play_input").param("pid", pid_s.as_str()).param(
        "input",
        input,
    );
    proof {
        assert(kv_views(r.params@) =~= seq![
            ("pid"@, crate::strutil::int_rep(pid as int)),
            ("input"@, input@),
        ]);
    }
    r
}

/// `play_input` of an input of another player.
pub fn play_input_source(pid: i64, spid: i64, input: &str) -> (r: HeosCommand)
    ensures
        r.group@ == "browse"@,
        r.command@ == "play_input"@,
        kv_views(r.params@) == seq![
            ("pid"@, crate::strutil::int_rep(pid as int)),
            ("spid"@, crate::strutil::int_rep(spid as int)),
            ("input"@, input@),
        ],
{
    let pid_s = i64_to_string(pid);
    let spid_s = i64_to_string(spid);
    let r = HeosCommand::new("browse", "play_input").param("pid", pid_s.as_str()).param(
        "spid",
        spid_s.as_str(),
    ).param("input", input);
    proof {
        assert(kv_views(r.params@) =~= seq![
            ("pid"@, crate::strutil::int_rep(pid as int)),
            ("spid"@, crate::strutil::int_rep(spid as int)),
            ("input"@, input@),
        ]);
    }
    r
}

// ---------------------------------------------------------------------------
// Message-string decoding (the inner `key=value&...` layer)
// ---------------------------------------------------------------------------

/// Key and value of one `key=value` fragment; a fragment without `=` is
/// skipped.
pub open spec fn pair_of(p: Seq<char>) -> Option<(Seq<char>, Seq<char>)> {
    let i = find_char(p, '=');
    if i == -1 {
        None
    } else {
        Some((p.subrange(0, i), p.subrange(i + 1, p.len() as int)))
    }
}

/// The key/value pairs among a list of fragments, in order.
pub open spec fn pairs_of(parts: Seq<Seq<char>>) -> Seq<(Seq<char>, Seq<char>)>
    decreases parts.len(),
{
    if parts.len() == 0 {
        Seq::<(Seq<char>, Seq<char>)>::empty()
    } else {
        match pair_of(parts[0]) {
            Some(kv) => seq![kv] + pairs_of(parts.drop_first()),
            None => pairs_of(parts.drop_first()),
        }
    }
}

/// The pairs of a whole message string: empty for the empty string, else the
/// pairs of its `&`-separated fragments.
pub open spec fn message_fields(s: Seq<char>) -> Seq<(Seq<char>, Seq<char>)> {
    if s.len() == 0 {
        Seq::<(Seq<char>, Seq<char>)>::empty()
    } else {
        pairs_of(split_seq(s, '&'))
    }
}

/// Decode a message string into its key/value pairs, in order of appearance.
/// Fragments lacking `=` are dropped.
pub fn parse_message_string(message: &str) -> (r: Vec<(String, String)>)
    ensures
        kv_views(r@) == message_fields(message@),
{
    let mut out: Vec<(String, String)> = Vec::new();
    if message.unicode_len() == 0 {
        proof {
            assert(kv_views(out@) =~= message_fields(message@));
        }
        return out;
    }
    let parts = split_str(message, '&');
    let n = parts.len();
    let ghost views = str_views(parts@);
    let mut i: usize = 0;
    proof {
        assert(views.skip(0) =~= views);
        assert(kv_views(out@) + pairs_of(views) =~= pairs_of(views));
    }
    while i < n
        invariant
            n == parts@.len(),
            views == str_views(parts@),
            0 <= i <= n,
            message_fields(message@) == pairs_of(views),
            pairs_of(views) == kv_views(out@) + pairs_of(views.skip(i as int)),
        decreases n - i,
    {
        let part = &parts[i];
        proof {
            lemma_find_char(part@, '=');
            assert(views.skip(i as int)[0] == part@);
            assert(views.skip(i as int).drop_first() =~= views.skip(i as int + 1));
        }
        match split_once_str(part.as_str(), '=') {
            Some(kv) => {
                proof {
                    assert(pair_of(part@) == Some((kv.0@, kv.1@)));
                    assert(pairs_of(views.skip(i as int)) == seq![(kv.0@, kv.1@)] + pairs_of(
                        views.skip(i as int + 1),
                    ));
                    assert(kv_views(out@.push(kv)) =~= kv_views(out@) + seq![(kv.0@, kv.1@)]);
                    assert(kv_views(out@) + (seq![(kv.0@, kv.1@)] + pairs_of(
                        views.skip(i as int + 1),
                    )) =~= (kv_views(out@) + seq![(kv.0@, kv.1@)]) + pairs_of(
                        views.skip(i as int + 1),
                    ));
                }
                out.push(kv);
            },
            None => {
                proof {
                    assert(pair_of(part@) is None);
                    assert(pairs_of(views.skip(i as int)) == pairs_of(views.skip(i as int + 1)));
                }
            },
        }
        i = i + 1;
    }
    proof {
        assert(views.skip(n as int) =~= Seq::<Seq<char>>::empty());
        assert(kv_views(out@) + pairs_of(views.skip(n as int)) =~= kv_views(out@));
    }
    out
}

/// The value of the last pair with the given key, as a map-style lookup over
/// the decoded pairs (a later duplicate key wins).
pub open spec fn lookup_field(m: Seq<(Seq<char>, Seq<char>)>, k: Seq<char>) -> Option<Seq<char>>
    decreases m.len(),
{
    if m.len() == 0 {
        None
    } else if m.last().0 == k {
        Some(m.last().1)
    } else {
        lookup_field(m.drop_last(), k)
    }
}

/// Look a key up among decoded message pairs.
pub fn message_get(pairs: &Vec<(String, String)>, key: &str) -> (r: Option<String>)
    ensures
        match r {
            Some(v) => lookup_field(kv_views(pairs@), key@) == Some(v@),
            None => lookup_field(kv_views(pairs@), key@) is None,
        },
{
    let mut i: usize = pairs.len();
    proof {
        assert(kv_views(pairs@).take(i as int) =~= kv_views(pairs@));
    }
    while i > 0
        invariant
            0 <= i <= pairs@.len(),
            lookup_field(kv_views(pairs@), key@) == lookup_field(
                kv_views(pairs@).take(i as int),
                key@,
            ),
        decreases i,
    {
        i = i - 1;
        proof {
            let m = kv_views(pairs@).take(i as int + 1);
            assert(m.last() == kv_views(pairs@)[i as int]);
            assert(m.drop_last() =~= kv_views(pairs@).take(i as int));
        }
        if str_eq(pairs[i].0.as_str(), key) {
            return Some(pairs[i].1.clone());
        }
    }
    proof {
        assert(kv_views(pairs@).take(0) =~= Seq::<(Seq<char>, Seq<char>)>::empty());
    }
    None
}

// ---------------------------------------------------------------------------
// Command decoding and the encode/decode round trip
// ---------------------------------------------------------------------------

/// Namespace, action and ordered parameters recovered from a command line.
pub open spec fn decoded_command(s: Seq<char>) -> Option<
    (Seq<char>, Seq<char>, Seq<(Seq<char>, Seq<char>)>),
> {
    let core = if s.len() >= 2 && s.subrange(s.len() - 2, s.len() as int) == crlf() {
        s.subrange(0, s.len() - 2)
    } else {
        s
    };
    if core.len() < 7 || core.subrange(0, 7) != scheme_prefix() {
        None
    } else {
        let rest = core.subrange(7, core.len() as int);
        let qi = find_char(rest, '?');
        let path = if qi == -1 {
            rest
        } else {
            rest.subrange(0, qi)
        };
        let si = find_char(path, '/');
        if si == -1 {
            None
        } else {
            let group = path.subrange(0, si);
            let command = path.subrange(si + 1, path.len() as int);
            let params = if qi == -1 {
                Seq::<(Seq<char>, Seq<char>)>::empty()
            } else {
                message_fields(rest.subrange(qi + 1, rest.len() as int))
            };
            Some((group, command, params))
        }
    }
}

/// A command line taken apart again: namespace, action, ordered parameters.
#[derive(Debug)]
pub struct DecodedCommand {
    pub group: String,
    pub command: String,
    pub params: Vec<(String, String)>,
}

/// Take a command line apart into namespace, action and parameters. The line
/// terminator may be present or already stripped; a line without the scheme
/// prefix or without a namespace separator is rejected.
pub fn decode_command(line: &str) -> (r: Option<DecodedCommand>)
    ensures
        match r {
            Some(d) => decoded_command(line@) == Some(
                (d.group@, d.command@, kv_views(d.params@)),
            ),
            None => decoded_command(line@) is None,
        },
{
    let n = line.unicode_len();
    let has_crlf = n >= 2 && line.get_char(n - 2) == '\r' && line.get_char(n - 1) == '\n';
    let core = if has_crlf {
        line.substring_char(0, n - 2)
    } else {
        line.substring_char(0, n)
    };
    proof {
        if n >= 2 {
            assert((line@.subrange(n - 2, n as int) == crlf()) == (line@[n - 2] == '\r'
                && line@[n - 1] == '\n')) by {
                if line@[n - 2] == '\r' && line@[n - 1] == '\n' {
                    assert(line@.subrange(n - 2, n as int) =~= crlf());
                } else {
                    if line@.subrange(n - 2, n as int) == crlf() {
                        assert(line@.subrange(n - 2, n as int)[0] == '\r');
                        assert(line@.subrange(n - 2, n as int)[1] == '\n');
                    }
                }
            }
        }
        if has_crlf {
            assert(core@ == line@.subrange(0, line@.len() - 2));
        } else {
            assert(core@ =~= line@);
        }
    }
    let core_len = core.unicode_len();
    if core_len < 7 {
        return None;
    }
    if !crate::strutil::str_starts_with(core, "heos://") {
        proof {
            reveal_strlit("heos://");
            assert("heos://"@ =~= scheme_prefix());
            assert(core@.take(7) == core@.subrange(0, 7));
        }
        return None;
    }
    proof {
        reveal_strlit("heos://");
        assert("heos://"@ =~= scheme_prefix());
        assert(core@.take(7) == core@.subrange(0, 7));
    }
    let rest = core.substring_char(7, core_len);
    let (path, query, has_query) = match split_once_str(rest, '?') {
        Some(pq) => {
            let q = pq.1;
            (pq.0, q, true)
        },
        None => (String::from_str(rest), String::new(), false),
    };
    proof {
        lemma_find_char(rest@, '?');
    }
    match split_once_str(path.as_str(), '/') {
        Some(gc) => {
            proof {
                lemma_find_char(path@, '/');
            }
            let params = if has_query {
                parse_message_string(query.as_str())
            } else {
                Vec::new()
            };
            let d = DecodedCommand { group: gc.0, command: gc.1, params };
            proof {
                if !has_query {
                    assert(kv_views(d.params@) =~= Seq::<(Seq<char>, Seq<char>)>::empty());
                }
            }
            Some(d)
        },
        None => {
            proof {
                lemma_find_char(path@, '/');
            }
            None
        },
    }
}

// ---------------------------------------------------------------------------
// Round-trip lemmas
// ---------------------------------------------------------------------------

proof fn lemma_contains_concat(a: Seq<char>, b: Seq<char>, c: char)
    ensures
        (a + b).contains(c) == (a.contains(c) || b.contains(c)),
{
    let s = a + b;
    if a.contains(c) {
        let i = choose|i: int| 0 <= i < a.len() && a[i] == c;
        assert(s[i] == c);
        assert(s.contains(c));
    }
    if b.contains(c) {
        let i = choose|i: int| 0 <= i < b.len() && b[i] == c;
        assert(s[a.len() + i] == c);
        assert(s.contains(c));
    }
    if s.contains(c) {
        let i = choose|i: int| 0 <= i < s.len() && s[i] == c;
        if i < a.len() {
            assert(a[i] == c);
            assert(a.contains(c));
        } else {
            assert(b[i - a.len()] == c);
            assert(b.contains(c));
        }
    }
}

proof fn lemma_absent_find(s: Seq<char>, c: char)
    requires
        !s.contains(c),
    ensures
        find_char(s, c) == -1,
{
    lemma_find_char(s, c);
    if find_char(s, c) != -1 {
        assert(s[find_char(s, c)] == c);
        assert(s.contains(c));
    }
}

/// One parameter that survives the query encoding: its key holds neither `=`
/// nor `&`, its value no `&`.
pub open spec fn valid_param(kv: (Seq<char>, Seq<char>)) -> bool {
    !kv.0.contains('=') && !kv.0.contains('&') && !kv.1.contains('&')
}

/// A command whose encoding is unambiguous: nonempty namespace free of `/`
/// and `?`, action free of `?`, and every parameter valid.
pub open spec fn valid_command_parts(
    group: Seq<char>,
    command: Seq<char>,
    ps: Seq<(Seq<char>, Seq<char>)>,
) -> bool {
    &&& group.len() > 0
    &&& !group.contains('/')
    &&& !group.contains('?')
    &&& !command.contains('?')
    &&& forall|i: int| 0 <= i < ps.len() ==> valid_param(#[trigger] ps[i])
}

proof fn lemma_pair_round_trip(kv: (Seq<char>, Seq<char>))
    requires
        valid_param(kv),
    ensures
        !pair_encoding(kv).contains('&'),
        pair_encoding(kv).len() >= 1,
        pair_of(pair_encoding(kv)) == Some(kv),
{
    let p = pair_encoding(kv);
    assert(p =~= kv.0 + (seq!['='] + kv.1));
    lemma_contains_concat(kv.0, seq!['='] + kv.1, '&');
    lemma_contains_concat(seq!['='], kv.1, '&');
    assert(!seq!['='].contains('&')) by {
        if seq!['='].contains('&') {
            let i = choose|i: int| 0 <= i < 1 && seq!['='][i] == '&';
            assert(seq!['='][i] == '=');
        }
    }
    assert((seq!['='] + kv.1)[0] == '=');
    assert(find_char(seq!['='] + kv.1, '=') == 0);
    lemma_find_char_concat(kv.0, seq!['='] + kv.1, '=');
    let i = find_char(p, '=');
    assert(i == kv.0.len());
    assert(p.subrange(0, i) =~= kv.0);
    assert(p.subrange(i + 1, p.len() as int) =~= kv.1);
}

proof fn lemma_params_round_trip(ps: Seq<(Seq<char>, Seq<char>)>)
    requires
        ps.len() >= 1,
        forall|i: int| 0 <= i < ps.len() ==> valid_param(#[trigger] ps[i]),
    ensures
        params_encoding(ps).len() >= 1,
        pairs_of(split_seq(params_encoding(ps), '&')) == ps,
    decreases ps.len(),
{
    let p = params_encoding(ps);
    lemma_pair_round_trip(ps[0]);
    if ps.len() == 1 {
        lemma_split_seq_whole(p, '&');
        assert(split_seq(p, '&') == seq![p]);
        assert(seq![p].drop_first() =~= Seq::<Seq<char>>::empty());
        assert(pairs_of(Seq::<Seq<char>>::empty()) == Seq::<(Seq<char>, Seq<char>)>::empty());
        assert(seq![p][0] == p);
        assert(p == pair_encoding(ps[0]));
        assert(pairs_of(seq![p]) == seq![ps[0]] + Seq::<(Seq<char>, Seq<char>)>::empty());
        assert(seq![ps[0]] + Seq::<(Seq<char>, Seq<char>)>::empty() =~= seq![ps[0]]);
        assert(seq![ps[0]] =~= ps);
    } else {
        let rest = ps.drop_first();
        assert(forall|i: int| 0 <= i < rest.len() ==> valid_param(#[trigger] rest[i])) by {
            assert(forall|i: int| 0 <= i < rest.len() ==> rest[i] == ps[i + 1]);
        }
        lemma_params_round_trip(rest);
        assert(p == pair_encoding(ps[0]) + seq!['&'] + params_encoding(rest));
        assert(p =~= pair_encoding(ps[0]) + seq!['&'] + params_encoding(rest));
        lemma_split_seq_concat(pair_encoding(ps[0]), params_encoding(rest), '&');
        let parts = split_seq(p, '&');
        assert(parts == seq![pair_encoding(ps[0])] + split_seq(params_encoding(rest), '&'));
        assert(parts[0] == pair_encoding(ps[0]));
        assert(parts.drop_first() =~= split_seq(params_encoding(rest), '&'));
        assert(pairs_of(parts) == seq![ps[0]] + pairs_of(split_seq(params_encoding(rest), '&')));
        assert(seq![ps[0]] + rest =~= ps);
    }
}

/// Decoding recovers what encoding wrote: for every command with a nonempty
/// namespace free of `/` and `?`, an action free of `?`, and parameters whose
/// keys hold neither `=` nor `&` and whose values hold no `&`, taking the
/// encoded line apart yields the original namespace, action and ordered
/// parameter list.
pub proof fn lemma_decode_encode(
    group: Seq<char>,
    command: Seq<char>,
    ps: Seq<(Seq<char>, Seq<char>)>,
)
    requires
        valid_command_parts(group, command, ps),
    ensures
        decoded_command(command_encoding(group, command, ps)) == Some((group, command, ps)),
{
    let q: Seq<char> = if ps.len() == 0 {
        Seq::<char>::empty()
    } else {
        seq!['?'] + params_encoding(ps)
    };
    let a = scheme_prefix() + group + seq!['/'] + command + q;
    let s = command_encoding(group, command, ps);
    assert(s == a + crlf());
    assert(s.len() == a.len() + 2);
    assert(s.subrange(s.len() - 2, s.len() as int) =~= crlf());
    let core = s.subrange(0, s.len() - 2);
    assert(core =~= a);
    assert(core.len() >= 7 + group.len() + 1 + command.len());
    assert(core.subrange(0, 7) =~= scheme_prefix());
    let rest = core.subrange(7, core.len() as int);
    let path0 = group + seq!['/'] + command;
    assert(rest =~= path0 + q);
    assert(!seq!['/'].contains('?')) by {
        if seq!['/'].contains('?') {
            let i = choose|i: int| 0 <= i < 1 && seq!['/'][i] == '?';
            assert(seq!['/'][i] == '/');
        }
    }
    assert(!path0.contains('?')) by {
        assert(path0 =~= group + (seq!['/'] + command));
        lemma_contains_concat(group, seq!['/'] + command, '?');
        lemma_contains_concat(seq!['/'], command, '?');
    }
    let qi = find_char(rest, '?');
    if ps.len() == 0 {
        assert(rest =~= path0);
        lemma_absent_find(path0, '?');
        assert(qi == -1);
    } else {
        lemma_params_round_trip(ps);
        assert(q[0] == '?');
        assert(find_char(q, '?') == 0);
        lemma_find_char_concat(path0, q, '?');
        assert(qi == path0.len());
        assert(rest.subrange(0, qi) =~= path0);
        assert(rest.subrange(qi + 1, rest.len() as int) =~= params_encoding(ps));
    }
    let path = if qi == -1 { rest } else { rest.subrange(0, qi) };
    assert(path == path0);
    assert(!group.contains('/'));
    assert((seq!['/'] + command)[0] == '/');
    assert(find_char(seq!['/'] + command, '/') == 0);
    assert(path0 =~= group + (seq!['/'] + command));
    lemma_find_char_concat(group, seq!['/'] + command, '/');
    let si = find_char(path, '/');
    assert(si == group.len());
    assert(path.subrange(0, si) =~= group);
    assert(path.subrange(si + 1, path.len() as int) =~= command);
    if ps.len() == 0 {
        assert(decoded_command(s) == Some(
            (group, command, Seq::<(Seq<char>, Seq<char>)>::empty()),
        ));
        assert(ps =~= Seq::<(Seq<char>, Seq<char>)>::empty());
    } else {
        let query = rest.subrange(qi + 1, rest.len() as int);
        assert(query == params_encoding(ps));
        assert(query.len() >= 1);
        assert(message_fields(query) == ps);
    }
}

// ---------------------------------------------------------------------------
// Response envelope
// ---------------------------------------------------------------------------

/// Header of a decoded envelope: the action name, the optional result flag,
/// and the free-form message string.
#[derive(Debug)]
pub struct HeosHeader {
    pub command: String,
    pub result: Option<String>,
    pub message: String,
}

/// A decoded protocol line: header plus the canonical text of its payload
/// and options (the text `null` when a part is absent).
#[derive(Debug)]
pub struct HeosResponse {
    pub heos: HeosHeader,
    pub payload: String,
    pub options: String,
}

/// The views of an optional owned string.
pub open spec fn opt_str_view(o: Option<String>) -> Option<Seq<char>> {
    match o {
        Some(s) => Some(s@),
        None => None,
    }
}

/// The result flag is present and spells success.
pub open spec fn response_is_success(r: HeosResponse) -> bool {
    match r.heos.result {
        Some(s) => s@ == "success"@,
        None => false,
    }
}

/// The result flag is absent: the line is a spontaneous event, not the
/// acknowledgment of a command.
pub open spec fn response_is_event(r: HeosResponse) -> bool {
    r.heos.result is None
}

impl HeosResponse {
    /// Whether the result flag is present and equals the success token;
    /// any other result value, or an absent flag, is no success.
    pub fn is_success(&self) -> (r: bool)
        ensures
            r == response_is_success(*self),
    {
        match &self.heos.result {
            Some(s) => str_eq(s.as_str(), "success"),
            None => false,
        }
    }

    /// Whether the line is an event: the result flag is absent if and only
    /// if this returns true.
    pub fn is_event(&self) -> (r: bool)
        ensures
            r == response_is_event(*self),
    {
        match &self.heos.result {
            Some(_) => false,
            None => true,
        }
    }

    /// Decode the message string into its key/value pairs: the second parse
    /// pass of the two-layer encoding.
    pub fn parse_message(&self) -> (r: Vec<(String, String)>)
        ensures
            kv_views(r@) == message_fields(self.heos.message@),
    {
        parse_message_string(self.heos.message.as_str())
    }

    /// The payload as a roster list: the decoded entries of its array text,
    /// or nothing when the payload is no array or any element fails to
    /// decode as a roster entry.
    pub fn payload_players(&self) -> (r: Option<Vec<crate::types::Player>>)
        ensures
            r matches Some(ps) ==> (crate::json::items_of(self.payload@) matches Some(ts)
                && crate::json::all_players_ok(ts) && crate::json::players_match(ts, ps@)),
            r is None ==> !(crate::json::items_of(self.payload@) matches Some(ts)
                && crate::json::all_players_ok(ts)),
    {
        let texts = match crate::json::json_items(self.payload.as_str()) {
            Some(ts) => ts,
            None => {
                return None;
            },
        };
        let ghost tviews = crate::strutil::str_views(texts@);
        let n = texts.len();
        let mut out: Vec<crate::types::Player> = Vec::new();
        let mut i: usize = 0;
        while i < n
            invariant
                n == texts@.len(),
                tviews == crate::strutil::str_views(texts@),
                crate::json::items_of(self.payload@) == Some(tviews),
                0 <= i <= n,
                out@.len() == i,
                forall|j: int| 0 <= j < i ==> crate::json::player_text_ok(#[trigger] tviews[j]),
                forall|j: int|
                    0 <= j < i ==> crate::json::player_matches_text(tviews[j], #[trigger] out@[j]),
            decreases n - i,
        {
            match crate::json::player_from_text(texts[i].as_str()) {
                Some(x) => out.push(x),
                None => {
                    proof {
                        assert(!crate::json::player_text_ok(tviews[i as int]));
                        assert(!crate::json::all_players_ok(tviews));
                    }
                    return None;
                },
            }
            i = i + 1;
        }
        proof {
            assert(crate::json::all_players_ok(tviews));
            assert(crate::json::players_match(tviews, out@));
        }
        Some(out)
    }

    /// The payload as a queue listing, under the same rules.
    pub fn payload_queue(&self) -> (r: Option<Vec<crate::types::QueueItem>>)
        ensures
            r matches Some(qs) ==> (crate::json::items_of(self.payload@) matches Some(ts)
                && crate::json::all_queue_items_ok(ts) && crate::json::queue_items_match(ts, qs@)),
            r is None ==> !(crate::json::items_of(self.payload@) matches Some(ts)
                && crate::json::all_queue_items_ok(ts)),
    {
        let texts = match crate::json::json_items(self.payload.as_str()) {
            Some(ts) => ts,
            None => {
                return None;
            },
        };
        let ghost tviews = crate::strutil::str_views(texts@);
        let n = texts.len();
        let mut out: Vec<crate::types::QueueItem> = Vec::new();
        let mut i: usize = 0;
        while i < n
            invariant
                n == texts@.len(),
                tviews == crate::strutil::str_views(texts@),
                crate::json::items_of(self.payload@) == Some(tviews),
                0 <= i <= n,
                out@.len() == i,
                forall|j: int| 0 <= j < i ==> crate::json::queue_item_text_ok(#[trigger] tviews[j]),
                forall|j: int|
                    0 <= j < i ==> crate::json::queue_item_matches_text(tviews[j], #[trigger] out@[j]),
            decreases n - i,
        {
            match crate::json::queue_item_from_text(texts[i].as_str()) {
                Some(x) => out.push(x),
                None => {
                    proof {
                        assert(!crate::json::queue_item_text_ok(tviews[i as int]));
                        assert(!crate::json::all_queue_items_ok(tviews));
                    }
                    return None;
                },
            }
            i = i + 1;
        }
        proof {
            assert(crate::json::all_queue_items_ok(tviews));
            assert(crate::json::queue_items_match(tviews, out@));
        }
        Some(out)
    }

    /// The payload as a source listing, under the same rules.
    pub fn payload_sources(&self) -> (r: Option<Vec<crate::types::MusicSource>>)
        ensures
            r matches Some(ss) ==> (crate::json::items_of(self.payload@) matches Some(ts)
                && crate::json::all_sources_ok(ts) && crate::json::sources_match(ts, ss@)),
            r is None ==> !(crate::json::items_of(self.payload@) matches Some(ts)
                && crate::json::all_sources_ok(ts)),
    {
        let texts = match crate::json::json_items(self.payload.as_str()) {
            Some(ts) => ts,
            None => {
                return None;
            },
        };
        let ghost tviews = crate::strutil::str_views(texts@);
        let n = texts.len();
        let mut out: Vec<crate::types::MusicSource> = Vec::new();
        let mut i: usize = 0;
        while i < n
            invariant
                n == texts@.len(),
                tviews == crate::strutil::str_views(texts@),
                crate::json::items_of(self.payload@) == Some(tviews),
                0 <= i <= n,
                out@.len() == i,
                forall|j: int| 0 <= j < i ==> crate::json::source_text_ok(#[trigger] tviews[j]),
                forall|j: int|
                    0 <= j < i ==> crate::json::source_matches_text(tviews[j], #[trigger] out@[j]),
            decreases n - i,
        {
            match crate::json::music_source_from_text(texts[i].as_str()) {
                Some(x) => out.push(x),
                None => {
                    proof {
                        assert(!crate::json::source_text_ok(tviews[i as int]));
                        assert(!crate::json::all_sources_ok(tviews));
                    }
                    return None;
                },
            }
            i = i + 1;
        }
        proof {
            assert(crate::json::all_sources_ok(tviews));
            assert(crate::json::sources_match(tviews, out@));
        }
        Some(out)
    }

    /// The payload as a browse listing, under the same rules.
    pub fn payload_browse(&self) -> (r: Option<Vec<crate::types::BrowseItem>>)
        ensures
            r matches Some(bs) ==> (crate::json::items_of(self.payload@) matches Some(ts)
                && crate::json::all_browse_items_ok(ts) && crate::json::browse_items_match(ts, bs@)),
            r is None ==> !(crate::json::items_of(self.payload@) matches Some(ts)
                && crate::json::all_browse_items_ok(ts)),
    {
        let texts = match crate::json::json_items(self.payload.as_str()) {
            Some(ts) => ts,
            None => {
                return None;
            },
        };
        let ghost tviews = crate::strutil::str_views(texts@);
        let n = texts.len();
        let mut out: Vec<crate::types::BrowseItem> = Vec::new();
        let mut i: usize = 0;
        while i < n
            invariant
                n == texts@.len(),
                tviews == crate::strutil::str_views(texts@),
                crate::json::items_of(self.payload@) == Some(tviews),
                0 <= i <= n,
                out@.len() == i,
                forall|j: int| 0 <= j < i ==> crate::json::browse_item_text_ok(#[trigger] tviews[j]),
                forall|j: int|
                    0 <= j < i ==> crate::json::browse_item_matches_text(tviews[j], #[trigger] out@[j]),
            decreases n - i,
        {
            match crate::json::browse_item_from_text(texts[i].as_str()) {
                Some(x) => out.push(x),
                None => {
                    proof {
                        assert(!crate::json::browse_item_text_ok(tviews[i as int]));
                        assert(!crate::json::all_browse_items_ok(tviews));
                    }
                    return None;
                },
            }
            i = i + 1;
        }
        proof {
            assert(crate::json::all_browse_items_ok(tviews));
            assert(crate::json::browse_items_match(tviews, out@));
        }
        Some(out)
    }

    /// The payload as one now-playing record, when its text is such an
    /// object.
    pub fn payload_now_playing(&self) -> (r: Option<crate::types::NowPlayingMedia>)
        ensures
            match r {
                Some(m) => crate::json::now_playing_text_ok(self.payload@)
                    && crate::json::now_playing_matches_text(self.payload@, m),
                None => !crate::json::now_playing_text_ok(self.payload@),
            },
    {
        crate::json::now_playing_from_text(self.payload.as_str())
    }
}

/// Decode one raw line into an envelope. An empty or blank line, a line that
/// is no JSON document, or one whose header is malformed yields nothing:
/// garbled lines are dropped at this boundary, never propagated as errors.
/// A decoded envelope carries exactly the header fields and payload text of
/// the trimmed line.
pub fn parse_response(line: &str) -> (r: Option<HeosResponse>)
    ensures
        ({
            let t = crate::strutil::trim_seq(line@);
            match r {
                Some(resp) => {
                    &&& t.len() > 0
                    &&& crate::json::header_of(t) == Some(
                        (
                            resp.heos.command@,
                            opt_str_view(resp.heos.result),
                            resp.heos.message@,
                        ),
                    )
                    &&& resp.payload@ == crate::json::payload_text_of(t)
                },
                None => t.len() == 0 || crate::json::header_of(t) is None,
            }
        }),
{
    let trimmed = crate::strutil::trim_str(line);
    if trimmed.unicode_len() == 0 {
        return None;
    }
    match crate::json::decode_header(trimmed) {
        Some(h) => {
            let payload = crate::json::payload_text(trimmed);
            let options = crate::json::options_text(trimmed);
            Some(HeosResponse {
                heos: HeosHeader { command: h.0, result: h.1, message: h.2 },
                payload,
                options,
            })
        },
        None => None,
    }
}


// ---------------------------------------------------------------------------
// Event names
// ---------------------------------------------------------------------------

pub const EVENT_PLAYER_STATE_CHANGED: &'static str = "event/player_state_changed";

pub const EVENT_PLAYER_NOW_PLAYING_CHANGED: &'static str = "event/player_now_playing_changed";

pub const EVENT_PLAYER_NOW_PLAYING_PROGRESS: &'static str = "event/player_now_playing_progress";

pub const EVENT_PLAYER_VOLUME_CHANGED: &'static str = "event/player_volume_changed";

pub const EVENT_PLAYER_PLAYBACK_ERROR: &'static str = "event/player_playback_error";

pub const EVENT_PLAYER_QUEUE_CHANGED: &'static str = "event/player_queue_changed";

pub const EVENT_REPEAT_MODE_CHANGED: &'static str = "event/repeat_mode_changed";

pub const EVENT_SHUFFLE_MODE_CHANGED: &'static str = "event/shuffle_mode_changed";

pub const EVENT_PLAYERS_CHANGED: &'static str = "event/players_changed";

pub const EVENT_GROUPS_CHANGED: &'static str = "event/groups_changed";

pub const EVENT_SOURCES_CHANGED: &'static str = "event/sources_changed";

} // verus!
