//! Codec for the receiver's line-oriented ASCII control protocol: commands
//! are short literal function codes, and every reply line is classified by
//! its two-character prefix. The protocol has no success flag: a line may be
//! a solicited reply or a spontaneous notification, and both decode alike.

use vstd::prelude::*;

use crate::strutil::{
    all_digits, dec_val, is_digit, parse_digits_bounded, starts_with, str_eq, str_starts_with,
    to_upper, trim_seq, trim_str, two_digit_rep, u8_two_digits, upper_seq,
};

verus! {

/// Events decoded from receiver reply lines, plus connection lifecycle
/// markers that the session layer feeds through the same channel.
#[derive(Debug, PartialEq)]
pub enum AvrEvent {
    Connected,
    Disconnected,
    /// Master volume on the device scale of 0 to 98.
    MasterVolume(u8),
    Mute(bool),
    Power(bool),
    SurroundMode(String),
    InputSource(String),
    Error(String),
    Response(String),
}

impl Clone for AvrEvent {
    fn clone(&self) -> (r: Self)
        ensures
            r == *self,
    {
        match self {
            AvrEvent::Connected => AvrEvent::Connected,
            AvrEvent::Disconnected => AvrEvent::Disconnected,
            AvrEvent::MasterVolume(v) => AvrEvent::MasterVolume(*v),
            AvrEvent::Mute(b) => AvrEvent::Mute(*b),
            AvrEvent::Power(b) => AvrEvent::Power(*b),
            AvrEvent::SurroundMode(s) => AvrEvent::SurroundMode(s.clone()),
            AvrEvent::InputSource(s) => AvrEvent::InputSource(s.clone()),
            AvrEvent::Error(s) => AvrEvent::Error(s.clone()),
            AvrEvent::Response(s) => AvrEvent::Response(s.clone()),
        }
    }
}

/// What decoding one raw reply line must yield. The line is trimmed first;
/// a blank line yields nothing. A volume reply takes a numeric suffix of
/// exactly two digits as the level, or of exactly three digits as the level
/// in its first two digits with the fractional digit discarded; any other
/// volume suffix is dropped. Mute and power map their `ON`/`OFF`/`STANDBY`
/// suffixes to flags; source and surround lines carry their suffix verbatim;
/// any other line is forwarded as an opaque raw response.
pub open spec fn avr_decode_ok(s: Seq<char>, r: Option<AvrEvent>) -> bool {
    let t = trim_seq(s);
    if t.len() == 0 {
        r is None
    } else if starts_with(t, "MV"@) && !starts_with(t, "MVMAX"@) {
        let suffix = t.skip(2);
        if all_digits(suffix) && suffix.len() == 2 {
            r matches Some(AvrEvent::MasterVolume(v)) && v as int == dec_val(suffix)
        } else if all_digits(suffix) && suffix.len() == 3 {
            r matches Some(AvrEvent::MasterVolume(v)) && v as int == dec_val(suffix.take(2))
        } else {
            r is None
        }
    } else if starts_with(t, "MU"@) {
        if t.skip(2) == "ON"@ {
            r == Some(AvrEvent::Mute(true))
        } else if t.skip(2) == "OFF"@ {
            r == Some(AvrEvent::Mute(false))
        } else {
            r is None
        }
    } else if starts_with(t, "PW"@) {
        if t.skip(2) == "ON"@ {
            r == Some(AvrEvent::Power(true))
        } else if t.skip(2) == "STANDBY"@ || t.skip(2) == "OFF"@ {
            r == Some(AvrEvent::Power(false))
        } else {
            r is None
        }
    } else if starts_with(t, "SI"@) {
        r matches Some(AvrEvent::InputSource(x)) && x@ == t.skip(2)
    } else if starts_with(t, "MS"@) {
        r matches Some(AvrEvent::SurroundMode(x)) && x@ == t.skip(2)
    } else {
        r matches Some(AvrEvent::Response(x)) && x@ == t
    }
}

/// The volume reply rule stated on its own, as the decoder relation forces
/// it for every line: a volume line's numeric suffix of exactly two digits
/// is the level; a suffix of exactly three digits carries the level in its
/// first two digits with the fractional digit discarded; any other suffix —
/// non-numeric or of any other length — yields no event.
pub proof fn lemma_volume_reply_rule(s: Seq<char>, r: Option<AvrEvent>)
    requires
        avr_decode_ok(s, r),
        starts_with(trim_seq(s), "MV"@),
        !starts_with(trim_seq(s), "MVMAX"@),
    ensures
        ({
            let suffix = trim_seq(s).skip(2);
            &&& (all_digits(suffix) && suffix.len() == 2 ==> (r matches Some(
                AvrEvent::MasterVolume(v),
            ) && v as int == dec_val(suffix)))
            &&& (all_digits(suffix) && suffix.len() == 3 ==> (r matches Some(
                AvrEvent::MasterVolume(v),
            ) && v as int == dec_val(suffix.take(2))))
            &&& (!(all_digits(suffix) && (suffix.len() == 2 || suffix.len() == 3)) ==> r is None)
        }),
{
    reveal_strlit("MV");
    assert("MV"@.len() == 2);
    assert(trim_seq(s).len() >= 2);
}

/// The receiver-side session decoder.
pub struct AvrClient;

impl AvrClient {
    /// Classify one raw reply line by its two-character prefix.
    pub fn decode_line(line: &str) -> (r: Option<AvrEvent>)
        ensures
            avr_decode_ok(line@, r),
    {
        let t = trim_str(line);
        let n = t.unicode_len();
        if n == 0 {
            return None;
        }
        proof {
            reveal_strlit("MV");
            reveal_strlit("MVMAX");
            reveal_strlit("MU");
            reveal_strlit("PW");
            reveal_strlit("SI");
            reveal_strlit("MS");
            assert("MV"@.len() == 2);
            assert("MU"@.len() == 2);
            assert("PW"@.len() == 2);
            assert("SI"@.len() == 2);
            assert("MS"@.len() == 2);
        }
        if str_starts_with(t, "MV") && !str_starts_with(t, "MVMAX") {
            let m = n - 2;
            if m == 2 {
                let suffix = t.substring_char(2, n);
                proof {
                    assert(suffix@ =~= t@.skip(2));
                }
                match parse_digits_bounded(suffix, 99) {
                    Some(v) => {
                        return Some(AvrEvent::MasterVolume(v as u8));
                    },
                    None => {
                        proof {
                            if all_digits(suffix@) {
                                assert(suffix@.drop_last().len() == 1);
                                assert(dec_val(suffix@.drop_last()) == dec_val(
                                    suffix@.drop_last().drop_last(),
                                ) * 10 + crate::strutil::digit_val(suffix@.drop_last().last()));
                                assert(dec_val(suffix@) <= 99);
                            }
                        }
                        return None;
                    },
                }
            } else if m == 3 {
                let head = t.substring_char(2, n - 1);
                let last = t.get_char(n - 1);
                proof {
                    assert(head@ =~= t@.skip(2).take(2));
                }
                if !('0' <= last && last <= '9') {
                    proof {
                        assert(t@.skip(2)[2] == t@[n - 1]);
                        assert(!all_digits(t@.skip(2)));
                    }
                    return None;
                }
                match parse_digits_bounded(head, 99) {
                    Some(v) => {
                        proof {
                            assert(all_digits(t@.skip(2))) by {
                                let suffix = t@.skip(2);
                                assert(forall|i: int|
                                    0 <= i < 2 ==> #[trigger] suffix[i] == head@[i]);
                                assert(suffix[2] == t@[n - 1]);
                                assert(is_digit(t@[n - 1]));
                            }
                        }
                        return Some(AvrEvent::MasterVolume(v as u8));
                    },
                    None => {
                        proof {
                            let suffix = t@.skip(2);
                            if all_digits(suffix) {
                                assert(forall|i: int|
                                    0 <= i < 2 ==> #[trigger] head@[i] == suffix[i]);
                                assert(all_digits(head@));
                                assert(head@.drop_last().len() == 1);
                                assert(dec_val(head@.drop_last()) == dec_val(
                                    head@.drop_last().drop_last(),
                                ) * 10 + crate::strutil::digit_val(head@.drop_last().last()));
                                assert(dec_val(head@) <= 99);
                            }
                        }
                        return None;
                    },
                }
            } else {
                proof {
                    assert(t@.skip(2).len() != 2 && t@.skip(2).len() != 3);
                }
                return None;
            }
        }
        if str_starts_with(t, "MU") {
            let suffix = t.substring_char(2, n);
            proof {
                assert(suffix@ =~= t@.skip(2));
            }
            if str_eq(suffix, "ON") {
                return Some(AvrEvent::Mute(true));
            }
            if str_eq(suffix, "OFF") {
                return Some(AvrEvent::Mute(false));
            }
            return None;
        }
        if str_starts_with(t, "PW") {
            let suffix = t.substring_char(2, n);
            proof {
                assert(suffix@ =~= t@.skip(2));
            }
            if str_eq(suffix, "ON") {
                return Some(AvrEvent::Power(true));
            }
            if str_eq(suffix, "STANDBY") || str_eq(suffix, "OFF") {
                return Some(AvrEvent::Power(false));
            }
            return None;
        }
        if str_starts_with(t, "SI") {
            let suffix = String::from_str(t.substring_char(2, n));
            proof {
                assert(suffix@ =~= t@.skip(2));
            }
            return Some(AvrEvent::InputSource(suffix));
        }
        if str_starts_with(t, "MS") {
            let suffix = String::from_str(t.substring_char(2, n));
            proof {
                assert(suffix@ =~= t@.skip(2));
            }
            return Some(AvrEvent::SurroundMode(suffix));
        }
        Some(AvrEvent::Response(String::from_str(t)))
    }
}

// ---------------------------------------------------------------------------
// Surround modes
// ---------------------------------------------------------------------------

/// The named surround modes the receiver accepts.
#[derive(Debug, Clone, Copy, PartialEq, Eq, Structural)]
pub enum SurroundMode {
    Movie,
    Music,
    Game,
    Direct,
    PureDirect,
    Stereo,
    Auto,
    DolbyDigital,
    DtsSurround,
    MultiChStereo,
    RockArena,
    JazzClub,
    MonoMovie,
    Matrix,
    VideoGame,
    Virtual,
}

/// Wire command token of a surround mode.
pub open spec fn mode_command(m: SurroundMode) -> Seq<char> {
    match m {
        SurroundMode::Movie => "MSMOVIE"@,
        SurroundMode::Music => "MSMUSIC"@,
        SurroundMode::Game => "MSGAME"@,
        SurroundMode::Direct => "MSDIRECT"@,
        SurroundMode::PureDirect => "MSPURE DIRECT"@,
        SurroundMode::Stereo => "MSSTEREO"@,
        SurroundMode::Auto => "MSAUTO"@,
        SurroundMode::DolbyDigital => "MSDOLBY DIGITAL"@,
        SurroundMode::DtsSurround => "MSDTS SURROUND"@,
        SurroundMode::MultiChStereo => "MSMCH STEREO"@,
        SurroundMode::RockArena => "MSROCK ARENA"@,
        SurroundMode::JazzClub => "MSJAZZ CLUB"@,
        SurroundMode::MonoMovie => "MSMONO MOVIE"@,
        SurroundMode::Matrix => "MSMATRIX"@,
        SurroundMode::VideoGame => "MSVIDEO GAME"@,
        SurroundMode::Virtual => "MSVIRTUAL"@,
    }
}

/// Display name of a surround mode.
pub open spec fn mode_display(m: SurroundMode) -> Seq<char> {
    match m {
        SurroundMode::Movie => "Movie"@,
        SurroundMode::Music => "Music"@,
        SurroundMode::Game => "Game"@,
        SurroundMode::Direct => "Direct"@,
        SurroundMode::PureDirect => "Pure Direct"@,
        SurroundMode::Stereo => "Stereo"@,
        SurroundMode::Auto => "Auto"@,
        SurroundMode::DolbyDigital => "Dolby Digital"@,
        SurroundMode::DtsSurround => "DTS Surround"@,
        SurroundMode::MultiChStereo => "Multi Ch Stereo"@,
        SurroundMode::RockArena => "Rock Arena"@,
        SurroundMode::JazzClub => "Jazz Club"@,
        SurroundMode::MonoMovie => "Mono Movie"@,
        SurroundMode::Matrix => "Matrix"@,
        SurroundMode::VideoGame => "Video Game"@,
        SurroundMode::Virtual => "Virtual"@,
    }
}

/// All sixteen modes, in menu order.
pub open spec fn mode_order() -> Seq<SurroundMode> {
    seq![
        SurroundMode::Movie,
        SurroundMode::Music,
        SurroundMode::Game,
        SurroundMode::Direct,
        SurroundMode::PureDirect,
        SurroundMode::Stereo,
        SurroundMode::Auto,
        SurroundMode::DolbyDigital,
        SurroundMode::DtsSurround,
        SurroundMode::MultiChStereo,
        SurroundMode::RockArena,
        SurroundMode::JazzClub,
        SurroundMode::MonoMovie,
        SurroundMode::Matrix,
        SurroundMode::VideoGame,
        SurroundMode::Virtual,
    ]
}

/// The surround mode a reply suffix names, after trimming and ASCII
/// uppercasing; an unrecognized suffix names none.
pub open spec fn mode_of_response(s: Seq<char>) -> Option<SurroundMode> {
    let u = upper_seq(trim_seq(s));
    if u == "MOVIE"@ {
        Some(SurroundMode::Movie)
    } else if u == "MUSIC"@ {
        Some(SurroundMode::Music)
    } else if u == "GAME"@ {
        Some(SurroundMode::Game)
    } else if u == "DIRECT"@ {
        Some(SurroundMode::Direct)
    } else if u == "PURE DIRECT"@ {
        Some(SurroundMode::PureDirect)
    } else if u == "STEREO"@ {
        Some(SurroundMode::Stereo)
    } else if u == "AUTO"@ {
        Some(SurroundMode::Auto)
    } else if u == "DOLBY DIGITAL"@ {
        Some(SurroundMode::DolbyDigital)
    } else if u == "DTS SURROUND"@ {
        Some(SurroundMode::DtsSurround)
    } else if u == "MCH STEREO"@ {
        Some(SurroundMode::MultiChStereo)
    } else if u == "ROCK ARENA"@ {
        Some(SurroundMode::RockArena)
    } else if u == "JAZZ CLUB"@ {
        Some(SurroundMode::JazzClub)
    } else if u == "MONO MOVIE"@ {
        Some(SurroundMode::MonoMovie)
    } else if u == "MATRIX"@ {
        Some(SurroundMode::Matrix)
    } else if u == "VIDEO GAME"@ {
        Some(SurroundMode::VideoGame)
    } else if u == "VIRTUAL"@ {
        Some(SurroundMode::Virtual)
    } else {
        None
    }
}

impl SurroundMode {
    /// The wire command token that selects this mode.
    pub fn command(&self) -> (r: &'static str)
        ensures
            r@ == mode_command(*self),
    {
        match self {
            SurroundMode::Movie => "MSMOVIE",
            SurroundMode::Music => "MSMUSIC",
            SurroundMode::Game => "MSGAME",
            SurroundMode::Direct => "MSDIRECT",
            SurroundMode::PureDirect => "MSPURE DIRECT",
            SurroundMode::Stereo => "MSSTEREO",
            SurroundMode::Auto => "MSAUTO",
            SurroundMode::DolbyDigital => "MSDOLBY DIGITAL",
            SurroundMode::DtsSurround => "MSDTS SURROUND",
            SurroundMode::MultiChStereo => "MSMCH STEREO",
            SurroundMode::RockArena => "MSROCK ARENA",
            SurroundMode::JazzClub => "MSJAZZ CLUB",
            SurroundMode::MonoMovie => "MSMONO MOVIE",
            SurroundMode::Matrix => "MSMATRIX",
            SurroundMode::VideoGame => "MSVIDEO GAME",
            SurroundMode::Virtual => "MSVIRTUAL",
        }
    }

    /// The human-readable name of this mode.
    pub fn display_name(&self) -> (r: &'static str)
        ensures
            r@ == mode_display(*self),
    {
        match self {
            SurroundMode::Movie => "Movie",
            SurroundMode::Music => "Music",
            SurroundMode::Game => "Game",
            SurroundMode::Direct => "Direct",
            SurroundMode::PureDirect => "Pure Direct",
            SurroundMode::Stereo => "Stereo",
            SurroundMode::Auto => "Auto",
            SurroundMode::DolbyDigital => "Dolby Digital",
            SurroundMode::DtsSurround => "DTS Surround",
            SurroundMode::MultiChStereo => "Multi Ch Stereo",
            SurroundMode::RockArena => "Rock Arena",
            SurroundMode::JazzClub => "Jazz Club",
            SurroundMode::MonoMovie => "Mono Movie",
            SurroundMode::Matrix => "Matrix",
            SurroundMode::VideoGame => "Video Game",
            SurroundMode::Virtual => "Virtual",
        }
    }

    /// All sixteen modes, in menu order.
    pub fn all() -> (r: Vec<SurroundMode>)
        ensures
            r@ == mode_order(),
    {
        let mut v: Vec<SurroundMode> = Vec::new();
        v.push(SurroundMode::Movie);
        v.push(SurroundMode::Music);
        v.push(SurroundMode::Game);
        v.push(SurroundMode::Direct);
        v.push(SurroundMode::PureDirect);
        v.push(SurroundMode::Stereo);
        v.push(SurroundMode::Auto);
        v.push(SurroundMode::DolbyDigital);
        v.push(SurroundMode::DtsSurround);
        v.push(SurroundMode::MultiChStereo);
        v.push(SurroundMode::RockArena);
        v.push(SurroundMode::JazzClub);
        v.push(SurroundMode::MonoMovie);
        v.push(SurroundMode::Matrix);
        v.push(SurroundMode::VideoGame);
        v.push(SurroundMode::Virtual);
        proof {
            assert(v@ =~= mode_order());
        }
        v
    }

    /// The mode a reply suffix names, matched after trimming and ASCII
    /// uppercasing.
    pub fn from_response(s: &str) -> (r: Option<SurroundMode>)
        ensures
            r == mode_of_response(s@),
    {
        let u0 = to_upper(trim_str(s));
        let u = u0.as_str();
        if str_eq(u, "MOVIE") {
            Some(SurroundMode::Movie)
        } else if str_eq(u, "MUSIC") {
            Some(SurroundMode::Music)
        } else if str_eq(u, "GAME") {
            Some(SurroundMode::Game)
        } else if str_eq(u, "DIRECT") {
            Some(SurroundMode::Direct)
        } else if str_eq(u, "PURE DIRECT") {
            Some(SurroundMode::PureDirect)
        } else if str_eq(u, "STEREO") {
            Some(SurroundMode::Stereo)
        } else if str_eq(u, "AUTO") {
            Some(SurroundMode::Auto)
        } else if str_eq(u, "DOLBY DIGITAL") {
            Some(SurroundMode::DolbyDigital)
        } else if str_eq(u, "DTS SURROUND") {
            Some(SurroundMode::DtsSurround)
        } else if str_eq(u, "MCH STEREO") {
            Some(SurroundMode::MultiChStereo)
        } else if str_eq(u, "ROCK ARENA") {
            Some(SurroundMode::RockArena)
        } else if str_eq(u, "JAZZ CLUB") {
            Some(SurroundMode::JazzClub)
        } else if str_eq(u, "MONO MOVIE") {
            Some(SurroundMode::MonoMovie)
        } else if str_eq(u, "MATRIX") {
            Some(SurroundMode::Matrix)
        } else if str_eq(u, "VIDEO GAME") {
            Some(SurroundMode::VideoGame)
        } else if str_eq(u, "VIRTUAL") {
            Some(SurroundMode::Virtual)
        } else {
            None
        }
    }
}

/// Quick-select memory slots of the receiver.
#[derive(Debug, Clone, Copy, PartialEq, Eq, Structural)]
pub enum QuickSelect {
    Quick1,
    Quick2,
    Quick3,
    Quick4,
    Quick5,
}

/// Wire command token of a quick-select slot.
pub open spec fn quick_select_command(q: QuickSelect) -> Seq<char> {
    match q {
        QuickSelect::Quick1 => "MSQUICK1"@,
        QuickSelect::Quick2 => "MSQUICK2"@,
        QuickSelect::Quick3 => "MSQUICK3"@,
        QuickSelect::Quick4 => "MSQUICK4"@,
        QuickSelect::Quick5 => "MSQUICK5"@,
    }
}

impl QuickSelect {
    /// The wire command token that recalls this slot.
    pub fn command(&self) -> (r: &'static str)
        ensures
            r@ == quick_select_command(*self),
    {
        match self {
            QuickSelect::Quick1 => "MSQUICK1",
            QuickSelect::Quick2 => "MSQUICK2",
            QuickSelect::Quick3 => "MSQUICK3",
            QuickSelect::Quick4 => "MSQUICK4",
            QuickSelect::Quick5 => "MSQUICK5",
        }
    }
}

// ---------------------------------------------------------------------------
// Mode round trip
// ---------------------------------------------------------------------------

/// Round trip through the mode table: for every named surround mode, the
/// suffix of its wire command token (the token less its two-character
/// prefix) names exactly that mode again when decoded as a reply suffix.
pub proof fn lemma_mode_token_round_trip(m: SurroundMode)
    ensures
        mode_of_response(mode_command(m).skip(2)) == Some(m),
{
    reveal_strlit("MOVIE");
    reveal_strlit("MUSIC");
    reveal_strlit("GAME");
    reveal_strlit("DIRECT");
    reveal_strlit("PURE DIRECT");
    reveal_strlit("STEREO");
    reveal_strlit("AUTO");
    reveal_strlit("DOLBY DIGITAL");
    reveal_strlit("DTS SURROUND");
    reveal_strlit("MCH STEREO");
    reveal_strlit("ROCK ARENA");
    reveal_strlit("JAZZ CLUB");
    reveal_strlit("MONO MOVIE");
    reveal_strlit("MATRIX");
    reveal_strlit("VIDEO GAME");
    reveal_strlit("VIRTUAL");
    let suffix = mode_command(m).skip(2);
    match m {
        SurroundMode::Movie => {
            reveal_strlit("MSMOVIE");
            assert(suffix =~= "MOVIE"@);
            lemma_upper_fixed(suffix);
        },
        SurroundMode::Music => {
            reveal_strlit("MSMUSIC");
            assert(suffix =~= "MUSIC"@);
            lemma_upper_fixed(suffix);
        },
        SurroundMode::Game => {
            reveal_strlit("MSGAME");
            assert(suffix =~= "GAME"@);
            lemma_upper_fixed(suffix);
        },
        SurroundMode::Direct => {
            reveal_strlit("MSDIRECT");
            assert(suffix =~= "DIRECT"@);
            lemma_upper_fixed(suffix);
        },
        SurroundMode::PureDirect => {
            reveal_strlit("MSPURE DIRECT");
            assert(suffix =~= "PURE DIRECT"@);
            lemma_upper_fixed(suffix);
        },
        SurroundMode::Stereo => {
            reveal_strlit("MSSTEREO");
            assert(suffix =~= "STEREO"@);
            lemma_upper_fixed(suffix);
        },
        SurroundMode::Auto => {
            reveal_strlit("MSAUTO");
            assert(suffix =~= "AUTO"@);
            lemma_upper_fixed(suffix);
        },
        SurroundMode::DolbyDigital => {
            reveal_strlit("MSDOLBY DIGITAL");
            assert(suffix =~= "DOLBY DIGITAL"@);
            lemma_upper_fixed(suffix);
        },
        SurroundMode::DtsSurround => {
            reveal_strlit("MSDTS SURROUND");
            assert(suffix =~= "DTS SURROUND"@);
            lemma_upper_fixed(suffix);
        },
        SurroundMode::MultiChStereo => {
            reveal_strlit("MSMCH STEREO");
            assert(suffix =~= "MCH STEREO"@);
            lemma_upper_fixed(suffix);
        },
        SurroundMode::RockArena => {
            reveal_strlit("MSROCK ARENA");
            assert(suffix =~= "ROCK ARENA"@);
            lemma_upper_fixed(suffix);
        },
        SurroundMode::JazzClub => {
            reveal_strlit("MSJAZZ CLUB");
            assert(suffix =~= "JAZZ CLUB"@);
            lemma_upper_fixed(suffix);
        },
        SurroundMode::MonoMovie => {
            reveal_strlit("MSMONO MOVIE");
            assert(suffix =~= "MONO MOVIE"@);
            lemma_upper_fixed(suffix);
        },
        SurroundMode::Matrix => {
            reveal_strlit("MSMATRIX");
            assert(suffix =~= "MATRIX"@);
            lemma_upper_fixed(suffix);
        },
        SurroundMode::VideoGame => {
            reveal_strlit("MSVIDEO GAME");
            assert(suffix =~= "VIDEO GAME"@);
            lemma_upper_fixed(suffix);
        },
        SurroundMode::Virtual => {
            reveal_strlit("MSVIRTUAL");
            assert(suffix =~= "VIRTUAL"@);
            lemma_upper_fixed(suffix);
        },
    }
}

/// A sequence without leading or trailing whitespace and without lowercase
/// letters is fixed by trimming and uppercasing.
proof fn lemma_upper_fixed(s: Seq<char>)
    requires
        s.len() > 0,
        !crate::strutil::is_space(s[0]),
        !crate::strutil::is_space(s.last()),
        forall|i: int| 0 <= i < s.len() ==> !('a' <= #[trigger] s[i] <= 'z'),
    ensures
        upper_seq(trim_seq(s)) == s,
{
    assert(trim_seq(s) == s);
    assert(upper_seq(s) =~= s) by {
        assert(forall|i: int|
            0 <= i < s.len() ==> #[trigger] upper_seq(s)[i] == crate::strutil::up_char(s[i]));
    }
}

/// No two distinct modes share a wire command token.
pub proof fn lemma_mode_command_injective(m1: SurroundMode, m2: SurroundMode)
    requires
        mode_command(m1) == mode_command(m2),
    ensures
        m1 == m2,
{
    lemma_mode_token_round_trip(m1);
    lemma_mode_token_round_trip(m2);
}

// ---------------------------------------------------------------------------
// Command lines
// ---------------------------------------------------------------------------

/// Frame one command for the wire: the carriage return the receiver expects
/// is appended.
pub fn frame_command(cmd: &str) -> (r: String)
    ensures
        r@ == cmd@ + seq!['\r'],
{
    proof {
        reveal_strlit("\r");
        assert("\r"@ =~= seq!['\r']);
    }
    let mut s = String::from_str(cmd);
    s.append("\r");
    s
}

/// The absolute master volume command, clamped to the device scale of 0 to
/// 98 and always written with two digits.
pub fn set_volume_command(level: u8) -> (r: String)
    ensures
        r@ == "MV"@ + two_digit_rep(if level <= 98 { level as nat } else { 98nat }),
{
    let clamped: u8 = if level <= 98 {
        level
    } else {
        98
    };
    let mut s = String::from_str("MV");
    s.append(u8_two_digits(clamped).as_str());
    s
}

/// The input selection command: the prefix followed by the input name
/// verbatim.
pub fn set_input_command(input: &str) -> (r: String)
    ensures
        r@ == "SI"@ + input@,
{
    let mut s = String::from_str("SI");
    s.append(input);
    s
}

/// The HDMI input selection command, with the port number clamped to 7.
pub fn input_hdmi_command(num: u8) -> (r: String)
    ensures
        r@ == "SIHDMI"@ + crate::strutil::dec_rep(if num <= 7 { num as nat } else { 7nat }),
{
    let clamped: u8 = if num <= 7 {
        num
    } else {
        7
    };
    let mut s = String::from_str("SIHDMI");
    s.append(crate::strutil::u64_to_string(clamped as u64).as_str());
    s
}

/// The dialog enhancer command: the level is clamped to 6, and level zero
/// turns the enhancer off.
pub fn dialog_enhancer_command(level: u8) -> (r: String)
    ensures
        ({
            let clamped: nat = if level <= 6 { level as nat } else { 6nat };
            if clamped == 0 {
                r@ == "PSDIL OFF"@
            } else {
                r@ == "PSDIL "@ + two_digit_rep(clamped)
            }
        }),
{
    let clamped: u8 = if level <= 6 {
        level
    } else {
        6
    };
    if clamped == 0 {
        String::from_str("PSDIL OFF")
    } else {
        let mut s = String::from_str("PSDIL ");
        s.append(u8_two_digits(clamped).as_str());
        s
    }
}

/// The dynamic volume command with its mode token appended verbatim.
pub fn dynamic_volume_command(mode: &str) -> (r: String)
    ensures
        r@ == "PSDYNVOL "@ + mode@,
{
    let mut s = String::from_str("PSDYNVOL ");
    s.append(mode);
    s
}

/// The five status queries issued together to refresh power, volume, mute,
/// input and surround mode.
pub fn query_status_commands() -> (r: Vec<&'static str>)
    ensures
        r@.len() == 5,
        r@[0]@ == "PW?"@,
        r@[1]@ == "MV?"@,
        r@[2]@ == "MU?"@,
        r@[3]@ == "SI?"@,
        r@[4]@ == "MS?"@,
{
    let mut v: Vec<&'static str> = Vec::new();
    v.push("PW?");
    v.push("MV?");
    v.push("MU?");
    v.push("SI?");
    v.push("MS?");
    v
}

/// The power-on command token.
pub fn power_on_command() -> (r: &'static str)
    ensures
        r@ == "PWON"@,
{
    "PWON"
}

/// The standby command token.
pub fn power_off_command() -> (r: &'static str)
    ensures
        r@ == "PWSTANDBY"@,
{
    "PWSTANDBY"
}

/// The power query token.
pub fn power_query_command() -> (r: &'static str)
    ensures
        r@ == "PW?"@,
{
    "PW?"
}

/// The volume step-up command token.
pub fn volume_up_command() -> (r: &'static str)
    ensures
        r@ == "MVUP"@,
{
    "MVUP"
}

/// The volume step-down command token.
pub fn volume_down_command() -> (r: &'static str)
    ensures
        r@ == "MVDOWN"@,
{
    "MVDOWN"
}

/// The volume query token.
pub fn volume_query_command() -> (r: &'static str)
    ensures
        r@ == "MV?"@,
{
    "MV?"
}

/// The mute-on command token.
pub fn mute_on_command() -> (r: &'static str)
    ensures
        r@ == "MUON"@,
{
    "MUON"
}

/// The mute-off command token.
pub fn mute_off_command() -> (r: &'static str)
    ensures
        r@ == "MUOFF"@,
{
    "MUOFF"
}

/// The mute query token. The wire protocol offers no mute toggle, so a
/// toggle degrades to this query; truly toggling is decided against the last
/// known state by the caller.
pub fn mute_query_command() -> (r: &'static str)
    ensures
        r@ == "MU?"@,
{
    "MU?"
}

/// The surround mode query token.
pub fn surround_query_command() -> (r: &'static str)
    ensures
        r@ == "MS?"@,
{
    "MS?"
}

/// The input query token.
pub fn input_query_command() -> (r: &'static str)
    ensures
        r@ == "SI?"@,
{
    "SI?"
}

/// The bass step-up command token.
pub fn bass_up_command() -> (r: &'static str)
    ensures
        r@ == "PSBAS UP"@,
{
    "PSBAS UP"
}

/// The bass step-down command token.
pub fn bass_down_command() -> (r: &'static str)
    ensures
        r@ == "PSBAS DOWN"@,
{
    "PSBAS DOWN"
}

/// The treble step-up command token.
pub fn treble_up_command() -> (r: &'static str)
    ensures
        r@ == "PSTRE UP"@,
{
    "PSTRE UP"
}

/// The treble step-down command token.
pub fn treble_down_command() -> (r: &'static str)
    ensures
        r@ == "PSTRE DOWN"@,
{
    "PSTRE DOWN"
}

/// The dynamic EQ on command token.
pub fn dynamic_eq_on_command() -> (r: &'static str)
    ensures
        r@ == "PSDYNEQ ON"@,
{
    "PSDYNEQ ON"
}

/// The dynamic EQ off command token.
pub fn dynamic_eq_off_command() -> (r: &'static str)
    ensures
        r@ == "PSDYNEQ OFF"@,
{
    "PSDYNEQ OFF"
}

/// The subwoofer level step-up command token.
pub fn subwoofer_up_command() -> (r: &'static str)
    ensures
        r@ == "PSSWL UP"@,
{
    "PSSWL UP"
}

/// The subwoofer level step-down command token.
pub fn subwoofer_down_command() -> (r: &'static str)
    ensures
        r@ == "PSSWL DOWN"@,
{
    "PSSWL DOWN"
}

/// The low-frequency-effects step-up command token.
pub fn lfe_up_command() -> (r: &'static str)
    ensures
        r@ == "PSLFE UP"@,
{
    "PSLFE UP"
}

/// The low-frequency-effects step-down command token.
pub fn lfe_down_command() -> (r: &'static str)
    ensures
        r@ == "PSLFE DOWN"@,
{
    "PSLFE DOWN"
}

/// The cinema EQ on command token.
pub fn cinema_eq_on_command() -> (r: &'static str)
    ensures
        r@ == "PSCINEMA EQ.ON"@,
{
    "PSCINEMA EQ.ON"
}

/// The cinema EQ off command token.
pub fn cinema_eq_off_command() -> (r: &'static str)
    ensures
        r@ == "PSCINEMA EQ.OFF"@,
{
    "PSCINEMA EQ.OFF"
}

} // verus!
