//! The daemon's line protocol: greeting, key/value lines, and the
//! current-track response.
//!
//! The TCP transport lives outside the crate; the raw lines it reads are
//! handed in here and parsed with exact contracts.

use vstd::prelude::*;
use vstd::string::*;

use crate::errors::AppError;
use crate::text::is_prefix;
use crate::text::pairs_view;
use crate::text::spec_find;
use crate::text::trimmed;
use crate::text::find_sub;
use crate::text::lemma_find_first;
use crate::text::lemma_find_none;
use crate::text::starts_with;
use crate::text::str_eq;
use crate::text::trim;

verus! {

/// The single command a run sends to the daemon.
pub fn current_song_command() -> (r: &'static str)
    ensures
        r@ == "currentsong"@,
{
    "currentsong"
}

/// Check the daemon's greeting line and extract the protocol version.
///
/// The line must start with the literal prefix `"OK MPD "`; the remainder,
/// trimmed, is the version. Anything else is a protocol error.
pub fn parse_greeting(line: &str) -> (r: Result<String, AppError>)
    ensures
        r is Ok <==> is_prefix(line@, "OK MPD "@),
        r matches Ok(v) ==> v@ == trimmed(
            line@.subrange("OK MPD "@.len() as int, line@.len() as int),
        ),
        r matches Err(e) ==> e is Protocol && e.spec_message() == "unexpected greeting: "@
            + line@,
{
    let prefix = "OK MPD ";
    if starts_with(line, prefix) {
        let plen = prefix.unicode_len();
        let len = line.unicode_len();
        let rest = line.substring_char(plen, len);
        Ok(trim(rest))
    } else {
        Err(AppError::Protocol(String::from_str("unexpected greeting: ").concat(line)))
    }
}

/// Where a key/value line splits: at the first `": "`, the key before it and
/// the value after it, both trimmed.
pub open spec fn spec_split_kv(t: Seq<char>) -> Option<(Seq<char>, Seq<char>)> {
    match spec_find(t, ": "@) {
        None => None,
        Some(i) => Some(
            (
                trimmed(t.subrange(0, i)),
                trimmed(t.subrange(i + ": "@.len() as int, t.len() as int)),
            ),
        ),
    }
}

/// Split one daemon line into its key and value.
///
/// The line must contain the separator `": "`; the split happens at its
/// first occurrence, and both parts are trimmed. A line without the
/// separator is a parse error carrying the line itself.
pub fn parse_kv_line(line: &str) -> (r: Result<(String, String), AppError>)
    ensures
        r is Ok <==> spec_split_kv(line@) is Some,
        r matches Ok(kv) ==> spec_split_kv(line@) == Some((kv.0@, kv.1@)),
        r matches Err(e) ==> e is Parse && e.spec_message() == line@,
{
    let sep = ": ";
    match find_sub(line, sep) {
        Some(i) => {
            proof {
                lemma_find_first(line@, sep@, i as int);
            }
            let sep_len = sep.unicode_len();
            let len = line.unicode_len();
            let key = line.substring_char(0, i);
            let value = line.substring_char(i + sep_len, len);
            Ok((trim(key), trim(value)))
        },
        None => {
            proof {
                lemma_find_none(line@, sep@);
            }
            Err(AppError::Parse(line.to_owned()))
        },
    }
}

/// Is this line the last one of a daemon reply? True for the `"OK"`
/// terminator and for an `"ACK"` failure line, after trimming; the transport
/// stops reading when it sees one.
pub fn response_complete(line: &str) -> (r: bool)
    ensures
        r == (trimmed(line@) == "OK"@ || is_prefix(trimmed(line@), "ACK"@)),
{
    let t = trim(line);
    str_eq(t.as_str(), "OK") || starts_with(t.as_str(), "ACK")
}

/// The current track's properties, as key/value pairs in arrival order.
///
/// Lookups return the value of the last pair with the asked-for key, so a
/// duplicate key's last occurrence wins.
#[derive(Debug)]
pub struct TrackProperties {
    pub entries: Vec<(String, String)>,
}

impl View for TrackProperties {
    type V = Seq<(Seq<char>, Seq<char>)>;

    open spec fn view(&self) -> Seq<(Seq<char>, Seq<char>)> {
        pairs_view(self.entries@)
    }
}

impl TrackProperties {
    /// The value of the last pair carrying `key`, if any.
    pub open spec fn spec_lookup(ps: Seq<(Seq<char>, Seq<char>)>, key: Seq<char>) -> Option<
        Seq<char>,
    >
        decreases ps.len(),
    {
        if ps.len() == 0 {
            None
        } else if ps.last().0 == key {
            Some(ps.last().1)
        } else {
            Self::spec_lookup(ps.drop_last(), key)
        }
    }

    /// An empty property set.
    pub fn new() -> (r: Self)
        ensures
            r@ == Seq::<(Seq<char>, Seq<char>)>::empty(),
    {
        let r = TrackProperties { entries: Vec::new() };
        proof {
            assert(r@ =~= Seq::<(Seq<char>, Seq<char>)>::empty());
        }
        r
    }

    /// Look `key` up; the last occurrence wins.
    pub fn get(&self, key: &str) -> (r: Option<&String>)
        ensures
            match r {
                Some(v) => Self::spec_lookup(self@, key@) == Some(v@),
                None => Self::spec_lookup(self@, key@) is None,
            },
    {
        let mut i: usize = self.entries.len();
        proof {
            assert(self@.take(i as int) =~= self@);
        }
        loop
            invariant
                0 <= i <= self.entries.len(),
                self@.len() == self.entries@.len(),
                Self::spec_lookup(self@, key@) == Self::spec_lookup(self@.take(i as int), key@),
            decreases i,
        {
            if i == 0 {
                return None;
            }
            i -= 1;
            let pair = &self.entries[i];
            proof {
                assert(self@[i as int] == (self.entries@[i as int].0@, self.entries@[i as int].1@));
                assert(self@.take(i + 1).last() == self@[i as int]);
                assert(self@.take(i + 1).drop_last() =~= self@.take(i as int));
            }
            if str_eq(pair.0.as_str(), key) {
                return Some(&pair.1);
            }
        }
    }
}

/// What a full daemon reply means, once each line is trimmed: the collected
/// pairs up to the `"OK"` terminator, an `ACK` failure line, a line without
/// the separator, or a reply that ended without a terminator.
pub enum DaemonReply {
    Props(Seq<(Seq<char>, Seq<char>)>),
    Ack(Seq<char>),
    Malformed(Seq<char>),
    Unterminated,
}

/// The meaning of the reply lines `lines`, with `acc` the pairs already
/// collected.
pub open spec fn spec_daemon_reply(lines: Seq<Seq<char>>, acc: Seq<(Seq<char>, Seq<char>)>) -> DaemonReply
    decreases lines.len(),
{
    if lines.len() == 0 {
        DaemonReply::Unterminated
    } else {
        let t = trimmed(lines[0]);
        if t == "OK"@ {
            DaemonReply::Props(acc)
        } else if is_prefix(t, "ACK"@) {
            DaemonReply::Ack(t)
        } else {
            match spec_split_kv(t) {
                None => DaemonReply::Malformed(t),
                Some(kv) => spec_daemon_reply(lines.drop_first(), acc.push(kv)),
            }
        }
    }
}

/// The view of a list of raw reply lines.
pub open spec fn lines_view(ls: Seq<String>) -> Seq<Seq<char>> {
    ls.map_values(|l: String| l@)
}

/// Parse a full daemon reply into the current track's properties.
///
/// Lines are trimmed and read in order until a line equal to `"OK"` (success,
/// terminator excluded from the result) or one starting with `"ACK"` (a
/// protocol error carrying the daemon's message). Every other line must
/// split at `": "`; the pairs are collected in order, so a duplicate key's
/// last occurrence wins on lookup.
pub fn parse_response(lines: &Vec<String>) -> (r: Result<TrackProperties, AppError>)
    ensures
        match spec_daemon_reply(lines_view(lines@), Seq::empty()) {
            DaemonReply::Props(ps) => r matches Ok(p) && p@ == ps,
            DaemonReply::Ack(t) => r matches Err(e) && e is Protocol && e.spec_message() == t,
            DaemonReply::Malformed(t) => r matches Err(e) && e is Parse && e.spec_message() == t,
            DaemonReply::Unterminated => r matches Err(e) && e is Protocol && e.spec_message()
                == "response ended without a terminator"@,
        },
{
    let mut props = TrackProperties::new();
    let mut idx: usize = 0;
    let n = lines.len();
    proof {
        assert(lines_view(lines@).skip(0) =~= lines_view(lines@));
    }
    loop
        invariant
            0 <= idx <= n,
            n == lines@.len(),
            lines_view(lines@).len() == n,
            spec_daemon_reply(lines_view(lines@), Seq::empty()) == spec_daemon_reply(
                lines_view(lines@).skip(idx as int),
                props@,
            ),
        decreases n - idx,
    {
        if idx == n {
            return Err(AppError::Protocol(String::from_str("response ended without a terminator")));
        }
        proof {
            assert(lines_view(lines@)[idx as int] == lines@[idx as int]@);
            assert(lines_view(lines@).skip(idx as int)[0] == lines_view(lines@)[idx as int]);
        }
        let t = trim(lines[idx].as_str());
        if str_eq(t.as_str(), "OK") {
            return Ok(props);
        }
        if starts_with(t.as_str(), "ACK") {
            return Err(AppError::Protocol(t));
        }
        match parse_kv_line(t.as_str()) {
            Ok(kv) => {
                proof {
                    assert(lines_view(lines@).skip(idx as int).drop_first() =~= lines_view(
                        lines@,
                    ).skip(idx + 1));
                    assert(pairs_view(props.entries@.push(kv)) =~= props@.push((kv.0@, kv.1@)));
                }
                props.entries.push(kv);
                idx += 1;
            },
            Err(e) => {
                return Err(e);
            },
        }
    }
}

} // verus!
