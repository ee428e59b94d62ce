use crate::text::{has_prefix, parse_u64, parse_u64_spec, starts_with, strings_view, trim, trim_str};
use vstd::prelude::*;

verus! {

/// The playback request that a command word and its evaluated arguments stand for.
#[derive(Debug)]
pub enum PlaybackCommand {
    Play,
    Pause,
    /// Skip this many tracks forward.
    Next(u8),
    /// Skip this many tracks back.
    Previous(u8),
    GetVolume,
    SetVolume(u8),
    /// Switch playback to the device of this name.
    Device(String),
    /// `device` was given no name.
    DeviceMissing,
    /// List the devices, human-readable if asked.
    Devices(bool),
    /// Show what is playing, human-readable if asked.
    Now(bool),
    /// Show the queue, human-readable if asked.
    Queue(bool),
    /// Add these URIs to the queue.
    QueueAdd(Vec<String>),
    /// Show this many recent tracks, human-readable if asked.
    Recent(u8, bool),
    Unknown,
}

/// A sequence without its leading double quotes.
pub open spec fn strip_quotes_start(s: Seq<char>) -> Seq<char>
    decreases s.len(),
{
    if s.len() > 0 && s[0] == '"' {
        strip_quotes_start(s.drop_first())
    } else {
        s
    }
}

/// A sequence without its trailing double quotes.
pub open spec fn strip_quotes_end(s: Seq<char>) -> Seq<char>
    decreases s.len(),
{
    if s.len() > 0 && s.last() == '"' {
        strip_quotes_end(s.drop_last())
    } else {
        s
    }
}

/// An argument as a playback command reads it: white space and then double
/// quotes taken off both ends.
pub open spec fn clean_arg(s: Seq<char>) -> Seq<char> {
    strip_quotes_end(strip_quotes_start(trim(s)))
}

/// The arguments that are not flags, cleaned.
pub open spec fn plain_args(args: Seq<Seq<char>>) -> Seq<Seq<char>>
    decreases args.len(),
{
    if args.len() == 0 {
        Seq::empty()
    } else if has_prefix(args.last(), seq!['-']) {
        plain_args(args.drop_last())
    } else {
        plain_args(args.drop_last()).push(clean_arg(args.last()))
    }
}

/// A count read from an argument: a decimal `u8`, or the default.
pub open spec fn count_or(args: Seq<Seq<char>>, default: u8) -> u8 {
    if args.len() > 0 && parse_u64_spec(args[0]) is Some && parse_u64_spec(args[0])->0 <= 255 {
        parse_u64_spec(args[0])->0 as u8
    } else {
        default
    }
}

proof fn lemma_strip_start_from(s: Seq<char>, i: int)
    requires
        0 <= i <= s.len(),
        forall|k: int| 0 <= k < i ==> #[trigger] s[k] == '"',
    ensures
        strip_quotes_start(s) == strip_quotes_start(s.subrange(i, s.len() as int)),
    decreases i,
{
    if i > 0 {
        assert(s.drop_first().subrange(i - 1, s.drop_first().len() as int) =~= s.subrange(
            i,
            s.len() as int,
        ));
        lemma_strip_start_from(s.drop_first(), i - 1);
    } else {
        assert(s.subrange(0, s.len() as int) =~= s);
    }
}

proof fn lemma_strip_end_to(s: Seq<char>, j: int)
    requires
        0 <= j <= s.len(),
        forall|k: int| j <= k < s.len() ==> #[trigger] s[k] == '"',
    ensures
        strip_quotes_end(s) == strip_quotes_end(s.subrange(0, j)),
    decreases s.len() - j,
{
    if j < s.len() {
        assert(s.drop_last().subrange(0, j) =~= s.subrange(0, j));
        lemma_strip_end_to(s.drop_last(), j);
    } else {
        assert(s.subrange(0, j) =~= s);
    }
}

fn strip_quotes(s: &str) -> (r: String)
    ensures
        r@ == strip_quotes_end(strip_quotes_start(s@)),
{
    let n = s.unicode_len();
    let mut i: usize = 0;
    while i < n && s.get_char(i) == '"'
        invariant
            n == s@.len(),
            0 <= i <= n,
            forall|k: int| 0 <= k < i ==> #[trigger] s@[k] == '"',
        decreases n - i,
    {
        i = i + 1;
    }
    proof {
        lemma_strip_start_from(s@, i as int);
    }
    let ghost t = s@.subrange(i as int, n as int);
    assert(strip_quotes_start(s@) == t) by {
        if i < n {
            assert(t[0] != '"');
        }
    }
    let mut j: usize = n;
    while j > i && s.get_char(j - 1) == '"'
        invariant
            n == s@.len(),
            i <= j <= n,
            t == s@.subrange(i as int, n as int),
            forall|k: int| j <= k < n ==> #[trigger] s@[k] == '"',
        decreases j,
    {
        j = j - 1;
    }
    proof {
        assert forall|k: int| j - i <= k < t.len() implies #[trigger] t[k] == '"' by {
            assert(t[k] == s@[i + k]);
        }
        lemma_strip_end_to(t, j - i);
        let u = t.subrange(0, j - i);
        assert(u =~= s@.subrange(i as int, j as int));
        if j > i {
            assert(u.last() == s@[j - 1]);
        }
    }
    String::from_str(s.substring_char(i, j))
}

fn plain_args_of(args: &Vec<String>) -> (r: Vec<String>)
    ensures
        strings_view(r@) == plain_args(strings_view(args@)),
{
    let mut out: Vec<String> = Vec::new();
    let mut i: usize = 0;
    assert(strings_view(args@).subrange(0, 0) =~= Seq::<Seq<char>>::empty());
    while i < args.len()
        invariant
            0 <= i <= args@.len(),
            strings_view(out@) == plain_args(strings_view(args@).subrange(0, i as int)),
        decreases args@.len() - i,
    {
        let ghost pre = strings_view(args@).subrange(0, i as int);
        let ghost next = strings_view(args@).subrange(0, i + 1);
        assert(next.drop_last() =~= pre);
        assert(next.last() == args@[i as int]@);
        proof {
            reveal_strlit("-");
        }
        assert("-"@ =~= seq!['-']);
        if !starts_with(args[i].as_str(), "-") {
            let trimmed = trim_str(args[i].as_str());
            let cleaned = strip_quotes(trimmed.as_str());
            let ghost before = out@;
            out.push(cleaned);
            assert(strings_view(out@) =~= strings_view(before).push(cleaned@));
        }
        i = i + 1;
    }
    assert(strings_view(args@).subrange(0, args@.len() as int) =~= strings_view(args@));
    out
}

fn count_arg(args: &Vec<String>, default: u8) -> (r: u8)
    ensures
        r == count_or(strings_view(args@), default),
{
    if args.len() == 0 {
        return default;
    }
    assert(strings_view(args@)[0] == args@[0]@);
    match parse_u64(args[0].as_str()) {
        Some(v) => if v <= 255 {
            v as u8
        } else {
            default
        },
        None => default,
    }
}

fn has_help_flag(args: &Vec<String>) -> (r: bool)
    ensures
        r == strings_view(args@).contains("-h"@),
{
    let h = String::from_str("-h");
    let mut k: usize = 0;
    while k < args.len()
        invariant
            0 <= k <= args@.len(),
            h@ == "-h"@,
            forall|j: int| 0 <= j < k ==> args@[j]@ != "-h"@,
        decreases args@.len() - k,
    {
        if args[k] == h {
            assert(strings_view(args@)[k as int] == "-h"@);
            return true;
        }
        k = k + 1;
    }
    assert forall|j: int| 0 <= j < args@.len() implies strings_view(args@)[j] != "-h"@ by {
        assert(strings_view(args@)[j] == args@[j]@);
    }
    false
}

/// What a command asks for, from its word and its evaluated arguments.
pub open spec fn command_plan_ok(command: Seq<char>, args: Seq<Seq<char>>, r: PlaybackCommand) -> bool {
    let nf = plain_args(args);
    let h = args.contains("-h"@);
    if command == "play"@ {
        r is Play
    } else if command == "pause"@ {
        r is Pause
    } else if command == "next"@ {
        r == PlaybackCommand::Next(count_or(nf, 1))
    } else if command == "previous"@ {
        r == PlaybackCommand::Previous(count_or(nf, 1))
    } else if command == "volume"@ {
        if nf.len() == 0 {
            r is GetVolume
        } else {
            r == PlaybackCommand::SetVolume(count_or(nf, 100))
        }
    } else if command == "device"@ {
        if nf.len() == 0 {
            r is DeviceMissing
        } else {
            r is Device && r->Device_0@ == nf[0]
        }
    } else if command == "devices"@ {
        r == PlaybackCommand::Devices(h)
    } else if command == "now"@ {
        r == PlaybackCommand::Now(h)
    } else if command == "queue"@ {
        if nf.len() == 0 {
            r == PlaybackCommand::Queue(h)
        } else {
            r is QueueAdd && strings_view(r->QueueAdd_0@) == nf
        }
    } else if command == "recent"@ {
        r == PlaybackCommand::Recent(count_or(nf, 20), h)
    } else {
        r is Unknown
    }
}

fn is_word(s: &str, w: &str) -> (r: bool)
    ensures
        r == (s@ == w@),
{
    String::from_str(s) == String::from_str(w)
}

/// Decides the playback request of a command. Flags (arguments that start
/// with `-`) are left out of the plain arguments; `-h` asks for
/// human-readable output.
pub fn plan_command(command: &str, args: &Vec<String>) -> (r: PlaybackCommand)
    ensures
        command_plan_ok(command@, strings_view(args@), r),
{
    let nf = plain_args_of(args);
    let h = has_help_flag(args);
    if is_word(command, "play") {
        PlaybackCommand::Play
    } else if is_word(command, "pause") {
        PlaybackCommand::Pause
    } else if is_word(command, "next") {
        PlaybackCommand::Next(count_arg(&nf, 1))
    } else if is_word(command, "previous") {
        PlaybackCommand::Previous(count_arg(&nf, 1))
    } else if is_word(command, "volume") {
        if nf.len() == 0 {
            PlaybackCommand::GetVolume
        } else {
            PlaybackCommand::SetVolume(count_arg(&nf, 100))
        }
    } else if is_word(command, "device") {
        if nf.len() == 0 {
            PlaybackCommand::DeviceMissing
        } else {
            assert(strings_view(nf@)[0] == nf@[0]@);
            PlaybackCommand::Device(nf[0].clone())
        }
    } else if is_word(command, "devices") {
        PlaybackCommand::Devices(h)
    } else if is_word(command, "now") {
        PlaybackCommand::Now(h)
    } else if is_word(command, "queue") {
        if nf.len() == 0 {
            PlaybackCommand::Queue(h)
        } else {
            PlaybackCommand::QueueAdd(nf)
        }
    } else if is_word(command, "recent") {
        PlaybackCommand::Recent(count_arg(&nf, 20), h)
    } else {
        PlaybackCommand::Unknown
    }
}

} // verus!
