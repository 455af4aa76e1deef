//! Decimal rendering of integers, and the track-duration text built from it.

use vstd::prelude::*;

verus! {

/// The decimal digit character for `d`.
pub open spec fn spec_digit(d: u64) -> char
    recommends
        d < 10,
{
    if d == 0 {
        '0'
    } else if d == 1 {
        '1'
    } else if d == 2 {
        '2'
    } else if d == 3 {
        '3'
    } else if d == 4 {
        '4'
    } else if d == 5 {
        '5'
    } else if d == 6 {
        '6'
    } else if d == 7 {
        '7'
    } else if d == 8 {
        '8'
    } else {
        '9'
    }
}

/// The decimal form of `n`, most significant digit first, no leading zeros.
pub open spec fn spec_dec(n: u64) -> Seq<char>
    decreases n,
{
    if n < 10 {
        seq![spec_digit(n)]
    } else {
        spec_dec(n / 10).push(spec_digit(n % 10))
    }
}

/// The numeric value of a decimal digit character; ten for anything else.
pub open spec fn spec_digit_value(c: char) -> u64 {
    if c == '0' {
        0
    } else if c == '1' {
        1
    } else if c == '2' {
        2
    } else if c == '3' {
        3
    } else if c == '4' {
        4
    } else if c == '5' {
        5
    } else if c == '6' {
        6
    } else if c == '7' {
        7
    } else if c == '8' {
        8
    } else if c == '9' {
        9
    } else {
        10
    }
}

/// The number a digit string denotes.
pub open spec fn spec_dec_value(s: Seq<char>) -> int
    decreases s.len(),
{
    if s.len() == 0 {
        0
    } else {
        spec_dec_value(s.drop_last()) * 10 + spec_digit_value(s.last())
    }
}

/// Law: the decimal form of a number, read back as a number, is the
/// number itself.
pub proof fn lemma_dec_round_trip(n: u64)
    ensures
        spec_dec_value(spec_dec(n)) == n,
    decreases n,
{
    if n < 10 {
        assert(spec_dec(n) =~= seq![spec_digit(n)]);
        assert(spec_dec(n).drop_last() =~= Seq::empty());
        assert(spec_dec(n).last() == spec_digit(n));
        assert(spec_digit_value(spec_digit(n)) == n);
        assert(spec_dec_value(Seq::<char>::empty()) == 0);
        assert(spec_dec_value(spec_dec(n)) == 0 * 10 + n);
    } else {
        lemma_dec_round_trip(n / 10);
        assert(spec_dec(n) == spec_dec(n / 10).push(spec_digit(n % 10)));
        assert(spec_dec(n).drop_last() =~= spec_dec(n / 10));
        assert(spec_dec(n).last() == spec_digit(n % 10));
        assert(spec_digit_value(spec_digit(n % 10)) == n % 10);
        assert(spec_dec_value(spec_dec(n)) == (n / 10) * 10 + (n % 10));
    }
}

/// `n` in decimal, padded with one leading zero up to two digits.
pub open spec fn spec_two_digits(n: u64) -> Seq<char> {
    if n < 10 {
        seq!['0'] + spec_dec(n)
    } else {
        spec_dec(n)
    }
}

fn digit_str(d: u64) -> (r: &'static str)
    requires
        d < 10,
    ensures
        r@ == seq![spec_digit(d)],
{
    proof {
        reveal_strlit("0");
        reveal_strlit("1");
        reveal_strlit("2");
        reveal_strlit("3");
        reveal_strlit("4");
        reveal_strlit("5");
        reveal_strlit("6");
        reveal_strlit("7");
        reveal_strlit("8");
        reveal_strlit("9");
    }
    let r = if d == 0 {
        "0"
    } else if d == 1 {
        "1"
    } else if d == 2 {
        "2"
    } else if d == 3 {
        "3"
    } else if d == 4 {
        "4"
    } else if d == 5 {
        "5"
    } else if d == 6 {
        "6"
    } else if d == 7 {
        "7"
    } else if d == 8 {
        "8"
    } else {
        "9"
    };
    assert(r@ =~= seq![spec_digit(d)]);
    r
}

/// Renders `n` in decimal.
pub fn u64_to_string(n: u64) -> (r: String)
    ensures
        r@ == spec_dec(n),
    decreases n,
{
    if n < 10 {
        digit_str(n).to_owned()
    } else {
        let mut r = u64_to_string(n / 10);
        r.append(digit_str(n % 10));
        assert(r@ =~= spec_dec(n));
        r
    }
}

/// Renders `n` in decimal, zero-padded up to two digits.
pub fn two_digits(n: u64) -> (r: String)
    ensures
        r@ == spec_two_digits(n),
{
    if n < 10 {
        let mut r = "0".to_owned();
        r.append(u64_to_string(n).as_str());
        proof {
            reveal_strlit("0");
        }
        assert(r@ =~= spec_two_digits(n));
        r
    } else {
        u64_to_string(n)
    }
}

/// The display text for a track's run time, given in ticks of 100 ns:
/// `h:mm:ss` when there is a whole hour, `mm:ss` otherwise.
pub open spec fn spec_duration_text(ticks: u64) -> Seq<char> {
    let total = ticks / 10_000_000;
    let seconds = total % 60;
    let minutes = (total / 60) % 60;
    let hours = total / 60 / 60;
    let head = if hours == 0 {
        Seq::<char>::empty()
    } else {
        spec_dec(hours) + seq![':']
    };
    head + spec_two_digits(minutes) + seq![':'] + spec_two_digits(seconds)
}

/// Renders a track's run time, as [`spec_duration_text`] describes it.
pub fn duration_text(ticks: u64) -> (r: String)
    ensures
        r@ == spec_duration_text(ticks),
{
    proof {
        reveal_strlit(":");
    }
    let total = ticks / 10_000_000;
    let seconds = total % 60;
    let minutes = (total / 60) % 60;
    let hours = total / 60 / 60;
    let mut r = if hours == 0 {
        String::new()
    } else {
        let mut h = u64_to_string(hours);
        h.append(":");
        h
    };
    r.append(two_digits(minutes).as_str());
    r.append(":");
    r.append(two_digits(seconds).as_str());
    assert(r@ =~= spec_duration_text(ticks));
    r
}

/// The title a track is listed under: its name, then its album.
pub fn track_title(song: &crate::entities::DiscographySong) -> (r: String)
    ensures
        r@ == song@.name + " - "@ + song@.album,
{
    let mut r = song.name.clone();
    r.append(" - ");
    r.append(song.album.as_str());
    assert(r@ =~= song@.name + " - "@ + song@.album);
    r
}

/// The time column of a listed track: two spaces, the run time, and a
/// lyrics marker when the track has lyrics.
pub open spec fn spec_track_time_text(run_time_ticks: u64, has_lyrics: bool) -> Seq<char> {
    "  "@ + spec_duration_text(run_time_ticks) + if has_lyrics {
        " (l)"@
    } else {
        Seq::empty()
    }
}

/// Renders a track's time column, as [`spec_track_time_text`] describes it.
pub fn track_time_text(song: &crate::entities::DiscographySong) -> (r: String)
    ensures
        r@ == spec_track_time_text(song@.run_time_ticks, song@.has_lyrics),
{
    let mut r = "  ".to_owned();
    r.append(duration_text(song.run_time_ticks).as_str());
    if song.has_lyrics {
        r.append(" (l)");
    }
    assert(r@ =~= spec_track_time_text(song@.run_time_ticks, song@.has_lyrics));
    r
}

} // verus!
