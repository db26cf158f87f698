use vstd::prelude::*;

use crate::sync_mode::{relays_to_link, SyncMode};

verus! {

/// The character for a decimal digit `d < 10`.
pub open spec fn digit_char(d: nat) -> char {
    (48 + d) as char
}

/// The decimal representation of `n`, most significant digit first, without leading zeros.
pub open spec fn decimal(n: nat) -> Seq<char>
    decreases n,
{
    if n < 10 {
        seq![digit_char(n)]
    } else {
        decimal(n / 10) + seq![digit_char(n % 10)]
    }
}

/// Whether a character is one of the ASCII digits `0` to `9`.
pub open spec fn is_ascii_digit(c: char) -> bool {
    '0' <= c <= '9'
}

/// The number that a string of ASCII digits denotes in base 10, most significant first.
pub open spec fn base10_value(digits: Seq<char>) -> int
    decreases digits.len(),
{
    if digits.len() == 0 {
        0
    } else {
        base10_value(digits.drop_last()) * 10 + (digits.last() as int - '0' as int)
    }
}

/// The decimal representation of a number is a non-empty string of ASCII digits that reads
/// back, in base 10, as the number itself; it has no leading zero unless it is `0`.
pub proof fn lemma_decimal_reads_back(n: nat)
    ensures
        decimal(n).len() > 0,
        forall|i: int| 0 <= i < decimal(n).len() ==> is_ascii_digit(#[trigger] decimal(n)[i]),
        base10_value(decimal(n)) == n,
        decimal(n)[0] == '0' ==> n == 0,
    decreases n,
{
    assert(digit_char(n % 10) as int == 48 + n % 10);
    if n < 10 {
        assert(decimal(n).drop_last() =~= Seq::<char>::empty());
        assert(base10_value(decimal(n).drop_last()) == 0);
    } else {
        lemma_decimal_reads_back(n / 10);
        let d = decimal(n);
        assert(d.drop_last() =~= decimal(n / 10));
        assert(d.last() == digit_char(n % 10));
        assert(forall|i: int| 0 <= i < d.len() - 1 ==> d[i] == decimal(n / 10)[i]);
        assert(d[0] == decimal(n / 10)[0]);
        assert(base10_value(d) == base10_value(decimal(n / 10)) * 10 + (n % 10));
        assert((n / 10) * 10 + n % 10 == n);
    }
}

/// The text that names the tempo master player: `P` and its device number, or `---` when
/// no player is master.
pub open spec fn master_device_label(device: Option<u8>) -> Seq<char> {
    match device {
        Some(d) => seq!['P'] + decimal(d as nat),
        None => seq!['-', '-', '-'],
    }
}

fn digit_text(d: u64) -> (text: &'static str)
    requires
        d < 10,
    ensures
        text@ == seq![digit_char(d as nat)],
{
    proof {
        reveal_strlit("0");
        reveal_strlit("1");
        reveal_strlit("2");
        reveal_strlit("3");
        reveal_strlit("4");
        reveal_strlit("5");
        reveal_strlit("6");
        reveal_strlit("7");
        reveal_strlit("8");
        reveal_strlit("9");
    }
    if d == 0 {
        "0"
    } else if d == 1 {
        "1"
    } else if d == 2 {
        "2"
    } else if d == 3 {
        "3"
    } else if d == 4 {
        "4"
    } else if d == 5 {
        "5"
    } else if d == 6 {
        "6"
    } else if d == 7 {
        "7"
    } else if d == 8 {
        "8"
    } else {
        "9"
    }
}

/// The master label of a player is `P` followed by digits that read back as its device
/// number; with no master it is `---`, which no player's label is.
pub proof fn lemma_master_label_names_device(device: Option<u8>)
    ensures
        device matches Some(d) ==> ({
            let label = master_device_label(device);
            &&& label[0] == 'P'
            &&& label.len() >= 2
            &&& forall|i: int| 1 <= i < label.len() ==> is_ascii_digit(#[trigger] label[i])
            &&& base10_value(label.drop_first()) == d
        }),
        device is None ==> master_device_label(device) == seq!['-', '-', '-'],
{
    if let Some(d) = device {
        lemma_decimal_reads_back(d as nat);
        let label = master_device_label(device);
        assert(label.drop_first() =~= decimal(d as nat));
        assert(forall|i: int| 1 <= i < label.len() ==> label[i] == decimal(d as nat)[i - 1]);
    }
}

/// Appends the decimal representation of `n` to `text`.
pub fn append_decimal(text: &mut String, n: u64)
    ensures
        final(text)@ == old(text)@ + decimal(n as nat),
    decreases n,
{
    if n >= 10 {
        append_decimal(text, n / 10);
    }
    text.append(digit_text(n % 10));
    proof {
        if n >= 10 {
            assert(old(text)@ + decimal(n as nat) =~= old(text)@ + decimal((n / 10) as nat) + seq![
                digit_char((n % 10) as nat),
            ]);
        }
    }
}

/// Formats the tempo master device for display: `P1`, `P3`, ... or `---`.
pub fn format_master_device(device: Option<u8>) -> (label: String)
    ensures
        label@ == master_device_label(device),
{
    match device {
        Some(d) => {
            proof {
                reveal_strlit("P");
            }
            let mut label = String::from_str("P");
            append_decimal(&mut label, d as u64);
            label
        },
        None => {
            proof {
                reveal_strlit("---");
            }
            String::from_str("---")
        },
    }
}

/// The beat that the phase bar marks: the current beat, held to the last beat of the bar.
pub open spec fn marked_beat(phase_beat: nat, beats: nat) -> nat {
    if phase_beat < beats - 1 {
        phase_beat
    } else {
        (beats - 1) as nat
    }
}

/// One cell of the phase bar: full for the marked beat, light for the others.
pub open spec fn phase_cell(i: int, marked: nat) -> char {
    if i == marked {
        '█'
    } else {
        '░'
    }
}

/// The phase bar `[█░░░]`: one cell per beat of the quantum with the current beat marked,
/// or nothing at all for a quantum of no beats.
pub open spec fn phase_bar(phase_beat: nat, beats: nat) -> Seq<char> {
    if beats == 0 {
        Seq::empty()
    } else {
        seq!['['] + Seq::new(beats, |i: int| phase_cell(i, marked_beat(phase_beat, beats)))
            + seq![']']
    }
}

/// A phase bar of a non-empty quantum has one cell per beat between its brackets, and
/// exactly one cell is full: the current beat, or the last beat when the phase lies at or
/// past it.
pub proof fn lemma_phase_bar_marks_one_beat(phase_beat: nat, beats: nat)
    requires
        beats > 0,
    ensures
        phase_bar(phase_beat, beats).len() == beats + 2,
        phase_bar(phase_beat, beats)[0] == '[',
        phase_bar(phase_beat, beats)[beats + 1int] == ']',
        marked_beat(phase_beat, beats) < beats,
        phase_beat < beats ==> marked_beat(phase_beat, beats) == phase_beat,
        phase_beat >= beats ==> marked_beat(phase_beat, beats) == beats - 1,
        forall|i: int|
            1 <= i <= beats ==> (#[trigger] phase_bar(phase_beat, beats)[i] == '█' <==> i - 1
                == marked_beat(phase_beat, beats)),
{
    let bar = phase_bar(phase_beat, beats);
    let marked = marked_beat(phase_beat, beats);
    assert forall|i: int| 1 <= i <= beats implies (#[trigger] bar[i] == '█' <==> i - 1
        == marked) by {
        assert(bar[i] == phase_cell(i - 1, marked));
    }
}

/// Renders the phase bar for a quantum of `beats` beats when the current beat (the whole
/// part of the phase) is `phase_beat`; a phase at or past the last beat marks the last beat.
pub fn render_phase_bar(phase_beat: usize, beats: usize) -> (bar: String)
    ensures
        bar@ == phase_bar(phase_beat as nat, beats as nat),
{
    if beats == 0 {
        return String::new();
    }
    let current = if phase_beat < beats - 1 {
        phase_beat
    } else {
        beats - 1
    };
    let ghost marked = marked_beat(phase_beat as nat, beats as nat);
    proof {
        reveal_strlit("[");
        reveal_strlit("]");
    }
    let mut bar = String::from_str("[");
    for i in 0..beats
        invariant
            current == marked,
            marked < beats,
            bar@ =~= seq!['['] + Seq::new(i as nat, |k: int| phase_cell(k, marked)),
    {
        proof {
            reveal_strlit("█");
            reveal_strlit("░");
        }
        if i == current {
            bar.append("█");
        } else {
            bar.append("░");
        }
        assert(seq!['['] + Seq::new((i + 1) as nat, |k: int| phase_cell(k, marked))
            =~= seq!['['] + Seq::new(i as nat, |k: int| phase_cell(k, marked)) + seq![
            phase_cell(i as int, marked),
        ]);
    }
    bar.append("]");
    bar
}

/// The transport icon of the status line.
pub open spec fn play_icon(playing: bool) -> Seq<char> {
    if playing {
        "▶"@
    } else {
        "⏸"@
    }
}

/// The direction icon of a sync mode in the status line.
pub open spec fn mode_icon(mode: SyncMode) -> Seq<char> {
    match mode {
        SyncMode::Master => "CDJ→Link"@,
        SyncMode::Slave => "Link→CDJ"@,
        SyncMode::Bidirectional => "CDJ⇄Link"@,
    }
}

/// `peer` for one Link peer, `peers` for any other number.
pub open spec fn peer_word(link_peers: nat) -> Seq<char> {
    if link_peers == 1 {
        "peer"@
    } else {
        "peers"@
    }
}

/// The one-line status: transport, tempo, direction, tempo master, Link peers, phase bar and
/// sync indicator, led by a carriage return so that it overwrites the previous line.
pub open spec fn status_line(
    playing: bool,
    bpm_text: Seq<char>,
    mode: SyncMode,
    master_device: Option<u8>,
    link_peers: nat,
    phase_bar: Seq<char>,
    sync_indicator: Seq<char>,
) -> Seq<char> {
    "\r  "@ + play_icon(playing) + " "@ + bpm_text + " BPM │ "@ + mode_icon(mode) + " │ Master: "@
        + master_device_label(master_device) + " │ Link: "@ + decimal(link_peers) + " "@
        + peer_word(link_peers) + " │ Phase: "@ + phase_bar + " │ "@ + sync_indicator + "   "@
}

/// One Link peer is counted in the singular and every other number of peers in the
/// plural: the word is `peer`, with an `s` exactly when the count is not one.
pub proof fn lemma_peer_word_agrees(link_peers: nat)
    ensures
        peer_word(link_peers).subrange(0, 4) == seq!['p', 'e', 'e', 'r'],
        peer_word(link_peers).len() == if link_peers == 1 { 4int } else { 5int },
        link_peers != 1 ==> peer_word(link_peers)[4] == 's',
{
    reveal_strlit("peer");
    reveal_strlit("peers");
    assert(peer_word(link_peers).subrange(0, 4) =~= seq!['p', 'e', 'e', 'r']);
}

/// Each sync mode has its own direction icon, and each icon reads from the side followed to
/// the side that follows: `CDJ` first when the CDJs lead, `Link` first when Link leads.
pub proof fn lemma_mode_icons_distinct(a: SyncMode, b: SyncMode)
    ensures
        a != b ==> mode_icon(a) != mode_icon(b),
        mode_icon(a).len() == 8,
        relays_to_link(a) ==> mode_icon(a).subrange(0, 3) == seq!['C', 'D', 'J'],
        !relays_to_link(a) ==> mode_icon(a).subrange(0, 4) == seq!['L', 'i', 'n', 'k'],
{
    reveal_strlit("CDJ→Link");
    reveal_strlit("Link→CDJ");
    reveal_strlit("CDJ⇄Link");
    assert(mode_icon(SyncMode::Master)[3] == '→');
    assert(mode_icon(SyncMode::Bidirectional)[3] == '⇄');
    assert(mode_icon(SyncMode::Slave)[0] == 'L');
    assert(mode_icon(a).subrange(0, 3) =~= seq![mode_icon(a)[0], mode_icon(a)[1], mode_icon(a)[2]]);
    assert(mode_icon(a).subrange(0, 4) =~= seq![
        mode_icon(a)[0],
        mode_icon(a)[1],
        mode_icon(a)[2],
        mode_icon(a)[3],
    ]);
}

/// The direction icon of a sync mode.
pub fn format_mode_icon(mode: SyncMode) -> (icon: &'static str)
    ensures
        icon@ == mode_icon(mode),
{
    match mode {
        SyncMode::Master => "CDJ→Link",
        SyncMode::Slave => "Link→CDJ",
        SyncMode::Bidirectional => "CDJ⇄Link",
    }
}

/// Composes the status line from its parts; `bpm_text`, `phase_bar` and `sync_indicator`
/// come already rendered.
pub fn format_status_line(
    playing: bool,
    bpm_text: &str,
    mode: SyncMode,
    master_device: Option<u8>,
    link_peers: usize,
    phase_bar: &str,
    sync_indicator: &str,
) -> (line: String)
    ensures
        line@ == status_line(
            playing,
            bpm_text@,
            mode,
            master_device,
            link_peers as nat,
            phase_bar@,
            sync_indicator@,
        ),
{
    let mut line = String::new();
    line.append("\r  ");
    if playing {
        line.append("▶");
    } else {
        line.append("⏸");
    }
    line.append(" ");
    line.append(bpm_text);
    line.append(" BPM │ ");
    line.append(format_mode_icon(mode));
    line.append(" │ Master: ");
    let master = format_master_device(master_device);
    line.append(master.as_str());
    line.append(" │ Link: ");
    append_decimal(&mut line, link_peers as u64);
    line.append(" ");
    if link_peers == 1 {
        line.append("peer");
    } else {
        line.append("peers");
    }
    line.append(" │ Phase: ");
    line.append(phase_bar);
    line.append(" │ ");
    line.append(sync_indicator);
    line.append("   ");
    assert(line@ =~= status_line(
        playing,
        bpm_text@,
        mode,
        master_device,
        link_peers as nat,
        phase_bar@,
        sync_indicator@,
    ));
    line
}

} // verus!
