//! The incremental renderer: keeps the last-known value of each dashboard
//! field and recomputes the full two-line repaint whenever any field changes.
//! The repaint text embeds the cursor-restore and line-erase escape sequences,
//! so printing it verbatim redraws the region in place, without scrolling and
//! without leaving stale characters. The repaint is a pure function of the
//! state: repainting an unchanged state yields byte-identical output.

use vstd::prelude::*;

use crate::media_status::{MediaDuration, PlayStatus, TrackInfo, NANOS_PER_SEC};

verus! {

/// Last-known value of each dashboard field. Absence is meaningful and
/// distinct per field: a missing `aumid` means no active session, while a
/// present `aumid` with a missing `info` means a session whose metadata has
/// not arrived yet.
#[verifier::ext_equal]
pub struct Ui {
    pub aumid: Option<String>,
    pub info: Option<TrackInfo>,
    pub status: Option<PlayStatus>,
    pub position: Option<MediaDuration>,
    pub length: Option<MediaDuration>,
}

/// Status glyph: `>` playing, `|` paused, `_` stopped, `?` anything else.
pub open spec fn status_char_spec(status: Option<PlayStatus>) -> char {
    match status {
        Some(PlayStatus::Playing) => '>',
        Some(PlayStatus::Paused) => '|',
        Some(PlayStatus::Stopped) => '_',
        _ => '?',
    }
}

pub open spec fn digit_char(d: int) -> char {
    if d == 0 {
        '0'
    } else if d == 1 {
        '1'
    } else if d == 2 {
        '2'
    } else if d == 3 {
        '3'
    } else if d == 4 {
        '4'
    } else if d == 5 {
        '5'
    } else if d == 6 {
        '6'
    } else if d == 7 {
        '7'
    } else if d == 8 {
        '8'
    } else {
        '9'
    }
}

/// Decimal numeral of `n`, most significant digit first, without leading
/// zeros.
pub open spec fn dec_spec(n: nat) -> Seq<char>
    decreases n,
{
    if n < 10 {
        seq![digit_char(n as int)]
    } else {
        dec_spec(n / 10).push(digit_char((n % 10) as int))
    }
}

/// Decimal numeral zero-padded to a minimum width of two.
pub open spec fn pad2_spec(n: nat) -> Seq<char> {
    if n < 10 {
        seq!['0', digit_char(n as int)]
    } else {
        dec_spec(n)
    }
}

/// Decimal numeral right-aligned with spaces to a minimum width of three.
pub open spec fn pad3_spec(n: nat) -> Seq<char> {
    if n < 10 {
        seq![' ', ' ', digit_char(n as int)]
    } else if n < 100 {
        seq![' '] + dec_spec(n)
    } else {
        dec_spec(n)
    }
}

pub open spec fn char_repeat(c: char, n: nat) -> Seq<char> {
    Seq::new(n, |i: int| c)
}

/// Whole seconds of a duration, truncated.
pub open spec fn total_secs(d: MediaDuration) -> nat {
    (d.nanos as nat) / (NANOS_PER_SEC as nat)
}

/// `mm:ss` with whole minutes and leftover seconds, each zero-padded to two
/// digits; minutes are unbounded, with no hour rollover.
pub open spec fn mmss_spec(d: MediaDuration) -> Seq<char> {
    pad2_spec(total_secs(d) / 60) + ":"@ + pad2_spec(total_secs(d) % 60)
}

/// Percentage of the length played, rounded to the nearest whole percent with
/// ties rounding up; a zero length counts as fraction zero.
pub open spec fn percent_spec(pos: MediaDuration, len: MediaDuration) -> nat {
    if len.nanos == 0 {
        0
    } else {
        (200 * (pos.nanos as nat) + (len.nanos as nat)) / (2 * (len.nanos as nat))
    }
}

/// Filled width of the fifty-cell progress bar: one less than the fraction of
/// fifty cells rounded up, floored at zero, and capped at forty-nine so the
/// `>` marker that follows the fill can never pass the bar's end. A zero
/// length counts as fraction zero.
pub open spec fn fill_spec(pos: MediaDuration, len: MediaDuration) -> nat {
    if len.nanos == 0 {
        0
    } else {
        let c = (50 * (pos.nanos as int) + (len.nanos as int) - 1) / (len.nanos as int);
        if c == 0 {
            0
        } else if c - 1 > 49 {
            49
        } else {
            (c - 1) as nat
        }
    }
}

/// The timeline part of the status line: current time, rounded percentage,
/// the fifty-cell bar with its `>` marker, and the total length.
pub open spec fn timeline_spec(pos: MediaDuration, len: MediaDuration) -> Seq<char> {
    " "@ + mmss_spec(pos) + " ("@ + pad3_spec(percent_spec(pos, len)) + " %) ["@ + char_repeat(
        '=',
        fill_spec(pos, len),
    ) + ">"@ + char_repeat(' ', (49 - fill_spec(pos, len)) as nat) + "] "@ + mmss_spec(len) + "\r"@
}

/// The second line: the status glyph, then either the timeline or a
/// placeholder when position or length has not arrived.
pub open spec fn status_line_spec(
    status: Option<PlayStatus>,
    position: Option<MediaDuration>,
    length: Option<MediaDuration>,
) -> Seq<char> {
    seq![status_char_spec(status)] + match (position, length) {
        (Some(p), Some(l)) => timeline_spec(p, l),
        _ => " No position/length info"@,
    }
}

/// The first line, `[aumid] artist - title [album]`, from the last-known
/// track; while the session's metadata has not arrived yet the layout stands
/// with the track fields blank.
pub open spec fn title_line_spec(aumid: Seq<char>, info: Option<TrackInfo>) -> Seq<char> {
    match info {
        Some(t) => "["@ + aumid + "] "@ + t.artist@ + " - "@ + t.title@ + " ["@ + t.album@
            + "]\r"@,
        None => "["@ + aumid + "] "@ + " - "@ + " ["@ + "]\r"@,
    }
}

/// The full repaint: cursor restore, erase line one, then either the
/// no-session message with line two erased, or the title line followed by
/// cursor down, erase line two, and the status line.
pub open spec fn render_spec(ui: Ui) -> Seq<char> {
    "\u{1B}[u\u{1B}[2K"@ + match ui.aumid {
        None => "no active session\n\u{1B}[2K"@,
        Some(aumid) => title_line_spec(aumid@, ui.info) + "\u{1B}[1B\u{1B}[2K"@
            + status_line_spec(ui.status, ui.position, ui.length),
    }
}

fn digit_str(d: u64) -> (r: &'static str)
    requires
        d < 10,
    ensures
        r@ == seq![digit_char(d as int)],
{
    match d {
        0 => {
            proof {
                reveal_strlit("0");
                assert("0"@ =~= seq![digit_char(0int)]);
            }
            "0"
        },
        1 => {
            proof {
                reveal_strlit("1");
                assert("1"@ =~= seq![digit_char(1int)]);
            }
            "1"
        },
        2 => {
            proof {
                reveal_strlit("2");
                assert("2"@ =~= seq![digit_char(2int)]);
            }
            "2"
        },
        3 => {
            proof {
                reveal_strlit("3");
                assert("3"@ =~= seq![digit_char(3int)]);
            }
            "3"
        },
        4 => {
            proof {
                reveal_strlit("4");
                assert("4"@ =~= seq![digit_char(4int)]);
            }
            "4"
        },
        5 => {
            proof {
                reveal_strlit("5");
                assert("5"@ =~= seq![digit_char(5int)]);
            }
            "5"
        },
        6 => {
            proof {
                reveal_strlit("6");
                assert("6"@ =~= seq![digit_char(6int)]);
            }
            "6"
        },
        7 => {
            proof {
                reveal_strlit("7");
                assert("7"@ =~= seq![digit_char(7int)]);
            }
            "7"
        },
        8 => {
            proof {
                reveal_strlit("8");
                assert("8"@ =~= seq![digit_char(8int)]);
            }
            "8"
        },
        _ => {
            proof {
                reveal_strlit("9");
                assert("9"@ =~= seq![digit_char(9int)]);
            }
            "9"
        },
    }
}

fn dec_string(n: u128) -> (s: String)
    ensures
        s@ == dec_spec(n as nat),
    decreases n,
{
    if n < 10 {
        let mut s = String::new();
        s.append(digit_str(n as u64));
        proof {
            assert(s@ =~= dec_spec(n as nat));
        }
        s
    } else {
        let mut s = dec_string(n / 10);
        s.append(digit_str((n % 10) as u64));
        proof {
            assert(s@ =~= dec_spec(n as nat));
        }
        s
    }
}

fn pad2_string(n: u128) -> (s: String)
    ensures
        s@ == pad2_spec(n as nat),
{
    if n < 10 {
        let mut s = String::new();
        s.append("0");
        s.append(digit_str(n as u64));
        proof {
            reveal_strlit("0");
            assert(s@ =~= pad2_spec(n as nat));
        }
        s
    } else {
        dec_string(n)
    }
}

fn pad3_string(n: u128) -> (s: String)
    ensures
        s@ == pad3_spec(n as nat),
{
    if n < 10 {
        let mut s = String::new();
        s.append("  ");
        s.append(digit_str(n as u64));
        proof {
            reveal_strlit("  ");
            assert(s@ =~= pad3_spec(n as nat));
        }
        s
    } else if n < 100 {
        let mut s = String::new();
        s.append(" ");
        let digits = dec_string(n);
        s.append(digits.as_str());
        proof {
            reveal_strlit(" ");
            assert(s@ =~= pad3_spec(n as nat));
        }
        s
    } else {
        dec_string(n)
    }
}

fn append_repeat(s: &mut String, piece: &str, n: usize)
    requires
        piece@.len() == 1,
    ensures
        final(s)@ == old(s)@ + char_repeat(piece@[0], n as nat),
{
    let mut i: usize = 0;
    proof {
        assert(s@ =~= old(s)@ + char_repeat(piece@[0], 0nat));
    }
    while i < n
        invariant
            i <= n,
            piece@.len() == 1,
            s@ == old(s)@ + char_repeat(piece@[0], i as nat),
        decreases n - i,
    {
        s.append(piece);
        proof {
            assert(s@ =~= old(s)@ + char_repeat(piece@[0], (i + 1) as nat));
        }
        i = i + 1;
    }
}

fn status_str(status_opt: &Option<PlayStatus>) -> (r: &'static str)
    ensures
        r@ == seq![status_char_spec(*status_opt)],
{
    match status_opt {
        Some(PlayStatus::Playing) => {
            proof {
                reveal_strlit(">");
                assert(">"@ =~= seq![status_char_spec(*status_opt)]);
            }
            ">"
        },
        Some(PlayStatus::Paused) => {
            proof {
                reveal_strlit("|");
                assert("|"@ =~= seq![status_char_spec(*status_opt)]);
            }
            "|"
        },
        Some(PlayStatus::Stopped) => {
            proof {
                reveal_strlit("_");
                assert("_"@ =~= seq![status_char_spec(*status_opt)]);
            }
            "_"
        },
        _ => {
            proof {
                reveal_strlit("?");
                assert("?"@ =~= seq![status_char_spec(*status_opt)]);
            }
            "?"
        },
    }
}

fn percent_value(pos: &MediaDuration, len: &MediaDuration) -> (p: u128)
    ensures
        p as nat == percent_spec(*pos, *len),
{
    if len.nanos == 0 {
        0
    } else {
        let pn = pos.nanos as u128;
        let ln = len.nanos as u128;
        (200 * pn + ln) / (2 * ln)
    }
}

fn fill_value(pos: &MediaDuration, len: &MediaDuration) -> (f: usize)
    ensures
        f as nat == fill_spec(*pos, *len),
        f <= 49,
{
    if len.nanos == 0 {
        0
    } else {
        let pn = pos.nanos as u128;
        let ln = len.nanos as u128;
        let c = (50 * pn + ln - 1) / ln;
        if c == 0 {
            0
        } else if c - 1 > 49 {
            49
        } else {
            (c - 1) as usize
        }
    }
}

fn append_mmss(out: &mut String, dur: &MediaDuration)
    ensures
        final(out)@ == old(out)@ + mmss_spec(*dur),
{
    let (mm, ss) = Ui::to_mm_ss(dur);
    let mm_str = pad2_string(mm as u128);
    out.append(mm_str.as_str());
    out.append(":");
    let ss_str = pad2_string(ss as u128);
    out.append(ss_str.as_str());
    proof {
        assert(out@ =~= old(out)@ + mmss_spec(*dur));
    }
}

fn render_title_line(aumid: &String, info: &Option<TrackInfo>) -> (out: String)
    ensures
        out@ == title_line_spec(aumid@, *info),
{
    let mut out = String::new();
    match info {
        Some(track) => {
            out.append("[");
            out.append(aumid.as_str());
            out.append("] ");
            out.append(track.artist.as_str());
            out.append(" - ");
            out.append(track.title.as_str());
            out.append(" [");
            out.append(track.album.as_str());
            out.append("]\r");
            proof {
                assert(out@ =~= title_line_spec(aumid@, *info));
            }
        },
        None => {
            out.append("[");
            out.append(aumid.as_str());
            out.append("] ");
            out.append(" - ");
            out.append(" [");
            out.append("]\r");
            proof {
                assert(out@ =~= title_line_spec(aumid@, *info));
            }
        },
    }
    out
}

fn render_timeline(pos: &MediaDuration, len: &MediaDuration) -> (out: String)
    ensures
        out@ == timeline_spec(*pos, *len),
{
    let mut out = String::new();
    out.append(" ");
    append_mmss(&mut out, pos);
    out.append(" (");
    let pct = percent_value(pos, len);
    let pct_str = pad3_string(pct);
    out.append(pct_str.as_str());
    out.append(" %) [");
    let fill = fill_value(pos, len);
    proof {
        reveal_strlit("=");
        reveal_strlit(" ");
    }
    append_repeat(&mut out, "=", fill);
    out.append(">");
    append_repeat(&mut out, " ", 49 - fill);
    out.append("] ");
    append_mmss(&mut out, len);
    out.append("\r");
    proof {
        assert(out@ =~= timeline_spec(*pos, *len));
    }
    out
}

fn render_status_line(
    status: &Option<PlayStatus>,
    position: &Option<MediaDuration>,
    length: &Option<MediaDuration>,
) -> (out: String)
    ensures
        out@ == status_line_spec(*status, *position, *length),
{
    let mut out = String::new();
    out.append(status_str(status));
    match (*position, *length) {
        (Some(p), Some(l)) => {
            let timeline = render_timeline(&p, &l);
            out.append(timeline.as_str());
            proof {
                assert(out@ =~= status_line_spec(*status, *position, *length));
            }
        },
        _ => {
            out.append(" No position/length info");
            proof {
                assert(out@ =~= status_line_spec(*status, *position, *length));
            }
        },
    }
    out
}

/// Renderer idempotence: the repaint is a pure function of the state, so two
/// states whose fields are equal render to identical output; updating any
/// field with a value equal to the current one changes nothing on screen.
pub proof fn lemma_repaint_idempotent(a: Ui, b: Ui)
    requires
        a.aumid == b.aumid,
        a.info == b.info,
        a.status == b.status,
        a.position == b.position,
        a.length == b.length,
    ensures
        render_spec(a) == render_spec(b),
{
    assert(a =~= b);
}

impl Ui {
    /// Splits a duration into whole minutes and leftover seconds.
    pub fn to_mm_ss(dur: &MediaDuration) -> (r: (u64, u64))
        ensures
            r.0 == total_secs(*dur) / 60,
            r.1 == total_secs(*dur) % 60,
    {
        let total_sec = dur.nanos / NANOS_PER_SEC;
        (total_sec / 60, total_sec % 60)
    }

    /// Computes the status glyph for the second line.
    pub fn to_status_char(status_opt: &Option<PlayStatus>) -> (c: char)
        ensures
            c == status_char_spec(*status_opt),
    {
        match status_opt {
            Some(PlayStatus::Playing) => '>',
            Some(PlayStatus::Paused) => '|',
            Some(PlayStatus::Stopped) => '_',
            _ => '?',
        }
    }

    /// Fresh renderer state: no field has arrived yet.
    pub fn new() -> (ui: Ui)
        ensures
            ui.aumid is None,
            ui.info is None,
            ui.status is None,
            ui.position is None,
            ui.length is None,
    {
        Ui { aumid: None, info: None, status: None, position: None, length: None }
    }

    /// Recomputes the full two-line repaint from the current state. The
    /// caller prints the returned text verbatim.
    pub fn render(&self) -> (out: String)
        ensures
            out@ == render_spec(*self),
    {
        let mut out = String::new();
        out.append("\u{1B}[u\u{1B}[2K");
        match &self.aumid {
            None => {
                out.append("no active session\n\u{1B}[2K");
                proof {
                    assert(out@ =~= render_spec(*self));
                }
            },
            Some(aumid) => {
                let title = render_title_line(aumid, &self.info);
                out.append(title.as_str());
                out.append("\u{1B}[1B\u{1B}[2K");
                let status_line = render_status_line(&self.status, &self.position, &self.length);
                out.append(status_line.as_str());
                proof {
                    assert(out@ =~= render_spec(*self));
                }
            },
        }
        out
    }

    /// Records the latest metadata snapshot and repaints both lines.
    pub fn update_track(&mut self, track: Option<TrackInfo>) -> (out: String)
        ensures
            final(self).info == track,
            final(self).aumid == old(self).aumid,
            final(self).status == old(self).status,
            final(self).position == old(self).position,
            final(self).length == old(self).length,
            out@ == render_spec(*final(self)),
    {
        self.info = track;
        self.render()
    }

    /// Records the latest position and length and repaints both lines.
    pub fn update_timeline(
        &mut self,
        position: Option<MediaDuration>,
        length: Option<MediaDuration>,
    ) -> (out: String)
        ensures
            final(self).position == position,
            final(self).length == length,
            final(self).aumid == old(self).aumid,
            final(self).info == old(self).info,
            final(self).status == old(self).status,
            out@ == render_spec(*final(self)),
    {
        self.position = position;
        self.length = length;
        self.render()
    }

    /// Records the latest playback status and repaints both lines.
    pub fn update_status(&mut self, status: Option<PlayStatus>) -> (out: String)
        ensures
            final(self).status == status,
            final(self).aumid == old(self).aumid,
            final(self).info == old(self).info,
            final(self).position == old(self).position,
            final(self).length == old(self).length,
            out@ == render_spec(*final(self)),
    {
        self.status = status;
        self.render()
    }

    /// Records the active session's application identity (or its absence) and
    /// repaints both lines.
    pub fn update_source(&mut self, aumid: Option<String>) -> (out: String)
        ensures
            final(self).aumid == aumid,
            final(self).info == old(self).info,
            final(self).status == old(self).status,
            final(self).position == old(self).position,
            final(self).length == old(self).length,
            out@ == render_spec(*final(self)),
    {
        self.aumid = aumid;
        self.render()
    }
}

} // verus!

