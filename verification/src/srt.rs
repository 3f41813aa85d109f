//! Subtitle formatting of transcripts.
//!
//! A transcript is a list of timing-annotated segments. Its subtitle form
//! is a run of numbered blocks: the one-based block number, a line with
//! the start and end timestamps as `HH:MM:SS,mmm` joined by ` --> `, the
//! segment's text, and a blank line closing the block.

use vstd::prelude::*;

verus! {

/// The digit character of one decimal digit value.
pub open spec fn digit_char(d: nat) -> char {
    if d == 0 {
        '0'
    } else if d == 1 {
        '1'
    } else if d == 2 {
        '2'
    } else if d == 3 {
        '3'
    } else if d == 4 {
        '4'
    } else if d == 5 {
        '5'
    } else if d == 6 {
        '6'
    } else if d == 7 {
        '7'
    } else if d == 8 {
        '8'
    } else {
        '9'
    }
}

/// The decimal representation of a number, without leading zeros.
pub open spec fn dec_rep(n: nat) -> Seq<char>
    decreases n,
{
    if n < 10 {
        seq![digit_char(n)]
    } else {
        dec_rep(n / 10) + seq![digit_char(n % 10)]
    }
}

/// The decimal representation padded with zeros to at least two places.
pub open spec fn dec_rep2(n: nat) -> Seq<char> {
    if n < 10 {
        seq!['0'] + dec_rep(n)
    } else {
        dec_rep(n)
    }
}

/// The decimal representation padded with zeros to at least three places.
pub open spec fn dec_rep3(n: nat) -> Seq<char> {
    if n < 10 {
        seq!['0', '0'] + dec_rep(n)
    } else if n < 100 {
        seq!['0'] + dec_rep(n)
    } else {
        dec_rep(n)
    }
}

/// A duration in milliseconds rendered as `HH:MM:SS,mmm`.
pub open spec fn timestamp_rep(ms: nat) -> Seq<char> {
    dec_rep2(ms / 3600000) + seq![':'] + dec_rep2((ms / 60000) % 60) + seq![':'] + dec_rep2(
        (ms / 1000) % 60,
    ) + seq![','] + dec_rep3(ms % 1000)
}

/// One timing-annotated segment of a transcript.
pub struct Segment {
    /// Start of the segment, in milliseconds from the start of the audio.
    pub start_ms: u64,
    /// End of the segment, in milliseconds from the start of the audio.
    pub stop_ms: u64,
    /// The transcribed text of the segment.
    pub text: String,
}

/// The mathematical shape of a segment.
pub ghost struct SegmentView {
    pub start_ms: nat,
    pub stop_ms: nat,
    pub text: Seq<char>,
}

impl View for Segment {
    type V = SegmentView;

    open spec fn view(&self) -> SegmentView {
        SegmentView { start_ms: self.start_ms as nat, stop_ms: self.stop_ms as nat, text: self.text@ }
    }
}

/// A transcript returned by the engine: its segments, in order.
pub struct Transcript {
    pub segments: Vec<Segment>,
}

impl View for Transcript {
    type V = Seq<SegmentView>;

    open spec fn view(&self) -> Seq<SegmentView> {
        self.segments@.map_values(|s: Segment| s@)
    }
}

/// One subtitle block: the one-based number, the timestamp line, the text
/// and the closing blank line.
pub open spec fn block_rep(number: nat, seg: SegmentView) -> Seq<char> {
    dec_rep(number) + "\n"@ + timestamp_rep(seg.start_ms) + " --> "@ + timestamp_rep(
        seg.stop_ms,
    ) + "\n"@ + seg.text + "\n\n"@
}

/// The first `k` subtitle blocks, concatenated.
pub open spec fn srt_blocks(segs: Seq<SegmentView>, k: int) -> Seq<char>
    decreases k,
{
    if k <= 0 {
        Seq::empty()
    } else {
        srt_blocks(segs, k - 1) + block_rep(k as nat, segs[k - 1])
    }
}

/// The whole subtitle text of a transcript.
pub open spec fn srt_rep(segs: Seq<SegmentView>) -> Seq<char> {
    srt_blocks(segs, segs.len() as int)
}

/// The string of one decimal digit value.
fn digit_str(d: u64) -> (r: &'static str)
    requires
        d < 10,
    ensures
        r@ == seq![digit_char(d as nat)],
{
    proof {
        reveal_strlit("0");
        reveal_strlit("1");
        reveal_strlit("2");
        reveal_strlit("3");
        reveal_strlit("4");
        reveal_strlit("5");
        reveal_strlit("6");
        reveal_strlit("7");
        reveal_strlit("8");
        reveal_strlit("9");
    }
    let r = if d == 0 {
        "0"
    } else if d == 1 {
        "1"
    } else if d == 2 {
        "2"
    } else if d == 3 {
        "3"
    } else if d == 4 {
        "4"
    } else if d == 5 {
        "5"
    } else if d == 6 {
        "6"
    } else if d == 7 {
        "7"
    } else if d == 8 {
        "8"
    } else {
        "9"
    };
    proof {
        assert(r@ =~= seq![digit_char(d as nat)]);
    }
    r
}

/// Renders a number in decimal, without leading zeros.
pub fn format_u64(n: u64) -> (r: String)
    ensures
        r@ == dec_rep(n as nat),
    decreases n,
{
    if n < 10 {
        String::from_str(digit_str(n))
    } else {
        let mut s = format_u64(n / 10);
        s.append(digit_str(n % 10));
        proof {
            assert(s@ =~= dec_rep(n as nat));
        }
        s
    }
}

/// Renders a number in decimal, zero-padded to at least two places.
fn format_u64_pad2(n: u64) -> (r: String)
    ensures
        r@ == dec_rep2(n as nat),
{
    if n < 10 {
        let mut s = String::from_str(digit_str(0));
        s.append(format_u64(n).as_str());
        proof {
            assert(seq![digit_char(0)] =~= seq!['0']);
            assert(s@ =~= dec_rep2(n as nat));
        }
        s
    } else {
        format_u64(n)
    }
}

/// Renders a number in decimal, zero-padded to at least three places.
fn format_u64_pad3(n: u64) -> (r: String)
    ensures
        r@ == dec_rep3(n as nat),
{
    if n < 10 {
        let mut s = String::from_str(digit_str(0));
        s.append(digit_str(0));
        s.append(format_u64(n).as_str());
        proof {
            assert(seq![digit_char(0)] =~= seq!['0']);
            assert(s@ =~= dec_rep3(n as nat));
        }
        s
    } else if n < 100 {
        let mut s = String::from_str(digit_str(0));
        s.append(format_u64(n).as_str());
        proof {
            assert(seq![digit_char(0)] =~= seq!['0']);
            assert(s@ =~= dec_rep3(n as nat));
        }
        s
    } else {
        format_u64(n)
    }
}

/// Renders a duration in milliseconds as `HH:MM:SS,mmm`.
pub fn format_timestamp(ms: u64) -> (r: String)
    ensures
        r@ == timestamp_rep(ms as nat),
{
    let mut s = format_u64_pad2(ms / 3600000);
    s.append(":");
    s.append(format_u64_pad2((ms / 60000) % 60).as_str());
    s.append(":");
    s.append(format_u64_pad2((ms / 1000) % 60).as_str());
    s.append(",");
    s.append(format_u64_pad3(ms % 1000).as_str());
    proof {
        reveal_strlit(":");
        reveal_strlit(",");
        assert(s@ =~= timestamp_rep(ms as nat));
    }
    s
}

impl Transcript {
    /// Renders the transcript as subtitle text.
    pub fn as_srt(&self) -> (r: String)
        ensures
            r@ == srt_rep(self@),
    {
        let mut out = String::new();
        let n = self.segments.len();
        let mut i: usize = 0;
        while i < n
            invariant
                0 <= i <= n,
                n == self.segments@.len(),
                out@ == srt_blocks(self@, i as int),
            decreases n - i,
        {
            let seg = &self.segments[i];
            let number = format_u64((i + 1) as u64);
            let start = format_timestamp(seg.start_ms);
            let stop = format_timestamp(seg.stop_ms);
            out.append(number.as_str());
            out.append("\n");
            out.append(start.as_str());
            out.append(" --> ");
            out.append(stop.as_str());
            out.append("\n");
            out.append(seg.text.as_str());
            out.append("\n\n");
            proof {
                assert(self@[i as int] == seg@);
                assert(out@ =~= srt_blocks(self@, i as int) + block_rep(
                    (i + 1) as nat,
                    self@[i as int],
                ));
                assert(out@ =~= srt_blocks(self@, i + 1 as int));
            }
            i += 1;
        }
        proof {
            assert(out@ == srt_rep(self@));
        }
        out
    }
}

} // verus!
