//! The one-line status shown in the menu-bar tray: time left, step label and sound state.

use vstd::prelude::*;
use vstd::string::*;

use crate::models::CheckInMode;
use crate::text::owned;
use crate::timer_engine::{EngineState, TimerEngine};

verus! {

pub const MAX_STEP_LABEL_CHARS: usize = 12;

/// What the tray needs to know of the engine.
#[derive(Debug, Clone, Default)]
pub struct MenuSnapshot {
    pub is_running: bool,
    pub is_paused: bool,
    pub awaiting_gate: bool,
    pub remaining_seconds: Option<u32>,
    pub step_label: Option<String>,
}

/// Whether a character has Unicode's White_Space property: the controls U+0009 to U+000D
/// and U+0085, the space U+0020, the no-break spaces U+00A0, U+202F, the Ogham space mark
/// U+1680, the spaces U+2000 to U+200A, the line and paragraph separators U+2028, U+2029,
/// the medium mathematical space U+205F and the ideographic space U+3000.
pub open spec fn white_space(c: char) -> bool {
    let u = c as u32;
    (0x9 <= u <= 0xd) || u == 0x20 || u == 0x85 || u == 0xa0 || u == 0x1680 || (0x2000 <= u
        <= 0x200a) || u == 0x2028 || u == 0x2029 || u == 0x202f || u == 0x205f || u == 0x3000
}

/// Relies on std's `char::is_whitespace`: whether `c` has the White_Space property.
#[verifier::external_body]
fn is_white_space(c: char) -> (r: bool)
    ensures
        r == white_space(c),
{
    c.is_whitespace()
}

pub open spec fn blank(s: Seq<char>) -> bool {
    forall|i: int| 0 <= i < s.len() ==> white_space(#[trigger] s[i])
}

pub open spec fn digit_char(d: nat) -> char {
    if d == 0 {
        '0'
    } else if d == 1 {
        '1'
    } else if d == 2 {
        '2'
    } else if d == 3 {
        '3'
    } else if d == 4 {
        '4'
    } else if d == 5 {
        '5'
    } else if d == 6 {
        '6'
    } else if d == 7 {
        '7'
    } else if d == 8 {
        '8'
    } else {
        '9'
    }
}

/// The decimal digits of `n`, without leading zeros.
pub open spec fn decimal(n: nat) -> Seq<char>
    decreases n,
{
    if n < 10 {
        seq![digit_char(n)]
    } else {
        decimal(n / 10) + seq![digit_char(n % 10)]
    }
}

/// `m:ss` for a number of seconds.
pub open spec fn clock_text(total_seconds: u32) -> Seq<char> {
    let m = total_seconds / 60;
    let s = total_seconds % 60;
    decimal(m as nat) + seq![':'] + if s < 10 {
        seq!['0', digit_char(s as nat)]
    } else {
        decimal(s as nat)
    }
}

/// A label cut to `max` characters, ending in `...` when it had to be cut.
pub open spec fn truncated(label: Seq<char>, max: nat) -> Seq<char> {
    if label.len() <= max {
        label
    } else if max <= 3 {
        Seq::new(max, |i: int| '.')
    } else {
        label.subrange(0, max - 3) + "..."@
    }
}

pub open spec fn shown_label(snapshot: MenuSnapshot) -> Seq<char> {
    match snapshot.step_label {
        Some(l) => if blank(l@) {
            "Step"@
        } else {
            l@
        },
        None => "Step"@,
    }
}

pub open spec fn sound_icon(muted: bool) -> Seq<char> {
    if muted {
        "ðŸ”‡"@
    } else {
        "ðŸ”ˆ"@
    }
}

/// The tray title: the app's name when idle; else the time left, the step label and the
/// sound icon, after `Check-in` or `Paused` when the step awaits a check-in or is paused.
pub open spec fn tray_title(snapshot: MenuSnapshot, muted: bool) -> Seq<char> {
    if !snapshot.is_running {
        "McCall"@
    } else {
        let time = match snapshot.remaining_seconds {
            Some(s) => clock_text(s),
            None => "--:--"@,
        };
        let body = time + " "@ + truncated(shown_label(snapshot), MAX_STEP_LABEL_CHARS as nat) + " "@
            + sound_icon(muted);
        if snapshot.awaiting_gate {
            "Check-in "@ + body
        } else if snapshot.is_paused {
            "Paused "@ + body
        } else {
            body
        }
    }
}

fn digit_text(d: u32) -> (r: &'static str)
    requires
        d < 10,
    ensures
        r@ == seq![digit_char(d as nat)],
{
    proof {
        reveal_strlit("0");
        reveal_strlit("1");
        reveal_strlit("2");
        reveal_strlit("3");
        reveal_strlit("4");
        reveal_strlit("5");
        reveal_strlit("6");
        reveal_strlit("7");
        reveal_strlit("8");
        reveal_strlit("9");
    }
    if d == 0 {
        "0"
    } else if d == 1 {
        "1"
    } else if d == 2 {
        "2"
    } else if d == 3 {
        "3"
    } else if d == 4 {
        "4"
    } else if d == 5 {
        "5"
    } else if d == 6 {
        "6"
    } else if d == 7 {
        "7"
    } else if d == 8 {
        "8"
    } else {
        "9"
    }
}

fn decimal_text(n: u32) -> (r: String)
    ensures
        r@ == decimal(n as nat),
    decreases n,
{
    if n < 10 {
        owned(digit_text(n))
    } else {
        let head = decimal_text(n / 10);
        head.concat(digit_text(n % 10))
    }
}

/// `m:ss` for a number of seconds.
pub fn format_duration(total_seconds: u32) -> (r: String)
    ensures
        r@ == clock_text(total_seconds),
{
    let minutes = total_seconds / 60;
    let seconds = total_seconds % 60;
    let head = decimal_text(minutes).concat(":");
    proof {
        reveal_strlit(":");
        reveal_strlit("0");
    }
    if seconds < 10 {
        head.concat("0").concat(digit_text(seconds))
    } else {
        let tail = decimal_text(seconds);
        head.concat(tail.as_str())
    }
}

/// Cuts `label` to `max_chars` characters, ending in `...` when it had to be cut.
pub fn truncate_label(label: &str, max_chars: usize) -> (r: String)
    ensures
        r@ == truncated(label@, max_chars as nat),
{
    let count = label.unicode_len();
    if count <= max_chars {
        return owned(label);
    }
    proof {
        reveal_strlit(".");
        reveal_strlit("...");
    }
    if max_chars <= 3 {
        let mut dots = String::new();
        let mut i: usize = 0;
        while i < max_chars
            invariant
                i <= max_chars,
                "."@ == seq!['.'],
                dots@ == Seq::new(i as nat, |j: int| '.'),
            decreases max_chars - i,
        {
            dots = dots.concat(".");
            assert(dots@ =~= Seq::new((i + 1) as nat, |j: int| '.'));
            i = i + 1;
        }
        return dots;
    }
    let keep = max_chars - 3;
    owned(label.substring_char(0, keep)).concat("...")
}

fn is_blank(s: &str) -> (r: bool)
    ensures
        r == blank(s@),
{
    let n = s.unicode_len();
    let mut i: usize = 0;
    while i < n
        invariant
            n == s@.len(),
            i <= n,
            forall|j: int| 0 <= j < i ==> white_space(#[trigger] s@[j]),
        decreases n - i,
    {
        if !is_white_space(s.get_char(i)) {
            return false;
        }
        i = i + 1;
    }
    true
}

/// The tray title for an engine snapshot.
pub fn format_tray_title(snapshot: &MenuSnapshot, muted: bool) -> (r: String)
    ensures
        r@ == tray_title(*snapshot, muted),
{
    proof {
        reveal_strlit("McCall");
        reveal_strlit("--:--");
        reveal_strlit("Step");
        reveal_strlit(" ");
        reveal_strlit("Check-in ");
        reveal_strlit("Paused ");
    }
    if !snapshot.is_running {
        return owned("McCall");
    }
    let time = match snapshot.remaining_seconds {
        Some(s) => format_duration(s),
        None => owned("--:--"),
    };
    let label = match &snapshot.step_label {
        Some(l) => if is_blank(l.as_str()) {
            "Step"
        } else {
            l.as_str()
        },
        None => "Step",
    };
    let short_label = truncate_label(label, MAX_STEP_LABEL_CHARS);
    let icon = if muted {
        "ðŸ”‡"
    } else {
        "ðŸ”ˆ"
    };
    let body = time.concat(" ").concat(short_label.as_str()).concat(" ").concat(icon);
    if snapshot.awaiting_gate {
        owned("Check-in ").concat(body.as_str())
    } else if snapshot.is_paused {
        owned("Paused ").concat(body.as_str())
    } else {
        body
    }
}

/// The label of the pause item: `Resume` while a running routine is paused.
pub fn pause_label(snapshot: &MenuSnapshot) -> (r: &'static str)
    ensures
        r@ == (if snapshot.is_running && snapshot.is_paused {
            "Resume"@
        } else {
            "Pause"@
        }),
{
    if snapshot.is_running && snapshot.is_paused {
        "Resume"
    } else {
        "Pause"
    }
}

/// The label of the mute item.
pub fn mute_label(muted: bool) -> (r: &'static str)
    ensures
        r@ == (if muted {
            "Unmute"@
        } else {
            "Mute"@
        }),
{
    if muted {
        "Unmute"
    } else {
        "Mute"
    }
}

/// Whole seconds in a number of nanoseconds, at most `u32::MAX`.
pub fn whole_seconds(nanos: u64) -> (r: u32)
    ensures
        r == (if nanos / 1_000_000_000 > u32::MAX {
            u32::MAX as int
        } else {
            (nanos / 1_000_000_000) as int
        }),
{
    let s = nanos / 1_000_000_000;
    if s > u32::MAX as u64 {
        u32::MAX
    } else {
        s as u32
    }
}

/// What the tray shows of an engine state at clock reading `now`.
pub open spec fn menu_view(s: EngineState, now: u64) -> (bool, bool, bool, Option<u32>, Option<Seq<char>>) {
    if !s.is_running() {
        (false, false, false, None, None)
    } else {
        let secs = s.remaining(now) / 1_000_000_000;
        (
            true,
            s.paused_at is Some,
            s.pending_check_in matches Some(p) && p.mode == CheckInMode::Gate && p.step_index
                == s.current_step_index,
            Some(
                if secs > u32::MAX {
                    u32::MAX
                } else {
                    secs as u32
                },
            ),
            Some(s.current_step().label@),
        )
    }
}

pub open spec fn snapshot_view(m: MenuSnapshot) -> (bool, bool, bool, Option<u32>, Option<Seq<char>>) {
    (
        m.is_running,
        m.is_paused,
        m.awaiting_gate,
        m.remaining_seconds,
        match m.step_label {
            Some(l) => Some(l@),
            None => None,
        },
    )
}

/// The tray's view of the engine at clock reading `now`.
pub fn snapshot_from_engine_at(engine: &TimerEngine, now: u64) -> (r: MenuSnapshot)
    requires
        engine@.wf(),
    ensures
        snapshot_view(r) == menu_view(engine@, now),
{
    if !engine.is_running() {
        return MenuSnapshot {
            is_running: false,
            is_paused: false,
            awaiting_gate: false,
            remaining_seconds: None,
            step_label: None,
        };
    }
    let remaining_seconds = match engine.remaining_time_at(now) {
        Ok(nanos) => Some(whole_seconds(nanos)),
        Err(_) => None,
    };
    let step_label = match engine.current_step() {
        Some(step) => Some(step.label.clone()),
        None => None,
    };
    let awaiting_gate = match engine.pending_check_in() {
        Some((mode, step_index)) => mode == CheckInMode::Gate && match engine.current_step_index() {
            Some(current) => current == step_index,
            None => false,
        },
        None => false,
    };
    MenuSnapshot {
        is_running: true,
        is_paused: engine.is_paused(),
        awaiting_gate,
        remaining_seconds,
        step_label,
    }
}

/// The tray's view of the engine now.
pub fn snapshot_from_engine(engine: &TimerEngine) -> (r: MenuSnapshot)
    requires
        engine@.wf(),
    ensures
        exists|now: u64| snapshot_view(r) == #[trigger] menu_view(engine@, now),
{
    let now = engine.now();
    snapshot_from_engine_at(engine, now)
}

} // verus!
