//! Text shaping for the display: the big five-row digit glyphs, the assembled
//! clock rows, and the state label. Putting these on the screen is the render
//! sink's business, outside the crate.

use vstd::prelude::*;
use vstd::string::StringExecFns;

use crate::app::TimerState;

verus! {

/// Height, in text rows, of a big digit glyph.
pub const DIGIT_HEIGHT: usize = 5;

/// Width, in characters, of one assembled clock row: five glyphs (two minute
/// digits, the colon, two second digits), each five characters wide and
/// followed by two characters of spacing.
pub const CLOCK_ROW_WIDTH: usize = 35;

/// The glyph table: the five rows of each decimal digit, five characters
/// wide, every character a block or a space. Anything above nine is the
/// blank glyph.
pub open spec fn spec_big_digit(n: u8) -> Seq<Seq<char>> {
    if n == 0 {
        seq!["█████"@, "█   █"@, "█   █"@, "█   █"@, "█████"@]
    } else if n == 1 {
        seq!["  █  "@, " ██  "@, "  █  "@, "  █  "@, "█████"@]
    } else if n == 2 {
        seq!["█████"@, "    █"@, "█████"@, "█    "@, "█████"@]
    } else if n == 3 {
        seq!["█████"@, "    █"@, "█████"@, "    █"@, "█████"@]
    } else if n == 4 {
        seq!["█   █"@, "█   █"@, "█████"@, "    █"@, "    █"@]
    } else if n == 5 {
        seq!["█████"@, "█    "@, "█████"@, "    █"@, "█████"@]
    } else if n == 6 {
        seq!["█████"@, "█    "@, "█████"@, "█   █"@, "█████"@]
    } else if n == 7 {
        seq!["█████"@, "    █"@, "   █ "@, "  █  "@, " █   "@]
    } else if n == 8 {
        seq!["█████"@, "█   █"@, "█████"@, "█   █"@, "█████"@]
    } else if n == 9 {
        seq!["█████"@, "█   █"@, "█████"@, "    █"@, "█████"@]
    } else {
        seq!["     "@, "     "@, "     "@, "     "@, "     "@]
    }
}

/// The five glyph rows of the colon between minutes and seconds.
pub open spec fn spec_colon_rows() -> Seq<Seq<char>> {
    seq!["     "@, "  █  "@, "     "@, "  █  "@, "     "@]
}

/// Law: the ten digit glyphs are pairwise distinct, so the clock face shows
/// each digit unambiguously.
pub proof fn lemma_big_digits_distinct(a: u8, b: u8)
    requires
        a <= 9,
        b <= 9,
        a != b,
    ensures
        spec_big_digit(a) != spec_big_digit(b),
{
    reveal_strlit("█████");
    reveal_strlit("█   █");
    reveal_strlit("  █  ");
    reveal_strlit(" ██  ");
    reveal_strlit("    █");
    reveal_strlit("█    ");
    reveal_strlit("   █ ");
    reveal_strlit(" █   ");
    let ga = spec_big_digit(a);
    let gb = spec_big_digit(b);
    if ga == gb {
        assert(ga[0] == gb[0] && ga[1] == gb[1] && ga[2] == gb[2] && ga[3] == gb[3] && ga[4]
            == gb[4]);
        assert(ga[0][1] == gb[0][1] && ga[1][0] == gb[1][0] && ga[1][1] == gb[1][1] && ga[1][4]
            == gb[1][4] && ga[2][0] == gb[2][0] && ga[3][0] == gb[3][0] && ga[3][1] == gb[3][1]
            && ga[3][4] == gb[3][4] && ga[4][0] == gb[4][0]);
        assert(false);
    }
}

/// The five glyph rows of one decimal digit, exactly the rows of the glyph
/// table, each five characters wide. Anything above nine comes back blank.
pub fn get_big_digit(n: u8) -> (rows: [&'static str; 5])
    ensures
        forall|i: int| 0 <= i < 5 ==> (#[trigger] rows[i])@ == spec_big_digit(n)[i],
        forall|i: int| 0 <= i < 5 ==> (#[trigger] rows[i])@.len() == 5,
{
    proof {
        reveal_strlit("█████");
        reveal_strlit("█   █");
        reveal_strlit("  █  ");
        reveal_strlit(" ██  ");
        reveal_strlit("    █");
        reveal_strlit("█    ");
        reveal_strlit("   █ ");
        reveal_strlit(" █   ");
        reveal_strlit("     ");
    }
    match n {
        0 => ["█████", "█   █", "█   █", "█   █", "█████"],
        1 => ["  █  ", " ██  ", "  █  ", "  █  ", "█████"],
        2 => ["█████", "    █", "█████", "█    ", "█████"],
        3 => ["█████", "    █", "█████", "    █", "█████"],
        4 => ["█   █", "█   █", "█████", "    █", "    █"],
        5 => ["█████", "█    ", "█████", "    █", "█████"],
        6 => ["█████", "█    ", "█████", "█   █", "█████"],
        7 => ["█████", "    █", "   █ ", "  █  ", " █   "],
        8 => ["█████", "█   █", "█████", "█   █", "█████"],
        9 => ["█████", "█   █", "█████", "    █", "█████"],
        _ => ["     ", "     ", "     ", "     ", "     "],
    }
}

/// Row `i` of the clock face: the glyph rows of the two low minute digits,
/// the colon and the two second digits, each followed by two spaces of gap.
pub open spec fn spec_clock_row(minutes: u64, seconds: u64, i: int) -> Seq<char> {
    spec_big_digit(((minutes / 10) % 10) as u8)[i] + "  "@
        + spec_big_digit((minutes % 10) as u8)[i] + "  "@
        + spec_colon_rows()[i] + "  "@
        + spec_big_digit(((seconds / 10) % 10) as u8)[i] + "  "@
        + spec_big_digit((seconds % 10) as u8)[i] + "  "@
}

/// Assemble the big clock face for the given minute and second values: five
/// rows of thirty-five characters, each exactly the glyph rows of the two low
/// minute digits, the colon, and the two second digits, with two spaces after
/// every glyph.
pub fn render_big_time(minutes: u64, seconds: u64) -> (lines: Vec<String>)
    ensures
        lines@.len() == 5,
        forall|i: int| 0 <= i < 5 ==> (#[trigger] lines@[i])@ == spec_clock_row(
            minutes,
            seconds,
            i,
        ),
        forall|i: int| 0 <= i < 5 ==> (#[trigger] lines@[i])@.len() == 35,
{
    let min_tens: u8 = ((minutes / 10) % 10) as u8;
    let min_ones: u8 = (minutes % 10) as u8;
    let sec_tens: u8 = ((seconds / 10) % 10) as u8;
    let sec_ones: u8 = (seconds % 10) as u8;

    let d0 = get_big_digit(min_tens);
    let d1 = get_big_digit(min_ones);
    let colon: [&'static str; 5] = ["     ", "  █  ", "     ", "  █  ", "     "];
    let d3 = get_big_digit(sec_tens);
    let d4 = get_big_digit(sec_ones);
    proof {
        reveal_strlit("     ");
        reveal_strlit("  █  ");
        reveal_strlit("  ");
    }

    let mut lines: Vec<String> = Vec::new();
    let mut row: usize = 0;
    while row < 5
        invariant
            row <= 5,
            lines@.len() == row,
            forall|i: int| 0 <= i < row ==> (#[trigger] lines@[i])@ == spec_clock_row(
                minutes,
                seconds,
                i,
            ),
            forall|i: int| 0 <= i < row ==> (#[trigger] lines@[i])@.len() == 35,
            forall|i: int| 0 <= i < 5 ==> (#[trigger] d0[i])@ == spec_big_digit(min_tens)[i],
            forall|i: int| 0 <= i < 5 ==> (#[trigger] d1[i])@ == spec_big_digit(min_ones)[i],
            forall|i: int| 0 <= i < 5 ==> (#[trigger] colon[i])@ == spec_colon_rows()[i],
            forall|i: int| 0 <= i < 5 ==> (#[trigger] d3[i])@ == spec_big_digit(sec_tens)[i],
            forall|i: int| 0 <= i < 5 ==> (#[trigger] d4[i])@ == spec_big_digit(sec_ones)[i],
            forall|i: int| 0 <= i < 5 ==> (#[trigger] d0[i])@.len() == 5,
            forall|i: int| 0 <= i < 5 ==> (#[trigger] d1[i])@.len() == 5,
            forall|i: int| 0 <= i < 5 ==> (#[trigger] colon[i])@.len() == 5,
            forall|i: int| 0 <= i < 5 ==> (#[trigger] d3[i])@.len() == 5,
            forall|i: int| 0 <= i < 5 ==> (#[trigger] d4[i])@.len() == 5,
            "  "@.len() == 2,
            min_tens == ((minutes / 10) % 10) as u8,
            min_ones == (minutes % 10) as u8,
            sec_tens == ((seconds / 10) % 10) as u8,
            sec_ones == (seconds % 10) as u8,
        decreases 5 - row,
    {
        let mut line = String::new();
        line.append(d0[row]);
        line.append("  ");
        line.append(d1[row]);
        line.append("  ");
        line.append(colon[row]);
        line.append("  ");
        line.append(d3[row]);
        line.append("  ");
        line.append(d4[row]);
        line.append("  ");
        proof {
            assert(line@ =~= spec_clock_row(minutes, seconds, row as int));
        }
        lines.push(line);
        row = row + 1;
    }
    lines
}

/// The label the status box shows for each run state.
pub fn state_label(state: TimerState) -> (label: &'static str)
    ensures
        state == TimerState::Running ==> label@ == "Running"@,
        state == TimerState::Paused ==> label@ == "Paused"@,
        state == TimerState::Stopped ==> label@ == "Stopped"@,
{
    match state {
        TimerState::Running => "Running",
        TimerState::Paused => "Paused",
        TimerState::Stopped => "Stopped",
    }
}

/// Split a remaining time in seconds into the whole minutes and the leftover
/// seconds the clock face shows.
pub fn split_minutes_seconds(remaining: u64) -> (parts: (u64, u64))
    ensures
        parts.0 == remaining / 60,
        parts.1 == remaining % 60,
{
    (remaining / 60, remaining % 60)
}

} // verus!
