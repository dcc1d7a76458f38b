//! Small helpers of the command line: sizes, durations, colours, the spinner.

use crate::colors::{BOLD, GREEN, RED, RESET, YELLOW};
use crate::text::{decimal, digit, lowercase, push_decimal, str_eq, to_lowercase, trim, trimmed};
use core::time::Duration;
use vstd::prelude::*;

verus! {

/// The whole seconds of a duration.
pub uninterp spec fn seconds_of(d: Duration) -> u64;

/// The milliseconds of a duration beyond its whole seconds.
pub uninterp spec fn millis_of(d: Duration) -> u32;

/// `Duration::as_secs`: the number of whole seconds.
pub assume_specification[ Duration::as_secs ](d: &Duration) -> (r: u64)
    ensures
        r == seconds_of(*d),
;

/// `Duration::subsec_millis`: the fractional part in whole milliseconds, which
/// is less than one second.
pub assume_specification[ Duration::subsec_millis ](d: &Duration) -> (r: u32)
    ensures
        r == millis_of(*d),
        r < 1000,
;

/// The largest size that a double holds exactly, plus one: 2 to the 53rd.
pub open spec fn exact_limit() -> nat {
    0x20_0000_0000_0000
}

/// The distance between the doubles around `n`: 1 below 2 to the 53rd, twice
/// as much with each doubling of `n` above.
pub open spec fn float_step(n: nat) -> nat
    decreases n,
{
    if n < exact_limit() {
        1
    } else {
        2 * float_step(n / 2)
    }
}

/// `n` rounded to the nearest multiple of `step`; of two that are equally
/// near, the even one.
pub open spec fn round_half_even(n: nat, step: nat) -> nat {
    let q = n / step;
    let r = n % step;
    if 2 * r > step || (2 * r == step && q % 2 == 1) {
        ((q + 1) * step) as nat
    } else {
        (q * step) as nat
    }
}

/// The number of bytes as a double holds it.
pub open spec fn as_float(bytes: nat) -> nat {
    round_half_even(bytes, float_step(bytes))
}

/// The bytes of one unit: 1024 to the power of the unit's index.
pub open spec fn unit_bytes(index: nat) -> nat {
    if index == 0 {
        1
    } else if index == 1 {
        0x400
    } else if index == 2 {
        0x10_0000
    } else if index == 3 {
        0x4000_0000
    } else {
        0x100_0000_0000
    }
}

/// The largest unit, up to terabytes, that the size reaches.
pub open spec fn unit_index(size: nat) -> nat {
    if size < unit_bytes(1) {
        0
    } else if size < unit_bytes(2) {
        1
    } else if size < unit_bytes(3) {
        2
    } else if size < unit_bytes(4) {
        3
    } else {
        4
    }
}

/// The name of a unit.
pub open spec fn unit_name(index: nat) -> Seq<char> {
    if index == 0 {
        "B"@
    } else if index == 1 {
        "KB"@
    } else if index == 2 {
        "MB"@
    } else if index == 3 {
        "GB"@
    } else {
        "TB"@
    }
}

/// The size in tenths of its unit, rounded half to even.
pub open spec fn tenths(size: nat, index: nat) -> nat {
    round_half_even(10 * size, unit_bytes(index)) / unit_bytes(index)
}

/// A size as it is shown: bytes as they are; above, the size taken as a
/// double, in its largest unit up to terabytes, with one decimal.
pub open spec fn file_size_text(bytes: u64) -> Seq<char> {
    let size = as_float(bytes as nat);
    let index = unit_index(size);
    if index == 0 {
        decimal(bytes as nat) + " "@ + unit_name(0)
    } else {
        decimal(tenths(size, index) / 10) + "."@ + seq![digit(tenths(size, index) % 10)] + " "@
            + unit_name(index)
    }
}

/// 2 to the power of `e`.
pub open spec fn two_to(e: nat) -> nat
    decreases e,
{
    if e == 0 {
        1
    } else {
        2 * two_to((e - 1) as nat)
    }
}

fn compute_float_step(n: u64) -> (step: u64)
    ensures
        step == float_step(n as nat),
        1 <= step <= 2048,
{
    let mut m: u64 = n;
    let mut step: u64 = 1;
    let ghost mut e: nat = 0;
    proof {
        reveal_with_fuel(two_to, 12);
        assert(two_to(11) == 2048);
    }
    while m >= 0x20_0000_0000_0000
        invariant
            e <= 11,
            step >= 1,
            step * two_to((11 - e) as nat) == 2048,
            float_step(n as nat) == step * float_step(m as nat),
            m * step <= n,
        decreases m,
    {
        proof {
            let rest = two_to((11 - e) as nat);
            assert(rest >= 1) by {
                lemma_two_to_positive((11 - e) as nat);
            }
            if e == 11 {
                assert(rest == 1);
                assert(step == 2048) by (nonlinear_arith)
                    requires
                        step * rest == 2048,
                        rest == 1,
                ;
                assert(m * step >= 0x20_0000_0000_0000 * 2048) by (nonlinear_arith)
                    requires
                        m >= 0x20_0000_0000_0000,
                        step == 2048,
                ;
                assert(false);
            }
            assert(rest == 2 * two_to((10 - e) as nat));
            let half = two_to((10 - e) as nat);
            assert((2 * step) * half == 2048) by (nonlinear_arith)
                requires
                    step * (2 * half) == 2048,
            ;
            lemma_two_to_positive((10 - e) as nat);
            assert(2 * step <= 2048) by (nonlinear_arith)
                requires
                    (2 * step) * half == 2048,
                    half >= 1,
                    step >= 1,
            ;
            assert(float_step(m as nat) == 2 * float_step((m / 2) as nat));
            assert(step * (2 * float_step((m / 2) as nat)) == (2 * step) * float_step(
                (m / 2) as nat,
            )) by (nonlinear_arith);
            assert((m / 2) * (2 * step) <= m * step) by (nonlinear_arith)
                requires
                    (m / 2) * 2 <= m,
                    step >= 1,
            ;
            e = e + 1;
        }
        m = m / 2;
        step = step * 2;
    }
    proof {
        lemma_two_to_positive((11 - e) as nat);
        assert(step <= 2048) by (nonlinear_arith)
            requires
                step * two_to((11 - e) as nat) == 2048,
                two_to((11 - e) as nat) >= 1,
                step >= 1,
        ;
        assert(float_step(m as nat) == 1);
        assert(step * 1 == step);
    }
    step
}

proof fn lemma_two_to_positive(e: nat)
    ensures
        two_to(e) >= 1,
    decreases e,
{
    if e > 0 {
        lemma_two_to_positive((e - 1) as nat);
    }
}

fn compute_round_half_even(n: u128, step: u128) -> (r: u128)
    requires
        1 <= step <= 0x1_0000_0000_0000_0000,
        n <= 0xffff_ffff_ffff_ffff_ffff,
    ensures
        r == round_half_even(n as nat, step as nat),
        r <= n + step,
{
    let q = n / step;
    let r = n % step;
    assert(q * step <= n && (q + 1) * step <= n + step && (q + 1) * step == q * step + step
        && q * step + r == n) by (nonlinear_arith)
        requires
            q == n / step,
            r == n % step,
            step >= 1,
    ;
    if 2 * r > step || (2 * r == step && q % 2 == 1) {
        (q + 1) * step
    } else {
        q * step
    }
}

fn unit_text(index: usize) -> (r: &'static str)
    ensures
        r@ == unit_name(index as nat),
{
    if index == 0 {
        "B"
    } else if index == 1 {
        "KB"
    } else if index == 2 {
        "MB"
    } else if index == 3 {
        "GB"
    } else {
        "TB"
    }
}

/// A size in bytes as it is shown.
pub fn format_file_size(bytes: u64) -> (r: String)
    ensures
        r@ == file_size_text(bytes),
{
    let step = compute_float_step(bytes);
    let size: u128 = compute_round_half_even(bytes as u128, step as u128);
    let index: usize = if size < 0x400 {
        0
    } else if size < 0x10_0000 {
        1
    } else if size < 0x4000_0000 {
        2
    } else if size < 0x100_0000_0000 {
        3
    } else {
        4
    };
    if index == 0 {
        let mut r = String::new();
        push_decimal(&mut r, bytes);
        r.append(" ");
        r.append(unit_text(0));
        assert(r@ =~= decimal(bytes as nat) + " "@ + unit_name(0));
        r
    } else {
        let unit: u128 = if index == 1 {
            0x400
        } else if index == 2 {
            0x10_0000
        } else if index == 3 {
            0x4000_0000
        } else {
            0x100_0000_0000
        };
        let rounded = compute_round_half_even(10 * size, unit);
        let t: u128 = rounded / unit;
        assert(t <= 0xffff_ffff_ffff_ffff) by (nonlinear_arith)
            requires
                t == rounded / unit,
                unit >= 0x400,
                rounded <= 0x10_0000_0000_0000_0000,
        ;
        let mut r = String::new();
        push_decimal(&mut r, (t / 10) as u64);
        r.append(".");
        let ghost before = r@;
        push_decimal(&mut r, (t % 10) as u64);
        assert(decimal((t % 10) as nat) == seq![digit((t % 10) as nat)]);
        r.append(" ");
        r.append(unit_text(index));
        assert(r@ =~= decimal(tenths(size as nat, index as nat) / 10) + "."@ + seq![
            digit(tenths(size as nat, index as nat) % 10),
        ] + " "@ + unit_name(index as nat));
        r
    }
}

/// A duration as it is shown, given its whole seconds and the milliseconds
/// beyond them: hours, minutes and seconds from an hour on; minutes and
/// seconds from a minute on; seconds with tenths from a second on; else
/// milliseconds.
pub open spec fn duration_text(total_seconds: u64, millis: u32) -> Seq<char> {
    let hours = (total_seconds / 3600) as nat;
    let minutes = ((total_seconds % 3600) / 60) as nat;
    let seconds = (total_seconds % 60) as nat;
    if hours > 0 {
        decimal(hours) + "h "@ + decimal(minutes) + "m "@ + decimal(seconds) + "s"@
    } else if minutes > 0 {
        decimal(minutes) + "m "@ + decimal(seconds) + "s"@
    } else if seconds > 0 {
        decimal(seconds) + "."@ + decimal((millis / 100) as nat) + "s"@
    } else {
        decimal(millis as nat) + "ms"@
    }
}

/// A duration of `total_seconds` and `millis` as it is shown.
pub fn format_duration_parts(total_seconds: u64, millis: u32) -> (r: String)
    ensures
        r@ == duration_text(total_seconds, millis),
{
    let hours = total_seconds / 3600;
    let minutes = (total_seconds % 3600) / 60;
    let seconds = total_seconds % 60;
    let mut r = String::new();
    if hours > 0 {
        push_decimal(&mut r, hours);
        r.append("h ");
        push_decimal(&mut r, minutes);
        r.append("m ");
        push_decimal(&mut r, seconds);
        r.append("s");
        assert(r@ =~= decimal(hours as nat) + "h "@ + decimal(minutes as nat) + "m "@ + decimal(
            seconds as nat,
        ) + "s"@);
    } else if minutes > 0 {
        push_decimal(&mut r, minutes);
        r.append("m ");
        push_decimal(&mut r, seconds);
        r.append("s");
        assert(r@ =~= decimal(minutes as nat) + "m "@ + decimal(seconds as nat) + "s"@);
    } else if seconds > 0 {
        push_decimal(&mut r, seconds);
        r.append(".");
        push_decimal(&mut r, (millis / 100) as u64);
        r.append("s");
        assert(r@ =~= decimal(seconds as nat) + "."@ + decimal((millis / 100) as nat) + "s"@);
    } else {
        push_decimal(&mut r, millis as u64);
        r.append("ms");
        assert(r@ =~= decimal(millis as nat) + "ms"@);
    }
    r
}

/// A duration as it is shown.
pub fn format_duration(duration: Duration) -> (r: String)
    ensures
        r@ == duration_text(seconds_of(duration), millis_of(duration)),
{
    let total_seconds = duration.as_secs();
    let millis = duration.subsec_millis();
    format_duration_parts(total_seconds, millis)
}

/// `text` in the colour `color` where colours are shown, else as it is.
pub fn colorize(text: &str, color: &str, colors_shown: bool) -> (r: String)
    ensures
        r@ == if colors_shown {
            color@ + text@ + RESET@
        } else {
            text@
        },
{
    if colors_shown {
        let mut r = color.to_string();
        r.append(text);
        r.append(RESET);
        r
    } else {
        text.to_string()
    }
}

/// `text` in the colour `color`, bold if asked, where colours are shown, else
/// as it is.
pub fn colorize_with_style(text: &str, color: &str, bold: bool, colors_shown: bool) -> (r: String)
    ensures
        r@ == if colors_shown {
            (if bold {
                BOLD@
            } else {
                Seq::<char>::empty()
            }) + color@ + text@ + RESET@
        } else {
            text@
        },
{
    if colors_shown {
        let mut r = String::new();
        if bold {
            r.append(BOLD);
        }
        let ghost style = r@;
        r.append(color);
        r.append(text);
        r.append(RESET);
        assert(style =~= if bold {
            BOLD@
        } else {
            Seq::<char>::empty()
        });
        r
    } else {
        text.to_string()
    }
}

/// Whether colours are shown: on a terminal, unless `NO_COLOR` is set or a
/// continuous-integration run is under way.
pub fn supports_color(on_terminal: bool, no_color_set: bool, continuous_integration: bool) -> (r:
    bool)
    ensures
        r == (on_terminal && !no_color_set && !continuous_integration),
{
    on_terminal && !no_color_set && !continuous_integration
}

/// The frames of the spinner.
pub open spec fn spinner_frames() -> Seq<char> {
    seq!['⠋', '⠙', '⠹', '⠸', '⠼', '⠴', '⠦', '⠧', '⠇', '⠏']
}

/// A spinner with a message.
#[derive(Debug)]
pub struct ProgressIndicator {
    message: String,
    spinner_chars: Vec<char>,
    current_char: usize,
}

impl ProgressIndicator {
    #[verifier::type_invariant]
    spec fn in_order(&self) -> bool {
        self.spinner_chars@ == spinner_frames() && self.current_char < 10
    }

    /// The message beside the spinner.
    pub closed spec fn message(&self) -> Seq<char> {
        self.message@
    }

    /// The index of the frame that is shown next.
    pub closed spec fn frame(&self) -> nat {
        self.current_char as nat
    }

    /// A spinner at its first frame.
    pub fn new(message: &str) -> (r: ProgressIndicator)
        ensures
            r.message() == message@,
            r.frame() == 0,
    {
        let spinner_chars = vec!['⠋', '⠙', '⠹', '⠸', '⠼', '⠴', '⠦', '⠧', '⠇', '⠏'];
        assert(spinner_chars@ =~= spinner_frames());
        ProgressIndicator { message: message.to_string(), spinner_chars, current_char: 0 }
    }

    /// The text that shows the next frame, and a step to the frame after it;
    /// nothing where the output is no terminal.
    pub fn tick(&mut self, on_terminal: bool) -> (r: Option<String>)
        ensures
            final(self).message() == old(self).message(),
            old(self).frame() < 10,
            on_terminal ==> final(self).frame() == (old(self).frame() + 1) % 10 && r is Some
                && r->0@ == seq!['\r', spinner_frames()[old(self).frame() as int], ' ']
                + old(self).message(),
            !on_terminal ==> final(self).frame() == old(self).frame() && r is None,
    {
        proof {
            use_type_invariant(&*self);
        }
        if !on_terminal {
            return None;
        }
        let mut line = String::new();
        line.push('\r');
        line.push(self.spinner_chars[self.current_char]);
        line.push(' ');
        line.append(self.message.as_str());
        assert(line@ =~= seq!['\r', spinner_frames()[self.current_char as int], ' ']
            + self.message@);
        let next = (self.current_char + 1) % 10;
        *self = ProgressIndicator {
            message: self.message.clone(),
            spinner_chars: self.spinner_chars.clone(),
            current_char: next,
        };
        Some(line)
    }
}

/// What an answer to a yes-or-no question means, given the answer trimmed and
/// in lower case: `y` and `yes` are yes, `n` and `no` are no, anything else is
/// the default.
pub fn read_confirmation(lowered: &str, default: bool) -> (r: bool)
    ensures
        r == if lowered@ == "y"@ || lowered@ == "yes"@ {
            true
        } else if lowered@ == "n"@ || lowered@ == "no"@ {
            false
        } else {
            default
        },
{
    if str_eq(lowered, "y") || str_eq(lowered, "yes") {
        true
    } else if str_eq(lowered, "n") || str_eq(lowered, "no") {
        false
    } else {
        default
    }
}

/// What a line typed at a yes-or-no question means.
pub fn confirm(input: &str, default: bool) -> (r: bool)
    ensures
        r == if lowercase(trimmed(input@)) == "y"@ || lowercase(trimmed(input@)) == "yes"@ {
            true
        } else if lowercase(trimmed(input@)) == "n"@ || lowercase(trimmed(input@)) == "no"@ {
            false
        } else {
            default
        },
{
    let lowered = to_lowercase(trim(input).as_str());
    read_confirmation(lowered.as_str(), default)
}

/// What a line typed at a prompt means: the line trimmed, or nothing where
/// nothing is left.
pub fn prompt(input: &str) -> (r: Option<String>)
    ensures
        trimmed(input@).len() == 0 ==> r is None,
        trimmed(input@).len() > 0 ==> r is Some && r->0@ == trimmed(input@),
{
    let t = trim(input);
    if t.as_str().is_empty() {
        None
    } else {
        Some(t)
    }
}


/// Whether a continuous-integration run is under way: one of the variables
/// `CI`, `GITHUB_ACTIONS`, `GITLAB_CI` and `JENKINS_URL` is set.
pub fn is_ci_environment(ci: bool, github_actions: bool, gitlab_ci: bool, jenkins_url: bool) -> (r:
    bool)
    ensures
        r == (ci || github_actions || gitlab_ci || jenkins_url),
{
    ci || github_actions || gitlab_ci || jenkins_url
}

/// A line that opens with a mark, in a colour where colours are shown.
pub open spec fn marked_line(color: Seq<char>, mark: Seq<char>, message: Seq<char>, colored: bool)
    -> Seq<char> {
    if colored {
        color + mark + message + RESET@
    } else {
        mark + message
    }
}

fn mark_line(color: &str, mark: &str, message: &str, colored: bool) -> (r: String)
    ensures
        r@ == marked_line(color@, mark@, message@, colored),
{
    if colored {
        let mut r = color.to_string();
        r.append(mark);
        r.append(message);
        r.append(RESET);
        r
    } else {
        let mut r = mark.to_string();
        r.append(message);
        r
    }
}

/// The line that tells of a success.
pub fn log_success(message: &str, colored: bool) -> (r: String)
    ensures
        r@ == marked_line(GREEN@, "✅ "@, message@, colored),
{
    mark_line(GREEN, "✅ ", message, colored)
}

/// The line that tells of an error.
pub fn log_error(message: &str, colored: bool) -> (r: String)
    ensures
        r@ == marked_line(RED@, "❌ "@, message@, colored),
{
    mark_line(RED, "❌ ", message, colored)
}

/// The line that tells of a warning.
pub fn log_warning(message: &str, colored: bool) -> (r: String)
    ensures
        r@ == marked_line(YELLOW@, "⚠️  "@, message@, colored),
{
    mark_line(YELLOW, "⚠️  ", message, colored)
}

impl ProgressIndicator {
    /// What ends the spinner with a success: the carriage return that clears
    /// it, on a terminal, and the line that tells of the success.
    pub fn finish(&self, success_message: &str, on_terminal: bool, colored: bool) -> (r: (
        Option<String>,
        String,
    ))
        ensures
            on_terminal ==> r.0 is Some && r.0->0@ == seq!['\r'],
            !on_terminal ==> r.0 is None,
            r.1@ == marked_line(GREEN@, "✅ "@, success_message@, colored),
    {
        (clear(on_terminal), log_success(success_message, colored))
    }

    /// What ends the spinner with a failure.
    pub fn fail(&self, error_message: &str, on_terminal: bool, colored: bool) -> (r: (
        Option<String>,
        String,
    ))
        ensures
            on_terminal ==> r.0 is Some && r.0->0@ == seq!['\r'],
            !on_terminal ==> r.0 is None,
            r.1@ == marked_line(RED@, "❌ "@, error_message@, colored),
    {
        (clear(on_terminal), log_error(error_message, colored))
    }
}

fn clear(on_terminal: bool) -> (r: Option<String>)
    ensures
        on_terminal ==> r is Some && r->0@ == seq!['\r'],
        !on_terminal ==> r is None,
{
    if on_terminal {
        let mut s = String::new();
        s.push('\r');
        assert(s@ =~= seq!['\r']);
        Some(s)
    } else {
        None
    }
}

} // verus!
