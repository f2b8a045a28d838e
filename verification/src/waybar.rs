//! The status-bar text renderer: theme colors parsed from a CSS
//! foreground definition, the occupied-workspace summary, and the pango
//! markup line with its JSON wrapper.
use vstd::prelude::*;
use vstd::string::StrSliceExecFns;
use vstd::string::StringExecFns;

use crate::hyprctl::{Hyprctl, HyprctlError, HyprctlRunner, WorkspaceInfo};
use crate::paired::spec_normalize;
use crate::strutil::{
    spec_digit_char, spec_is_digit, spec_is_ws, spec_starts_with, spec_string_views, spec_trim,
    spec_trim_start, spec_u32_digits, str_starts_with, trim, u32_to_string,
};

verus! {

/// The three foreground strengths derived from one theme color.
#[derive(Debug, Clone, PartialEq, Eq)]
pub struct ThemeColors {
    pub bright: String,
    pub mid: String,
    pub dim: String,
}

/// A failure while rendering status-bar state: an unreadable theme file,
/// a theme without a usable foreground color, or a compositor failure.
#[derive(Debug)]
pub enum WaybarError {
    Io(std::io::Error),
    MissingForeground,
    Hyprctl(HyprctlError),
}

/// Whether `c` is an ASCII hexadecimal digit.
pub open spec fn spec_is_hex_digit(c: char) -> bool {
    spec_is_digit(c) || (('a' as int) <= (c as int) <= ('f' as int)) || (('A' as int) <= (
    c as int) <= ('F' as int))
}

/// Lowercases the six uppercase hexadecimal letters; everything else is
/// unchanged.
pub open spec fn spec_lower_hex(c: char) -> char {
    if c == 'A' {
        'a'
    } else if c == 'B' {
        'b'
    } else if c == 'C' {
        'c'
    } else if c == 'D' {
        'd'
    } else if c == 'E' {
        'e'
    } else if c == 'F' {
        'f'
    } else {
        c
    }
}

/// The numeric value of a hexadecimal digit.
pub open spec fn spec_hex_val(c: char) -> int {
    if spec_is_digit(c) {
        (c as int) - ('0' as int)
    } else if ('a' as int) <= (c as int) <= ('f' as int) {
        (c as int) - ('a' as int) + 10
    } else if ('A' as int) <= (c as int) <= ('F' as int) {
        (c as int) - ('A' as int) + 10
    } else {
        0
    }
}

/// The lowercase hexadecimal digit character for a value below sixteen.
pub open spec fn spec_hex_char(d: int) -> char {
    if d < 10 {
        spec_digit_char(d)
    } else if d == 10 {
        'a'
    } else if d == 11 {
        'b'
    } else if d == 12 {
        'c'
    } else if d == 13 {
        'd'
    } else if d == 14 {
        'e'
    } else {
        'f'
    }
}

/// The two-digit lowercase hexadecimal rendering of a byte value.
pub open spec fn spec_hex2(n: int) -> Seq<char> {
    seq![spec_hex_char(n / 16), spec_hex_char(n % 16)]
}

/// A normalized color: the trimmed input when it is `#` followed by six
/// hexadecimal digits, lowercased; anything else is rejected.
pub open spec fn spec_normalize_hex(s: Seq<char>) -> Option<Seq<char>> {
    let t = spec_trim(s);
    if t.len() == 7 && t[0] == '#' && (forall|i: int| 1 <= i < 7 ==> spec_is_hex_digit(#[trigger] t[i])) {
        Some(Seq::new(7, |i: int| spec_lower_hex(t[i])))
    } else {
        None
    }
}

/// The one-character string for a normalized-color character.
fn lower_hex_char_str(c: char) -> (r: &'static str)
    requires
        c == '#' || spec_is_hex_digit(c),
    ensures
        r@ =~= seq![spec_lower_hex(c)],
{
    proof {
        reveal_strlit("#");
        reveal_strlit("0");
        reveal_strlit("1");
        reveal_strlit("2");
        reveal_strlit("3");
        reveal_strlit("4");
        reveal_strlit("5");
        reveal_strlit("6");
        reveal_strlit("7");
        reveal_strlit("8");
        reveal_strlit("9");
        reveal_strlit("a");
        reveal_strlit("b");
        reveal_strlit("c");
        reveal_strlit("d");
        reveal_strlit("e");
        reveal_strlit("f");
    }
    match c {
        '#' => "#",
        '0' => "0",
        '1' => "1",
        '2' => "2",
        '3' => "3",
        '4' => "4",
        '5' => "5",
        '6' => "6",
        '7' => "7",
        '8' => "8",
        '9' => "9",
        'a' | 'A' => "a",
        'b' | 'B' => "b",
        'c' | 'C' => "c",
        'd' | 'D' => "d",
        'e' | 'E' => "e",
        _ => "f",
    }
}

/// Validates and lowercases a `#rrggbb` color, trimming whitespace.
pub fn normalize_hex(hex: &str) -> (r: Option<String>)
    ensures
        match r {
            Some(color) => spec_normalize_hex(hex@) == Some(color@),
            None => spec_normalize_hex(hex@) is None,
        },
{
    let t = trim(hex);
    let len = t.as_str().unicode_len();
    if len != 7 {
        return None;
    }
    if t.as_str().get_char(0) != '#' {
        return None;
    }
    let mut i: usize = 1;
    while i < 7
        invariant
            1 <= i <= 7,
            t@ == spec_trim(hex@),
            t@.len() == 7,
            forall|j: int| 1 <= j < i ==> spec_is_hex_digit(#[trigger] t@[j]),
        decreases 7 - i,
    {
        let c = t.as_str().get_char(i);
        let is_hex = (c >= '0' && c <= '9') || (c >= 'a' && c <= 'f') || (c >= 'A' && c <= 'F');
        if !is_hex {
            assert(!spec_is_hex_digit(t@[i as int]));
            return None;
        }
        i = i + 1;
    }
    let mut out = String::new();
    let mut i: usize = 0;
    while i < 7
        invariant
            i <= 7,
            t@ == spec_trim(hex@),
            t@.len() == 7,
            t@[0] == '#',
            forall|j: int| 1 <= j < 7 ==> spec_is_hex_digit(#[trigger] t@[j]),
            out@ =~= Seq::new(i as nat, |k: int| spec_lower_hex(t@[k])),
        decreases 7 - i,
    {
        let c = t.as_str().get_char(i);
        out.append(lower_hex_char_str(c));
        proof {
            assert(out@ =~= Seq::new((i + 1) as nat, |k: int| spec_lower_hex(t@[k])));
        }
        i = i + 1;
    }
    Some(out)
}

/// Reads a hexadecimal digit's value.
fn hex_val(c: char) -> (r: u8)
    requires
        spec_is_hex_digit(c),
    ensures
        r as int == spec_hex_val(c),
        r < 16,
{
    if c >= '0' && c <= '9' {
        (c as u32 - '0' as u32) as u8
    } else if c >= 'a' && c <= 'f' {
        (c as u32 - 'a' as u32 + 10) as u8
    } else {
        (c as u32 - 'A' as u32 + 10) as u8
    }
}

/// The one-character string for a hexadecimal digit value.
fn hex_digit_str(d: u8) -> (r: &'static str)
    requires
        d < 16,
    ensures
        r@ =~= seq![spec_hex_char(d as int)],
{
    proof {
        reveal_strlit("a");
        reveal_strlit("b");
        reveal_strlit("c");
        reveal_strlit("d");
        reveal_strlit("e");
        reveal_strlit("f");
    }
    if d < 10 {
        crate::strutil::digit_str(d as u32)
    } else {
        match d {
            10 => "a",
            11 => "b",
            12 => "c",
            13 => "d",
            14 => "e",
            _ => "f",
        }
    }
}

/// Renders a byte as two lowercase hexadecimal digits.
fn hex2_string(n: u8) -> (r: String)
    ensures
        r@ =~= spec_hex2(n as int),
{
    let mut out = String::from_str(hex_digit_str(n / 16));
    out.append(hex_digit_str(n % 16));
    out
}

/// The color scaled to `factor` percent, channel by channel, after
/// normalization.
pub open spec fn spec_dim_color(s: Seq<char>, factor: int) -> Option<Seq<char>> {
    match spec_normalize_hex(s) {
        Some(n) => {
            let r = spec_hex_val(n[1]) * 16 + spec_hex_val(n[2]);
            let g = spec_hex_val(n[3]) * 16 + spec_hex_val(n[4]);
            let b = spec_hex_val(n[5]) * 16 + spec_hex_val(n[6]);
            Some(
                seq!['#'] + spec_hex2(r * factor / 100) + spec_hex2(g * factor / 100) + spec_hex2(
                    b * factor / 100,
                ),
            )
        },
        None => None,
    }
}

/// Scales a color to `factor` percent of each channel.
fn dim_color(hex: &str, factor: u8) -> (r: Option<String>)
    requires
        factor <= 100,
    ensures
        match r {
            Some(color) => spec_dim_color(hex@, factor as int) == Some(color@),
            None => spec_dim_color(hex@, factor as int) is None,
        },
{
    let normalized = match normalize_hex(hex) {
        Some(normalized) => normalized,
        None => { return None; },
    };
    let red = hex_val(normalized.as_str().get_char(1)) * 16 + hex_val(
        normalized.as_str().get_char(2),
    );
    let green = hex_val(normalized.as_str().get_char(3)) * 16 + hex_val(
        normalized.as_str().get_char(4),
    );
    let blue = hex_val(normalized.as_str().get_char(5)) * 16 + hex_val(
        normalized.as_str().get_char(6),
    );
    proof {
        assert((red as int) * (factor as int) <= 25500) by (nonlinear_arith)
            requires
                red <= 255,
                factor <= 100,
        ;
        assert((green as int) * (factor as int) <= 25500) by (nonlinear_arith)
            requires
                green <= 255,
                factor <= 100,
        ;
        assert((blue as int) * (factor as int) <= 25500) by (nonlinear_arith)
            requires
                blue <= 255,
                factor <= 100,
        ;
    }
    let red_scaled = ((red as u16) * (factor as u16) / 100) as u8;
    let green_scaled = ((green as u16) * (factor as u16) / 100) as u8;
    let blue_scaled = ((blue as u16) * (factor as u16) / 100) as u8;
    proof {
        reveal_strlit("#");
    }
    let mut out = String::from_str("#");
    out.append(hex2_string(red_scaled).as_str());
    out.append(hex2_string(green_scaled).as_str());
    out.append(hex2_string(blue_scaled).as_str());
    Some(out)
}

impl ThemeColors {
    /// Derives the three strengths from one foreground color: the
    /// normalized color itself, and the same color at sixty-five and at
    /// forty percent.
    pub fn from_foreground(hex: &str) -> (r: Option<ThemeColors>)
        ensures
            match r {
                Some(colors) => spec_normalize_hex(hex@) == Some(colors.bright@) && spec_dim_color(
                    colors.bright@,
                    65,
                ) == Some(colors.mid@) && spec_dim_color(colors.bright@, 40) == Some(colors.dim@),
                None => spec_normalize_hex(hex@) is None,
            },
    {
        let bright = match normalize_hex(hex) {
            Some(bright) => bright,
            None => { return None; },
        };
        proof {
            lemma_normalize_hex_fixed(hex@, bright@);
        }
        let mid = match dim_color(bright.as_str(), 65) {
            Some(mid) => mid,
            None => { return None; },
        };
        let dim = match dim_color(bright.as_str(), 40) {
            Some(dim) => dim,
            None => { return None; },
        };
        Some(ThemeColors { bright, mid, dim })
    }
}

/// Whether a raw notification line should refresh the status bar.
pub fn should_update(line: &str) -> (r: bool)
    ensures
        r == (spec_starts_with(line@, "workspace"@) || spec_starts_with(line@, "focusedmon"@)
            || spec_starts_with(line@, "createworkspace"@) || spec_starts_with(
            line@,
            "destroyworkspace"@,
        ) || spec_starts_with(line@, "openwindow"@) || spec_starts_with(line@, "closewindow"@)
            || spec_starts_with(line@, "movewindow"@)),
{
    str_starts_with(line, "workspace") || str_starts_with(line, "focusedmon") || str_starts_with(
        line,
        "createworkspace",
    ) || str_starts_with(line, "destroyworkspace") || str_starts_with(line, "openwindow")
        || str_starts_with(line, "closewindow") || str_starts_with(line, "movewindow")
}

/// A color that `spec_normalize_hex` produced is itself normalized, and
/// normalizes to itself.
proof fn lemma_normalize_hex_fixed(s: Seq<char>, color: Seq<char>)
    requires
        spec_normalize_hex(s) == Some(color),
    ensures
        spec_normalize_hex(color) == Some(color),
{
    let t = spec_trim(s);
    assert(color =~= Seq::new(7, |i: int| spec_lower_hex(t[i])));
    assert forall|i: int| 0 <= i < color.len() implies !spec_is_ws(#[trigger] color[i]) by {
        assert(color[i] == spec_lower_hex(t[i]));
    }
    crate::strutil::lemma_trim_noop(color);
    assert(color[0] == spec_lower_hex(t[0]));
    assert forall|i: int| 1 <= i < 7 implies spec_is_hex_digit(#[trigger] color[i]) by {
        assert(color[i] == spec_lower_hex(t[i]));
        assert(spec_is_hex_digit(t[i]));
    }
    assert(Seq::new(7, |i: int| spec_lower_hex(color[i])) =~= color);
}


/// The lines of `s`: split on line feeds, with a carriage return at a
/// line's end stripped, and no empty line after a final line feed.
pub open spec fn spec_lines_acc(s: Seq<char>, cur: Seq<char>) -> Seq<Seq<char>>
    decreases s.len(),
{
    if s.len() == 0 {
        if cur.len() == 0 {
            Seq::empty()
        } else {
            seq![cur]
        }
    } else if s[0] == '\n' {
        seq![spec_strip_cr(cur)] + spec_lines_acc(s.drop_first(), Seq::empty())
    } else {
        spec_lines_acc(s.drop_first(), cur.push(s[0]))
    }
}

/// A line's text with one trailing carriage return removed.
pub open spec fn spec_strip_cr(line: Seq<char>) -> Seq<char> {
    if line.len() > 0 && line.last() == '\r' {
        line.drop_last()
    } else {
        line
    }
}

/// The lines of `s`.
pub open spec fn spec_lines(s: Seq<char>) -> Seq<Seq<char>> {
    spec_lines_acc(s, Seq::empty())
}

/// The whitespace-separated tokens of `s`.
pub open spec fn spec_tokens_acc(s: Seq<char>, cur: Seq<char>) -> Seq<Seq<char>>
    decreases s.len(),
{
    if s.len() == 0 {
        if cur.len() == 0 {
            Seq::empty()
        } else {
            seq![cur]
        }
    } else if spec_is_ws(s[0]) {
        if cur.len() == 0 {
            spec_tokens_acc(s.drop_first(), Seq::empty())
        } else {
            seq![cur] + spec_tokens_acc(s.drop_first(), Seq::empty())
        }
    } else {
        spec_tokens_acc(s.drop_first(), cur.push(s[0]))
    }
}

/// The whitespace-separated tokens of `s`.
pub open spec fn spec_tokens(s: Seq<char>) -> Seq<Seq<char>> {
    spec_tokens_acc(s, Seq::empty())
}

/// `s` without its trailing semicolons.
pub open spec fn spec_strip_semis(s: Seq<char>) -> Seq<char>
    decreases s.len(),
{
    if s.len() > 0 && s.last() == ';' {
        spec_strip_semis(s.drop_last())
    } else {
        s
    }
}

/// Splits text into lines.
fn split_lines(s: &str) -> (r: Vec<String>)
    ensures
        spec_string_views(r@) == spec_lines(s@),
{
    let len = s.unicode_len();
    let mut lines: Vec<String> = Vec::new();
    let mut start: usize = 0;
    let mut i: usize = 0;
    proof {
        assert(spec_string_views(lines@) =~= Seq::<Seq<char>>::empty());
        assert(s@.subrange(0, 0) =~= Seq::<char>::empty());
        assert(s@.subrange(0, len as int) =~= s@);
        assert(Seq::<Seq<char>>::empty() + spec_lines_acc(s@, Seq::empty()) =~= spec_lines_acc(
            s@,
            Seq::empty(),
        ));
    }
    while i < len
        invariant
            start <= i <= len,
            len == s@.len(),
            spec_lines(s@) =~= spec_string_views(lines@) + spec_lines_acc(
                s@.subrange(i as int, len as int),
                s@.subrange(start as int, i as int),
            ),
        decreases len - i,
    {
        proof {
            let rest = s@.subrange(i as int, len as int);
            assert(rest[0] == s@[i as int]);
            assert(rest.drop_first() =~= s@.subrange(i as int + 1, len as int));
        }
        let c = s.get_char(i);
        if c == '\n' {
            let mut end = i;
            if end > start && s.get_char(end - 1) == '\r' {
                end = end - 1;
            }
            proof {
                let cur = s@.subrange(start as int, i as int);
                assert(spec_strip_cr(cur) =~= s@.subrange(start as int, end as int));
            }
            lines.push(String::from_str(s.substring_char(start, end)));
            proof {
                assert(spec_string_views(lines@) =~= spec_string_views(lines@.drop_last()).push(
                    s@.subrange(start as int, end as int),
                ));
                assert(s@.subrange(i as int + 1, i as int + 1) =~= Seq::<char>::empty());
            }
            start = i + 1;
        } else {
            proof {
                assert(s@.subrange(start as int, i as int).push(s@[i as int]) =~= s@.subrange(
                    start as int,
                    i as int + 1,
                ));
            }
        }
        i = i + 1;
    }
    if start < len {
        lines.push(String::from_str(s.substring_char(start, len)));
        proof {
            assert(spec_string_views(lines@) =~= spec_string_views(lines@.drop_last()).push(
                s@.subrange(start as int, len as int),
            ));
            assert(s@.subrange(len as int, len as int) =~= Seq::<char>::empty());
            assert(spec_string_views(lines@) =~= spec_string_views(lines@.drop_last())
                + spec_lines_acc(
                s@.subrange(len as int, len as int),
                s@.subrange(start as int, len as int),
            ));
        }
    } else {
        proof {
            assert(s@.subrange(len as int, len as int) =~= Seq::<char>::empty());
            assert(spec_string_views(lines@) + Seq::<Seq<char>>::empty() =~= spec_string_views(
                lines@,
            ));
        }
    }
    lines
}

/// Splits a line into whitespace-separated tokens.
fn split_tokens(s: &str) -> (r: Vec<String>)
    ensures
        spec_string_views(r@) == spec_tokens(s@),
{
    let len = s.unicode_len();
    let mut tokens: Vec<String> = Vec::new();
    let mut start: usize = 0;
    let mut i: usize = 0;
    proof {
        assert(spec_string_views(tokens@) =~= Seq::<Seq<char>>::empty());
        assert(s@.subrange(0, 0) =~= Seq::<char>::empty());
        assert(s@.subrange(0, len as int) =~= s@);
        assert(Seq::<Seq<char>>::empty() + spec_tokens_acc(s@, Seq::empty()) =~= spec_tokens_acc(
            s@,
            Seq::empty(),
        ));
    }
    while i < len
        invariant
            start <= i <= len,
            len == s@.len(),
            spec_tokens(s@) =~= spec_string_views(tokens@) + spec_tokens_acc(
                s@.subrange(i as int, len as int),
                s@.subrange(start as int, i as int),
            ),
        decreases len - i,
    {
        proof {
            let rest = s@.subrange(i as int, len as int);
            assert(rest[0] == s@[i as int]);
            assert(rest.drop_first() =~= s@.subrange(i as int + 1, len as int));
        }
        let c = s.get_char(i);
        let ws = c == ' ' || c == '\t' || c == '\n' || c == '\r';
        if ws {
            if i > start {
                tokens.push(String::from_str(s.substring_char(start, i)));
                proof {
                    assert(spec_string_views(tokens@) =~= spec_string_views(tokens@.drop_last()).push(
                        s@.subrange(start as int, i as int),
                    ));
                }
            }
            proof {
                assert(s@.subrange(i as int + 1, i as int + 1) =~= Seq::<char>::empty());
            }
            start = i + 1;
        } else {
            proof {
                assert(s@.subrange(start as int, i as int).push(s@[i as int]) =~= s@.subrange(
                    start as int,
                    i as int + 1,
                ));
            }
        }
        i = i + 1;
    }
    if start < len {
        tokens.push(String::from_str(s.substring_char(start, len)));
        proof {
            assert(spec_string_views(tokens@) =~= spec_string_views(tokens@.drop_last()).push(
                s@.subrange(start as int, len as int),
            ));
            assert(s@.subrange(len as int, len as int) =~= Seq::<char>::empty());
            assert(spec_string_views(tokens@) =~= spec_string_views(tokens@.drop_last())
                + spec_tokens_acc(
                s@.subrange(len as int, len as int),
                s@.subrange(start as int, len as int),
            ));
        }
    } else {
        proof {
            assert(s@.subrange(len as int, len as int) =~= Seq::<char>::empty());
            assert(spec_string_views(tokens@) + Seq::<Seq<char>>::empty() =~= spec_string_views(
                tokens@,
            ));
        }
    }
    tokens
}

/// Strips trailing semicolons.
fn strip_semis(s: &str) -> (r: String)
    ensures
        r@ == spec_strip_semis(s@),
{
    let len = s.unicode_len();
    let mut end: usize = len;
    proof {
        assert(s@.subrange(0, len as int) =~= s@);
    }
    while end > 0 && s.get_char(end - 1) == ';'
        invariant
            end <= len,
            len == s@.len(),
            spec_strip_semis(s@) == spec_strip_semis(s@.subrange(0, end as int)),
        decreases end,
    {
        proof {
            let prefix = s@.subrange(0, end as int);
            assert(prefix.last() == s@[end - 1]);
            assert(prefix.drop_last() =~= s@.subrange(0, end as int - 1));
        }
        end = end - 1;
    }
    proof {
        let prefix = s@.subrange(0, end as int);
        if end > 0 {
            assert(prefix.last() == s@[end - 1]);
        }
        if end == len {
            assert(prefix =~= s@);
        }
    }
    String::from_str(s.substring_char(0, end))
}

/// The first line defining the theme's foreground color.
pub open spec fn spec_find_foreground_line(lines: Seq<Seq<char>>) -> Option<Seq<char>>
    decreases lines.len(),
{
    if lines.len() == 0 {
        None
    } else if spec_starts_with(spec_trim_start(lines[0]), "@define-color foreground"@) {
        Some(lines[0])
    } else {
        spec_find_foreground_line(lines.drop_first())
    }
}

/// The first token of a line that begins with `#`.
pub open spec fn spec_find_hash_token(tokens: Seq<Seq<char>>) -> Option<Seq<char>>
    decreases tokens.len(),
{
    if tokens.len() == 0 {
        None
    } else if tokens[0].len() > 0 && tokens[0][0] == '#' {
        Some(tokens[0])
    } else {
        spec_find_hash_token(tokens.drop_first())
    }
}

/// The foreground color a theme stylesheet defines: on the first
/// `@define-color foreground` line, the first `#` token, semicolons
/// stripped and the color normalized.
pub open spec fn spec_parse_foreground(css: Seq<char>) -> Option<Seq<char>> {
    match spec_find_foreground_line(spec_lines(css)) {
        Some(line) => match spec_find_hash_token(spec_tokens(line)) {
            Some(token) => spec_normalize_hex(spec_strip_semis(token)),
            None => None,
        },
        None => None,
    }
}

/// Extracts the foreground color from a theme stylesheet.
pub fn parse_foreground(css: &str) -> (r: Option<String>)
    ensures
        match r {
            Some(color) => spec_parse_foreground(css@) == Some(color@),
            None => spec_parse_foreground(css@) is None,
        },
{
    let lines = split_lines(css);
    let mut li: usize = 0;
    proof {
        assert(spec_lines(css@).subrange(0, spec_lines(css@).len() as int) =~= spec_lines(css@));
    }
    while li < lines.len()
        invariant
            li <= lines@.len(),
            spec_string_views(lines@) == spec_lines(css@),
            spec_find_foreground_line(spec_lines(css@)) == spec_find_foreground_line(
                spec_lines(css@).subrange(li as int, spec_lines(css@).len() as int),
            ),
        decreases lines@.len() - li,
    {
        proof {
            let rest = spec_lines(css@).subrange(li as int, spec_lines(css@).len() as int);
            assert(rest[0] == spec_lines(css@)[li as int]);
            assert(rest.drop_first() =~= spec_lines(css@).subrange(
                li as int + 1,
                spec_lines(css@).len() as int,
            ));
            assert(spec_lines(css@)[li as int] == lines@[li as int]@);
        }
        let trimmed = crate::strutil::trim_start_str(lines[li].as_str());
        if str_starts_with(trimmed.as_str(), "@define-color foreground") {
            let tokens = split_tokens(lines[li].as_str());
            let mut ti: usize = 0;
            let ghost line_view = lines@[li as int]@;
            proof {
                assert(spec_tokens(line_view).subrange(0, spec_tokens(line_view).len() as int)
                    =~= spec_tokens(line_view));
                let rest = spec_lines(css@).subrange(li as int, spec_lines(css@).len() as int);
                assert(spec_find_foreground_line(rest) == Some(line_view));
            }
            while ti < tokens.len()
                invariant
                    ti <= tokens@.len(),
                    spec_find_foreground_line(spec_lines(css@)) == Some(line_view),
                    spec_string_views(tokens@) == spec_tokens(line_view),
                    spec_find_hash_token(spec_tokens(line_view)) == spec_find_hash_token(
                        spec_tokens(line_view).subrange(
                            ti as int,
                            spec_tokens(line_view).len() as int,
                        ),
                    ),
                decreases tokens@.len() - ti,
            {
                proof {
                    let rest = spec_tokens(line_view).subrange(
                        ti as int,
                        spec_tokens(line_view).len() as int,
                    );
                    assert(rest[0] == spec_tokens(line_view)[ti as int]);
                    assert(rest.drop_first() =~= spec_tokens(line_view).subrange(
                        ti as int + 1,
                        spec_tokens(line_view).len() as int,
                    ));
                    assert(spec_tokens(line_view)[ti as int] == tokens@[ti as int]@);
                }
                let token = &tokens[ti];
                if !token.as_str().is_empty() && token.as_str().get_char(0) == '#' {
                    proof {
                        let rest = spec_tokens(line_view).subrange(
                            ti as int,
                            spec_tokens(line_view).len() as int,
                        );
                        assert(spec_find_hash_token(rest) == Some(tokens@[ti as int]@));
                        assert(spec_find_foreground_line(spec_lines(css@)) == Some(line_view));
                        assert(spec_parse_foreground(css@) == spec_normalize_hex(
                            spec_strip_semis(tokens@[ti as int]@),
                        ));
                    }
                    let stripped = strip_semis(token.as_str());
                    return normalize_hex(stripped.as_str());
                }
                ti = ti + 1;
            }
            proof {
                assert(spec_tokens(line_view).subrange(
                    spec_tokens(line_view).len() as int,
                    spec_tokens(line_view).len() as int,
                ) =~= Seq::<Seq<char>>::empty());
            }
            return None;
        }
        li = li + 1;
    }
    proof {
        assert(spec_lines(css@).subrange(
            spec_lines(css@).len() as int,
            spec_lines(css@).len() as int,
        ) =~= Seq::<Seq<char>>::empty());
    }
    None
}


/// Whether `x` occurs in `s`.
pub open spec fn spec_seq_has(s: Seq<u32>, x: u32) -> bool {
    exists|k: int| 0 <= k < s.len() && s[k] == x
}

/// Whether `s` is strictly increasing.
pub open spec fn spec_strictly_sorted(s: Seq<u32>) -> bool {
    forall|k1: int, k2: int| 0 <= k1 < k2 < s.len() ==> s[k1] < s[k2]
}

/// The pairing-range summary of a workspace id: ids beyond the offset
/// fold back onto the primary range.
pub open spec fn spec_folded_id(id: u32, offset: u32) -> u32 {
    if id > offset {
        (id - offset) as u32
    } else {
        id
    }
}

/// Whether some occupied workspace folds onto `x`.
pub open spec fn spec_occupied_has(workspaces: Seq<WorkspaceInfo>, offset: u32, x: u32) -> bool {
    exists|i: int|
        0 <= i < workspaces.len() && workspaces[i].windows > 0 && spec_folded_id(
            workspaces[i].id,
            offset,
        ) == x
}

/// Inserts `v` into a strictly sorted list, keeping it strictly sorted;
/// a value already present is left alone.
fn insert_sorted_unique(out: &mut Vec<u32>, v: u32)
    requires
        spec_strictly_sorted(old(out)@),
    ensures
        spec_strictly_sorted(final(out)@),
        forall|x: u32| spec_seq_has(final(out)@, x) <==> (spec_seq_has(old(out)@, x) || x == v),
{
    let len = out.len();
    let mut p: usize = 0;
    while p < len && out[p] < v
        invariant
            p <= len,
            len == out@.len(),
            out@ == old(out)@,
            forall|k: int| 0 <= k < p ==> out@[k] < v,
        decreases len - p,
    {
        p = p + 1;
    }
    if p < len && out[p] == v {
        return ;
    }
    out.insert(p, v);
    proof {
        let s = old(out)@;
        let t = out@;
        assert(t =~= s.insert(p as int, v));
        assert forall|k1: int, k2: int| 0 <= k1 < k2 < t.len() implies t[k1] < t[k2] by {
            if k2 < p {
                assert(t[k1] == s[k1] && t[k2] == s[k2]);
            } else if k1 > p {
                assert(t[k1] == s[k1 - 1] && t[k2] == s[k2 - 1]);
            } else if k1 == p && k2 > p {
                assert(t[k1] == v && t[k2] == s[k2 - 1]);
                assert(s[k2 - 1] >= v);
                assert(s[k2 - 1] != v);
            } else if k2 == p {
                assert(t[k1] == s[k1] && t[k2] == v);
            } else {
                assert(k1 < p && k2 > p);
                assert(t[k1] == s[k1] && t[k2] == s[k2 - 1]);
                if k2 - 1 == p {
                    assert(s[k2 - 1] >= v);
                    assert(t[k1] < v);
                } else {
                    assert(t[k1] < v && v <= s[p as int] && s[p as int] <= s[k2 - 1]);
                }
            }
        }
        assert forall|x: u32| spec_seq_has(t, x) implies (spec_seq_has(s, x) || x == v) by {
            let k = choose|k: int| 0 <= k < t.len() && t[k] == x;
            if k < p {
                assert(s[k] == x);
            } else if k > p {
                assert(s[k - 1] == x);
            }
        }
        assert forall|x: u32| (spec_seq_has(s, x) || x == v) implies spec_seq_has(t, x) by {
            if x == v {
                assert(t[p as int] == v);
            } else {
                let k = choose|k: int| 0 <= k < s.len() && s[k] == x;
                if k < p {
                    assert(t[k] == x);
                } else {
                    assert(t[k + 1] == x);
                }
            }
        }
    }
}

/// The occupied workspace slots: each workspace with at least one window,
/// folded back onto the primary range, listed once each in ascending
/// order.
pub fn occupied_workspaces(workspaces: &[WorkspaceInfo], offset: u32) -> (r: Vec<u32>)
    ensures
        spec_strictly_sorted(r@),
        forall|x: u32| spec_seq_has(r@, x) <==> spec_occupied_has(workspaces@, offset, x),
{
    let mut out: Vec<u32> = Vec::new();
    let mut i: usize = 0;
    while i < workspaces.len()
        invariant
            i <= workspaces@.len(),
            spec_strictly_sorted(out@),
            forall|x: u32|
                spec_seq_has(out@, x) <==> spec_occupied_has(
                    workspaces@.subrange(0, i as int),
                    offset,
                    x,
                ),
        decreases workspaces@.len() - i,
    {
        let workspace = vstd::slice::slice_index_get(workspaces, i);
        let ghost before = out@;
        if workspace.windows > 0 {
            let folded: u32 = if workspace.id > offset {
                workspace.id - offset
            } else {
                workspace.id
            };
            insert_sorted_unique(&mut out, folded);
        }
        i = i + 1;
        proof {
            let prefix = workspaces@.subrange(0, i as int);
            assert(prefix.drop_last() =~= workspaces@.subrange(0, i as int - 1));
            assert(prefix.last() == workspaces@[i as int - 1]);
            assert forall|x: u32| spec_seq_has(out@, x) implies spec_occupied_has(
                prefix,
                offset,
                x,
            ) by {
                if spec_occupied_has(workspaces@.subrange(0, i as int - 1), offset, x) {
                    let w = choose|k: int|
                        0 <= k < i - 1 && (#[trigger] workspaces@.subrange(0, i as int - 1)[k]).windows
                            > 0 && spec_folded_id(
                            workspaces@.subrange(0, i as int - 1)[k].id,
                            offset,
                        ) == x;
                    assert(prefix[w].windows > 0 && spec_folded_id(prefix[w].id, offset) == x);
                } else {
                    assert(prefix[i - 1].windows > 0 && spec_folded_id(prefix[i - 1].id, offset)
                        == x);
                }
            }
            assert forall|x: u32| spec_occupied_has(prefix, offset, x) implies spec_seq_has(
                out@,
                x,
            ) by {
                let w = choose|k: int|
                    0 <= k < prefix.len() && (#[trigger] prefix[k]).windows > 0 && spec_folded_id(
                        prefix[k].id,
                        offset,
                    ) == x;
                if w < i - 1 {
                    assert(workspaces@.subrange(0, i as int - 1)[w] == prefix[w]);
                    assert(spec_occupied_has(workspaces@.subrange(0, i as int - 1), offset, x));
                }
            }
        }
    }
    proof {
        assert(workspaces@.subrange(0, workspaces@.len() as int) =~= workspaces@);
    }
    out
}


/// The pango span rendered for slot `i`: the glyph in the bright color
/// when `i` is the active slot, the slot number in the mid color when it
/// is occupied, and in the dim color otherwise.
pub open spec fn spec_span(i: int, active: int, occupied: Seq<u32>, colors: ThemeColors) -> Seq<
    char,
> {
    if i == active {
        "<span foreground='"@ + colors.bright@ + "'>"@ + "\u{f14fb}"@ + "</span>"@
    } else if spec_seq_has(occupied, i as u32) {
        "<span foreground='"@ + colors.mid@ + "'>"@ + spec_u32_digits(i as nat) + "</span>"@
    } else {
        "<span foreground='"@ + colors.dim@ + "'>"@ + spec_u32_digits(i as nat) + "</span>"@
    }
}

/// The display line from slot `i` up to slot five, space-separated.
pub open spec fn spec_render_from(
    i: int,
    active: int,
    occupied: Seq<u32>,
    colors: ThemeColors,
) -> Seq<char>
    decreases 6 - i,
{
    if i > 5 || i < 1 {
        Seq::empty()
    } else {
        spec_span(i, active, occupied, colors) + (if i < 5 {
            " "@
        } else {
            Seq::empty()
        }) + spec_render_from(i + 1, active, occupied, colors)
    }
}

/// The whole five-slot display line.
pub open spec fn spec_render_display(
    active: int,
    occupied: Seq<u32>,
    colors: ThemeColors,
) -> Seq<char> {
    spec_render_from(1, active, occupied, colors)
}

/// Whether `x` occurs in the occupied list.
fn occupied_contains(occupied: &[u32], x: u32) -> (r: bool)
    ensures
        r == spec_seq_has(occupied@, x),
{
    let mut i: usize = 0;
    while i < occupied.len()
        invariant
            i <= occupied@.len(),
            forall|k: int| 0 <= k < i ==> occupied@[k] != x,
        decreases occupied@.len() - i,
    {
        if *vstd::slice::slice_index_get(occupied, i) == x {
            return true;
        }
        i = i + 1;
    }
    false
}

/// Renders the five workspace slots: the active slot as a glyph in the
/// bright color, occupied slots as numbers in the mid color, the rest in
/// the dim color, space-separated.
pub fn render_display(active_workspace: u32, occupied: &[u32], colors: &ThemeColors) -> (r: String)
    ensures
        r@ == spec_render_display(active_workspace as int, occupied@, *colors),
{
    let mut out = String::new();
    let mut i: u32 = 1;
    while i <= 5
        invariant
            1 <= i <= 6,
            out@ + spec_render_from(i as int, active_workspace as int, occupied@, *colors)
                =~= spec_render_display(active_workspace as int, occupied@, *colors),
        decreases 6 - i,
    {
        let is_active = i == active_workspace;
        let is_occupied = occupied_contains(occupied, i);
        if is_active {
            out.append("<span foreground='");
            out.append(colors.bright.as_str());
            out.append("'>");
            out.append("\u{f14fb}");
            out.append("</span>");
        } else if is_occupied {
            out.append("<span foreground='");
            out.append(colors.mid.as_str());
            out.append("'>");
            let digits = u32_to_string(i);
            out.append(digits.as_str());
            out.append("</span>");
        } else {
            out.append("<span foreground='");
            out.append(colors.dim.as_str());
            out.append("'>");
            let digits = u32_to_string(i);
            out.append(digits.as_str());
            out.append("</span>");
        }
        if i < 5 {
            out.append(" ");
        }
        i = i + 1;
    }
    out
}

/// What `serde_json` emits for one text value: the quoted, escaped JSON
/// string literal, a function of the characters alone.
pub uninterp spec fn json_quoted_of(s: Seq<char>) -> Seq<char>;

/// Relies on `serde_json::to_string` for a string slice: the JSON string
/// literal of the text.  Serializing a string slice cannot fail.
#[verifier::external_body]
fn json_quote(s: &str) -> (r: String)
    ensures
        r@ == json_quoted_of(s@),
{
    serde_json::to_string(s).unwrap_or_default()
}

/// The status-bar JSON object around a rendered text: fixed class and
/// markup fields, keys in alphabetical order.
pub open spec fn spec_render_json(text: Seq<char>) -> Seq<char> {
    "{\"class\":\"workspaces\",\"markup\":true,\"text\":"@ + json_quoted_of(text) + "}"@
}

/// Wraps a rendered display line in the status-bar JSON object.
pub fn render_json(text: &str) -> (r: String)
    ensures
        r@ == spec_render_json(text@),
{
    let mut out = String::from_str("{\"class\":\"workspaces\",\"markup\":true,\"text\":");
    let quoted = json_quote(text);
    out.append(quoted.as_str());
    out.append("}");
    out
}

/// The rendered status line for an active workspace and workspace list:
/// the display of the normalized active slot and the occupied slots,
/// wrapped as JSON.  A zero active id marks no slot active.
pub open spec fn spec_render_state(
    active_workspace: u32,
    occupied: Seq<u32>,
    offset: u32,
    colors: ThemeColors,
) -> Seq<char> {
    let normalized = if active_workspace >= 1 {
        spec_normalize(active_workspace as int, offset as int)
    } else {
        0
    };
    spec_render_json(spec_render_display(normalized, occupied, colors))
}

/// Renders the full status-bar state for the given workspace list.
pub fn render_state(
    active_workspace: u32,
    workspaces: &[WorkspaceInfo],
    offset: u32,
    colors: &ThemeColors,
) -> (r: String)
    requires
        1 <= offset <= 0x7fff_ffff,
    ensures
        exists|occupied: Seq<u32>|
            #![auto]
            spec_strictly_sorted(occupied) && (forall|x: u32|
                spec_seq_has(occupied, x) <==> spec_occupied_has(workspaces@, offset, x)) && r@
                == spec_render_state(active_workspace, occupied, offset, *colors),
{
    let active_normalized: u32 = if active_workspace >= 1 {
        crate::paired::normalize_workspace(active_workspace, offset)
    } else {
        0
    };
    let occupied = occupied_workspaces(workspaces, offset);
    let display = render_display(active_normalized, occupied.as_slice(), colors);
    render_json(display.as_str())
}

/// Queries the compositor and renders the status line from its answers.
pub fn state_from_hyprctl<R: HyprctlRunner>(
    hyprctl: &Hyprctl<R>,
    offset: u32,
    colors: &ThemeColors,
) -> (r: Result<String, WaybarError>)
    requires
        1 <= offset <= 0x7fff_ffff,
{
    let active_workspace = match hyprctl.active_workspace_id() {
        Ok(id) => id,
        Err(e) => { return Err(WaybarError::Hyprctl(e)); },
    };
    let workspaces = match hyprctl.workspaces() {
        Ok(workspaces) => workspaces,
        Err(e) => { return Err(WaybarError::Hyprctl(e)); },
    };
    Ok(render_state(active_workspace, workspaces.as_slice(), offset, colors))
}

} // verus!
