use vstd::prelude::*;
use crate::text::{
    chars_of, contains, decimal, decimal_text, find, find_in, lemma_lines_step, line_end, lines,
    lines_from, lowercase, next_newline, slice_chars, str_contains, to_lowercase, trim,
    trim_bounds,
};
use crate::state::{hyprland_session, kde_session, message_view, AppState, DesktopEnv};

verus! {

broadcast use vstd::string::group_string_axioms;

/// A window class that belongs to the game: lowercased, it holds `sober` or
/// `roblox`.
pub open spec fn game_class(class: Seq<char>) -> bool {
    contains(lowercase(class), "sober"@) || contains(lowercase(class), "roblox"@)
}

/// What `serde_json::from_slice::<Value>` makes of a document, read at a
/// key: `None` where the bytes are not JSON, `Some(None)` where the document
/// holds no string under that key, else that string.
pub uninterp spec fn json_string_field(doc: Seq<u8>, key: Seq<char>) -> Option<Option<Seq<char>>>;

/// Parses `doc` with `serde_json::from_slice::<serde_json::Value>` and reads
/// the string under `key` (`Value::get` then `Value::as_str`). The result is
/// named `json_string_field` of the bytes and the key; nothing more is claimed
/// of it.
#[verifier::external_body]
fn string_field(doc: &[u8], key: &str) -> (r: Option<Option<String>>)
    ensures
        match r {
            None => json_string_field(doc@, key@) is None,
            Some(None) => json_string_field(doc@, key@) == Some(None::<Seq<char>>),
            Some(Some(c)) => json_string_field(doc@, key@) == Some(Some(c@)),
        },
{
    serde_json::from_slice::<serde_json::Value>(doc).ok().map(
        |v| v.get(key).and_then(|c| c.as_str()).map(|c| c.to_owned()),
    )
}

/// Whether `hyprctl activewindow -j` printed a window of the game: the output
/// must be JSON, and its `class` (empty where missing) must be the game's.
pub open spec fn hyprland_window_is_game(doc: Seq<u8>) -> bool {
    match json_string_field(doc, "class"@) {
        None => false,
        Some(None) => game_class(Seq::empty()),
        Some(Some(c)) => game_class(c),
    }
}

fn class_is_game(class: &str) -> (b: bool)
    ensures
        b == game_class(class@),
{
    let l = to_lowercase(class);
    str_contains(l.as_str(), "sober") || str_contains(l.as_str(), "roblox")
}

/// Whether the focused Hyprland window is the game, from what
/// `hyprctl activewindow -j` printed.
pub fn hyprland_focus(output: &[u8]) -> (b: bool)
    ensures
        b == hyprland_window_is_game(output@),
{
    match string_field(output, "class") {
        None => false,
        Some(None) => {
            proof {
                reveal_strlit("");
            }
            let b = class_is_game("");
            assert(""@ =~= Seq::<char>::empty());
            b
        },
        Some(Some(c)) => class_is_game(c.as_str()),
    }
}

/// The marker that the KWin focus script prints before its answer.
pub open spec fn focus_marker() -> Seq<char> {
    "ANTIAFK_FOCUS_STATE:"@
}

/// The answer of the last journal line that holds the marker: the text after
/// the marker, trimmed, is `true`. No such line means not focused.
pub open spec fn focus_in_lines(ls: Seq<Seq<char>>) -> bool
    decreases ls.len(),
{
    if ls.len() == 0 {
        false
    } else {
        match find(ls.last(), focus_marker()) {
            Some(p) => trim(ls.last().skip(p + focus_marker().len())) == "true"@,
            None => focus_in_lines(ls.drop_last()),
        }
    }
}

/// Whether the KWin focus script reported the game as focused, from the
/// journal text (`journalctl --user -n 30 ... -o cat`).
pub fn focus_from_journal(journal: &str) -> (b: bool)
    ensures
        b == focus_in_lines(lines(journal@)),
{
    let v = chars_of(journal);
    let marker = chars_of("ANTIAFK_FOCUS_STATE:");
    let truth = chars_of("true");
    proof {
        reveal_strlit("ANTIAFK_FOCUS_STATE:");
    }
    let mut answer = false;
    let ghost mut seen: Seq<Seq<char>> = Seq::empty();
    let mut pos: usize = 0;
    proof {
        assert(lines(journal@) =~= seen + lines_from(v@, 0));
    }
    while pos < v.len()
        invariant
            v@ == journal@,
            marker@ == focus_marker(),
            marker@.len() == 20,
            truth@ == "true"@,
            pos <= v@.len(),
            lines(journal@) == seen + lines_from(v@, pos as int),
            answer == focus_in_lines(seen),
        decreases v@.len() - pos,
    {
        let j = next_newline(&v, pos);
        let e = line_end(&v, pos, j);
        let line = slice_chars(&v, pos, e);
        proof {
            lemma_lines_step(v@, pos as int);
            assert(lines_from(v@, pos as int)[0] == line@);
            assert(seen + lines_from(v@, pos as int) =~= seen.push(line@) + lines_from(v@, j + 1));
            crate::text::lemma_find_from(line@, marker@, 0);
            assert(seen.push(line@).drop_last() =~= seen);
        }
        match find_in(&line, &marker) {
            Some(p) => {
                let (lo, hi) = trim_bounds(&line, p + 20, line.len());
                let t = slice_chars(&line, lo, hi);
                answer = t.len() == truth.len() && crate::text::matches_here(&t, &truth, 0);
                proof {
                    assert(line@.subrange(p + 20, line@.len() as int) =~= line@.skip(p + 20));
                    assert(t@.subrange(0, truth@.len() as int) =~= t@ || t@.len() != truth@.len());
                }
            },
            None => {},
        }
        proof {
            seen = seen.push(line@);
        }
        if j >= v.len() {
            pos = v.len();
        } else {
            pos = j + 1;
        }
    }
    proof {
        assert(seen =~= seen + lines_from(v@, pos as int));
    }
    answer
}

pub open spec fn is_digit(c: char) -> bool {
    48 <= (c as u32) <= 57
}

/// The value of a run of decimal digits.
pub open spec fn digits_value(s: Seq<char>) -> int
    decreases s.len(),
{
    if s.len() == 0 {
        0
    } else {
        digits_value(s.drop_last()) * 10 + (s.last() as u32 - 48)
    }
}

/// All characters are decimal digits.
pub open spec fn all_digits(ds: Seq<char>) -> bool {
    forall|i: int| 0 <= i < ds.len() ==> is_digit(#[trigger] ds[i])
}

/// The value of a sign and a run of digits, where it is a 32-bit integer.
pub open spec fn signed_value(negative: bool, ds: Seq<char>) -> Option<i32> {
    let v = if negative {
        -digits_value(ds)
    } else {
        digits_value(ds)
    };
    if ds.len() == 0 || !all_digits(ds) {
        None
    } else if i32::MIN <= v <= i32::MAX {
        Some(v as i32)
    } else {
        None
    }
}

/// `str::parse::<i32>`: an optional `+` or `-`, then one or more decimal
/// digits, and a value in range.
pub open spec fn parse_i32(s: Seq<char>) -> Option<i32> {
    if s.len() > 0 && (s[0] == '-' || s[0] == '+') {
        signed_value(s[0] == '-', s.drop_first())
    } else {
        signed_value(false, s)
    }
}

proof fn lemma_digits_value_nonneg(s: Seq<char>)
    requires
        forall|i: int| 0 <= i < s.len() ==> is_digit(s[i]),
    ensures
        digits_value(s) >= 0,
    decreases s.len(),
{
    if s.len() > 0 {
        lemma_digits_value_nonneg(s.drop_last());
    }
}

/// `str::parse::<i32>` on characters.
pub fn parse_int(s: &Vec<char>) -> (r: Option<i32>)
    ensures
        r == parse_i32(s@),
{
    let n = s.len();
    if n == 0 {
        return None;
    }
    let negative = s[0] == '-';
    let start: usize = if s[0] == '-' || s[0] == '+' {
        1
    } else {
        0
    };
    if start == n {
        return None;
    }
    let ghost ds = s@.skip(start as int);
    assert(ds =~= (if s@[0] == '-' || s@[0] == '+' { s@.drop_first() } else { s@ }));
    let mut acc: i64 = 0;
    let mut over = false;
    let mut i = start;
    while i < n
        invariant
            n == s@.len(),
            start <= i <= n,
            ds == s@.skip(start as int),
            n > 0,
            ds == (if s@[0] == '-' || s@[0] == '+' { s@.drop_first() } else { s@ }),
            negative == (s@[0] == '-'),
            forall|k: int| start <= k < i ==> is_digit(s@[k]),
            0 <= acc <= 2147483648,
            !over ==> acc == digits_value(ds.take(i - start)),
            over ==> digits_value(ds.take(i - start)) > 2147483648,
        decreases n - i,
    {
        let c = s[i];
        let u = c as u32;
        if u < 48 || u > 57 {
            proof {
                assert(ds[i - start] == c);
                assert(!all_digits(ds));
            }
            return None;
        }
        proof {
            assert(ds.take(i + 1 - start).drop_last() =~= ds.take(i - start));
            assert(ds.take(i + 1 - start).last() == c);
            let pre = ds.take(i - start);
            assert forall|k: int| 0 <= k < pre.len() implies is_digit(#[trigger] pre[k]) by {
                assert(pre[k] == s@[k + start]);
            }
            lemma_digits_value_nonneg(pre);
        }
        if !over {
            let next = acc * 10 + (u - 48) as i64;
            if next > 2147483648 {
                over = true;
            } else {
                acc = next;
            }
        }
        i = i + 1;
    }
    proof {
        assert(ds.take(n - start) =~= ds);
        assert forall|k: int| 0 <= k < ds.len() implies is_digit(#[trigger] ds[k]) by {
            assert(ds[k] == s@[k + start]);
        }
    }
    if over {
        return None;
    }
    if negative {
        Some((0 - acc) as i32)
    } else if acc <= 2147483647 {
        Some(acc as i32)
    } else {
        None
    }
}

/// A whole number as `Display` writes it.
pub open spec fn int_text(v: int) -> Seq<char> {
    if v < 0 {
        "-"@ + decimal((-v) as nat)
    } else {
        decimal(v as nat)
    }
}

/// The D-Bus object of the KWin script whose id `loadScript` printed:
/// `/Scripting/Script<id>`, where the trimmed output is a 32-bit integer.
pub open spec fn script_object(output: Seq<char>) -> Option<Seq<char>> {
    match parse_i32(trim(output)) {
        Some(id) => Some("/Scripting/Script"@ + int_text(id as int)),
        None => None,
    }
}

pub fn kwin_script_object(output: &str) -> (r: Option<String>)
    ensures
        r matches Some(p) ==> script_object(output@) == Some(p@),
        r is None ==> script_object(output@) is None,
{
    let v = chars_of(output);
    let (lo, hi) = trim_bounds(&v, 0, v.len());
    let t = slice_chars(&v, lo, hi);
    proof {
        assert(v@.subrange(0, v@.len() as int) =~= v@);
    }
    match parse_int(&t) {
        Some(id) => {
            let wide = id as i64;
            let text = if wide < 0 {
                "-".to_owned().concat(decimal_text((0 - wide) as u64).as_str())
            } else {
                decimal_text(wide as u64)
            };
            Some("/Scripting/Script".to_owned().concat(text.as_str()))
        },
        None => None,
    }
}


/// What the focus check learned from its last outside step.
pub enum FocusEvent {
    /// The check starts.
    Begin,
    /// What `hyprctl activewindow -j` printed, or `None` where it could not run.
    Hyprctl(Option<Vec<u8>>),
    /// The qdbus tool that works, or `None` where neither does.
    Qdbus(Option<&'static str>),
    /// The tool used and what KWin's `loadScript` printed (decoded lossily),
    /// or `None` where the call could not run.
    Loaded(&'static str, Option<String>),
    /// The journal text after the script ran, or `None` where `journalctl`
    /// could not run.
    Journal(Option<String>),
}

/// What the focus check does next.
pub enum FocusStep {
    /// Ask `hyprctl activewindow -j`.
    QueryHyprland,
    /// Look for a working qdbus tool.
    FindQdbus,
    /// Write the KWin focus script and (re)load it with this tool.
    LoadScript(&'static str),
    /// Run the loaded script object with this tool, wait, and read the journal.
    ReadJournal(&'static str, String),
    /// The check is over: whether the game window has the focus.
    Answer(bool),
}

/// A focus event as plain values.
pub enum FocusInput {
    Begin,
    Hyprctl(Option<Seq<u8>>),
    Qdbus(Option<Seq<char>>),
    Loaded(Seq<char>, Option<Seq<char>>),
    Journal(Option<Seq<char>>),
}

/// A focus step as plain values.
pub enum FocusMove {
    QueryHyprland,
    FindQdbus,
    LoadScript(Seq<char>),
    ReadJournal(Seq<char>, Seq<char>),
    Answer(bool),
}

impl View for FocusEvent {
    type V = FocusInput;

    open spec fn view(&self) -> FocusInput {
        match self {
            FocusEvent::Begin => FocusInput::Begin,
            FocusEvent::Hyprctl(o) => FocusInput::Hyprctl(match o {
                Some(b) => Some(b@),
                None => None,
            }),
            FocusEvent::Qdbus(t) => FocusInput::Qdbus(match t {
                Some(n) => Some(n@),
                None => None,
            }),
            FocusEvent::Loaded(t, l) => FocusInput::Loaded(t@, message_view(*l)),
            FocusEvent::Journal(j) => FocusInput::Journal(message_view(*j)),
        }
    }
}

impl View for FocusStep {
    type V = FocusMove;

    open spec fn view(&self) -> FocusMove {
        match self {
            FocusStep::QueryHyprland => FocusMove::QueryHyprland,
            FocusStep::FindQdbus => FocusMove::FindQdbus,
            FocusStep::LoadScript(t) => FocusMove::LoadScript(t@),
            FocusStep::ReadJournal(t, o) => FocusMove::ReadJournal(t@, o@),
            FocusStep::Answer(b) => FocusMove::Answer(*b),
        }
    }
}

/// The focus check's decision: Hyprland asks `hyprctl`, KDE Plasma finds a
/// qdbus tool, loads the KWin script, runs it and reads the journal; any
/// other desktop, and any outside step that fails, answers "not focused".
pub open spec fn focus_next(env: DesktopEnv, input: FocusInput) -> FocusMove {
    match input {
        FocusInput::Begin => if hyprland_session(env) {
            FocusMove::QueryHyprland
        } else if kde_session(env) {
            FocusMove::FindQdbus
        } else {
            FocusMove::Answer(false)
        },
        FocusInput::Hyprctl(o) => FocusMove::Answer(
            match o {
                Some(doc) => hyprland_window_is_game(doc),
                None => false,
            },
        ),
        FocusInput::Qdbus(t) => match t {
            Some(tool) => FocusMove::LoadScript(tool),
            None => FocusMove::Answer(false),
        },
        FocusInput::Loaded(tool, l) => match l {
            Some(out) => match script_object(out) {
                Some(obj) => FocusMove::ReadJournal(tool, obj),
                None => FocusMove::Answer(false),
            },
            None => FocusMove::Answer(false),
        },
        FocusInput::Journal(j) => FocusMove::Answer(
            match j {
                Some(text) => focus_in_lines(lines(text)),
                None => false,
            },
        ),
    }
}

/// One step of the focus check: from what the last outside step gave to what
/// to do next.
pub fn focus_step(env: &DesktopEnv, event: FocusEvent) -> (s: FocusStep)
    ensures
        s@ == focus_next(*env, event@),
{
    match event {
        FocusEvent::Begin => if AppState::is_hyprland(env) {
            FocusStep::QueryHyprland
        } else if AppState::is_kde(env) {
            FocusStep::FindQdbus
        } else {
            FocusStep::Answer(false)
        },
        FocusEvent::Hyprctl(o) => match o {
            Some(doc) => FocusStep::Answer(hyprland_focus(doc.as_slice())),
            None => FocusStep::Answer(false),
        },
        FocusEvent::Qdbus(t) => match t {
            Some(tool) => FocusStep::LoadScript(tool),
            None => FocusStep::Answer(false),
        },
        FocusEvent::Loaded(tool, l) => match l {
            Some(out) => match kwin_script_object(out.as_str()) {
                Some(obj) => FocusStep::ReadJournal(tool, obj),
                None => FocusStep::Answer(false),
            },
            None => FocusStep::Answer(false),
        },
        FocusEvent::Journal(j) => match j {
            Some(text) => FocusStep::Answer(focus_from_journal(text.as_str())),
            None => FocusStep::Answer(false),
        },
    }
}

/// Where the focus check ends on KDE Plasma, given the qdbus tool found, what
/// `loadScript` printed and the journal text (`None` where a step could not run).
pub open spec fn kde_focus_run(
    env: DesktopEnv,
    tool: Option<Seq<char>>,
    loaded: Option<Seq<char>>,
    journal: Option<Seq<char>>,
) -> FocusMove {
    match focus_next(env, FocusInput::Begin) {
        FocusMove::FindQdbus => match focus_next(env, FocusInput::Qdbus(tool)) {
            FocusMove::LoadScript(t) => match focus_next(env, FocusInput::Loaded(t, loaded)) {
                FocusMove::ReadJournal(_, _) => focus_next(env, FocusInput::Journal(journal)),
                other => other,
            },
            other => other,
        },
        other => other,
    }
}

/// Where the focus check ends on Hyprland, given what `hyprctl` printed.
pub open spec fn hyprland_focus_run(env: DesktopEnv, output: Option<Seq<u8>>) -> FocusMove {
    match focus_next(env, FocusInput::Begin) {
        FocusMove::QueryHyprland => focus_next(env, FocusInput::Hyprctl(output)),
        other => other,
    }
}

/// On KDE Plasma the game has the focus exactly when a qdbus tool works, the
/// trimmed `loadScript` output is a script id, and the last journal line that
/// holds the marker says `true` after it.
pub proof fn lemma_kde_focus(
    env: DesktopEnv,
    tool: Option<Seq<char>>,
    loaded: Option<Seq<char>>,
    journal: Option<Seq<char>>,
)
    requires
        !hyprland_session(env),
        kde_session(env),
    ensures
        kde_focus_run(env, tool, loaded, journal) == FocusMove::Answer(
            tool is Some && (loaded matches Some(l) && script_object(l) is Some) && (
            journal matches Some(j) && focus_in_lines(lines(j)))
        ),
{
}

/// On Hyprland the game has the focus exactly when `hyprctl` ran and printed
/// the game's window.
pub proof fn lemma_hyprland_focus(env: DesktopEnv, output: Option<Seq<u8>>)
    requires
        hyprland_session(env),
    ensures
        hyprland_focus_run(env, output) == FocusMove::Answer(
            output matches Some(doc) && hyprland_window_is_game(doc)
        ),
{
}

/// On any other desktop the game never has the focus, and nothing is run.
pub proof fn lemma_other_desktop_unfocused(env: DesktopEnv)
    requires
        !hyprland_session(env),
        !kde_session(env),
    ensures
        focus_next(env, FocusInput::Begin) == FocusMove::Answer(false),
{
}

} // verus!
