//! Choosing the Codex executable among the candidates found on disk and in
//! the output of `which` or `where.exe`.
use std::path::PathBuf;
use vstd::prelude::*;

use crate::text::{ascii_lower, starts_with};

verus! {

broadcast use vstd::seq_lib::group_seq_properties;

/// The operating system the search runs on.
#[derive(Clone, Copy, Debug, PartialEq, Eq, Structural)]
pub enum Platform {
    Windows,
    MacOs,
    Other,
}

// ---------------------------------------------------------------------------
// Where to look, and in which order

/// A place where the search looks for the executable.
#[derive(Clone, Copy, Debug, PartialEq, Eq, Structural)]
pub enum Probe {
    /// The path named by `CODEX_EXECUTABLE`.
    Override,
    /// The versioned builds of the desktop app under `LOCALAPPDATA`.
    DesktopBuilds,
    /// The Codex extensions of the code editors in the home directory.
    EditorExtensions,
    /// The usual Homebrew install locations.
    HomebrewPaths,
    /// `which codex`, or `where.exe codex.exe` on Windows.
    PathLookup,
}

/// The places searched on each platform, in order; the first that yields an
/// executable wins.
pub open spec fn probe_order(platform: Platform) -> Seq<Probe> {
    match platform {
        Platform::Windows => seq![
            Probe::Override,
            Probe::DesktopBuilds,
            Probe::EditorExtensions,
            Probe::PathLookup,
        ],
        Platform::MacOs => seq![
            Probe::Override,
            Probe::EditorExtensions,
            Probe::HomebrewPaths,
            Probe::PathLookup,
        ],
        Platform::Other => seq![Probe::Override, Probe::PathLookup],
    }
}

/// The place searched after `probe` on `platform`; nothing after the last one,
/// or after a place that is not searched there.
pub open spec fn probe_after(platform: Platform, probe: Probe) -> Option<Probe> {
    match (platform, probe) {
        (Platform::Windows, Probe::Override) => Some(Probe::DesktopBuilds),
        (Platform::Windows, Probe::DesktopBuilds) => Some(Probe::EditorExtensions),
        (Platform::Windows, Probe::EditorExtensions) => Some(Probe::PathLookup),
        (Platform::MacOs, Probe::Override) => Some(Probe::EditorExtensions),
        (Platform::MacOs, Probe::EditorExtensions) => Some(Probe::HomebrewPaths),
        (Platform::MacOs, Probe::HomebrewPaths) => Some(Probe::PathLookup),
        (Platform::Other, Probe::Override) => Some(Probe::PathLookup),
        _ => None,
    }
}

/// The place searched first, on every platform.
pub fn first_probe() -> (probe: Probe)
    ensures
        forall|platform: Platform| probe == #[trigger] probe_order(platform)[0],
{
    Probe::Override
}

/// The place searched after `probe`, if any.
pub fn next_probe(platform: Platform, probe: Probe) -> (next: Option<Probe>)
    ensures
        next == probe_after(platform, probe),
{
    match (platform, probe) {
        (Platform::Windows, Probe::Override) => Some(Probe::DesktopBuilds),
        (Platform::Windows, Probe::DesktopBuilds) => Some(Probe::EditorExtensions),
        (Platform::Windows, Probe::EditorExtensions) => Some(Probe::PathLookup),
        (Platform::MacOs, Probe::Override) => Some(Probe::EditorExtensions),
        (Platform::MacOs, Probe::EditorExtensions) => Some(Probe::HomebrewPaths),
        (Platform::MacOs, Probe::HomebrewPaths) => Some(Probe::PathLookup),
        (Platform::Other, Probe::Override) => Some(Probe::PathLookup),
        _ => None,
    }
}

/// Starting from the override and stepping with `probe_after` visits the
/// places of `probe_order` one after the other and then stops; a place that
/// a platform does not search leads nowhere.
pub proof fn lemma_probes_follow_order(platform: Platform)
    ensures
        probe_order(platform)[0] == Probe::Override,
        forall|i: int|
            0 <= i < probe_order(platform).len() - 1 ==> probe_after(
                platform,
                #[trigger] probe_order(platform)[i],
            ) == Some(probe_order(platform)[i + 1]),
        probe_after(platform, probe_order(platform).last()) is None,
        forall|probe: Probe|
            !probe_order(platform).contains(probe) ==> #[trigger] probe_after(platform, probe)
                is None,
{
    let order = probe_order(platform);
    assert forall|probe: Probe| !order.contains(probe) implies #[trigger] probe_after(
        platform,
        probe,
    ) is None by {
        match probe {
            Probe::Override => assert(order[0] == probe),
            Probe::DesktopBuilds => if platform == Platform::Windows {
                assert(order[1] == probe);
            },
            Probe::EditorExtensions => if platform == Platform::Windows {
                assert(order[2] == probe);
            } else if platform == Platform::MacOs {
                assert(order[1] == probe);
            },
            Probe::HomebrewPaths => if platform == Platform::MacOs {
                assert(order[2] == probe);
            },
            Probe::PathLookup => {},
        }
    }
}

/// The directories under the home directory whose `extensions` folders hold
/// the editors' Codex extensions, in the order they are searched.
pub open spec fn editor_folder_names(platform: Platform) -> Seq<Seq<char>> {
    match platform {
        Platform::Windows => seq![".windsurf"@, ".vscode"@],
        Platform::MacOs => seq![".vscode"@, ".vscode-insiders"@, ".windsurf"@],
        Platform::Other => seq![],
    }
}

pub fn editor_folders(platform: Platform) -> (folders: Vec<&'static str>)
    ensures
        folders@.map_values(|f: &str| f@) == editor_folder_names(platform),
{
    let mut folders: Vec<&'static str> = Vec::new();
    match platform {
        Platform::Windows => {
            folders.push(".windsurf");
            folders.push(".vscode");
        },
        Platform::MacOs => {
            folders.push(".vscode");
            folders.push(".vscode-insiders");
            folders.push(".windsurf");
        },
        Platform::Other => {},
    }
    assert(folders@.map_values(|f: &str| f@) =~= editor_folder_names(platform));
    folders
}

/// The Homebrew install locations, in the order they are tried.
pub open spec fn homebrew_executable_paths() -> Seq<Seq<char>> {
    seq!["/opt/homebrew/bin/codex"@, "/usr/local/bin/codex"@]
}

pub fn homebrew_executables() -> (paths: Vec<&'static str>)
    ensures
        paths@.map_values(|p: &str| p@) == homebrew_executable_paths(),
{
    let mut paths: Vec<&'static str> = Vec::new();
    paths.push("/opt/homebrew/bin/codex");
    paths.push("/usr/local/bin/codex");
    assert(paths@.map_values(|p: &str| p@) =~= homebrew_executable_paths());
    paths
}

// ---------------------------------------------------------------------------
// The newest candidate

/// `i` is the last of the candidates modified most recently, which
/// `Iterator::max_by_key` picks.
pub open spec fn is_last_newest(modified: Seq<i128>, i: int) -> bool {
    &&& 0 <= i < modified.len()
    &&& forall|j: int| 0 <= j < modified.len() ==> #[trigger] modified[j] <= modified[i]
    &&& forall|j: int| i < j < modified.len() ==> #[trigger] modified[j] < modified[i]
}

pub open spec fn times_of(candidates: Seq<(PathBuf, i128)>) -> Seq<i128> {
    candidates.map_values(|c: (PathBuf, i128)| c.1)
}

/// The most recently modified candidate (the last one among equals); each
/// candidate comes with its modification time in nanoseconds from the Unix
/// epoch, the epoch itself where it could not be read.
pub fn newest_candidate(candidates: Vec<(PathBuf, i128)>) -> (newest: Option<PathBuf>)
    ensures
        candidates@.len() == 0 ==> newest is None,
        candidates@.len() > 0 ==> exists|i: int|
            is_last_newest(times_of(candidates@), i) && newest == Some(
                #[trigger] candidates@[i].0,
            ),
{
    let mut candidates = candidates;
    if candidates.len() == 0 {
        return None;
    }
    let ghost times = times_of(candidates@);
    let mut best: usize = 0;
    let mut i: usize = 1;
    while i < candidates.len()
        invariant
            1 <= i <= candidates@.len(),
            best < i,
            times == times_of(candidates@),
            forall|j: int| 0 <= j < i ==> #[trigger] times[j] <= times[best as int],
            forall|j: int| best < j < i ==> #[trigger] times[j] < times[best as int],
        decreases candidates@.len() - i,
    {
        if candidates[i].1 >= candidates[best].1 {
            best = i;
        }
        i = i + 1;
    }
    assert(is_last_newest(times, best as int));
    let (path, _) = candidates.remove(best);
    Some(path)
}

// ---------------------------------------------------------------------------
// Editor extensions

/// Whether a directory in an editor's extensions folder holds the ChatGPT
/// extension, which bundles the Codex executable.
pub fn is_codex_extension(file_name: &str) -> (b: bool)
    ensures
        b == (file_name@.len() >= "openai.chatgpt-"@.len() && file_name@.subrange(
            0,
            "openai.chatgpt-"@.len() as int,
        ) == "openai.chatgpt-"@),
{
    starts_with(file_name, "openai.chatgpt-")
}

/// Where the extension keeps the executable, relative to its directory, for
/// each platform, in the order they are tried.
pub open spec fn extension_binary_paths(platform: Platform) -> Seq<Seq<char>> {
    match platform {
        Platform::Windows => seq!["bin/windows-x86_64/codex.exe"@],
        Platform::MacOs => seq!["bin/macos-aarch64/codex"@, "bin/macos-x86_64/codex"@],
        Platform::Other => seq!["bin/linux-x86_64/codex"@, "bin/linux-aarch64/codex"@],
    }
}

pub fn extension_binaries(platform: Platform) -> (paths: Vec<&'static str>)
    ensures
        paths@.map_values(|p: &str| p@) == extension_binary_paths(platform),
{
    let mut paths: Vec<&'static str> = Vec::new();
    match platform {
        Platform::Windows => {
            paths.push("bin/windows-x86_64/codex.exe");
        },
        Platform::MacOs => {
            paths.push("bin/macos-aarch64/codex");
            paths.push("bin/macos-x86_64/codex");
        },
        Platform::Other => {
            paths.push("bin/linux-x86_64/codex");
            paths.push("bin/linux-aarch64/codex");
        },
    }
    assert(paths@.map_values(|p: &str| p@) =~= extension_binary_paths(platform));
    paths
}

// ---------------------------------------------------------------------------
// Output of `which` and `where.exe`

/// Whether `c` is white space, as `char::is_whitespace` (the Unicode
/// White_Space property) defines it.
pub open spec fn is_white_space(c: char) -> bool {
    ||| '\t' <= c <= '\r'
    ||| c == ' '
    ||| c == '\u{85}'
    ||| c == '\u{a0}'
    ||| c == '\u{1680}'
    ||| '\u{2000}' <= c <= '\u{200a}'
    ||| c == '\u{2028}'
    ||| c == '\u{2029}'
    ||| c == '\u{202f}'
    ||| c == '\u{205f}'
    ||| c == '\u{3000}'
}

fn white_space(c: char) -> (b: bool)
    ensures
        b == is_white_space(c),
{
    ('\t' <= c && c <= '\r') || c == ' ' || c == '\u{85}' || c == '\u{a0}' || c == '\u{1680}' || (
    '\u{2000}' <= c && c <= '\u{200a}') || c == '\u{2028}' || c == '\u{2029}' || c == '\u{202f}'
        || c == '\u{205f}' || c == '\u{3000}'
}

/// `s` without leading white space.
pub open spec fn trim_start(s: Seq<char>) -> Seq<char>
    decreases s.len(),
{
    if s.len() > 0 && is_white_space(s[0]) {
        trim_start(s.drop_first())
    } else {
        s
    }
}

/// `s` without trailing white space.
pub open spec fn trim_end(s: Seq<char>) -> Seq<char>
    decreases s.len(),
{
    if s.len() > 0 && is_white_space(s.last()) {
        trim_end(s.drop_last())
    } else {
        s
    }
}

/// `s` without white space at either end, as `str::trim` gives it.
pub open spec fn trim(s: Seq<char>) -> Seq<char> {
    trim_end(trim_start(s))
}

/// The pieces of `s` between line feeds (one more piece than line feeds).
pub open spec fn split_lines(s: Seq<char>) -> Seq<Seq<char>>
    decreases s.len(),
{
    if s.len() == 0 {
        seq![seq![]]
    } else {
        let before = split_lines(s.drop_last());
        if s.last() == '\n' {
            before.push(seq![])
        } else {
            before.update(before.len() - 1, before.last().push(s.last()))
        }
    }
}

proof fn lemma_split_lines_not_empty(s: Seq<char>)
    ensures
        split_lines(s).len() >= 1,
    decreases s.len(),
{
    if s.len() > 0 {
        lemma_split_lines_not_empty(s.drop_last());
    }
}

/// The non-empty trimmed lines of a command's output, in order. (`str::lines`
/// drops a trailing carriage return and the empty piece after a final line
/// feed; trimming and dropping empty lines subsumes both.)
pub open spec fn output_lines(output: Seq<char>) -> Seq<Seq<char>> {
    split_lines(output).map_values(|line: Seq<char>| trim(line)).filter(
        |line: Seq<char>| line.len() > 0,
    )
}

proof fn lemma_split_lines_after_line_feed(a: Seq<char>, b: Seq<char>)
    ensures
        split_lines(a.push('\n') + b) == split_lines(a) + split_lines(b),
    decreases b.len(),
{
    if b.len() == 0 {
        assert(a.push('\n') + b =~= a.push('\n'));
        assert(a.push('\n').drop_last() =~= a);
        assert(split_lines(a).push(seq![]) =~= split_lines(a) + seq![seq![]]);
    } else {
        let whole = a.push('\n') + b;
        assert(whole.drop_last() =~= a.push('\n') + b.drop_last());
        assert(whole.last() == b.last());
        lemma_split_lines_after_line_feed(a, b.drop_last());
        lemma_split_lines_not_empty(b.drop_last());
        lemma_split_lines_not_empty(a);
        let left = split_lines(a);
        let right = split_lines(b.drop_last());
        if b.last() == '\n' {
            assert((left + right).push(seq![]) =~= left + right.push(seq![]));
        } else {
            assert((left + right).update(
                (left + right).len() - 1,
                (left + right).last().push(b.last()),
            ) =~= left + right.update(right.len() - 1, right.last().push(b.last())));
        }
    }
}

proof fn lemma_split_lines_single(s: Seq<char>)
    requires
        !s.contains('\n'),
    ensures
        split_lines(s) == seq![s],
    decreases s.len(),
{
    if s.len() > 0 {
        assert(!s.drop_last().contains('\n')) by {
            if s.drop_last().contains('\n') {
                let k = choose|k: int| 0 <= k < s.drop_last().len() && s.drop_last()[k] == '\n';
                assert(s[k] == '\n');
            }
        }
        lemma_split_lines_single(s.drop_last());
        assert(s.last() != '\n') by {
            assert(s[s.len() - 1] == s.last());
        }
        assert(s.drop_last().push(s.last()) =~= s);
    }
}

proof fn lemma_trim_start_skips_white_space(w: Seq<char>, s: Seq<char>)
    requires
        forall|i: int| 0 <= i < w.len() ==> is_white_space(#[trigger] w[i]),
        s.len() == 0 || !is_white_space(s[0]),
    ensures
        trim_start(w + s) == s,
    decreases w.len(),
{
    if w.len() == 0 {
        assert(w + s =~= s);
    } else {
        assert((w + s).drop_first() =~= w.drop_first() + s);
        assert(is_white_space(w[0]));
        lemma_trim_start_skips_white_space(w.drop_first(), s);
    }
}

proof fn lemma_trim_end_skips_white_space(s: Seq<char>, w: Seq<char>)
    requires
        forall|i: int| 0 <= i < w.len() ==> is_white_space(#[trigger] w[i]),
        s.len() == 0 || !is_white_space(s.last()),
    ensures
        trim_end(s + w) == s,
    decreases w.len(),
{
    if w.len() == 0 {
        assert(s + w =~= s);
    } else {
        assert((s + w).drop_last() =~= s + w.drop_last());
        assert(is_white_space(w[w.len() - 1]));
        lemma_trim_end_skips_white_space(s, w.drop_last());
    }
}

/// Splitting the output at a line feed splits its listed lines there: the
/// lines of `a`, then those of `b`.
pub proof fn lemma_output_lines_split_at_line_feed(a: Seq<char>, b: Seq<char>)
    ensures
        output_lines(a.push('\n') + b) == output_lines(a) + output_lines(b),
{
    let f = |line: Seq<char>| trim(line);
    let p = |line: Seq<char>| line.len() > 0;
    lemma_split_lines_after_line_feed(a, b);
    assert((split_lines(a) + split_lines(b)).map_values(f) =~= split_lines(a).map_values(f)
        + split_lines(b).map_values(f));
    Seq::filter_distributes_over_add(split_lines(a).map_values(f), split_lines(b).map_values(f), p);
}

/// A line is listed whole, white space inside it included: a piece of output
/// without line feeds is listed as its text without the white space (a
/// carriage return among it) at its two ends.
pub proof fn lemma_output_line_listed_whole(lead: Seq<char>, text: Seq<char>, trail: Seq<char>)
    requires
        forall|i: int| 0 <= i < lead.len() ==> is_white_space(#[trigger] lead[i]),
        forall|i: int| 0 <= i < trail.len() ==> is_white_space(#[trigger] trail[i]),
        text.len() > 0,
        !is_white_space(text[0]),
        !is_white_space(text.last()),
        !lead.contains('\n'),
        !text.contains('\n'),
        !trail.contains('\n'),
    ensures
        output_lines(lead + text + trail) == seq![text],
{
    let line = lead + text + trail;
    assert(!line.contains('\n')) by {
        if line.contains('\n') {
            let k = choose|k: int| 0 <= k < line.len() && line[k] == '\n';
            if k < lead.len() {
                assert(lead[k] == '\n');
            } else if k < lead.len() + text.len() {
                assert(text[k - lead.len()] == '\n');
            } else {
                assert(trail[k - lead.len() - text.len()] == '\n');
            }
        }
    }
    lemma_split_lines_single(line);
    assert(lead + text + trail =~= lead + (text + trail));
    assert((text + trail)[0] == text[0]);
    lemma_trim_start_skips_white_space(lead, text + trail);
    lemma_trim_end_skips_white_space(text, trail);
    assert(trim(line) == text);
    let f = |l: Seq<char>| trim(l);
    let p = |l: Seq<char>| l.len() > 0;
    assert(seq![line].map_values(f) =~= seq![text]);
    reveal_with_fuel(Seq::filter, 2);
    assert(seq![text].drop_last() =~= Seq::<Seq<char>>::empty());
    assert(seq![text].filter(p) =~= seq![text]);
}

/// A piece of output made only of white space lists nothing.
pub proof fn lemma_blank_output_lists_nothing(blank: Seq<char>)
    requires
        forall|i: int| 0 <= i < blank.len() ==> is_white_space(#[trigger] blank[i]),
        !blank.contains('\n'),
    ensures
        output_lines(blank) == Seq::<Seq<char>>::empty(),
{
    lemma_split_lines_single(blank);
    lemma_trim_start_skips_white_space(blank, seq![]);
    assert(blank + seq![] =~= blank);
    assert(trim_end(Seq::<char>::empty()) == Seq::<char>::empty());
    let f = |l: Seq<char>| trim(l);
    let p = |l: Seq<char>| l.len() > 0;
    assert(seq![blank].map_values(f) =~= seq![Seq::<char>::empty()]);
    reveal_with_fuel(Seq::filter, 2);
    assert(seq![Seq::<char>::empty()].drop_last() =~= Seq::<Seq<char>>::empty());
    assert(seq![Seq::<char>::empty()].filter(p) =~= Seq::<Seq<char>>::empty());
}

/// The marker of the Windows Store app-execution aliases.
pub open spec fn windows_apps_marker() -> Seq<char> {
    "\\windowsapps\\"@
}

/// `needle` occurs in `hay` as a contiguous piece.
pub open spec fn contains_text(hay: Seq<char>, needle: Seq<char>) -> bool {
    exists|i: int| 0 <= i && i + needle.len() <= hay.len() && #[trigger] hay.subrange(i, i + needle.len()) == needle
}

/// A listed path that is not under `\WindowsApps\` (compared in ASCII lower case).
pub open spec fn outside_windows_apps(path: Seq<char>) -> bool {
    !contains_text(ascii_lower(path), windows_apps_marker())
}

fn trimmed(s: &str, start: usize, end: usize) -> (piece: String)
    requires
        start <= end <= s@.len(),
    ensures
        piece@ == trim(s@.subrange(start as int, end as int)),
{
    let mut i = start;
    while i < end && white_space(s.get_char(i))
        invariant
            start <= i <= end <= s@.len(),
            trim_start(s@.subrange(start as int, end as int)) == trim_start(
                s@.subrange(i as int, end as int),
            ),
        decreases end - i,
    {
        assert(s@.subrange(i as int, end as int).drop_first() =~= s@.subrange(i + 1, end as int));
        i = i + 1;
    }
    assert(trim_start(s@.subrange(start as int, end as int)) == s@.subrange(i as int, end as int));
    let mut j = end;
    while j > i && white_space(s.get_char(j - 1))
        invariant
            start <= i <= j <= end <= s@.len(),
            trim_end(s@.subrange(i as int, end as int)) == trim_end(s@.subrange(i as int, j as int)),
        decreases j - i,
    {
        assert(s@.subrange(i as int, j as int).drop_last() =~= s@.subrange(i as int, j - 1));
        j = j - 1;
    }
    String::from_str(s.substring_char(i, j))
}

fn contains_windows_apps(path: &str) -> (b: bool)
    ensures
        b == !outside_windows_apps(path@),
{
    let marker = "\\windowsapps\\";
    proof {
        reveal_strlit("\\windowsapps\\");
    }
    let n = path.unicode_len();
    let m = marker.unicode_len();
    let ghost lower = ascii_lower(path@);
    if m > n {
        return false;
    }
    let mut i: usize = 0;
    while i <= n - m
        invariant
            n == path@.len(),
            m == marker@.len(),
            marker@ == windows_apps_marker(),
            lower == ascii_lower(path@),
            m <= n,
            i <= n - m + 1,
            forall|k: int| 0 <= k < i ==> #[trigger] lower.subrange(k, k + m) != marker@,
        decreases n - i,
    {
        let mut j: usize = 0;
        let mut same = true;
        while j < m
            invariant
                n == path@.len(),
                m == marker@.len(),
                lower == ascii_lower(path@),
                i + m <= n,
                j <= m,
                same == (forall|k: int| 0 <= k < j ==> lower[i + k] == marker@[k]),
            decreases m - j,
        {
            let c = crate::text::lower_char(path.get_char(i + j));
            if c != marker.get_char(j) {
                same = false;
            }
            j = j + 1;
        }
        if same {
            assert(lower.subrange(i as int, i + m) =~= marker@);
            return true;
        }
        assert(lower.subrange(i as int, i + m) != marker@) by {
            let k = choose|k: int| 0 <= k < m && lower[i + k] != marker@[k];
            assert(lower.subrange(i as int, i + m)[k] == lower[i + k]);
        }
        i = i + 1;
    }
    false
}

proof fn lemma_lines_push(pieces: Seq<Seq<char>>, piece: Seq<char>)
    ensures
        pieces.push(piece).map_values(|line: Seq<char>| trim(line)).filter(
            |line: Seq<char>| line.len() > 0,
        ) == pieces.map_values(|line: Seq<char>| trim(line)).filter(
            |line: Seq<char>| line.len() > 0,
        ) + (if trim(piece).len() > 0 {
            seq![trim(piece)]
        } else {
            seq![]
        }),
{
    let f = |line: Seq<char>| trim(line);
    let p = |line: Seq<char>| line.len() > 0;
    assert(pieces.push(piece).map_values(f) =~= pieces.map_values(f).push(trim(piece)));
    pieces.map_values(f).lemma_filter_push(trim(piece), p);
    if trim(piece).len() > 0 {
        assert(pieces.map_values(f).filter(p).push(trim(piece)) =~= pieces.map_values(f).filter(p)
            + seq![trim(piece)]);
    } else {
        assert(pieces.map_values(f).filter(p) =~= pieces.map_values(f).filter(p) + seq![]);
    }
}

/// The non-empty trimmed lines of a command's output.
pub fn listed_paths(output: &str) -> (lines: Vec<String>)
    ensures
        lines@.map_values(|l: String| l@) == output_lines(output@),
{
    let n = output.unicode_len();
    let mut lines: Vec<String> = Vec::new();
    let mut start: usize = 0;
    let mut k: usize = 0;
    let ghost mut done: Seq<Seq<char>> = seq![];
    assert(output@.take(0) =~= seq![]);
    while k < n
        invariant
            n == output@.len(),
            start <= k <= n,
            split_lines(output@.take(k as int)) == done.push(output@.subrange(start as int, k as int)),
            lines@.map_values(|l: String| l@) == done.map_values(|line: Seq<char>| trim(line)).filter(
                |line: Seq<char>| line.len() > 0,
            ),
        decreases n - k,
    {
        let c = output.get_char(k);
        assert(output@.take(k + 1).drop_last() =~= output@.take(k as int));
        assert(output@.take(k + 1).last() == c);
        if c == '\n' {
            let piece = trimmed(output, start, k);
            proof {
                lemma_lines_push(done, output@.subrange(start as int, k as int));
            }
            let ghost before = lines@.map_values(|l: String| l@);
            if piece.unicode_len() > 0 {
                lines.push(piece);
                assert(lines@.map_values(|l: String| l@) =~= before + seq![piece@]);
            } else {
                assert(lines@.map_values(|l: String| l@) =~= before + seq![]);
            }
            proof {
                done = done.push(output@.subrange(start as int, k as int));
            }
            start = k + 1;
            assert(output@.subrange(start as int, k + 1) =~= seq![]);
        } else {
            proof {
                lemma_split_lines_not_empty(output@.take(k as int));
            }
            assert(output@.subrange(start as int, k as int).push(c) =~= output@.subrange(
                start as int,
                k + 1,
            ));
            assert(done.push(output@.subrange(start as int, k as int)).update(
                done.len() as int,
                output@.subrange(start as int, k + 1),
            ) =~= done.push(output@.subrange(start as int, k + 1)));
        }
        k = k + 1;
    }
    assert(output@.take(n as int) =~= output@);
    let piece = trimmed(output, start, n);
    proof {
        lemma_lines_push(done, output@.subrange(start as int, n as int));
    }
    let ghost before = lines@.map_values(|l: String| l@);
    if piece.unicode_len() > 0 {
        lines.push(piece);
        assert(lines@.map_values(|l: String| l@) =~= before + seq![piece@]);
    } else {
        assert(lines@.map_values(|l: String| l@) =~= before + seq![]);
    }
    lines
}

/// The path that `which codex` reports: its first non-empty line.
pub fn which_candidate(output: &str) -> (path: Option<String>)
    ensures
        match path {
            Some(p) => output_lines(output@).len() > 0 && p@ == output_lines(output@)[0],
            None => output_lines(output@).len() == 0,
        },
{
    let mut lines = listed_paths(output);
    assert(lines@.map_values(|l: String| l@).len() == lines@.len());
    if lines.len() == 0 {
        None
    } else {
        assert(lines@.map_values(|l: String| l@)[0] == lines@[0]@);
        Some(lines.remove(0))
    }
}

/// The paths that `where.exe codex.exe` reports, in order, without those
/// under `\WindowsApps\`.
pub fn where_candidates(output: &str) -> (paths: Vec<String>)
    ensures
        paths@.map_values(|l: String| l@) == output_lines(output@).filter(
            |p: Seq<char>| outside_windows_apps(p),
        ),
{
    let lines = listed_paths(output);
    let ghost all = lines@.map_values(|l: String| l@);
    let ghost keep = |p: Seq<char>| outside_windows_apps(p);
    let mut paths: Vec<String> = Vec::new();
    let mut i: usize = 0;
    assert(all.take(0) =~= seq![]);
    while i < lines.len()
        invariant
            i <= lines@.len(),
            all == lines@.map_values(|l: String| l@),
            keep == (|p: Seq<char>| outside_windows_apps(p)),
            paths@.map_values(|l: String| l@) == all.take(i as int).filter(keep),
        decreases lines@.len() - i,
    {
        assert(all.take(i + 1) =~= all.take(i as int).push(all[i as int]));
        proof {
            all.take(i as int).lemma_filter_push(all[i as int], keep);
        }
        let ghost before = paths@.map_values(|l: String| l@);
        if !contains_windows_apps(lines[i].as_str()) {
            paths.push(lines[i].clone());
            assert(paths@.map_values(|l: String| l@) =~= before.push(all[i as int]));
        }
        i = i + 1;
    }
    assert(all.take(lines@.len() as int) =~= all);
    paths
}

// ---------------------------------------------------------------------------
// Nothing found

/// The message given when no executable was found.
pub open spec fn missing_executable_text(platform: Platform) -> Seq<char> {
    "Codex 실행 파일을 찾지 못했습니다. Codex CLI를 설치하거나 CODEX_EXECUTABLE 환경 변수에 "@ + (
    if platform == Platform::Windows {
        "codex.exe"@
    } else {
        "codex"@
    }) + " 경로를 지정해 주세요."@
}

pub fn missing_executable_message(platform: Platform) -> (text: String)
    ensures
        text@ == missing_executable_text(platform),
{
    let mut text = String::from_str(
        "Codex 실행 파일을 찾지 못했습니다. Codex CLI를 설치하거나 CODEX_EXECUTABLE 환경 변수에 ",
    );
    if platform == Platform::Windows {
        text.append("codex.exe");
    } else {
        text.append("codex");
    }
    text.append(" 경로를 지정해 주세요.");
    text
}

} // verus!
