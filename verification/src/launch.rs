//! Launch decisions: finding the Proton build that runs the game, waiting
//! for the game window, locating Steam libraries and the game directory,
//! and the commands that start the game and the tools.
use vstd::prelude::*;
use crate::config::strings_view;
use crate::paths::{parent_of, join_path, file_name_of, parent, join, file_name};
use crate::text::{
    split_on, has_substring, trim, chars_of, string_of, split_chars, contains_chars, ends_with,
    trim_chars, parse_u32, parse_u32_spec, decimal, decimal_string, join2, join3, str_eq,
    find_char_from, slice_chars, starts_with, rfind_char, is_blank, all_digits, digits_value, is_digit,
};

verus! {

/// The game process that was found.
#[derive(Debug)]
pub struct GameInfo {
    pub pid: u32,
    pub proton_path: Option<String>,
}

impl Clone for GameInfo {
    fn clone(&self) -> (res: Self)
        ensures
            res == *self,
    {
        GameInfo {
            pid: self.pid,
            proton_path: match &self.proton_path {
                Some(p) => Some(p.clone()),
                None => None,
            },
        }
    }
}

/// A command-line argument that runs GE-Proton's `proton` script.
pub open spec fn is_ge_proton_arg(part: Seq<char>) -> bool {
    has_substring(part, "/GE-Proton"@) && "/proton"@.is_suffix_of(part)
}

/// The position of the first argument that runs GE-Proton.
pub open spec fn first_ge_proton_arg(parts: Seq<Seq<char>>) -> Option<int>
    decreases parts.len(),
{
    if parts.len() == 0 {
        None
    } else if is_ge_proton_arg(parts[0]) {
        Some(0)
    } else {
        match first_ge_proton_arg(parts.drop_first()) {
            Some(i) => Some(i + 1),
            None => None,
        }
    }
}

/// The directory two levels above `p`.
pub open spec fn grandparent_of(p: Seq<char>) -> Option<Seq<char>> {
    match parent_of(p) {
        Some(a) => parent_of(a),
        None => None,
    }
}

/// The Proton directory named by a process command line (arguments
/// separated by NUL): the `GE-Proton*` directory that holds the `proton`
/// script of the first `.../GE-Proton*/proton` argument.
pub open spec fn proton_path_in(cmdline: Seq<char>) -> Option<Seq<char>> {
    let parts = split_on(cmdline, '\0');
    match first_ge_proton_arg(parts) {
        Some(i) => parent_of(parts[i]),
        None => None,
    }
}

/// The Proton path in a process's command line.
pub fn extract_proton_path(cmdline: &str) -> (res: Option<String>)
    ensures
        match res {
            Some(s) => proton_path_in(cmdline@) == Some(s@),
            None => proton_path_in(cmdline@) is None,
        },
{
    let cs = chars_of(cmdline);
    let parts = split_chars(&cs, '\0');
    let ge = chars_of("/GE-Proton");
    let suffix = chars_of("/proton");
    let ghost all = split_on(cmdline@, '\0');
    let mut i: usize = 0;
    assert(all.subrange(0, all.len() as int) =~= all);
    while i < parts.len()
        invariant
            i <= parts@.len(),
            parts@.len() == all.len(),
            all == split_on(cmdline@, '\0'),
            ge@ == "/GE-Proton"@,
            suffix@ == "/proton"@,
            forall|k: int| 0 <= k < parts@.len() ==> #[trigger] parts@[k]@ == all[k],
            first_ge_proton_arg(all) == (match first_ge_proton_arg(
                all.subrange(i as int, all.len() as int),
            ) {
                Some(j) => Some(j + i),
                None => None,
            }),
        decreases parts.len() - i,
    {
        let ghost rest = all.subrange(i as int, all.len() as int);
        assert(rest.drop_first() =~= all.subrange(i + 1, all.len() as int));
        assert(rest[0] == all[i as int]);
        if contains_chars(&parts[i], &ge) && ends_with(&parts[i], &suffix) {
            let p = string_of(parts[i].as_slice());
            return parent(p.as_str());
        }
        i = i + 1;
    }
    None
}

/// Where to read a process's command line.
pub open spec fn cmdline_path_of(pid: u32) -> Seq<char> {
    "/proc/"@ + decimal(pid as nat) + "/cmdline"@
}

/// `/proc/{pid}/cmdline`.
pub fn cmdline_path(pid: u32) -> (res: String)
    ensures
        res@ == cmdline_path_of(pid),
{
    let n = decimal_string(pid as u64);
    join3("/proc/", n.as_str(), "/cmdline")
}

/// The first line of `s`, as `str::lines` yields it (without its line
/// break; `None` for empty text).
pub open spec fn first_line(s: Seq<char>) -> Option<Seq<char>> {
    if s.len() == 0 {
        None
    } else {
        Some(split_on(s, '\n')[0])
    }
}

/// The window id in `xdotool search` output: its first line, trimmed, when
/// that is not empty.
pub open spec fn window_id_in(stdout: Seq<char>) -> Option<Seq<char>> {
    match first_line(stdout) {
        Some(l) => if trim(l).len() > 0 {
            Some(trim(l))
        } else {
            None
        },
        None => None,
    }
}

/// The game window's id in the output of `xdotool search --name Sekiro`.
pub fn window_id_from(stdout: &str) -> (res: Option<String>)
    ensures
        match res {
            Some(s) => window_id_in(stdout@) == Some(s@),
            None => window_id_in(stdout@) is None,
        },
{
    let cs = chars_of(stdout);
    if cs.len() == 0 {
        return None;
    }
    let lines = split_chars(&cs, '\n');
    let first = trim_chars(&lines[0]);
    if first.len() > 0 {
        Some(string_of(first.as_slice()))
    } else {
        None
    }
}

/// The process id in the output of `xdotool getwindowpid`, trimmed.
pub fn pid_from(stdout: &str) -> (res: Option<u32>)
    ensures
        res == parse_u32_spec(trim(stdout@)),
{
    let cs = chars_of(stdout);
    let t = trim_chars(&cs);
    parse_u32(&t)
}

/// How long the launcher waits for the game window, in seconds.
pub open spec fn game_wait_limit() -> int {
    30
}

/// Where the wait for the game window stands.
#[derive(Debug, Clone, Copy, PartialEq, Eq)]
pub enum GameWait {
    /// Between polls.
    Idle,
    /// Waiting for the output of the window search.
    Searching,
    /// Waiting for the output of the process-id query.
    QueryingPid,
    /// Waiting for the command line of this process.
    ReadingCmdline(u32),
}

/// What the waiting loop reports.
pub enum GameWaitEvent {
    /// A poll starts, this many whole seconds after the wait began.
    Tick(u64),
    /// The output of `xdotool search --name Sekiro`, or `None` when it
    /// could not be run.
    SearchOutput(Option<String>),
    /// The output of `xdotool getwindowpid`, or `None` when it could not be
    /// run or was not UTF-8.
    PidOutput(Option<String>),
    /// The process's command line, or `None` when it could not be read.
    Cmdline(Option<String>),
}

/// What the waiting loop does next.
#[derive(Debug)]
pub enum GameWaitAction {
    /// Run `xdotool search --name Sekiro`.
    Search,
    /// Run `xdotool getwindowpid` on this window.
    QueryPid(String),
    /// Read this file, the process's command line.
    ReadCmdline(String),
    /// Sleep one second, then poll again.
    Sleep,
    /// The game was found.
    Found(GameInfo),
    /// Thirty seconds passed without a game window.
    TimedOut,
}

/// The event that answers what the waiting loop was told to do.
pub open spec fn event_fits(state: GameWait, ev: GameWaitEvent) -> bool {
    match state {
        GameWait::Idle => ev is Tick,
        GameWait::Searching => ev is SearchOutput,
        GameWait::QueryingPid => ev is PidOutput,
        GameWait::ReadingCmdline(_) => ev is Cmdline,
    }
}

/// One step of waiting for the game window: time out after 30 seconds;
/// otherwise search the window, ask its process id, read that process's
/// command line for the Proton path, and sleep a second whenever a step
/// finds nothing.
pub fn game_wait_step(state: GameWait, ev: GameWaitEvent) -> (res: (GameWait, GameWaitAction))
    requires
        event_fits(state, ev),
    ensures
        match ev {
            GameWaitEvent::Tick(e) => if e >= game_wait_limit() {
                res.0 == GameWait::Idle && res.1 is TimedOut
            } else {
                res.0 == GameWait::Searching && res.1 is Search
            },
            GameWaitEvent::SearchOutput(out) => match out {
                Some(o) => match window_id_in(o@) {
                    Some(w) => res.0 == GameWait::QueryingPid && (res.1 matches GameWaitAction::QueryPid(x) && x@ == w),
                    None => res.0 == GameWait::Idle && res.1 is Sleep,
                },
                None => res.0 == GameWait::Idle && res.1 is Sleep,
            },
            GameWaitEvent::PidOutput(out) => match out {
                Some(o) => match parse_u32_spec(trim(o@)) {
                    Some(pid) => res.0 == GameWait::ReadingCmdline(pid) && (res.1 matches GameWaitAction::ReadCmdline(p) && p@ == cmdline_path_of(pid)),
                    None => res.0 == GameWait::Idle && res.1 is Sleep,
                },
                None => res.0 == GameWait::Idle && res.1 is Sleep,
            },
            GameWaitEvent::Cmdline(c) => res.0 == GameWait::Idle && (res.1 matches GameWaitAction::Found(g) && state == GameWait::ReadingCmdline(g.pid) && match c {
                Some(text) => match proton_path_in(text@) {
                    Some(p) => g.proton_path matches Some(q) && q@ == p,
                    None => g.proton_path is None,
                },
                None => g.proton_path is None,
            }),
        },
{
    match ev {
        GameWaitEvent::Tick(e) => {
            if e >= 30 {
                (GameWait::Idle, GameWaitAction::TimedOut)
            } else {
                (GameWait::Searching, GameWaitAction::Search)
            }
        },
        GameWaitEvent::SearchOutput(out) => match out {
            Some(o) => match window_id_from(o.as_str()) {
                Some(w) => (GameWait::QueryingPid, GameWaitAction::QueryPid(w)),
                None => (GameWait::Idle, GameWaitAction::Sleep),
            },
            None => (GameWait::Idle, GameWaitAction::Sleep),
        },
        GameWaitEvent::PidOutput(out) => match out {
            Some(o) => match pid_from(o.as_str()) {
                Some(pid) => (GameWait::ReadingCmdline(pid), GameWaitAction::ReadCmdline(cmdline_path(pid))),
                None => (GameWait::Idle, GameWaitAction::Sleep),
            },
            None => (GameWait::Idle, GameWaitAction::Sleep),
        },
        GameWaitEvent::Cmdline(c) => {
            let pid = match state {
                GameWait::ReadingCmdline(p) => p,
                _ => 0,
            };
            let proton_path = match c {
                Some(text) => extract_proton_path(text.as_str()),
                None => None,
            };
            (GameWait::Idle, GameWaitAction::Found(GameInfo { pid, proton_path }))
        },
    }
}

/// `dir/files/bin/wine`, the wine binary of a GE-Proton build.
pub open spec fn ge_wine_of(dir: Seq<char>) -> Seq<char> {
    join_path(join_path(join_path(dir, "files"@), "bin"@), "wine"@)
}

/// `dir/dist/bin/wine`, the wine binary of a standard Proton build.
pub open spec fn dist_wine_of(dir: Seq<char>) -> Seq<char> {
    join_path(join_path(join_path(dir, "dist"@), "bin"@), "wine"@)
}

/// The GE-Proton layout's wine binary below `dir`.
pub fn ge_wine(dir: &str) -> (res: String)
    ensures
        res@ == ge_wine_of(dir@),
{
    let a = join(dir, "files");
    let b = join(a.as_str(), "bin");
    join(b.as_str(), "wine")
}

/// The standard Proton layout's wine binary below `dir`.
pub fn dist_wine(dir: &str) -> (res: String)
    ensures
        res@ == dist_wine_of(dir@),
{
    let a = join(dir, "dist");
    let b = join(a.as_str(), "bin");
    join(b.as_str(), "wine")
}

/// The wine binary of the Proton build at `proton_dir`: the GE-Proton
/// layout when `ge_exists` (that binary exists), the standard one otherwise.
pub fn wine_binary_path(proton_dir: &str, ge_exists: bool) -> (res: String)
    ensures
        res@ == (if ge_exists {
            ge_wine_of(proton_dir@)
        } else {
            dist_wine_of(proton_dir@)
        }),
{
    if ge_exists {
        ge_wine(proton_dir)
    } else {
        dist_wine(proton_dir)
    }
}

/// `s` starts with the text `p`.
pub open spec fn starts_with_text(s: Seq<char>, p: Seq<char>) -> bool {
    p.is_prefix_of(s)
}

/// Whether `s` starts with `p`.
pub fn has_prefix(s: &str, p: &str) -> (b: bool)
    ensures
        b == starts_with_text(s@, p@),
{
    let a = chars_of(s);
    let b = chars_of(p);
    starts_with(&a, &b)
}

/// `s` without the prefix `p`, when it has it.
pub fn strip_prefix(s: &str, p: &str) -> (res: Option<String>)
    ensures
        match res {
            Some(r) => p@.is_prefix_of(s@) && r@ == s@.skip(p@.len() as int),
            None => !p@.is_prefix_of(s@),
        },
{
    let a = chars_of(s);
    let b = chars_of(p);
    if starts_with(&a, &b) {
        let rest = slice_chars(&a, b.len(), a.len());
        Some(string_of(rest.as_slice()))
    } else {
        None
    }
}

/// `s.parse::<u32>().unwrap_or(0)`.
pub open spec fn number_or_zero(s: Seq<char>) -> u32 {
    match parse_u32_spec(s) {
        Some(n) => n,
        None => 0,
    }
}

/// The version of a GE-Proton directory named `name`: the numbers around
/// the first `-` after `GE-Proton` (`GE-Proton10-26` is 10, 26), each 0
/// when it does not parse; 0, 0 for a name without the prefix; `None` when
/// there is no `-`, a name the version order cannot compare.
pub open spec fn ge_version_of(name: Seq<char>) -> Option<(u32, u32)> {
    if !"GE-Proton"@.is_prefix_of(name) {
        Some((0, 0))
    } else {
        let parts = split_on(name.skip(9), '-');
        if parts.len() < 2 {
            None
        } else {
            Some((number_or_zero(parts[0]), number_or_zero(parts[1])))
        }
    }
}

fn number_or_zero_of(s: &Vec<char>) -> (n: u32)
    ensures
        n == number_or_zero(s@),
{
    match parse_u32(s) {
        Some(n) => n,
        None => 0,
    }
}

/// The version of the GE-Proton directory `name`.
pub fn ge_version(name: &str) -> (res: Option<(u32, u32)>)
    ensures
        res == ge_version_of(name@),
{
    proof {
        reveal_strlit("GE-Proton");
    }
    match strip_prefix(name, "GE-Proton") {
        None => Some((0, 0)),
        Some(rest) => {
            let cs = chars_of(rest.as_str());
            let parts = split_chars(&cs, '-');
            if parts.len() < 2 {
                None
            } else {
                Some((number_or_zero_of(&parts[0]), number_or_zero_of(&parts[1])))
            }
        },
    }
}

/// `a` comes before `b` in the order of `(major, minor)` pairs.
pub open spec fn version_lt(a: (u32, u32), b: (u32, u32)) -> bool {
    a.0 < b.0 || (a.0 == b.0 && a.1 < b.1)
}

/// The versions of the GE-Proton directories `names` can all be compared:
/// sorting them by version only compares when there are two or more, and
/// each must then have a `-` after the prefix.
pub open spec fn ge_sortable(names: Seq<Seq<char>>) -> bool {
    names.len() < 2 || forall|i: int| 0 <= i < names.len() ==> (#[trigger] ge_version_of(names[i])) is Some
}

/// The version used to order a GE-Proton directory.
pub open spec fn ge_key(name: Seq<char>) -> (u32, u32) {
    match ge_version_of(name) {
        Some(v) => v,
        None => (0, 0),
    }
}

/// `i` is the directory that an ascending stable sort by version puts last:
/// no other has a greater version, and none after it an equal one.
pub open spec fn is_latest_ge(names: Seq<Seq<char>>, i: int) -> bool {
    &&& 0 <= i < names.len()
    &&& forall|j: int| 0 <= j < names.len() ==> !version_lt(ge_key(names[i]), #[trigger] ge_key(names[j]))
    &&& forall|j: int| i < j < names.len() ==> version_lt(#[trigger] ge_key(names[j]), ge_key(names[i]))
}

/// Whether the versions of `names` can all be compared.
pub fn is_ge_sortable(names: &Vec<String>) -> (b: bool)
    ensures
        b == ge_sortable(strings_view(names@)),
{
    if names.len() < 2 {
        return true;
    }
    let mut i: usize = 0;
    while i < names.len()
        invariant
            i <= names@.len(),
            names@.len() >= 2,
            forall|j: int| 0 <= j < i ==> (#[trigger] ge_version_of(strings_view(names@)[j])) is Some,
        decreases names.len() - i,
    {
        assert(strings_view(names@)[i as int] == names@[i as int]@);
        if ge_version(names[i].as_str()).is_none() {
            proof {
                let sv = strings_view(names@);
                assert(sv.len() == names@.len());
                assert(sv[i as int] == names@[i as int]@);
                assert(ge_version_of(sv[i as int]) is None);
                assert(!ge_sortable(sv));
            }
            return false;
        }
        i = i + 1;
    }
    true
}

/// The GE-Proton directory with the greatest version, the last of equals.
pub fn latest_ge_proton(names: &Vec<String>) -> (res: Option<usize>)
    requires
        ge_sortable(strings_view(names@)),
    ensures
        names@.len() == 0 ==> res is None,
        names@.len() > 0 ==> (res matches Some(i) && is_latest_ge(strings_view(names@), i as int)),
{
    let ghost ns = strings_view(names@);
    if names.len() == 0 {
        return None;
    }
    let mut best: usize = 0;
    let mut best_v: (u32, u32) = match ge_version(names[0].as_str()) {
        Some(v) => v,
        None => (0, 0),
    };
    let mut i: usize = 1;
    while i < names.len()
        invariant
            1 <= i <= names@.len(),
            ns == strings_view(names@),
            best < i,
            best_v == ge_key(ns[best as int]),
            forall|j: int| 0 <= j < i ==> !version_lt(best_v, #[trigger] ge_key(ns[j])),
            forall|j: int| best < j < i ==> version_lt(#[trigger] ge_key(ns[j]), best_v),
        decreases names.len() - i,
    {
        let v = match ge_version(names[i].as_str()) {
            Some(v) => v,
            None => (0, 0),
        };
        assert(v == ge_key(ns[i as int]));
        if !(v.0 < best_v.0 || (v.0 == best_v.0 && v.1 < best_v.1)) {
            best = i;
            best_v = v;
        }
        i = i + 1;
    }
    Some(best)
}

/// The version of a standard Proton directory: `Proton-9.0` is 9, 0; the
/// numbers around the first `.` after `Proton-`, each 0 when missing or
/// not parsing.
pub open spec fn steam_version_of(name: Seq<char>) -> (u32, u32) {
    let rest = if "Proton-"@.is_prefix_of(name) {
        name.skip(7)
    } else {
        Seq::<char>::empty()
    };
    let parts = split_on(rest, '.');
    (number_or_zero(parts[0]), if parts.len() >= 2 {
        number_or_zero(parts[1])
    } else {
        0
    })
}

/// A GE-Proton name `GE-ProtonX-Y` with decimal numbers `X` and `Y` has
/// the version (X, Y): both numbers are read.
pub proof fn lemma_ge_version_reads_both(x: Seq<char>, y: Seq<char>)
    requires
        x.len() > 0,
        y.len() > 0,
        all_digits(x),
        all_digits(y),
        digits_value(x) <= u32::MAX,
        digits_value(y) <= u32::MAX,
    ensures
        ge_version_of("GE-Proton"@ + x + seq!['-'] + y) == Some((digits_value(x) as u32, digits_value(y) as u32)),
{
    reveal_strlit("GE-Proton");
    let name = "GE-Proton"@ + x + seq!['-'] + y;
    assert("GE-Proton"@.is_prefix_of(name)) by {
        assert(name.subrange(0, 9) =~= "GE-Proton"@);
    }
    assert(name.skip(9) =~= x + seq!['-'] + y);
    assert forall|i: int| 0 <= i < x.len() implies x[i] != '-' by {
        assert(is_digit(x[i]));
    }
    assert forall|i: int| 0 <= i < y.len() implies y[i] != '-' by {
        assert(is_digit(y[i]));
    }
    crate::text::lemma_split_on_two(x, y, '-');
    crate::text::lemma_parse_digits(x);
    crate::text::lemma_parse_digits(y);
}

/// A standard Proton name `Proton-X.Y` with decimal numbers `X` and `Y`
/// has the version (X, Y): both the major and the minor number are read.
pub proof fn lemma_steam_version_reads_both(x: Seq<char>, y: Seq<char>)
    requires
        x.len() > 0,
        y.len() > 0,
        all_digits(x),
        all_digits(y),
        digits_value(x) <= u32::MAX,
        digits_value(y) <= u32::MAX,
    ensures
        steam_version_of("Proton-"@ + x + seq!['.'] + y) == (digits_value(x) as u32, digits_value(y) as u32),
{
    reveal_strlit("Proton-");
    let name = "Proton-"@ + x + seq!['.'] + y;
    assert("Proton-"@.is_prefix_of(name)) by {
        assert(name.subrange(0, 7) =~= "Proton-"@);
    }
    assert(name.skip(7) =~= x + seq!['.'] + y);
    assert forall|i: int| 0 <= i < x.len() implies x[i] != '.' by {
        assert(is_digit(x[i]));
    }
    assert forall|i: int| 0 <= i < y.len() implies y[i] != '.' by {
        assert(is_digit(y[i]));
    }
    crate::text::lemma_split_on_two(x, y, '.');
    crate::text::lemma_parse_digits(x);
    crate::text::lemma_parse_digits(y);
}

/// The version of the standard Proton directory `name`.
pub fn steam_version(name: &str) -> (res: (u32, u32))
    ensures
        res == steam_version_of(name@),
{
    proof {
        reveal_strlit("Proton-");
    }
    let rest = match strip_prefix(name, "Proton-") {
        Some(r) => r,
        None => String::new(),
    };
    let cs = chars_of(rest.as_str());
    let parts = split_chars(&cs, '.');
    proof {
        crate::text::lemma_split_on_nonempty(cs@, '.');
    }
    let major = number_or_zero_of(&parts[0]);
    let minor = if parts.len() >= 2 {
        number_or_zero_of(&parts[1])
    } else {
        0
    };
    (major, minor)
}

/// `i` is the directory that a descending stable sort by version puts
/// first: none has a greater version, and none before it an equal one.
pub open spec fn is_latest_steam(names: Seq<Seq<char>>, i: int) -> bool {
    &&& 0 <= i < names.len()
    &&& forall|j: int| 0 <= j < names.len() ==> !version_lt(steam_version_of(names[i]), #[trigger] steam_version_of(names[j]))
    &&& forall|j: int| 0 <= j < i ==> version_lt(#[trigger] steam_version_of(names[j]), steam_version_of(names[i]))
}

/// The standard Proton directory with the greatest version, the first of
/// equals.
pub fn latest_steam_proton(names: &Vec<String>) -> (res: Option<usize>)
    ensures
        names@.len() == 0 ==> res is None,
        names@.len() > 0 ==> (res matches Some(i) && is_latest_steam(strings_view(names@), i as int)),
{
    let ghost ns = strings_view(names@);
    if names.len() == 0 {
        return None;
    }
    let mut best: usize = 0;
    let mut best_v = steam_version(names[0].as_str());
    let mut i: usize = 1;
    while i < names.len()
        invariant
            1 <= i <= names@.len(),
            ns == strings_view(names@),
            best < i,
            best_v == steam_version_of(ns[best as int]),
            forall|j: int| 0 <= j < i ==> !version_lt(best_v, #[trigger] steam_version_of(ns[j])),
            forall|j: int| 0 <= j < best ==> version_lt(#[trigger] steam_version_of(ns[j]), best_v),
        decreases names.len() - i,
    {
        let v = steam_version(names[i].as_str());
        if best_v.0 < v.0 || (best_v.0 == v.0 && best_v.1 < v.1) {
            best = i;
            best_v = v;
        }
        i = i + 1;
    }
    Some(best)
}

/// Whether a directory in `steamapps/common` is a standard Proton build by
/// its name.
pub fn is_steam_proton_name(name: &str) -> (b: bool)
    ensures
        b == starts_with_text(name@, "Proton-"@),
{
    has_prefix(name, "Proton-")
}

/// Whether a directory is a GE-Proton build by its name.
pub fn is_ge_proton_name(name: &str) -> (b: bool)
    ensures
        b == starts_with_text(name@, "GE-Proton"@),
{
    has_prefix(name, "GE-Proton")
}

/// The Steam install locations below `home`, in the order they are tried
/// when collecting Steam libraries.
pub open spec fn steam_root_candidates_of(home: Seq<char>) -> Seq<Seq<char>> {
    seq![
        home + "/.local/share/Steam"@,
        home + "/.steam/steam"@,
        home + "/.steam/root"@,
        home + "/Steam"@,
    ]
}

/// The Steam locations below `home` searched for Proton builds, the game
/// directory and the Steam library.
pub open spec fn steam_base_candidates_of(home: Seq<char>) -> Seq<Seq<char>> {
    seq![
        home + "/.local/share/Steam"@,
        home + "/.steam/root"@,
        home + "/Steam"@,
        home + "/.var/app/com.valvesoftware.Steam/.steam/root"@,
    ]
}

/// The Steam install locations below `home` for collecting libraries.
pub fn steam_root_candidates(home: &str) -> (res: Vec<String>)
    ensures
        strings_view(res@) == steam_root_candidates_of(home@),
{
    let mut v: Vec<String> = Vec::new();
    v.push(join2(home, "/.local/share/Steam"));
    v.push(join2(home, "/.steam/steam"));
    v.push(join2(home, "/.steam/root"));
    v.push(join2(home, "/Steam"));
    assert(strings_view(v@) =~= steam_root_candidates_of(home@));
    v
}

/// The Steam locations below `home` for Proton builds and the game.
pub fn steam_base_candidates(home: &str) -> (res: Vec<String>)
    ensures
        strings_view(res@) == steam_base_candidates_of(home@),
{
    let mut v: Vec<String> = Vec::new();
    v.push(join2(home, "/.local/share/Steam"));
    v.push(join2(home, "/.steam/root"));
    v.push(join2(home, "/Steam"));
    v.push(join2(home, "/.var/app/com.valvesoftware.Steam/.steam/root"));
    assert(strings_view(v@) =~= steam_base_candidates_of(home@));
    v
}

/// The library path that a `libraryfolders.vdf` line names: a trimmed line
/// `"path"<tab><tab>"...` gives what stands before its last `"`.
pub open spec fn library_path_in(line: Seq<char>) -> Option<Seq<char>> {
    let t = trim(line);
    let key = seq!['"', 'p', 'a', 't', 'h', '"', '\t', '\t', '"'];
    if key.is_prefix_of(t) {
        let rest = t.skip(9);
        if exists|k: int| 0 <= k < rest.len() && rest[k] == '"' {
            let end = choose|k: int| 0 <= k < rest.len() && rest[k] == '"' && forall|j: int| k < j < rest.len() ==> rest[j] != '"';
            Some(rest.take(end))
        } else {
            None
        }
    } else {
        None
    }
}

/// The library path named by a line of `libraryfolders.vdf`.
pub fn library_path_from_line(line: &str) -> (res: Option<String>)
    ensures
        match res {
            Some(s) => library_path_in(line@) == Some(s@),
            None => library_path_in(line@) is None,
        },
{
    let cs = chars_of(line);
    let t = trim_chars(&cs);
    let key: Vec<char> = vec!['"', 'p', 'a', 't', 'h', '"', '\t', '\t', '"'];
    let ghost k = seq!['"', 'p', 'a', 't', 'h', '"', '\t', '\t', '"'];
    assert(key@ =~= k);
    if !starts_with(&t, &key) {
        return None;
    }
    let rest = slice_chars(&t, 9, t.len());
    assert(rest@ =~= t@.skip(9));
    match rfind_char(&rest, '"') {
        Some(end) => {
            let ghost r = rest@;
            assert(exists|q: int| 0 <= q < r.len() && r[q] == '"');
            let ghost c = choose|q: int| 0 <= q < r.len() && r[q] == '"' && forall|j: int| q < j < r.len() ==> r[j] != '"';
            assert(c == end as int) by {
                if c < end as int {
                    assert(r[end as int] != '"');
                } else if c > end as int {
                    assert(r[c] != '"');
                }
            }
            let p = slice_chars(&rest, 0, end);
            assert(p@ =~= r.take(end as int));
            Some(string_of(p.as_slice()))
        },
        None => None,
    }
}

/// Appends `p` to `roots` unless it is there already.
pub fn push_unique(roots: &mut Vec<String>, p: String)
    ensures
        strings_view(old(roots)@).contains(p@) ==> final(roots)@ == old(roots)@,
        !strings_view(old(roots)@).contains(p@) ==> final(roots)@ == old(roots)@.push(p),
        crate::selection::no_duplicates(strings_view(old(roots)@)) ==> crate::selection::no_duplicates(
            strings_view(final(roots)@),
        ),
{
    let mut i: usize = 0;
    while i < roots.len()
        invariant
            i <= roots@.len(),
            roots@ == old(roots)@,
            forall|j: int| 0 <= j < i ==> roots@[j]@ != p@,
        decreases roots.len() - i,
    {
        if str_eq(roots[i].as_str(), p.as_str()) {
            assert(strings_view(roots@)[i as int] == p@);
            return;
        }
        i = i + 1;
    }
    proof {
        if strings_view(roots@).contains(p@) {
            let j = choose|j: int| 0 <= j < strings_view(roots@).len() && strings_view(roots@)[j] == p@;
            assert(roots@[j]@ == p@);
        }
    }
    let ghost before = strings_view(roots@);
    let ghost pv = p@;
    roots.push(p);
    assert(strings_view(roots@) =~= before.push(pv));
}

/// The installation directory names to look for, in priority order: the
/// one the app manifest names, then the two usual names, without repeats.
pub open spec fn install_names_of(manifest_name: Option<Seq<char>>) -> Seq<Seq<char>> {
    let a = "Sekiro Sekiro Shadows Die Again"@;
    let b = "Sekiro"@;
    match manifest_name {
        None => seq![a, b],
        Some(n) => if n == a {
            seq![a, b]
        } else if n == b {
            seq![b, a]
        } else {
            seq![n, a, b]
        },
    }
}

/// The directory names that Sekiro may be installed under.
pub fn install_names(manifest_name: Option<String>) -> (res: Vec<String>)
    ensures
        strings_view(res@) == install_names_of(match manifest_name {
            Some(n) => Some(n@),
            None => None,
        }),
        crate::selection::no_duplicates(strings_view(res@)),
{
    proof {
        reveal_strlit("Sekiro Sekiro Shadows Die Again");
        reveal_strlit("Sekiro");
        assert("Sekiro Sekiro Shadows Die Again"@.len() != "Sekiro"@.len());
    }
    let ghost a = "Sekiro Sekiro Shadows Die Again"@;
    let ghost b = "Sekiro"@;
    let mut names: Vec<String> = Vec::new();
    let ghost m = match &manifest_name {
        Some(n) => Some(n@),
        None => None,
    };
    match manifest_name {
        Some(n) => names.push(n),
        None => {},
    }
    assert(strings_view(names@) =~= (match m {
        Some(x) => seq![x],
        None => Seq::<Seq<char>>::empty(),
    }));
    let pa = String::from_str("Sekiro Sekiro Shadows Die Again");
    let ghost before = names@;
    proof {
        if m is Some && m->0 == a {
            assert(strings_view(before)[0] == a);
        }
        if strings_view(before).contains(a) {
            let j = choose|j: int| 0 <= j < strings_view(before).len() && strings_view(before)[j] == a;
            assert(j == 0);
        }
        assert(strings_view(before.push(pa)) =~= strings_view(before).push(a));
    }
    push_unique(&mut names, pa);
    assert(strings_view(names@) =~= (match m {
        Some(x) => if x == a {
            seq![a]
        } else {
            seq![x, a]
        },
        None => seq![a],
    }));
    let pb = String::from_str("Sekiro");
    let ghost before2 = names@;
    proof {
        let sv = strings_view(before2);
        if sv.contains(b) {
            let j = choose|j: int| 0 <= j < sv.len() && sv[j] == b;
            assert(m is Some && m->0 == b && j == 0);
        }
        if m is Some && m->0 == b {
            assert(sv[0] == b);
        }
        assert(strings_view(before2.push(pb)) =~= sv.push(b));
    }
    push_unique(&mut names, pb);
    assert(strings_view(names@) =~= install_names_of(m));
    names
}

/// The app manifest files below `home` that may name Sekiro's install
/// directory, in the order they are read.
pub fn app_manifest_candidates(home: &str) -> (res: Vec<String>)
    ensures
        res@.len() == 4,
        res@[0]@ == home@ + "/.local/share/Steam/steamapps/appmanifest_814380.appmanifest"@,
        res@[1]@ == home@ + "/.steam/root/steamapps/appmanifest_814380.appmanifest"@,
        res@[2]@ == home@ + "/Steam/steamapps/appmanifest_814380.appmanifest"@,
        res@[3]@ == home@ + "/.var/app/com.valvesoftware.Steam/.steam/root/steamapps/appmanifest_814380.appmanifest"@,
{
    let mut v: Vec<String> = Vec::new();
    v.push(join2(home, "/.local/share/Steam/steamapps/appmanifest_814380.appmanifest"));
    v.push(join2(home, "/.steam/root/steamapps/appmanifest_814380.appmanifest"));
    v.push(join2(home, "/Steam/steamapps/appmanifest_814380.appmanifest"));
    v.push(join2(home, "/.var/app/com.valvesoftware.Steam/.steam/root/steamapps/appmanifest_814380.appmanifest"));
    v
}

/// Where Sekiro would be installed under the name `name` in the Steam
/// library `base`.
pub open spec fn game_dir_of(base: Seq<char>, name: Seq<char>) -> Seq<char> {
    join_path(join_path(join_path(base, "steamapps"@), "common"@), name)
}

/// `base/steamapps/common/name`.
pub fn game_dir_candidate(base: &str, name: &str) -> (res: String)
    ensures
        res@ == game_dir_of(base@, name@),
{
    let a = join(base, "steamapps");
    let b = join(a.as_str(), "common");
    join(b.as_str(), name)
}

/// The directories Sekiro may be installed in: for each library base in
/// order, each install name in order.
pub open spec fn game_dirs_of(bases: Seq<Seq<char>>, names: Seq<Seq<char>>) -> Seq<Seq<char>>
    decreases bases.len(),
{
    if bases.len() == 0 {
        Seq::empty()
    } else {
        game_dirs_of(bases.drop_last(), names) + names.map_values(|n: Seq<char>| game_dir_of(bases.last(), n))
    }
}

/// The directories to look for Sekiro in, library by library.
pub fn game_dir_candidates(bases: &Vec<String>, names: &Vec<String>) -> (res: Vec<String>)
    ensures
        strings_view(res@) == game_dirs_of(strings_view(bases@), strings_view(names@)),
{
    let ghost bs = strings_view(bases@);
    let ghost ns = strings_view(names@);
    let mut out: Vec<String> = Vec::new();
    let mut i: usize = 0;
    while i < bases.len()
        invariant
            i <= bases@.len(),
            bs == strings_view(bases@),
            ns == strings_view(names@),
            strings_view(out@) == game_dirs_of(bs.take(i as int), ns),
        decreases bases.len() - i,
    {
        assert(bs.take(i + 1).drop_last() =~= bs.take(i as int));
        assert(bs.take(i + 1).last() == bases@[i as int]@);
        let ghost start = strings_view(out@);
        let mut j: usize = 0;
        while j < names.len()
            invariant
                i < bases@.len(),
                j <= names@.len(),
                ns == strings_view(names@),
                strings_view(out@) == start + ns.take(j as int).map_values(
                    |n: Seq<char>| game_dir_of(bases@[i as int]@, n),
                ),
            decreases names.len() - j,
        {
            let d = game_dir_candidate(bases[i].as_str(), names[j].as_str());
            let ghost before = out@;
            out.push(d);
            assert(strings_view(out@) =~= strings_view(before).push(d@));
            assert(ns.take(j + 1) =~= ns.take(j as int).push(names@[j as int]@));
            assert(ns.take(j + 1).map_values(|n: Seq<char>| game_dir_of(bases@[i as int]@, n)) =~= ns.take(
                j as int,
            ).map_values(|n: Seq<char>| game_dir_of(bases@[i as int]@, n)).push(
                game_dir_of(bases@[i as int]@, names@[j as int]@),
            ));
            j = j + 1;
        }
        assert(ns.take(names@.len() as int) =~= ns);
        i = i + 1;
    }
    assert(bs.take(bases@.len() as int) =~= bs);
    out
}

/// The game directory: the first candidate that `confirmed` marks (it
/// exists and holds one of the `game_marker_files`).
pub fn pick_game_dir(candidates: &Vec<String>, confirmed: &Vec<bool>) -> (res: Option<String>)
    requires
        candidates@.len() == confirmed@.len(),
    ensures
        match first_true(confirmed@) {
            Some(i) => res matches Some(d) && d@ == candidates@[i]@,
            None => res is None,
        },
{
    let mut i: usize = 0;
    while i < confirmed.len()
        invariant
            i <= confirmed@.len(),
            candidates@.len() == confirmed@.len(),
            forall|j: int| 0 <= j < i ==> !confirmed@[j],
        decreases confirmed.len() - i,
    {
        if confirmed[i] {
            proof {
                lemma_first_true_at(confirmed@, i as int);
            }
            return Some(candidates[i].clone());
        }
        i = i + 1;
    }
    proof {
        lemma_first_true_none(confirmed@);
    }
    None
}

/// The files whose presence confirms a Sekiro install in `dir`.
pub fn game_marker_files(dir: &str) -> (res: Vec<String>)
    ensures
        strings_view(res@) == seq![
            join_path(dir@, "check-steam_appid.txt"@),
            join_path(dir@, "steam_appid.txt"@),
            join_path(dir@, "sekiro.exe"@),
        ],
{
    let mut v: Vec<String> = Vec::new();
    v.push(join(dir, "check-steam_appid.txt"));
    v.push(join(dir, "steam_appid.txt"));
    v.push(join(dir, "sekiro.exe"));
    assert(strings_view(v@) =~= seq![
        join_path(dir@, "check-steam_appid.txt"@),
        join_path(dir@, "steam_appid.txt"@),
        join_path(dir@, "sekiro.exe"@),
    ]);
    v
}

/// The value of the first `"installdir"` entry of a Steam app manifest: in
/// the first line that, trimmed, starts with `"installdir"` and has a
/// quoted value after the key, the text between those quotes.
pub open spec fn install_dir_in_line(line: Seq<char>) -> Option<Seq<char>> {
    let t = trim(line);
    let key = "\"installdir\""@;
    if key.is_prefix_of(t) {
        let rest = t.skip(key.len() as int);
        if exists|a: int, b: int| 0 <= a < b < rest.len() && rest[a] == '"' && rest[b] == '"' {
            let a = choose|a: int| 0 <= a < rest.len() && rest[a] == '"' && forall|j: int| 0 <= j < a ==> rest[j] != '"';
            let b = choose|b: int| a < b < rest.len() && rest[b] == '"' && forall|j: int| a < j < b ==> rest[j] != '"';
            Some(rest.subrange(a + 1, b))
        } else {
            None
        }
    } else {
        None
    }
}

/// The install directory named by the first line of `lines` that names one.
pub open spec fn install_dir_in_lines(lines: Seq<Seq<char>>) -> Option<Seq<char>>
    decreases lines.len(),
{
    if lines.len() == 0 {
        None
    } else {
        match install_dir_in_line(lines[0]) {
            Some(v) => Some(v),
            None => install_dir_in_lines(lines.drop_first()),
        }
    }
}

/// The install directory named by the Steam app manifest `content`.
pub open spec fn install_dir_in(content: Seq<char>) -> Option<Seq<char>> {
    install_dir_in_lines(split_on(content, '\n'))
}

fn install_dir_from_line(line: &Vec<char>) -> (res: Option<String>)
    ensures
        match res {
            Some(s) => install_dir_in_line(line@) == Some(s@),
            None => install_dir_in_line(line@) is None,
        },
{
    let t = trim_chars(line);
    let key = chars_of("\"installdir\"");
    if !starts_with(&t, &key) {
        return None;
    }
    let rest = slice_chars(&t, key.len(), t.len());
    assert(rest@ =~= t@.skip(key@.len() as int));
    let ghost r = rest@;
    match find_char_from(&rest, '"', 0) {
        None => {
            assert(!exists|a: int, b: int| 0 <= a < b < r.len() && r[a] == '"' && r[b] == '"');
            None
        },
        Some(a) => {
            let ghost ca = choose|q: int| 0 <= q < r.len() && r[q] == '"' && forall|j: int| 0 <= j < q ==> r[j] != '"';
            assert(ca == a as int) by {
                if ca < a as int {
                    assert(r[ca] != '"');
                } else if ca > a as int {
                    assert(r[a as int] != '"');
                }
            }
            match find_char_from(&rest, '"', a + 1) {
                None => {
                    assert(!exists|x: int, y: int| 0 <= x < y < r.len() && r[x] == '"' && r[y] == '"') by {
                        if exists|x: int, y: int| 0 <= x < y < r.len() && r[x] == '"' && r[y] == '"' {
                            let (x, y) = choose|x: int, y: int| 0 <= x < y < r.len() && r[x] == '"' && r[y] == '"';
                            assert(x >= a as int);
                            assert(y > a as int);
                        }
                    }
                    None
                },
                Some(b) => {
                    assert(exists|x: int, y: int| 0 <= x < y < r.len() && r[x] == '"' && r[y] == '"') by {
                        assert(0 <= a < b < r.len() && r[a as int] == '"' && r[b as int] == '"');
                    }
                    let ghost cb = choose|q: int| ca < q < r.len() && r[q] == '"' && forall|j: int| ca < j < q ==> r[j] != '"';
                    assert(cb == b as int) by {
                        if cb < b as int {
                            assert(r[cb] != '"');
                        } else if cb > b as int {
                            assert(r[b as int] != '"');
                        }
                    }
                    let v = slice_chars(&rest, a + 1, b);
                    Some(string_of(v.as_slice()))
                },
            }
        },
    }
}

/// The install directory name in a Steam app manifest, from a line such as
/// `"installdir"  "Sekiro Sekiro Shadows Die Again"`.
pub fn parse_manifest_install_dir(content: &str) -> (res: Option<String>)
    ensures
        match res {
            Some(s) => install_dir_in(content@) == Some(s@),
            None => install_dir_in(content@) is None,
        },
{
    let cs = chars_of(content);
    let lines = split_chars(&cs, '\n');
    let ghost all = split_on(content@, '\n');
    assert(all.subrange(0, all.len() as int) =~= all);
    let mut i: usize = 0;
    while i < lines.len()
        invariant
            i <= lines@.len(),
            lines@.len() == all.len(),
            all == split_on(content@, '\n'),
            forall|k: int| 0 <= k < lines@.len() ==> #[trigger] lines@[k]@ == all[k],
            install_dir_in_lines(all) == install_dir_in_lines(all.subrange(i as int, all.len() as int)),
        decreases lines.len() - i,
    {
        let ghost rest = all.subrange(i as int, all.len() as int);
        assert(rest.drop_first() =~= all.subrange(i + 1, all.len() as int));
        assert(rest[0] == all[i as int]);
        match install_dir_from_line(&lines[i]) {
            Some(v) => {
                return Some(v);
            },
            None => {},
        }
        i = i + 1;
    }
    None
}

/// The Steam library to use: the first candidate with a `steamapps`
/// directory and Sekiro's app manifest, else the first with a `steamapps`
/// directory.
pub open spec fn steam_library_choice(has_steamapps: Seq<bool>, has_manifest: Seq<bool>) -> Option<int> {
    if exists|i: int| 0 <= i < has_steamapps.len() && has_steamapps[i] && has_manifest[i] {
        Some(choose|i: int| 0 <= i < has_steamapps.len() && has_steamapps[i] && has_manifest[i] && forall|j: int| 0 <= j < i ==> !(has_steamapps[j] && has_manifest[j]))
    } else if exists|i: int| 0 <= i < has_steamapps.len() && has_steamapps[i] {
        Some(choose|i: int| 0 <= i < has_steamapps.len() && has_steamapps[i] && forall|j: int| 0 <= j < i ==> !has_steamapps[j])
    } else {
        None
    }
}

/// Picks the Steam library among the candidates of
/// `steam_base_candidates`, given for each whether it has `steamapps` and
/// whether that holds `appmanifest_814380.appmanifest`.
pub fn select_steam_library(has_steamapps: &Vec<bool>, has_manifest: &Vec<bool>) -> (res: Option<usize>)
    requires
        has_steamapps@.len() == has_manifest@.len(),
    ensures
        match res {
            Some(i) => steam_library_choice(has_steamapps@, has_manifest@) == Some(i as int),
            None => steam_library_choice(has_steamapps@, has_manifest@) is None,
        },
{
    let n = has_steamapps.len();
    let mut i: usize = 0;
    while i < n
        invariant
            n == has_steamapps@.len(),
            n == has_manifest@.len(),
            i <= n,
            forall|j: int| 0 <= j < i ==> !(has_steamapps@[j] && has_manifest@[j]),
        decreases n - i,
    {
        if has_steamapps[i] && has_manifest[i] {
            proof {
                let c = choose|c: int| 0 <= c < has_steamapps@.len() && has_steamapps@[c] && has_manifest@[c] && forall|j: int| 0 <= j < c ==> !(has_steamapps@[j] && has_manifest@[j]);
                assert(c == i as int) by {
                    if c < i as int {} else if c > i as int {}
                }
            }
            return Some(i);
        }
        i = i + 1;
    }
    let mut k: usize = 0;
    while k < n
        invariant
            n == has_steamapps@.len(),
            n == has_manifest@.len(),
            k <= n,
            forall|j: int| 0 <= j < n ==> !(has_steamapps@[j] && has_manifest@[j]),
            forall|j: int| 0 <= j < k ==> !has_steamapps@[j],
        decreases n - k,
    {
        if has_steamapps[k] {
            proof {
                let c = choose|c: int| 0 <= c < has_steamapps@.len() && has_steamapps@[c] && forall|j: int| 0 <= j < c ==> !has_steamapps@[j];
                assert(c == k as int) by {
                    if c < k as int {} else if c > k as int {}
                }
            }
            return Some(k);
        }
        k = k + 1;
    }
    None
}

/// The position of the first `true` in `bs`.
pub open spec fn first_true(bs: Seq<bool>) -> Option<int>
    decreases bs.len(),
{
    if bs.len() == 0 {
        None
    } else if bs[0] {
        Some(0)
    } else {
        match first_true(bs.drop_first()) {
            Some(i) => Some(i + 1),
            None => None,
        }
    }
}

proof fn lemma_first_true_at(bs: Seq<bool>, i: int)
    requires
        0 <= i < bs.len(),
        bs[i],
        forall|j: int| 0 <= j < i ==> !bs[j],
    ensures
        first_true(bs) == Some(i),
    decreases bs.len(),
{
    if i > 0 {
        lemma_first_true_at(bs.drop_first(), i - 1);
    }
}

proof fn lemma_first_true_none(bs: Seq<bool>)
    requires
        forall|j: int| 0 <= j < bs.len() ==> !bs[j],
    ensures
        first_true(bs) is None,
    decreases bs.len(),
{
    if bs.len() > 0 {
        lemma_first_true_none(bs.drop_first());
    }
}

/// The Steam client's install path: the first of the locations of
/// `steam_root_candidates` that exists, else the usual location below
/// `home`, else the empty path when there is no home directory.
pub fn steam_client_path(home: Option<String>, exists: &Vec<bool>) -> (res: String)
    requires
        exists@.len() == 4,
    ensures
        res@ == (match first_true(exists@) {
            Some(i) => steam_root_candidates_of(match home {
                Some(h) => h@,
                None => Seq::<char>::empty(),
            })[i],
            None => match home {
                Some(h) => h@ + "/.local/share/Steam"@,
                None => Seq::<char>::empty(),
            },
        }),
{
    let h = match &home {
        Some(h) => h.clone(),
        None => String::new(),
    };
    let cands = steam_root_candidates(h.as_str());
    assert(cands@.len() == strings_view(cands@).len());
    assert(h@ == (match home {
        Some(x) => x@,
        None => Seq::<char>::empty(),
    }));
    let mut i: usize = 0;
    while i < 4
        invariant
            i <= 4,
            exists@.len() == 4,
            cands@.len() == 4,
            strings_view(cands@) == steam_root_candidates_of(match home {
                Some(x) => x@,
                None => Seq::<char>::empty(),
            }),
            forall|j: int| 0 <= j < i ==> !exists@[j],
        decreases 4 - i,
    {
        if exists[i] {
            proof {
                lemma_first_true_at(exists@, i as int);
            }
            assert(strings_view(cands@)[i as int] == cands@[i as int]@);
            return cands[i].clone();
        }
        i = i + 1;
    }
    proof {
        lemma_first_true_none(exists@);
    }
    match home {
        Some(h) => join2(h.as_str(), "/.local/share/Steam"),
        None => String::new(),
    }
}

/// A process to start.
#[derive(Debug)]
pub struct LaunchCommand {
    pub program: String,
    pub args: Vec<String>,
    pub env: Vec<(String, String)>,
    pub current_dir: Option<String>,
}

/// The name a launched tool is reported under: its file name, or the whole
/// path when it has none.
pub open spec fn tool_name_of(path: Seq<char>) -> Seq<char> {
    match file_name_of(path) {
        Some(n) => n,
        None => path,
    }
}

/// The name a launched tool is reported under.
pub fn tool_display_name(path: &str) -> (res: String)
    ensures
        res@ == tool_name_of(path@),
{
    match file_name(path) {
        Some(n) => n,
        None => String::from_str(path),
    }
}

/// `"wine" "tool" &`, the shell line that starts a tool in the background.
pub open spec fn tool_script_of(wine: Seq<char>, tool: Seq<char>) -> Seq<char> {
    "\""@ + wine + "\" \""@ + tool + "\" &"@
}

/// The error when no wine binary could be found.
pub open spec fn no_wine_message() -> Seq<char> {
    "Could not find GE-Proton wine binary"@
}

/// The command that starts the tool at `tool_path` with the wine binary
/// `wine_bin` in the prefix `prefix`: `sh -c '"wine" "tool" &'` with
/// `WINEPREFIX` set. It fails when there is no wine binary, then when the
/// tool's file does not exist.
pub fn tool_launch_command(wine_bin: Option<String>, tool_path: &str, tool_exists: bool, prefix: &str) -> (res: Result<LaunchCommand, String>)
    ensures
        wine_bin is None ==> (res matches Err(e) && e@ == no_wine_message()),
        (wine_bin is Some && !tool_exists) ==> (res matches Err(e) && e@ == "Tool binary not found: "@ + tool_path@),
        (wine_bin is Some && tool_exists) ==> (res matches Ok(c) && c.program@ == "sh"@ && c.args@.len() == 2
            && c.args@[0]@ == "-c"@ && c.args@[1]@ == tool_script_of(wine_bin->0@, tool_path@)
            && c.env@.len() == 1 && c.env@[0].0@ == "WINEPREFIX"@ && c.env@[0].1@ == prefix@
            && c.current_dir is None),
{
    match wine_bin {
        None => Err(String::from_str("Could not find GE-Proton wine binary")),
        Some(w) => {
            if !tool_exists {
                return Err(join2("Tool binary not found: ", tool_path));
            }
            let script = join3("\"", w.as_str(), "\" \"");
            let script = script.concat(tool_path);
            let script = script.concat("\" &");
            let mut args: Vec<String> = Vec::new();
            args.push(String::from_str("-c"));
            args.push(script);
            let mut env: Vec<(String, String)> = Vec::new();
            env.push((String::from_str("WINEPREFIX"), String::from_str(prefix)));
            Ok(LaunchCommand { program: String::from_str("sh"), args, env, current_dir: None })
        },
    }
}

/// The launchers that may start the game in `game_dir`: the Linux script,
/// then the Windows executable.
pub fn game_launchers(game_dir: &str) -> (res: (String, String))
    ensures
        res.0@ == join_path(game_dir@, "sekiro.sh"@),
        res.1@ == join_path(game_dir@, "sekiro.exe"@),
{
    (join(game_dir, "sekiro.sh"), join(game_dir, "sekiro.exe"))
}

/// Picks what starts the game: `sekiro.sh` when it exists, else
/// `sekiro.exe`; an error when the game directory or both are missing.
pub fn choose_game_exe(game_dir: Option<String>, script_exists: bool, exe_exists: bool) -> (res: Result<String, String>)
    ensures
        game_dir is None ==> (res matches Err(e) && e@ == "Could not find Sekiro game directory. Make sure Sekiro is installed via Steam."@),
        (game_dir is Some && script_exists) ==> (res matches Ok(p) && p@ == join_path(game_dir->0@, "sekiro.sh"@)),
        (game_dir is Some && !script_exists && exe_exists) ==> (res matches Ok(p) && p@ == join_path(game_dir->0@, "sekiro.exe"@)),
        (game_dir is Some && !script_exists && !exe_exists) ==> (res matches Err(e) && e@ == "Neither sekiro.sh nor sekiro.exe found in: "@ + game_dir->0@),
{
    match game_dir {
        None => Err(String::from_str("Could not find Sekiro game directory. Make sure Sekiro is installed via Steam.")),
        Some(d) => {
            let (script, exe) = game_launchers(d.as_str());
            if script_exists {
                Ok(script)
            } else if exe_exists {
                Ok(exe)
            } else {
                Err(join2("Neither sekiro.sh nor sekiro.exe found in: ", d.as_str()))
            }
        },
    }
}

/// The Proton build directory that holds the wine binary `wine`
/// (`.../GE-Proton10-26/files/bin/wine` gives `.../GE-Proton10-26`).
pub open spec fn proton_dir_of_wine(wine: Seq<char>) -> Option<Seq<char>> {
    match parent_of(wine) {
        Some(a) => grandparent_of(a),
        None => None,
    }
}

/// The command that starts the game directly with Proton, bypassing
/// Steam: `{proton_dir}/proton run {game_exe}` in the game directory, with
/// the prefix, the compatibility data path (the prefix's parent), the
/// Proton directory, the Steam client path and Sekiro's app id in the
/// environment. It fails when there is no wine binary, when the Proton
/// directory cannot be derived from it, or when the prefix has no parent.
pub fn plan_bypass(game_dir: &str, game_exe: &str, wine_bin: Option<String>, prefix: &str, steam_client: &str) -> (res: Result<LaunchCommand, String>)
    ensures
        wine_bin is None ==> (res matches Err(e) && e@ == no_wine_message()),
        (wine_bin is Some && proton_dir_of_wine(wine_bin->0@) is None) ==> (res matches Err(e) && e@ == "Could not determine Proton directory"@),
        (wine_bin is Some && proton_dir_of_wine(wine_bin->0@) is Some && parent_of(prefix@) is None) ==> (res matches Err(e) && e@ == "Could not determine compat data path from prefix"@),
        (wine_bin is Some && proton_dir_of_wine(wine_bin->0@) is Some && parent_of(prefix@) is Some) ==> (res matches Ok(c) && {
            let pd = proton_dir_of_wine(wine_bin->0@)->0;
            &&& c.program@ == join_path(pd, "proton"@)
            &&& c.args@.len() == 2 && c.args@[0]@ == "run"@ && c.args@[1]@ == game_exe@
            &&& c.current_dir matches Some(d) && d@ == game_dir@
            &&& c.env@.len() == 6
            &&& c.env@[0].0@ == "WINEPREFIX"@ && c.env@[0].1@ == prefix@
            &&& c.env@[1].0@ == "STEAM_COMPAT_DATA_PATH"@ && c.env@[1].1@ == parent_of(prefix@)->0
            &&& c.env@[2].0@ == "STEAM_COMPAT_TOOL_PATH"@ && c.env@[2].1@ == pd
            &&& c.env@[3].0@ == "STEAM_COMPAT_CLIENT_INSTALL_PATH"@ && c.env@[3].1@ == steam_client@
            &&& c.env@[4].0@ == "SteamAppId"@ && c.env@[4].1@ == "814380"@
            &&& c.env@[5].0@ == "SteamGameId"@ && c.env@[5].1@ == "814380"@
        }),
{
    let wine = match wine_bin {
        None => {
            return Err(String::from_str("Could not find GE-Proton wine binary"));
        },
        Some(w) => w,
    };
    let pd = match parent(wine.as_str()) {
        Some(a) => match parent(a.as_str()) {
            Some(b) => parent(b.as_str()),
            None => None,
        },
        None => None,
    };
    let pd = match pd {
        None => {
            return Err(String::from_str("Could not determine Proton directory"));
        },
        Some(p) => p,
    };
    let compat = match parent(prefix) {
        None => {
            return Err(String::from_str("Could not determine compat data path from prefix"));
        },
        Some(c) => c,
    };
    let program = join(pd.as_str(), "proton");
    let mut args: Vec<String> = Vec::new();
    args.push(String::from_str("run"));
    args.push(String::from_str(game_exe));
    let mut env: Vec<(String, String)> = Vec::new();
    env.push((String::from_str("WINEPREFIX"), String::from_str(prefix)));
    env.push((String::from_str("STEAM_COMPAT_DATA_PATH"), compat));
    env.push((String::from_str("STEAM_COMPAT_TOOL_PATH"), pd));
    env.push((String::from_str("STEAM_COMPAT_CLIENT_INSTALL_PATH"), String::from_str(steam_client)));
    env.push((String::from_str("SteamAppId"), String::from_str("814380")));
    env.push((String::from_str("SteamGameId"), String::from_str("814380")));
    Ok(LaunchCommand { program, args, env, current_dir: Some(String::from_str(game_dir)) })
}

/// `pgrep -f` found a running process: it succeeded and printed something.
pub fn pgrep_found(stdout: &str, success: bool) -> (b: bool)
    ensures
        b == (trim(stdout@).len() > 0 && success),
{
    let cs = chars_of(stdout);
    !is_blank(&cs) && success
}

/// The error when `xdg-open steam://rungameid/814380` failed.
pub fn steam_launch_error(stderr: &str) -> (res: String)
    ensures
        res@ == "Failed to launch Sekiro via steam:// protocol: "@ + stderr@,
{
    join2("Failed to launch Sekiro via steam:// protocol: ", stderr)
}

/// What the tool-launching loop does next.
#[derive(Debug)]
pub enum ToolLaunchAction {
    /// Ask `pgrep -f` whether a process with this name runs.
    CheckRunning(String),
    /// Start the tool at this path and report the outcome.
    Launch(String),
    /// Every tool was dealt with.
    Done,
}

/// Launching the selected tools one after the other, skipping those whose
/// executable already runs.
pub struct ToolLaunches {
    tools: Vec<String>,
    index: usize,
    checking: bool,
    launching: bool,
    results: Vec<(String, Result<(), String>)>,
    skipped: Ghost<Seq<bool>>,
}

impl ToolLaunches {
    /// The paths of the tools to launch, in order.
    pub closed spec fn tools(&self) -> Seq<Seq<char>> {
        strings_view(self.tools@)
    }

    /// The outcome per tool dealt with so far: its name and whether it
    /// started (a tool that already ran counts as started).
    pub closed spec fn results(&self) -> Seq<(String, Result<(), String>)> {
        self.results@
    }

    /// Per tool dealt with, whether it was skipped because it already ran.
    pub closed spec fn skipped(&self) -> Seq<bool> {
        self.skipped@
    }

    /// How many tools have been dealt with.
    pub closed spec fn index(&self) -> nat {
        self.index as nat
    }

    /// Waiting for the answer whether the current tool runs.
    pub closed spec fn checking(&self) -> bool {
        self.checking
    }

    /// Waiting for the outcome of launching the current tool.
    pub closed spec fn launching(&self) -> bool {
        self.launching
    }

    /// One result per tool dealt with, each under that tool's name.
    pub open spec fn wf(&self) -> bool {
        &&& self.index() <= self.tools().len()
        &&& self.results().len() == self.index()
        &&& forall|j: int| 0 <= j < self.results().len() ==> (#[trigger] self.results()[j]).0@ == tool_name_of(self.tools()[j])
        &&& (self.checking() || self.launching()) ==> self.index() < self.tools().len()
        &&& !(self.checking() && self.launching())
        &&& self.skipped().len() == self.index()
        &&& forall|j: int| 0 <= j < self.skipped().len() && #[trigger] self.skipped()[j] ==> self.results()[j].1 is Ok
    }

    /// Asks for the next step, or `Done`.
    fn advance(&mut self) -> (res: ToolLaunchAction)
        requires
            old(self).wf(),
            !old(self).checking(),
            !old(self).launching(),
        ensures
            final(self).wf(),
            final(self).tools() == old(self).tools(),
            final(self).results() == old(self).results(),
            final(self).skipped() == old(self).skipped(),
            old(self).index() == old(self).tools().len() ==> res is Done && !final(self).checking(),
            old(self).index() < old(self).tools().len() ==> final(self).checking() && (res matches ToolLaunchAction::CheckRunning(n) && n@ == tool_name_of(old(self).tools()[old(self).index() as int])),
    {
        if self.index == self.tools.len() {
            return ToolLaunchAction::Done;
        }
        self.checking = true;
        assert(strings_view(self.tools@)[self.index as int] == self.tools@[self.index as int]@);
        ToolLaunchAction::CheckRunning(tool_display_name(self.tools[self.index].as_str()))
    }
}

/// Starts launching the tools at `tools`, in order; the first action.
pub fn launch_tools(tools: Vec<String>) -> (res: (ToolLaunches, ToolLaunchAction))
    ensures
        res.0.wf(),
        res.0.tools() == strings_view(tools@),
        res.0.results().len() == 0,
        res.0.skipped().len() == 0,
        tools@.len() == 0 ==> res.1 is Done,
        tools@.len() > 0 ==> (res.1 matches ToolLaunchAction::CheckRunning(n) && n@ == tool_name_of(tools@[0]@)),
{
    let mut run = ToolLaunches {
        tools,
        index: 0,
        checking: false,
        launching: false,
        results: Vec::new(),
        skipped: Ghost(Seq::empty()),
    };
    let a = run.advance();
    (run, a)
}

impl ToolLaunches {
    /// Takes the answer of `pgrep`: a running tool is recorded as started
    /// and skipped, another is launched.
    pub fn on_running(&mut self, running: bool) -> (res: ToolLaunchAction)
        requires
            old(self).wf(),
            old(self).checking(),
        ensures
            final(self).wf(),
            final(self).tools() == old(self).tools(),
            running ==> final(self).results().drop_last() == old(self).results() && final(self).results().last().1 is Ok && final(self).index() == old(self).index() + 1,
            running ==> final(self).skipped() == old(self).skipped().push(true),
            !running ==> final(self).skipped() == old(self).skipped(),
            !running ==> final(self).results() == old(self).results() && final(self).launching() && (res matches ToolLaunchAction::Launch(p) && p@ == old(self).tools()[old(self).index() as int]),
            running ==> final(self).index() == final(self).tools().len() ==> res is Done,
            running ==> final(self).index() < final(self).tools().len() ==> final(self).checking() && (
            res matches ToolLaunchAction::CheckRunning(n) && n@ == tool_name_of(
                final(self).tools()[final(self).index() as int],
            )),
    {
        self.checking = false;
        let n = self.tools.len();
        assert(self.index < n);
        assert(strings_view(self.tools@)[self.index as int] == self.tools@[self.index as int]@);
        if running {
            let name = tool_display_name(self.tools[self.index].as_str());
            let ghost before = self.results@;
            self.results.push((name, Ok(())));
            assert(self.results@.drop_last() =~= before);
            self.skipped = Ghost(self.skipped@.push(true));
            self.index = self.index + 1;
            self.advance()
        } else {
            self.launching = true;
            ToolLaunchAction::Launch(self.tools[self.index].clone())
        }
    }

    /// Takes the outcome of launching the current tool and records it.
    pub fn on_launched(&mut self, outcome: Result<(), String>) -> (res: ToolLaunchAction)
        requires
            old(self).wf(),
            old(self).launching(),
        ensures
            final(self).wf(),
            final(self).tools() == old(self).tools(),
            final(self).results().drop_last() == old(self).results(),
            final(self).results().last().1 == outcome,
            final(self).skipped() == old(self).skipped().push(false),
            final(self).index() == old(self).index() + 1,
            final(self).index() == final(self).tools().len() ==> res is Done,
            final(self).index() < final(self).tools().len() ==> final(self).checking() && (
            res matches ToolLaunchAction::CheckRunning(n) && n@ == tool_name_of(
                final(self).tools()[final(self).index() as int],
            )),
    {
        self.launching = false;
        let n = self.tools.len();
        assert(self.index < n);
        assert(strings_view(self.tools@)[self.index as int] == self.tools@[self.index as int]@);
        let name = tool_display_name(self.tools[self.index].as_str());
        let ghost before = self.results@;
        self.results.push((name, outcome));
        assert(self.results@.drop_last() =~= before);
        self.skipped = Ghost(self.skipped@.push(false));
        self.index = self.index + 1;
        self.advance()
    }

    /// A run that has dealt with every tool holds one result per tool, in
    /// the order of the tools, each under that tool's name; a tool skipped
    /// because it already ran counts as started, so an error belongs to a
    /// tool that was launched.
    pub proof fn lemma_finished_run_covers_all(&self)
        requires
            self.wf(),
            self.index() == self.tools().len(),
        ensures
            self.results().len() == self.tools().len(),
            forall|j: int|
                0 <= j < self.tools().len() ==> (#[trigger] self.results()[j]).0@ == tool_name_of(
                    self.tools()[j],
                ),
            forall|j: int| 0 <= j < self.tools().len() && (#[trigger] self.results()[j]).1 is Err ==> !self.skipped()[j],
    {
    }

    /// The outcomes so far, one per tool dealt with.
    pub fn into_results(self) -> (res: Vec<(String, Result<(), String>)>)
        ensures
            res@ == self.results(),
    {
        self.results
    }
}

} // verus!
