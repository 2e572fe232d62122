//! Setting up GE-Proton: the release to download, its checksum check, the
//! Steam compatibility tools directory, and the directory chooser and file
//! explorer used to pick or show Proton.
use vstd::prelude::*;
use sha2::Digest;
use crate::paths::{join_path, join};
use crate::text::{
    chars_of, string_of, is_ws, is_whitespace, trim, trim_chars, trim_start, join2, join3, str_eq,
};

verus! {

/// The GE-Proton version that is downloaded.
pub const DEFAULT_PROTON_VERSION: &'static str = "GE-Proton10-26";

/// The GitHub repository that publishes GE-Proton.
pub const DEFAULT_PROTON_REPO: &'static str = "GloriousEggroll/proton-ge-custom";

/// The release tag that is downloaded.
pub const DEFAULT_PROTON_TAG: &'static str = "GE-Proton10-26";

/// The Steam compatibility tools directory below `home`.
pub open spec fn compatibility_dir_of(home: Seq<char>) -> Seq<char> {
    join_path(home, ".steam/steam/compatibilitytools.d"@)
}

/// The Steam compatibility tools directory (`~/.steam/steam/compatibilitytools.d`).
pub fn proton_compatibility_dir(home: &str) -> (res: String)
    ensures
        res@ == compatibility_dir_of(home@),
{
    join(home, ".steam/steam/compatibilitytools.d")
}

/// The GitHub API address of the release that is downloaded.
pub open spec fn release_info_url_of() -> Seq<char> {
    "https://api.github.com/repos/GloriousEggroll/proton-ge-custom/GE-Proton10-26/releases/tags/GE-Proton10-26"@
}

/// The GitHub API address of the release that is downloaded: the
/// repository, the version and the tag put into the releases-by-tag path.
pub fn release_info_url() -> (res: String)
    ensures
        res@ == release_info_url_of(),
{
    let s = join3("https://api.github.com/repos/", "GloriousEggroll/proton-ge-custom", "/");
    let s = s.concat("GE-Proton10-26");
    let s = s.concat("/releases/tags/");
    let s = s.concat("GE-Proton10-26");
    proof {
        reveal_strlit("https://api.github.com/repos/");
        reveal_strlit("GloriousEggroll/proton-ge-custom");
        reveal_strlit("/");
        reveal_strlit("GE-Proton10-26");
        reveal_strlit("/releases/tags/");
        reveal_strlit("https://api.github.com/repos/GloriousEggroll/proton-ge-custom/GE-Proton10-26/releases/tags/GE-Proton10-26");
    }
    assert(s@ =~= release_info_url_of());
    s
}

/// The file name the tarball is saved under.
pub fn tarball_name() -> (res: String)
    ensures
        res@ == "GE-Proton10-26.tar.gz"@,
{
    proof {
        reveal_strlit("GE-Proton10-26");
        reveal_strlit(".tar.gz");
        reveal_strlit("GE-Proton10-26.tar.gz");
    }
    let r = join2("GE-Proton10-26", ".tar.gz");
    assert(r@ =~= "GE-Proton10-26.tar.gz"@);
    r
}

/// The file name the checksum is saved under.
pub fn checksum_name() -> (res: String)
    ensures
        res@ == "GE-Proton10-26.sha512sum"@,
{
    proof {
        reveal_strlit("GE-Proton10-26");
        reveal_strlit(".sha512sum");
        reveal_strlit("GE-Proton10-26.sha512sum");
    }
    let r = join2("GE-Proton10-26", ".sha512sum");
    assert(r@ =~= "GE-Proton10-26.sha512sum"@);
    r
}

/// A release asset as the release JSON gives it: its `name` and its
/// `browser_download_url`, each `None` when it is not a string.
pub type ReleaseAsset = (Option<String>, Option<String>);

/// The download address of the first asset whose name ends in `suffix` and
/// that has an address.
pub open spec fn asset_url_in(assets: Seq<ReleaseAsset>, suffix: Seq<char>) -> Option<Seq<char>>
    decreases assets.len(),
{
    if assets.len() == 0 {
        None
    } else {
        match assets[0] {
            (Some(n), Some(u)) if suffix.is_suffix_of(n@) => Some(u@),
            _ => asset_url_in(assets.drop_first(), suffix),
        }
    }
}

/// The download address of the first asset named `*suffix`.
pub fn find_asset_url(assets: &Vec<ReleaseAsset>, suffix: &str) -> (res: Option<String>)
    ensures
        match res {
            Some(u) => asset_url_in(assets@, suffix@) == Some(u@),
            None => asset_url_in(assets@, suffix@) is None,
        },
{
    let suf = chars_of(suffix);
    let ghost all = assets@;
    assert(all.subrange(0, all.len() as int) =~= all);
    let mut i: usize = 0;
    while i < assets.len()
        invariant
            i <= assets@.len(),
            all == assets@,
            suf@ == suffix@,
            asset_url_in(all, suffix@) == asset_url_in(all.subrange(i as int, all.len() as int), suffix@),
        decreases assets.len() - i,
    {
        let ghost rest = all.subrange(i as int, all.len() as int);
        assert(rest.drop_first() =~= all.subrange(i + 1, all.len() as int));
        assert(rest[0] == assets@[i as int]);
        match &assets[i] {
            (Some(n), Some(u)) => {
                let ncs = chars_of(n.as_str());
                if crate::text::ends_with(&ncs, &suf) {
                    return Some(u.clone());
                }
            },
            _ => {},
        }
        i = i + 1;
    }
    None
}

/// The tarball's and the checksum's download addresses from the release's
/// assets (`None` when the release JSON has no asset array).
pub fn release_urls(assets: Option<Vec<ReleaseAsset>>) -> (res: Result<(String, String), String>)
    ensures
        assets is None ==> (res matches Err(e) && e@ == "No assets in release"@),
        assets matches Some(a) ==> match (asset_url_in(a@, ".tar.gz"@), asset_url_in(a@, ".sha512sum"@)) {
            (None, _) => res matches Err(e) && e@ == "No tar.gz asset found in release"@,
            (Some(_), None) => res matches Err(e) && e@ == "No checksum file found in release"@,
            (Some(t), Some(c)) => res matches Ok(p) && p.0@ == t && p.1@ == c,
        },
{
    match assets {
        None => Err(String::from_str("No assets in release")),
        Some(a) => {
            let tarball = match find_asset_url(&a, ".tar.gz") {
                Some(u) => u,
                None => {
                    return Err(String::from_str("No tar.gz asset found in release"));
                },
            };
            match find_asset_url(&a, ".sha512sum") {
                Some(c) => Ok((tarball, c)),
                None => Err(String::from_str("No checksum file found in release")),
            }
        },
    }
}

/// What SHA-512 gives for `data`: 64 bytes.
pub uninterp spec fn sha512(data: Seq<u8>) -> Seq<u8>;

/// The SHA-512 digest of `data`, computed by the `sha2` crate
/// (`Sha512::digest`); the contract names the digest and states its length.
#[verifier::external_body]
fn sha512_digest(data: &[u8]) -> (res: Vec<u8>)
    ensures
        res@ == sha512(data@),
        res@.len() == 64,
{
    sha2::Sha512::digest(data).to_vec()
}

/// The lower-case hexadecimal digit for `d` (below 16).
pub open spec fn hex_digit(d: u8) -> char {
    if d < 10 {
        (('0' as u8) + d) as char
    } else {
        (('a' as u8) + d - 10) as char
    }
}

/// `bytes` in lower-case hexadecimal, two digits per byte, as `{:x}` writes
/// a digest.
pub open spec fn hex_of(bytes: Seq<u8>) -> Seq<char>
    decreases bytes.len(),
{
    if bytes.len() == 0 {
        Seq::empty()
    } else {
        hex_of(bytes.drop_last()).push(hex_digit(bytes.last() / 16)).push(hex_digit(bytes.last() % 16))
    }
}

fn hex_char(d: u8) -> (c: char)
    requires
        d < 16,
    ensures
        c == hex_digit(d),
{
    if d < 10 {
        ((('0' as u8) + d) as char)
    } else {
        ((('a' as u8) + d - 10) as char)
    }
}

/// `bytes` in lower-case hexadecimal.
pub fn hex_lower(bytes: &Vec<u8>) -> (res: String)
    ensures
        res@ == hex_of(bytes@),
{
    let mut out: Vec<char> = Vec::new();
    let mut i: usize = 0;
    while i < bytes.len()
        invariant
            i <= bytes@.len(),
            out@ == hex_of(bytes@.take(i as int)),
        decreases bytes.len() - i,
    {
        assert(bytes@.take(i + 1).drop_last() =~= bytes@.take(i as int));
        let b = bytes[i];
        out.push(hex_char(b / 16));
        out.push(hex_char(b % 16));
        i = i + 1;
    }
    assert(bytes@.take(bytes@.len() as int) =~= bytes@);
    string_of(out.as_slice())
}

/// The position of the first whitespace character in `s`, or its length.
pub open spec fn first_ws(s: Seq<char>) -> int
    decreases s.len(),
{
    if s.len() == 0 {
        0
    } else if is_ws(s[0]) {
        0
    } else {
        1 + first_ws(s.drop_first())
    }
}

/// The first whitespace-separated word of `s`, as
/// `split_whitespace().next()` gives it.
pub open spec fn first_word(s: Seq<char>) -> Option<Seq<char>> {
    let t = trim_start(s);
    if t.len() == 0 {
        None
    } else {
        Some(t.take(first_ws(t)))
    }
}

proof fn lemma_first_ws_bounds(s: Seq<char>)
    ensures
        0 <= first_ws(s) <= s.len(),
        forall|j: int| 0 <= j < first_ws(s) ==> !is_ws(#[trigger] s[j]),
        first_ws(s) < s.len() ==> is_ws(s[first_ws(s)]),
    decreases s.len(),
{
    if s.len() > 0 && !is_ws(s[0]) {
        lemma_first_ws_bounds(s.drop_first());
        assert forall|j: int| 0 <= j < first_ws(s) implies !is_ws(#[trigger] s[j]) by {
            if j > 0 {
                assert(s[j] == s.drop_first()[j - 1]);
            }
        }
    }
}

/// The first whitespace-separated word of `s`.
pub fn first_word_of(s: &str) -> (res: Option<String>)
    ensures
        match res {
            Some(w) => first_word(s@) == Some(w@),
            None => first_word(s@) is None,
        },
{
    let cs = chars_of(s);
    let n = cs.len();
    let mut i: usize = 0;
    assert(cs@.skip(0) =~= cs@);
    while i < n && is_whitespace(cs[i])
        invariant
            i <= n,
            n == cs@.len(),
            trim_start(cs@) == trim_start(cs@.skip(i as int)),
        decreases n - i,
    {
        assert(cs@.skip(i as int).drop_first() =~= cs@.skip(i + 1));
        i = i + 1;
    }
    let ghost t = cs@.skip(i as int);
    assert(trim_start(t) == t) by {
        if t.len() > 0 {
            assert(t[0] == cs@[i as int]);
        }
    }
    if i == n {
        return None;
    }
    let mut j: usize = i;
    while j < n && !is_whitespace(cs[j])
        invariant
            i <= j <= n,
            n == cs@.len(),
            t == cs@.skip(i as int),
            forall|k: int| i <= k < j ==> !is_ws(#[trigger] cs@[k]),
        decreases n - j,
    {
        j = j + 1;
    }
    proof {
        lemma_first_ws_bounds(t);
        let f = first_ws(t);
        assert(f == (j - i) as int) by {
            if f < (j - i) as int {
                assert(t[f] == cs@[i + f]);
            } else if f > (j - i) as int {
                assert(t[(j - i) as int] == cs@[j as int]);
            }
        }
    }
    let w = crate::text::slice_chars(&cs, i, j);
    assert(w@ =~= t.take((j - i) as int));
    Some(string_of(w.as_slice()))
}

/// Checks the downloaded tarball `tarball` against the content of its
/// `.sha512sum` file: the file's first word must be the tarball's SHA-512
/// in lower-case hexadecimal.
pub fn verify_checksum(tarball: &[u8], checksum_content: &str) -> (res: Result<(), String>)
    ensures
        first_word(checksum_content@) is None ==> (res matches Err(e) && e@ == "Invalid checksum file format"@),
        first_word(checksum_content@) matches Some(w) ==> (res is Ok <==> w == hex_of(sha512(tarball@))),
        (first_word(checksum_content@) is Some && first_word(checksum_content@)->0 != hex_of(sha512(tarball@))) ==> (
        res matches Err(e) && e@ == "Checksum mismatch!\nExpected: "@ + first_word(checksum_content@)->0
            + "\nActual:   "@ + hex_of(sha512(tarball@))),
{
    let expected = match first_word_of(checksum_content) {
        None => {
            return Err(String::from_str("Invalid checksum file format"));
        },
        Some(w) => w,
    };
    let digest = sha512_digest(tarball);
    let actual = hex_lower(&digest);
    if !str_eq(actual.as_str(), expected.as_str()) {
        let m = join3("Checksum mismatch!\nExpected: ", expected.as_str(), "\nActual:   ");
        return Err(m.concat(actual.as_str()));
    }
    Ok(())
}

/// `path` as `{:?}` writes a path: in double quotes, with `\`, `"`, tab,
/// carriage return, line feed and NUL escaped.
pub open spec fn quoted(path: Seq<char>) -> Seq<char> {
    seq!['"'] + escaped(path) + seq!['"']
}

/// How `{:?}` writes the character `c` inside a quoted path.
pub open spec fn escape_char(c: char) -> Seq<char> {
    if c == '\\' {
        seq!['\\', '\\']
    } else if c == '"' {
        seq!['\\', '"']
    } else if c == '\t' {
        seq!['\\', 't']
    } else if c == '\r' {
        seq!['\\', 'r']
    } else if c == '\n' {
        seq!['\\', 'n']
    } else if c == '\0' {
        seq!['\\', '0']
    } else {
        seq![c]
    }
}

/// `s` with each character escaped as `{:?}` does.
pub open spec fn escaped(s: Seq<char>) -> Seq<char>
    decreases s.len(),
{
    if s.len() == 0 {
        Seq::empty()
    } else {
        escaped(s.drop_last()) + escape_char(s.last())
    }
}

/// `path` in double quotes with escapes.
pub fn quote_path(path: &str) -> (res: String)
    ensures
        res@ == quoted(path@),
{
    let cs = chars_of(path);
    let mut out: Vec<char> = Vec::new();
    out.push('"');
    let mut i: usize = 0;
    while i < cs.len()
        invariant
            i <= cs@.len(),
            out@ == seq!['"'] + escaped(cs@.take(i as int)),
        decreases cs.len() - i,
    {
        assert(cs@.take(i + 1).drop_last() =~= cs@.take(i as int));
        let c = cs[i];
        let ghost before = out@;
        if c == '\\' {
            out.push('\\');
            out.push('\\');
        } else if c == '"' {
            out.push('\\');
            out.push('"');
        } else if c == '\t' {
            out.push('\\');
            out.push('t');
        } else if c == '\r' {
            out.push('\\');
            out.push('r');
        } else if c == '\n' {
            out.push('\\');
            out.push('n');
        } else if c == '\0' {
            out.push('\\');
            out.push('0');
        } else {
            out.push(c);
        }
        assert(out@ =~= before + escape_char(c));
        assert(out@ =~= seq!['"'] + escaped(cs@.take(i + 1)));
        i = i + 1;
    }
    assert(cs@.take(cs@.len() as int) =~= cs@);
    let ghost before = out@;
    out.push('"');
    assert(out@ =~= quoted(path@));
    string_of(out.as_slice())
}

/// A Proton installation holds a `proton` or a `protontricks` binary;
/// `proton_exists` and `protontricks_exists` say whether
/// `path/proton` and `path/protontricks` exist.
pub fn verify_proton_installation(path: &str, proton_exists: bool, protontricks_exists: bool) -> (res: Result<(), String>)
    ensures
        (proton_exists || protontricks_exists) ==> res is Ok,
        !(proton_exists || protontricks_exists) ==> (res matches Err(e) && e@ == "Invalid Proton installation at "@ + quoted(path@) + ": missing proton binary"@),
{
    if !proton_exists && !protontricks_exists {
        let q = quote_path(path);
        return Err(join3("Invalid Proton installation at ", q.as_str(), ": missing proton binary"));
    }
    Ok(())
}

/// The binaries whose presence makes `path` a Proton installation.
pub fn proton_binaries(path: &str) -> (res: (String, String))
    ensures
        res.0@ == join_path(path@, "proton"@),
        res.1@ == join_path(path@, "protontricks"@),
{
    (join(path, "proton"), join(path, "protontricks"))
}

/// A directory chooser dialog to show.
#[derive(Debug)]
pub struct DirectoryDialog {
    pub title: String,
    pub initial_path: Option<String>,
}

/// The arguments for `zenity` for `dialog`; `initial_exists` says whether
/// its initial path exists.
pub fn zenity_args(dialog: &DirectoryDialog, initial_exists: bool) -> (res: Vec<String>)
    ensures
        res@.len() >= 2,
        res@[0]@ == "--file-selection"@,
        res@[1]@ == "--directory"@,
        res@.len() == 2 + (if dialog.title@.len() > 0 { 2int } else { 0int }) + (if dialog.initial_path is Some && initial_exists { 2int } else { 0int }),
        dialog.title@.len() > 0 ==> res@[2]@ == "--title"@ && res@[3]@ == dialog.title@,
        (dialog.initial_path is Some && initial_exists) ==> res@[res@.len() - 2]@ == "--filename"@ && res@[res@.len() - 1]@ == dialog.initial_path->0@,
{
    let mut v: Vec<String> = Vec::new();
    v.push(String::from_str("--file-selection"));
    v.push(String::from_str("--directory"));
    if dialog.title.as_str().unicode_len() > 0 {
        v.push(String::from_str("--title"));
        v.push(dialog.title.clone());
    }
    match &dialog.initial_path {
        Some(p) => {
            if initial_exists {
                v.push(String::from_str("--filename"));
                v.push(p.clone());
            }
        },
        None => {},
    }
    v
}

/// The dialog that asks for a directory with `title`, starting at
/// `initial_path`.
pub fn choose_directory(title: &str, initial_path: Option<String>) -> (res: DirectoryDialog)
    ensures
        res.title@ == title@,
        res.initial_path == initial_path,
{
    DirectoryDialog { title: String::from_str(title), initial_path }
}

/// The dialog that asks for the Proton installation.
pub fn choose_proton_directory() -> (res: DirectoryDialog)
    ensures
        res.title@ == "Select Proton Installation"@,
        res.initial_path is None,
{
    choose_directory("Select Proton Installation", None)
}

/// How running a helper program ended.
pub enum ProgramRun {
    /// It could not be started; `not_found` when it is not on `PATH`.
    NotStarted { not_found: bool, detail: String },
    /// It ran and exited.
    Exited { success: bool, code: Option<i32>, stdout: String, stderr: String },
}

/// What the directory chooser gave: the chosen path, trimmed, which the
/// caller still checks is a directory; or the reason there is none.
pub fn zenity_reply(run: ProgramRun) -> (res: Result<String, String>)
    ensures
        match run {
            ProgramRun::NotStarted { not_found, detail } => res matches Err(e) && if not_found {
                e@ == "zenity not found. Please install zenity or choose the directory manually."@
            } else {
                e@ == "Failed to launch zenity: "@ + detail@
            },
            ProgramRun::Exited { success, code, stdout, stderr } => if !success {
                res matches Err(e) && if code == Some(1i32) {
                    e@ == "Cancelled"@
                } else {
                    e@ == "zenity exited with error: "@ + stderr@
                }
            } else if trim(stdout@).len() == 0 {
                res matches Err(e) && e@ == "No path selected"@
            } else {
                res matches Ok(p) && p@ == trim(stdout@)
            },
        },
{
    match run {
        ProgramRun::NotStarted { not_found, detail } => {
            if not_found {
                Err(String::from_str("zenity not found. Please install zenity or choose the directory manually."))
            } else {
                Err(join2("Failed to launch zenity: ", detail.as_str()))
            }
        },
        ProgramRun::Exited { success, code, stdout, stderr } => {
            if !success {
                let cancelled = match code {
                    Some(c) => c == 1,
                    None => false,
                };
                if cancelled {
                    return Err(String::from_str("Cancelled"));
                }
                return Err(join2("zenity exited with error: ", stderr.as_str()));
            }
            let cs = chars_of(stdout.as_str());
            let t = trim_chars(&cs);
            if t.len() == 0 {
                return Err(String::from_str("No path selected"));
            }
            Ok(string_of(t.as_slice()))
        },
    }
}

/// The chosen path is kept only when it is a directory.
pub fn chosen_directory(path: String, is_dir: bool) -> (res: Result<String, String>)
    ensures
        is_dir ==> res == Ok::<String, String>(path),
        !is_dir ==> (res matches Err(e) && e@ == "Selected path is not a directory: "@ + quoted(path@)),
{
    if !is_dir {
        let q = quote_path(path.as_str());
        return Err(join2("Selected path is not a directory: ", q.as_str()));
    }
    Ok(path)
}

/// The tools directory inside the game prefix, `drive_c/tools`, where the
/// tools are installed.
pub fn tools_directory(game_prefix: &str) -> (res: String)
    ensures
        res@ == join_path(join_path(game_prefix@, "drive_c"@), "tools"@),
{
    let c = join(game_prefix, "drive_c");
    join(c.as_str(), "tools")
}

/// What opening the tools directory in the file explorer came to.
pub fn open_tools_directory(tools_dir: &str, exists: bool, run: Option<ProgramRun>) -> (res: Result<(), String>)
    requires
        exists ==> run is Some,
    ensures
        !exists ==> (res matches Err(e) && e@ == "Tools directory does not exist yet: "@ + quoted(tools_dir@)),
        exists ==> match run->0 {
            ProgramRun::Exited { success, stderr, .. } => if success {
                res is Ok
            } else {
                res matches Err(e) && e@ == "Failed to open tools directory: "@ + stderr@
            },
            ProgramRun::NotStarted { not_found, detail } => res matches Err(e) && if not_found {
                e@ == "Failed to open file explorer: xdg-open not found. Please navigate to {}/tools manually"@
            } else {
                e@ == "Failed to open file explorer: "@ + detail@
            },
        },
{
    if !exists {
        let q = quote_path(tools_dir);
        return Err(join2("Tools directory does not exist yet: ", q.as_str()));
    }
    match run {
        Some(ProgramRun::Exited { success, stderr, .. }) => {
            if success {
                Ok(())
            } else {
                Err(join2("Failed to open tools directory: ", stderr.as_str()))
            }
        },
        Some(ProgramRun::NotStarted { not_found, detail }) => {
            if not_found {
                Err(String::from_str("Failed to open file explorer: xdg-open not found. Please navigate to {}/tools manually"))
            } else {
                Err(join2("Failed to open file explorer: ", detail.as_str()))
            }
        },
        None => Ok(()),
    }
}

/// What opening the compatibility tools directory in the file explorer came
/// to.
pub fn open_proton_directory(run: ProgramRun) -> (res: Result<(), String>)
    ensures
        match run {
            ProgramRun::Exited { success, stderr, .. } => if success {
                res is Ok
            } else {
                res matches Err(e) && e@ == "Failed to open file explorer: "@ + stderr@
            },
            ProgramRun::NotStarted { not_found, detail } => res matches Err(e) && if not_found {
                e@ == "Failed to open file explorer: xdg-open not found. Please navigate to {}/.steam/steam/compatibilitytools.d/ manually"@
            } else {
                e@ == "Failed to open file explorer: "@ + detail@
            },
        },
{
    match run {
        ProgramRun::Exited { success, stderr, .. } => {
            if success {
                Ok(())
            } else {
                Err(join2("Failed to open file explorer: ", stderr.as_str()))
            }
        },
        ProgramRun::NotStarted { not_found, detail } => {
            if not_found {
                Err(String::from_str("Failed to open file explorer: xdg-open not found. Please navigate to {}/.steam/steam/compatibilitytools.d/ manually"))
            } else {
                Err(join2("Failed to open file explorer: ", detail.as_str()))
            }
        },
    }
}

/// The error when the extracted Proton directory is missing.
pub fn extraction_missing_error(extracted_dir: &str) -> (res: String)
    ensures
        res@ == "Extraction failed: expected directory not found at "@ + quoted(extracted_dir@),
{
    let q = quote_path(extracted_dir);
    join2("Extraction failed: expected directory not found at ", q.as_str())
}

} // verus!
