//! Installing tools into the game's Wine prefix: where they go, which of the
//! files found there is the tool's executable, which downloads are archives,
//! and the retry and fallback rules of the installation steps.
use vstd::prelude::*;
use crate::config::strings_view;
use crate::manifest::ToolEntry;
use crate::paths::{join_path, extension_of, join, extension, file_stem_of, parent_of, file_stem, parent};
use crate::text::{split_on, split_chars, eq_ignore_case, eq_ignore_ascii_case, chars_of, str_eq, ends_with, join2, join3};

verus! {

/// Where a tool is installed: `{prefix}/drive_c/tools/{slug}`, which Wine
/// shows as `C:\tools\{slug}`.
pub open spec fn install_dir_of(slug: Seq<char>, prefix: Seq<char>) -> Seq<char> {
    join_path(join_path(join_path(prefix, "drive_c"@), "tools"@), slug)
}

/// The installation directory of `tool` inside the prefix `prefix_path`.
pub fn tool_install_dir(tool: &ToolEntry, prefix_path: &str) -> (res: String)
    ensures
        res@ == install_dir_of(tool.slug@, prefix_path@),
{
    let a = join(prefix_path, "drive_c");
    let b = join(a.as_str(), "tools");
    join(b.as_str(), tool.slug.as_str())
}

/// The outcome of setting up one tool.
#[derive(Debug)]
pub struct ToolSetupResult {
    pub slug: String,
    pub name: String,
    pub success: bool,
    pub error: Option<String>,
}

impl Clone for ToolSetupResult {
    fn clone(&self) -> (res: Self)
        ensures
            res == *self,
    {
        ToolSetupResult {
            slug: self.slug.clone(),
            name: self.name.clone(),
            success: self.success,
            error: match &self.error {
                Some(e) => Some(e.clone()),
                None => None,
            },
        }
    }
}

impl ToolSetupResult {
    /// `tool` was installed.
    pub fn succeeded(tool: &ToolEntry) -> (res: Self)
        ensures
            res.slug == tool.slug,
            res.name == tool.name,
            res.success,
            res.error is None,
    {
        ToolSetupResult { slug: tool.slug.clone(), name: tool.name.clone(), success: true, error: None }
    }

    /// `tool` was not installed, for the reason `error`.
    pub fn failed(tool: &ToolEntry, error: String) -> (res: Self)
        ensures
            res.slug == tool.slug,
            res.name == tool.name,
            !res.success,
            res.error == Some(error),
    {
        ToolSetupResult {
            slug: tool.slug.clone(),
            name: tool.name.clone(),
            success: false,
            error: Some(error),
        }
    }

    /// The installation of `tool` was cancelled.
    pub fn cancelled(tool: &ToolEntry) -> (res: Self)
        ensures
            res.slug == tool.slug,
            res.name == tool.name,
            !res.success,
            res.error matches Some(e) && e@ == "Cancelled"@,
    {
        Self::failed(tool, String::from_str("Cancelled"))
    }
}

/// Some component of the relative path `p` is `components`, in any case.
pub open spec fn in_components_dir(p: Seq<char>) -> bool {
    exists|i: int|
        0 <= i < split_on(p, '/').len() && eq_ignore_case(#[trigger] split_on(p, '/')[i], "components"@)
}

/// The first of `rs` whose extension is exactly `ext`, passing over paths
/// inside a `components` directory when `skip_components` holds.
pub open spec fn first_with_ext(rs: Seq<Seq<char>>, ext: Seq<char>, skip_components: bool) -> Option<
    Seq<char>,
>
    decreases rs.len(),
{
    if rs.len() == 0 {
        None
    } else if extension_of(rs[0]) == Some(ext) && !(skip_components && in_components_dir(rs[0])) {
        Some(rs[0])
    } else {
        first_with_ext(rs.drop_first(), ext, skip_components)
    }
}

/// The preferred file with extension `ext`: one outside any `components`
/// directory if there is one, any one otherwise.
pub open spec fn preferred_with_ext(rs: Seq<Seq<char>>, ext: Seq<char>) -> Option<Seq<char>> {
    match first_with_ext(rs, ext, true) {
        Some(p) => Some(p),
        None => first_with_ext(rs, ext, false),
    }
}

/// The tool executable among the relative paths `rs`: `.exe` before `.jar`
/// before `.bat` before `.cmd`, each preferring files outside a
/// `components` directory (those are helper binaries).
pub open spec fn chosen_executable(rs: Seq<Seq<char>>) -> Option<Seq<char>> {
    match preferred_with_ext(rs, "exe"@) {
        Some(p) => Some(p),
        None => match preferred_with_ext(rs, "jar"@) {
            Some(p) => Some(p),
            None => match preferred_with_ext(rs, "bat"@) {
                Some(p) => Some(p),
                None => preferred_with_ext(rs, "cmd"@),
            },
        },
    }
}

/// Whether some component of `p` is `components`, in any case.
pub fn is_in_components_dir(p: &str) -> (b: bool)
    ensures
        b == in_components_dir(p@),
{
    let cs = chars_of(p);
    let parts = split_chars(&cs, '/');
    let target = chars_of("components");
    let mut i: usize = 0;
    while i < parts.len()
        invariant
            i <= parts@.len(),
            parts@.len() == split_on(p@, '/').len(),
            target@ == "components"@,
            forall|k: int| 0 <= k < parts@.len() ==> #[trigger] parts@[k]@ == split_on(p@, '/')[k],
            forall|k: int| 0 <= k < i ==> !eq_ignore_case(#[trigger] split_on(p@, '/')[k], "components"@),
        decreases parts.len() - i,
    {
        if eq_ignore_ascii_case(&parts[i], &target) {
            assert(eq_ignore_case(split_on(p@, '/')[i as int], "components"@));
            return true;
        }
        i = i + 1;
    }
    false
}

/// Whether the extension of `p` is exactly `ext`.
fn has_extension(p: &str, ext: &str) -> (b: bool)
    ensures
        b == (extension_of(p@) == Some(ext@)),
{
    match extension(p) {
        Some(e) => str_eq(e.as_str(), ext),
        None => false,
    }
}

/// The first of `rs` with extension `ext` (outside `components` when
/// `skip_components` holds).
fn find_with_ext(rs: &Vec<String>, ext: &str, skip_components: bool) -> (res: Option<String>)
    ensures
        match res {
            Some(s) => first_with_ext(strings_view(rs@), ext@, skip_components) == Some(s@),
            None => first_with_ext(strings_view(rs@), ext@, skip_components) is None,
        },
{
    let ghost all = strings_view(rs@);
    assert(all.subrange(0, all.len() as int) =~= all);
    let mut i: usize = 0;
    while i < rs.len()
        invariant
            i <= rs@.len(),
            all == strings_view(rs@),
            first_with_ext(all, ext@, skip_components) == first_with_ext(
                all.subrange(i as int, all.len() as int),
                ext@,
                skip_components,
            ),
        decreases rs.len() - i,
    {
        let ghost rest = all.subrange(i as int, all.len() as int);
        assert(rest.drop_first() =~= all.subrange(i + 1, all.len() as int));
        assert(rest[0] == rs@[i as int]@);
        let p = rs[i].as_str();
        if has_extension(p, ext) && !(skip_components && is_in_components_dir(p)) {
            return Some(rs[i].clone());
        }
        i = i + 1;
    }
    assert(all.subrange(i as int, all.len() as int).len() == 0);
    None
}

fn find_preferred(rs: &Vec<String>, ext: &str) -> (res: Option<String>)
    ensures
        match res {
            Some(s) => preferred_with_ext(strings_view(rs@), ext@) == Some(s@),
            None => preferred_with_ext(strings_view(rs@), ext@) is None,
        },
{
    match find_with_ext(rs, ext, true) {
        Some(p) => Some(p),
        None => find_with_ext(rs, ext, false),
    }
}

/// Picks the tool's executable among `found`, the relative paths of the
/// executable files below the tool's directory in the order they were
/// found.
pub fn find_executable(found: &Vec<String>) -> (res: Option<String>)
    ensures
        match res {
            Some(s) => chosen_executable(strings_view(found@)) == Some(s@),
            None => chosen_executable(strings_view(found@)) is None,
        },
{
    match find_preferred(found, "exe") {
        Some(p) => Some(p),
        None => match find_preferred(found, "jar") {
            Some(p) => Some(p),
            None => match find_preferred(found, "bat") {
                Some(p) => Some(p),
                None => find_preferred(found, "cmd"),
            },
        },
    }
}

/// A tool counts as installed when its directory exists and holds an
/// executable; `found` is what the walk of that directory found.
pub fn is_installed(dir_exists: bool, found: &Vec<String>) -> (b: bool)
    ensures
        b == (dir_exists && chosen_executable(strings_view(found@)) is Some),
{
    dir_exists && find_executable(found).is_some()
}

proof fn lemma_first_with_ext_member(rs: Seq<Seq<char>>, ext: Seq<char>, skip: bool)
    ensures
        first_with_ext(rs, ext, skip) matches Some(p) ==> rs.contains(p) && extension_of(p) == Some(ext)
            && !(skip && in_components_dir(p)),
    decreases rs.len(),
{
    if rs.len() > 0 {
        lemma_first_with_ext_member(rs.drop_first(), ext, skip);
        if let Some(p) = first_with_ext(rs.drop_first(), ext, skip) {
            if !(extension_of(rs[0]) == Some(ext) && !(skip && in_components_dir(rs[0]))) {
                let k = choose|k: int| 0 <= k < rs.drop_first().len() && rs.drop_first()[k] == p;
                assert(rs[k + 1] == p);
            }
        }
    }
}

proof fn lemma_first_with_ext_found(rs: Seq<Seq<char>>, ext: Seq<char>, skip: bool, i: int)
    requires
        0 <= i < rs.len(),
        extension_of(rs[i]) == Some(ext),
        !(skip && in_components_dir(rs[i])),
    ensures
        first_with_ext(rs, ext, skip) is Some,
    decreases rs.len(),
{
    if i > 0 && !(extension_of(rs[0]) == Some(ext) && !(skip && in_components_dir(rs[0]))) {
        lemma_first_with_ext_found(rs.drop_first(), ext, skip, i - 1);
    }
}

/// The chosen executable is one of the files found, and has one of the
/// four executable extensions.
pub proof fn lemma_chosen_is_found(rs: Seq<Seq<char>>)
    ensures
        chosen_executable(rs) matches Some(p) ==> rs.contains(p) && (extension_of(p) == Some("exe"@)
            || extension_of(p) == Some("jar"@) || extension_of(p) == Some("bat"@) || extension_of(p)
            == Some("cmd"@)),
{
    lemma_first_with_ext_member(rs, "exe"@, true);
    lemma_first_with_ext_member(rs, "exe"@, false);
    lemma_first_with_ext_member(rs, "jar"@, true);
    lemma_first_with_ext_member(rs, "jar"@, false);
    lemma_first_with_ext_member(rs, "bat"@, true);
    lemma_first_with_ext_member(rs, "bat"@, false);
    lemma_first_with_ext_member(rs, "cmd"@, true);
    lemma_first_with_ext_member(rs, "cmd"@, false);
}

/// An `.exe` outside any `components` directory, when there is one, wins
/// over every other file.
pub proof fn lemma_main_exe_preferred(rs: Seq<Seq<char>>, i: int)
    requires
        0 <= i < rs.len(),
        extension_of(rs[i]) == Some("exe"@),
        !in_components_dir(rs[i]),
    ensures
        chosen_executable(rs) matches Some(p) && extension_of(p) == Some("exe"@) && !in_components_dir(p),
{
    lemma_first_with_ext_found(rs, "exe"@, true, i);
    lemma_first_with_ext_member(rs, "exe"@, true);
}

/// Any file with one of the executable extensions is enough for a choice.
pub proof fn lemma_some_executable_chosen(rs: Seq<Seq<char>>, i: int, ext: Seq<char>)
    requires
        0 <= i < rs.len(),
        extension_of(rs[i]) == Some(ext),
        ext == "exe"@ || ext == "jar"@ || ext == "bat"@ || ext == "cmd"@,
    ensures
        chosen_executable(rs) is Some,
{
    lemma_first_with_ext_found(rs, ext, false, i);
}

/// The rank of a path by its extension, exactly as written: `exe` first,
/// then `jar`, `bat` and `cmd`; every other path ranks last.
pub open spec fn executable_rank(p: Seq<char>) -> int {
    if extension_of(p) == Some("exe"@) {
        0
    } else if extension_of(p) == Some("jar"@) {
        1
    } else if extension_of(p) == Some("bat"@) {
        2
    } else if extension_of(p) == Some("cmd"@) {
        3
    } else {
        4
    }
}

/// The extension that each rank below the last stands for.
pub open spec fn rank_extension(r: int) -> Seq<char> {
    if r == 0 {
        "exe"@
    } else if r == 1 {
        "jar"@
    } else if r == 2 {
        "bat"@
    } else {
        "cmd"@
    }
}

proof fn lemma_first_with_ext_none(rs: Seq<Seq<char>>, ext: Seq<char>, skip: bool)
    requires
        first_with_ext(rs, ext, skip) is None,
    ensures
        forall|i: int|
            0 <= i < rs.len() ==> !(extension_of(#[trigger] rs[i]) == Some(ext) && !(skip
                && in_components_dir(rs[i]))),
{
    assert forall|i: int| 0 <= i < rs.len() implies !(extension_of(#[trigger] rs[i]) == Some(ext) && !(
    skip && in_components_dir(rs[i]))) by {
        if extension_of(rs[i]) == Some(ext) && !(skip && in_components_dir(rs[i])) {
            lemma_first_with_ext_found(rs, ext, skip, i);
        }
    }
}

proof fn lemma_rank_extension(p: Seq<char>, r: int)
    requires
        0 <= r < 4,
    ensures
        (executable_rank(p) == r) == (extension_of(p) == Some(rank_extension(r))),
{
    reveal_strlit("exe");
    reveal_strlit("jar");
    reveal_strlit("bat");
    reveal_strlit("cmd");
    assert("exe"@[0] != "jar"@[0] && "exe"@[0] != "bat"@[0] && "exe"@[0] != "cmd"@[0]);
    assert("jar"@[0] != "bat"@[0] && "jar"@[0] != "cmd"@[0] && "bat"@[0] != "cmd"@[0]);
}

/// What the preferred file of rank `r` says of the others: when there is
/// none, no file has that rank; when it lies in a `components` directory,
/// so does every file of that rank.
proof fn lemma_preferred_of_rank(rs: Seq<Seq<char>>, r: int)
    requires
        0 <= r < 4,
    ensures
        preferred_with_ext(rs, rank_extension(r)) is None ==> forall|i: int|
            0 <= i < rs.len() ==> executable_rank(#[trigger] rs[i]) != r,
        preferred_with_ext(rs, rank_extension(r)) matches Some(p) ==> rs.contains(p)
            && executable_rank(p) == r && (in_components_dir(p) ==> forall|i: int|
            0 <= i < rs.len() && executable_rank(#[trigger] rs[i]) == r ==> in_components_dir(rs[i])),
{
    let e = rank_extension(r);
    lemma_first_with_ext_member(rs, e, true);
    lemma_first_with_ext_member(rs, e, false);
    if let Some(p) = preferred_with_ext(rs, e) {
        lemma_rank_extension(p, r);
        if first_with_ext(rs, e, true) is None {
            lemma_first_with_ext_none(rs, e, true);
            assert forall|i: int|
                0 <= i < rs.len() && executable_rank(#[trigger] rs[i]) == r implies in_components_dir(
                rs[i],
            ) by {
                lemma_rank_extension(rs[i], r);
            }
        }
    } else {
        lemma_first_with_ext_none(rs, e, false);
        assert forall|i: int| 0 <= i < rs.len() implies executable_rank(#[trigger] rs[i]) != r by {
            lemma_rank_extension(rs[i], r);
        }
    }
}

/// The chosen executable is a file found, of the best rank among them
/// (`.exe` before `.jar` before `.bat` before `.cmd`), and it lies in a
/// `components` directory only when every file of that rank does.
pub proof fn lemma_chosen_ranks_first(rs: Seq<Seq<char>>)
    ensures
        chosen_executable(rs) matches Some(p) ==> {
            &&& rs.contains(p)
            &&& executable_rank(p) < 4
            &&& forall|i: int| 0 <= i < rs.len() ==> executable_rank(p) <= executable_rank(#[trigger] rs[i])
            &&& in_components_dir(p) ==> forall|i: int|
                0 <= i < rs.len() && executable_rank(#[trigger] rs[i]) == executable_rank(p)
                    ==> in_components_dir(rs[i])
        },
{
    lemma_preferred_of_rank(rs, 0);
    lemma_preferred_of_rank(rs, 1);
    lemma_preferred_of_rank(rs, 2);
    lemma_preferred_of_rank(rs, 3);
}

/// No executable is chosen exactly when no file found has the extension
/// `exe`, `jar`, `bat` or `cmd`, as written.
pub proof fn lemma_chosen_none_iff_no_candidate(rs: Seq<Seq<char>>)
    ensures
        chosen_executable(rs) is None <==> forall|i: int|
            0 <= i < rs.len() ==> executable_rank(#[trigger] rs[i]) == 4,
{
    lemma_preferred_of_rank(rs, 0);
    lemma_preferred_of_rank(rs, 1);
    lemma_preferred_of_rank(rs, 2);
    lemma_preferred_of_rank(rs, 3);
    if chosen_executable(rs) is None {
        assert forall|i: int| 0 <= i < rs.len() implies executable_rank(#[trigger] rs[i]) == 4 by {
            let r = executable_rank(rs[i]);
            assert(r != 0 && r != 1 && r != 2 && r != 3);
        }
    } else {
        let p = chosen_executable(rs)->0;
        let k = choose|k: int| 0 <= k < rs.len() && rs[k] == p;
        assert(executable_rank(rs[k]) < 4);
    }
}

/// An extension that marks a file as something the launcher can start:
/// `exe`, `jar`, `bat` or `cmd`, in any ASCII case.
pub open spec fn is_executable_ext(e: Seq<char>) -> bool {
    eq_ignore_case(e, "exe"@) || eq_ignore_case(e, "jar"@) || eq_ignore_case(e, "bat"@)
        || eq_ignore_case(e, "cmd"@)
}

/// Whether the walk of a tool directory keeps the file `path`.
pub fn is_executable_candidate(path: &str) -> (b: bool)
    ensures
        b == (extension_of(path@) is Some && is_executable_ext(extension_of(path@)->0)),
{
    match extension(path) {
        None => false,
        Some(e) => {
            let cs = chars_of(e.as_str());
            let exe = chars_of("exe");
            let jar = chars_of("jar");
            let bat = chars_of("bat");
            let cmd = chars_of("cmd");
            eq_ignore_ascii_case(&cs, &exe) || eq_ignore_ascii_case(&cs, &jar)
                || eq_ignore_ascii_case(&cs, &bat) || eq_ignore_ascii_case(&cs, &cmd)
        },
    }
}

/// Directories that the walk of a tool directory does not enter: a bundled
/// Java runtime and version-control or archive debris.
pub open spec fn is_skipped_dir_name(name: Seq<char>) -> bool {
    name == "jre"@ || name == ".git"@ || name == "__MACOSX"@
}

/// Whether the walk of a tool directory passes over the directory `name`.
pub fn is_skipped_dir(name: &str) -> (b: bool)
    ensures
        b == is_skipped_dir_name(name@),
{
    str_eq(name, "jre") || str_eq(name, ".git") || str_eq(name, "__MACOSX")
}

/// How a downloaded release asset is unpacked.
#[derive(Debug, Clone, Copy, PartialEq, Eq)]
pub enum ArchiveKind {
    Zip,
    TarGz,
    /// Not an archive: kept as it is.
    Plain,
}

/// The kind of archive that a file name announces.
pub open spec fn archive_kind_of(name: Seq<char>) -> ArchiveKind {
    if ".zip"@.is_suffix_of(name) {
        ArchiveKind::Zip
    } else if ".tar.gz"@.is_suffix_of(name) || ".tgz"@.is_suffix_of(name) {
        ArchiveKind::TarGz
    } else {
        ArchiveKind::Plain
    }
}

/// The kind of archive that the file name `name` announces.
pub fn archive_kind(name: &str) -> (res: ArchiveKind)
    ensures
        res == archive_kind_of(name@),
{
    let cs = chars_of(name);
    let zip = chars_of(".zip");
    let tgz = chars_of(".tar.gz");
    let tgz2 = chars_of(".tgz");
    if ends_with(&cs, &zip) {
        ArchiveKind::Zip
    } else if ends_with(&cs, &tgz) || ends_with(&cs, &tgz2) {
        ArchiveKind::TarGz
    } else {
        ArchiveKind::Plain
    }
}

/// Where an archive downloaded to `archive` is unpacked: a zip into a
/// directory named after it beside it, a tarball into `extracted` beside
/// it; `temp_dir` stands in for a missing parent.
pub open spec fn extraction_dir_of(archive: Seq<char>, temp_dir: Seq<char>) -> Option<Seq<char>> {
    let name = match crate::paths::file_name_of(archive) {
        Some(n) => n,
        None => Seq::<char>::empty(),
    };
    let beside = match parent_of(archive) {
        Some(p) => p,
        None => temp_dir,
    };
    match archive_kind_of(name) {
        ArchiveKind::Zip => Some(
            join_path(
                beside,
                match file_stem_of(archive) {
                    Some(s) => s,
                    None => Seq::<char>::empty(),
                },
            ),
        ),
        ArchiveKind::TarGz => Some(join_path(beside, "extracted"@)),
        ArchiveKind::Plain => None,
    }
}

/// Where the archive at `archive` is unpacked, or `None` when it is not an
/// archive.
pub fn extraction_dir(archive: &str, temp_dir: &str) -> (res: Option<String>)
    ensures
        match res {
            Some(s) => extraction_dir_of(archive@, temp_dir@) == Some(s@),
            None => extraction_dir_of(archive@, temp_dir@) is None,
        },
{
    let name = match crate::paths::file_name(archive) {
        Some(n) => n,
        None => String::new(),
    };
    let beside = match parent(archive) {
        Some(p) => p,
        None => String::from_str(temp_dir),
    };
    match archive_kind(name.as_str()) {
        ArchiveKind::Zip => {
            let stem = match file_stem(archive) {
                Some(s) => s,
                None => String::new(),
            };
            Some(join(beside.as_str(), stem.as_str()))
        },
        ArchiveKind::TarGz => Some(join(beside.as_str(), "extracted")),
        ArchiveKind::Plain => None,
    }
}

/// The GitHub API address of the latest release of `repo`.
pub open spec fn latest_release_url(repo: Seq<char>) -> Seq<char> {
    "https://api.github.com/repos/"@ + repo + "/releases/latest"@
}

/// The GitHub API address of the latest release of `repo`.
pub fn release_api_url(repo: &str) -> (res: String)
    ensures
        res@ == latest_release_url(repo@),
{
    join3("https://api.github.com/repos/", repo, "/releases/latest")
}

/// What one download attempt came to.
pub enum DownloadOutcome {
    /// The attempt failed with this error (the directory, the client, the
    /// request, reading the body or writing the file).
    Failed(String),
    /// The server answered with this status, which is not a success.
    Status(String),
    /// The file was written.
    Written,
}

/// What to do after one download attempt.
#[derive(Debug)]
pub enum DownloadStep {
    /// Wait this many seconds and try again.
    Retry { delay_secs: u64 },
    Done(Result<(), String>),
}

/// The number of download attempts.
pub open spec fn max_download_attempts() -> int {
    3
}

/// The error a failed attempt at downloading `url` leaves.
pub open spec fn attempt_error(outcome: DownloadOutcome, url: Seq<char>) -> Seq<char> {
    match outcome {
        DownloadOutcome::Failed(e) => e@,
        DownloadOutcome::Status(st) => "HTTP "@ + st@ + " for "@ + url,
        DownloadOutcome::Written => Seq::empty(),
    }
}

/// Decides what follows the download attempt `attempt` (counting from 0)
/// of `url`: a written file ends the download; any failed attempt is
/// retried after 3 seconds, and after the third the last attempt's error
/// is reported.
pub fn download_step(attempt: u64, outcome: DownloadOutcome, url: &str) -> (res: DownloadStep)
    requires
        attempt < 3,
    ensures
        outcome is Written ==> res == DownloadStep::Done(Ok::<(), String>(())),
        (!(outcome is Written) && attempt + 1 < max_download_attempts()) ==> res == (DownloadStep::Retry {
            delay_secs: 3,
        }),
        (!(outcome is Written) && attempt + 1 >= max_download_attempts()) ==> (res matches DownloadStep::Done(
            Err(m),
        ) && m@ == "Failed after 3 attempts: "@ + attempt_error(outcome, url@)),
{
    let last = match outcome {
        DownloadOutcome::Written => {
            return DownloadStep::Done(Ok(()));
        },
        DownloadOutcome::Failed(e) => e,
        DownloadOutcome::Status(st) => {
            let m = join3("HTTP ", st.as_str(), " for ");
            m.concat(url)
        },
    };
    if attempt + 1 < 3 {
        DownloadStep::Retry { delay_secs: 3 }
    } else {
        DownloadStep::Done(Err(join2("Failed after 3 attempts: ", last.as_str())))
    }
}

/// The winetricks verbs tried in turn to install the .NET Desktop Runtime.
pub open spec fn dotnet_verbs() -> Seq<Seq<char>> {
    seq!["dotnetdesktop9"@, "dotnetdesktop8"@, "dotnet48"@]
}

/// The `i`-th winetricks verb to try.
pub fn dotnet_verb(i: usize) -> (res: String)
    requires
        i < 3,
    ensures
        res@ == dotnet_verbs()[i as int],
{
    if i == 0 {
        String::from_str("dotnetdesktop9")
    } else if i == 1 {
        String::from_str("dotnetdesktop8")
    } else {
        String::from_str("dotnet48")
    }
}

/// The file that records an installed .NET Desktop Runtime in the prefix.
pub fn dotnet_marker_path(prefix_path: &str) -> (res: String)
    ensures
        res@ == join_path(prefix_path@, ".dotnet_desktop_installed"@),
{
    join(prefix_path, ".dotnet_desktop_installed")
}

/// The error when winetricks could not be started: a hint to install it
/// when it is not on `PATH`, the system's message otherwise.
pub fn winetricks_start_error(not_found: bool, detail: &str) -> (res: String)
    ensures
        not_found ==> res@ == "winetricks not found in PATH. Please install winetricks first.\n  Arch: sudo pacman -S winetricks\n  Debian/Ubuntu: sudo apt install winetricks"@,
        !not_found ==> res@ == "Failed to run winetricks: "@ + detail@,
{
    if not_found {
        String::from_str(
            "winetricks not found in PATH. Please install winetricks first.\n  Arch: sudo pacman -S winetricks\n  Debian/Ubuntu: sudo apt install winetricks",
        )
    } else {
        String::from_str("Failed to run winetricks: ").concat(detail)
    }
}

/// The error when winetricks ran `verb` and failed.
pub fn winetricks_verb_error(verb: &str, stderr: &str) -> (res: String)
    ensures
        res@ == "winetricks "@ + verb@ + " failed: "@ + stderr@,
{
    join3("winetricks ", verb, " failed: ").concat(stderr)
}

/// The error after every verb failed, with the manual command to run.
pub open spec fn dotnet_failure(last_err: Seq<char>, prefix: Seq<char>) -> Seq<char> {
    "Failed to install .NET Desktop Runtime (tried dotnetdesktop9, dotnetdesktop8, dotnet48). Last error: "@
        + last_err + "\nYou can install it manually:\n  WINEPREFIX="@ + prefix
        + " winetricks -q dotnetdesktop9"@
}

/// What to do next while installing the .NET Desktop Runtime.
#[derive(Debug)]
pub enum DotnetStep {
    /// Run `winetricks -q` with this verb.
    Try(String),
    /// A verb succeeded: write the marker file.
    Installed,
    Failed(String),
}

/// The progress of a .NET Desktop Runtime installation: the verbs tried so
/// far.
pub struct DotnetInstall {
    tried: usize,
    prefix: String,
}

impl DotnetInstall {
    /// How many verbs have been tried.
    pub closed spec fn tried(&self) -> nat {
        self.tried as nat
    }

    /// The prefix the runtime is installed into.
    pub closed spec fn prefix(&self) -> Seq<char> {
        self.prefix@
    }

    /// Starts an installation into `prefix_path`; the first verb to run.
    pub fn start(prefix_path: &str) -> (res: (Self, DotnetStep))
        ensures
            res.0.tried() == 1,
            res.0.prefix() == prefix_path@,
            res.1 matches DotnetStep::Try(v) && v@ == dotnet_verbs()[0],
    {
        (DotnetInstall { tried: 1, prefix: String::from_str(prefix_path) }, DotnetStep::Try(dotnet_verb(0)))
    }

    /// Takes the outcome of the last verb: success ends the installation,
    /// a failure moves on to the next verb, and the failure of the last one
    /// ends it with that error.
    pub fn on_result(&mut self, outcome: Result<(), String>) -> (res: DotnetStep)
        requires
            1 <= old(self).tried() <= 3,
        ensures
            final(self).prefix() == old(self).prefix(),
            outcome is Ok ==> res == DotnetStep::Installed,
            outcome matches Err(e) ==> if old(self).tried() < 3 {
                final(self).tried() == old(self).tried() + 1 && (res matches DotnetStep::Try(v) && v@
                    == dotnet_verbs()[old(self).tried() as int])
            } else {
                (res matches DotnetStep::Failed(m) && m@ == dotnet_failure(e@, old(self).prefix()))
            },
    {
        match outcome {
            Ok(()) => DotnetStep::Installed,
            Err(e) => {
                if self.tried < 3 {
                    let v = dotnet_verb(self.tried);
                    self.tried = self.tried + 1;
                    DotnetStep::Try(v)
                } else {
                    let m = String::from_str(
                        "Failed to install .NET Desktop Runtime (tried dotnetdesktop9, dotnetdesktop8, dotnet48). Last error: ",
                    );
                    let m = m.concat(e.as_str());
                    let m = m.concat("\nYou can install it manually:\n  WINEPREFIX=");
                    let m = m.concat(self.prefix.as_str());
                    DotnetStep::Failed(m.concat(" winetricks -q dotnetdesktop9"))
                }
            },
        }
    }
}


/// The executable to start for `tool` in the prefix `prefix_path`: when
/// its directory exists (`dir_exists`) and `found` (the executables below
/// it) holds a chosen executable, that file inside the directory.
pub fn tool_launch_path(tool: &ToolEntry, prefix_path: &str, dir_exists: bool, found: &Vec<String>) -> (res: Option<String>)
    ensures
        !dir_exists ==> res is None,
        dir_exists ==> match chosen_executable(strings_view(found@)) {
            Some(rel) => res matches Some(p) && p@ == join_path(install_dir_of(tool.slug@, prefix_path@), rel),
            None => res is None,
        },
{
    if !dir_exists {
        return None;
    }
    match find_executable(found) {
        Some(rel) => {
            let dir = tool_install_dir(tool, prefix_path);
            Some(join(dir.as_str(), rel.as_str()))
        },
        None => None,
    }
}

/// Where a tool's assets are downloaded before they are copied into its
/// directory `tool_dir`.
pub fn temp_download_dir(tool_dir: &str) -> (res: String)
    ensures
        res@ == join_path(tool_dir@, "temp_download"@),
{
    join(tool_dir, "temp_download")
}

/// The archives among the downloaded files `downloaded`, each with the
/// directory it is unpacked into, in order.
pub open spec fn extraction_plan(downloaded: Seq<Seq<char>>, temp_dir: Seq<char>) -> Seq<(Seq<char>, Seq<char>)>
    decreases downloaded.len(),
{
    if downloaded.len() == 0 {
        Seq::empty()
    } else {
        let rest = extraction_plan(downloaded.drop_last(), temp_dir);
        match extraction_dir_of(downloaded.last(), temp_dir) {
            Some(d) => rest.push((downloaded.last(), d)),
            None => rest,
        }
    }
}

/// The archives among `downloaded` and where each is unpacked.
pub fn plan_extractions(downloaded: &Vec<String>, temp_dir: &str) -> (res: Vec<(String, String)>)
    ensures
        res@.map_values(|p: (String, String)| (p.0@, p.1@)) == extraction_plan(strings_view(downloaded@), temp_dir@),
{
    let ghost model = strings_view(downloaded@);
    let mut out: Vec<(String, String)> = Vec::new();
    let mut i: usize = 0;
    while i < downloaded.len()
        invariant
            i <= downloaded@.len(),
            model == strings_view(downloaded@),
            out@.map_values(|p: (String, String)| (p.0@, p.1@)) == extraction_plan(model.take(i as int), temp_dir@),
        decreases downloaded.len() - i,
    {
        assert(model.take(i + 1).drop_last() =~= model.take(i as int));
        assert(model.take(i + 1).last() == downloaded@[i as int]@);
        let ghost before = out@;
        match extraction_dir(downloaded[i].as_str(), temp_dir) {
            Some(d) => {
                out.push((downloaded[i].clone(), d));
                assert(out@.map_values(|p: (String, String)| (p.0@, p.1@)) =~= before.map_values(
                    |p: (String, String)| (p.0@, p.1@),
                ).push((downloaded@[i as int]@, out@.last().1@)));
            },
            None => {},
        }
        i = i + 1;
    }
    assert(model.take(model.len() as int) =~= model);
    out
}

/// Why setting up a tool failed.
#[derive(Debug)]
pub enum ToolSetupFailure {
    /// The tool's directory could not be created.
    CreateDir(String),
    /// The HTTP client could not be built.
    Client(String),
    /// The release could not be requested.
    Request(String),
    /// GitHub answered with this unsuccessful status.
    Status(String),
    /// The release JSON could not be read.
    Parse(String),
    /// The files could not be copied into the tool's directory.
    Copy(String),
}

/// The error text of a failed tool setup.
pub fn setup_failure_message(f: &ToolSetupFailure) -> (res: String)
    ensures
        res@ == match f {
            ToolSetupFailure::CreateDir(e) => "Failed to create tools directory: "@ + e@,
            ToolSetupFailure::Client(e) => "Failed to build HTTP client: "@ + e@,
            ToolSetupFailure::Request(e) => "Failed to fetch release info: "@ + e@,
            ToolSetupFailure::Status(s) => "GitHub API returned HTTP "@ + s@,
            ToolSetupFailure::Parse(e) => "Failed to parse release JSON: "@ + e@,
            ToolSetupFailure::Copy(e) => "Failed to copy files: "@ + e@,
        },
{
    match f {
        ToolSetupFailure::CreateDir(e) => join2("Failed to create tools directory: ", e.as_str()),
        ToolSetupFailure::Client(e) => join2("Failed to build HTTP client: ", e.as_str()),
        ToolSetupFailure::Request(e) => join2("Failed to fetch release info: ", e.as_str()),
        ToolSetupFailure::Status(s) => join2("GitHub API returned HTTP ", s.as_str()),
        ToolSetupFailure::Parse(e) => join2("Failed to parse release JSON: ", e.as_str()),
        ToolSetupFailure::Copy(e) => join2("Failed to copy files: ", e.as_str()),
    }
}

} // verus!
