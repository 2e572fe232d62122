//! The tool manifest: which speedrun tools exist, where their releases are
//! published, and the fallback to the built-in list when the remote
//! manifest cannot be had.
use vstd::prelude::*;

verus! {

/// One tool that the launcher can install and start.
#[derive(Debug)]
pub struct ToolEntry {
    pub name: String,
    pub slug: String,
    pub github_repo: String,
    pub description: String,
}

/// The list of known tools.
#[derive(Debug)]
pub struct Manifest {
    pub tools: Vec<ToolEntry>,
}

impl Clone for ToolEntry {
    fn clone(&self) -> (res: Self)
        ensures
            res == *self,
    {
        ToolEntry {
            name: self.name.clone(),
            slug: self.slug.clone(),
            github_repo: self.github_repo.clone(),
            description: self.description.clone(),
        }
    }
}

/// A copy of `v`.
pub fn copy_tools(v: &Vec<ToolEntry>) -> (res: Vec<ToolEntry>)
    ensures
        res@ == v@,
{
    let mut out: Vec<ToolEntry> = Vec::new();
    let mut i: usize = 0;
    while i < v.len()
        invariant
            i <= v@.len(),
            out@ =~= v@.take(i as int),
        decreases v.len() - i,
    {
        out.push(v[i].clone());
        i = i + 1;
    }
    assert(v@.take(v@.len() as int) =~= v@);
    out
}

impl Clone for Manifest {
    fn clone(&self) -> (res: Self)
        ensures
            res.tools@ == self.tools@,
    {
        Manifest { tools: copy_tools(&self.tools) }
    }
}

/// A tool entry made of four texts.
pub open spec fn entry_is(
    e: ToolEntry,
    name: Seq<char>,
    slug: Seq<char>,
    repo: Seq<char>,
    description: Seq<char>,
) -> bool {
    e.name@ == name && e.slug@ == slug && e.github_repo@ == repo && e.description@ == description
}

/// The built-in tool list, in its order.
pub open spec fn is_builtin_list(ts: Seq<ToolEntry>) -> bool {
    &&& ts.len() == 5
    &&& entry_is(
        ts[0],
        "LiveSplit"@,
        "livesplit"@,
        "LiveSplit/LiveSplit"@,
        "Speedrun timer with racing and layout system"@,
    )
    &&& entry_is(
        ts[1],
        "Save Organizer"@,
        "save-organizer"@,
        "Kahmul/SoulsSpeedruns-Save-Organizer"@,
        "Manage savefiles for the Souls series — bundled JRE"@,
    )
    &&& entry_is(
        ts[2],
        "Practice Tool"@,
        "practice-tool"@,
        "veeenu/sekiro-practice-tool"@,
        "Sekiro practice tool with indicators and speed modifier"@,
    )
    &&& entry_is(
        ts[3],
        "Save Helper"@,
        "save-helper"@,
        "uberhalit/SimpleSekiroSavegameHelper"@,
        "Local save game management (backup, restore, import)"@,
    )
    &&& entry_is(
        ts[4],
        "SekiroTool"@,
        "sekirotool"@,
        "borgCode/SekiroTool"@,
        "Noclip, speed modifier, AI disable, camera shake controls, and cutscene skip"@,
    )
}

/// No two tools share a slug.
pub open spec fn slugs_unique(ts: Seq<ToolEntry>) -> bool {
    forall|i: int, j: int| 0 <= i < j < ts.len() ==> ts[i].slug@ != ts[j].slug@
}

fn entry(name: &str, slug: &str, repo: &str, description: &str) -> (e: ToolEntry)
    ensures
        entry_is(e, name@, slug@, repo@, description@),
{
    ToolEntry {
        name: String::from_str(name),
        slug: String::from_str(slug),
        github_repo: String::from_str(repo),
        description: String::from_str(description),
    }
}

fn tool_defs() -> (res: Vec<ToolEntry>)
    ensures
        is_builtin_list(res@),
{
    let mut v: Vec<ToolEntry> = Vec::new();
    v.push(
        entry(
            "LiveSplit",
            "livesplit",
            "LiveSplit/LiveSplit",
            "Speedrun timer with racing and layout system",
        ),
    );
    v.push(
        entry(
            "Save Organizer",
            "save-organizer",
            "Kahmul/SoulsSpeedruns-Save-Organizer",
            "Manage savefiles for the Souls series — bundled JRE",
        ),
    );
    v.push(
        entry(
            "Practice Tool",
            "practice-tool",
            "veeenu/sekiro-practice-tool",
            "Sekiro practice tool with indicators and speed modifier",
        ),
    );
    v.push(
        entry(
            "Save Helper",
            "save-helper",
            "uberhalit/SimpleSekiroSavegameHelper",
            "Local save game management (backup, restore, import)",
        ),
    );
    v.push(
        entry(
            "SekiroTool",
            "sekirotool",
            "borgCode/SekiroTool",
            "Noclip, speed modifier, AI disable, camera shake controls, and cutscene skip",
        ),
    );
    v
}

/// The built-in list has five tools with pairwise distinct slugs.
pub proof fn lemma_builtin_slugs_unique(ts: Seq<ToolEntry>)
    requires
        is_builtin_list(ts),
    ensures
        slugs_unique(ts),
{
    reveal_strlit("livesplit");
    reveal_strlit("save-organizer");
    reveal_strlit("practice-tool");
    reveal_strlit("save-helper");
    reveal_strlit("sekirotool");
    assert(ts[0].slug@[0] != ts[1].slug@[0]);
    assert(ts[0].slug@[0] != ts[2].slug@[0]);
    assert(ts[0].slug@[0] != ts[3].slug@[0]);
    assert(ts[0].slug@[0] != ts[4].slug@[0]);
    assert(ts[1].slug@[1] != ts[2].slug@[1]);
    assert(ts[1].slug@.len() != ts[3].slug@.len());
    assert(ts[1].slug@[1] != ts[4].slug@[1]);
    assert(ts[2].slug@[1] != ts[3].slug@[1]);
    assert(ts[2].slug@[1] != ts[4].slug@[1]);
    assert(ts[3].slug@[1] != ts[4].slug@[1]);
}

/// Why a manifest request gave no manifest.
pub enum FetchFailure {
    /// The request could not be sent or answered.
    Unreachable,
    /// The server answered with a status that is not a success.
    BadStatus,
    /// The body did not parse as a manifest; the parser's message.
    Malformed(String),
}

/// What to do after one manifest request.
pub enum FetchStep {
    /// Try again after waiting this many milliseconds.
    Retry { delay_ms: u64 },
    /// Stop with this outcome.
    Done(Result<Manifest, String>),
}

/// The number of manifest requests made before giving up.
pub open spec fn max_fetch_attempts() -> int {
    3
}

/// The message given when every attempt failed.
pub open spec fn exhausted_message() -> Seq<char> {
    "Failed to fetch manifest after 3 retries"@
}

impl Manifest {
    /// The hardcoded built-in tool definitions, used at startup and when the
    /// remote manifest cannot be had.
    pub fn builtin() -> (res: Self)
        ensures
            is_builtin_list(res.tools@),
            slugs_unique(res.tools@),
    {
        let tools = tool_defs();
        proof {
            lemma_builtin_slugs_unique(tools@);
        }
        Manifest { tools }
    }

    fn default() -> (res: Self)
        ensures
            is_builtin_list(res.tools@),
    {
        Self::builtin()
    }

    /// The manifest to use given the outcome of the remote fetch: the remote
    /// manifest when it came, the built-in one otherwise. It never fails.
    pub fn fetch(remote: Result<Manifest, String>) -> (res: Result<Self, String>)
        ensures
            res is Ok,
            remote is Ok ==> res->Ok_0 == remote->Ok_0,
            remote is Err ==> is_builtin_list(res->Ok_0.tools@),
    {
        match remote {
            Ok(m) => Ok(m),
            Err(_) => Ok(Self::default()),
        }
    }

    /// Decides what follows request number `attempt` (counting from 1) whose
    /// result is `outcome`: a parsed manifest ends the fetch, a body that does
    /// not parse ends it with the parser's message, and any other failure is
    /// retried after `500 * attempt` ms until the third attempt has failed.
    pub fn fetch_step(attempt: u64, outcome: Result<Manifest, FetchFailure>) -> (res: FetchStep)
        requires
            1 <= attempt <= 3,
        ensures
            match outcome {
                Ok(m) => res == FetchStep::Done(Ok(m)),
                Err(FetchFailure::Malformed(msg)) => res == FetchStep::Done(Err::<Manifest, String>(msg)),
                Err(_) => if attempt < max_fetch_attempts() {
                    res == FetchStep::Retry { delay_ms: (500 * attempt) as u64 }
                } else {
                    res matches FetchStep::Done(Err(msg)) && msg@ == exhausted_message()
                },
            },
    {
        match outcome {
            Ok(m) => FetchStep::Done(Ok(m)),
            Err(FetchFailure::Malformed(msg)) => FetchStep::Done(Err(msg)),
            Err(_) => {
                if attempt < 3 {
                    FetchStep::Retry { delay_ms: 500 * attempt }
                } else {
                    FetchStep::Done(Err(String::from_str("Failed to fetch manifest after 3 retries")))
                }
            },
        }
    }
}

} // verus!
