//! The launcher's persistent configuration: the Proton installation, the
//! game prefix, the named game directories and the tool selection.
use vstd::prelude::*;
use crate::paths::{join_path, file_name_of, parent_of, join, file_name, parent};
use crate::text::str_eq;

verus! {

/// A copy of `s`.
pub fn copy_string(s: &String) -> (res: String)
    ensures
        res == *s,
{
    s.clone()
}

/// A copy of `o`.
pub fn copy_opt_string(o: &Option<String>) -> (res: Option<String>)
    ensures
        res == *o,
{
    match o {
        Some(s) => Some(s.clone()),
        None => None,
    }
}

/// A copy of `v`.
pub fn copy_strings(v: &Vec<String>) -> (res: Vec<String>)
    ensures
        res@ == v@,
{
    let mut out: Vec<String> = Vec::new();
    let mut i: usize = 0;
    while i < v.len()
        invariant
            i <= v@.len(),
            out@ =~= v@.take(i as int),
        decreases v.len() - i,
    {
        out.push(v[i].clone());
        i = i + 1;
    }
    assert(v@.take(v@.len() as int) =~= v@);
    out
}

/// Where the Proton installation is.
#[derive(Debug, PartialEq)]
pub struct ProtonConfig {
    pub path: Option<String>,
}

/// Where the game's Wine prefix is.
#[derive(Debug, PartialEq)]
pub struct GamePrefixConfig {
    pub path: Option<String>,
}

/// One named game install directory.
#[derive(Debug, PartialEq)]
pub struct GameDirectory {
    pub name: String,
    pub path: String,
}

/// The named game install directories and the one in use.
#[derive(Debug, PartialEq)]
pub struct GameDirectoriesConfig {
    pub directories: Vec<GameDirectory>,
    pub selected: Option<String>,
}

/// Which tools are checked for launch and which are shown.
#[derive(Debug, PartialEq)]
pub struct ToolsConfig {
    pub selected: Vec<String>,
    pub visible: Vec<String>,
}

/// The whole configuration file.
#[derive(Debug, PartialEq)]
pub struct Config {
    pub proton: ProtonConfig,
    pub game_prefix: GamePrefixConfig,
    pub game_directories: GameDirectoriesConfig,
    pub tools: ToolsConfig,
}

impl Clone for ProtonConfig {
    fn clone(&self) -> (res: Self)
        ensures
            res == *self,
    {
        ProtonConfig { path: copy_opt_string(&self.path) }
    }
}

impl Clone for GamePrefixConfig {
    fn clone(&self) -> (res: Self)
        ensures
            res == *self,
    {
        GamePrefixConfig { path: copy_opt_string(&self.path) }
    }
}

impl Clone for GameDirectory {
    fn clone(&self) -> (res: Self)
        ensures
            res == *self,
    {
        GameDirectory { name: self.name.clone(), path: self.path.clone() }
    }
}

/// A copy of `v`.
pub fn copy_directories(v: &Vec<GameDirectory>) -> (res: Vec<GameDirectory>)
    ensures
        res@ == v@,
{
    let mut out: Vec<GameDirectory> = Vec::new();
    let mut i: usize = 0;
    while i < v.len()
        invariant
            i <= v@.len(),
            out@ =~= v@.take(i as int),
        decreases v.len() - i,
    {
        out.push(v[i].clone());
        i = i + 1;
    }
    assert(v@.take(v@.len() as int) =~= v@);
    out
}

impl Clone for GameDirectoriesConfig {
    fn clone(&self) -> (res: Self)
        ensures
            res.directories@ == self.directories@,
            res.selected == self.selected,
    {
        let d = copy_directories(&self.directories);
        assert(d@ =~= self.directories@);
        GameDirectoriesConfig { directories: d, selected: copy_opt_string(&self.selected) }
    }
}

impl Clone for ToolsConfig {
    fn clone(&self) -> (res: Self)
        ensures
            res.selected@ == self.selected@,
            res.visible@ == self.visible@,
    {
        let s = copy_strings(&self.selected);
        let v = copy_strings(&self.visible);
        assert(s@ =~= self.selected@);
        assert(v@ =~= self.visible@);
        ToolsConfig { selected: s, visible: v }
    }
}

impl Clone for Config {
    fn clone(&self) -> (res: Self)
        ensures
            res.same(*self),
    {
        Config {
            proton: self.proton.clone(),
            game_prefix: self.game_prefix.clone(),
            game_directories: self.game_directories.clone(),
            tools: self.tools.clone(),
        }
    }
}

impl Default for ProtonConfig {
    fn default() -> (res: Self)
        ensures
            res.path is None,
    {
        ProtonConfig { path: None }
    }
}

impl Default for GamePrefixConfig {
    fn default() -> (res: Self)
        ensures
            res.path is None,
    {
        GamePrefixConfig { path: None }
    }
}

impl Default for GameDirectoriesConfig {
    fn default() -> (res: Self)
        ensures
            res.directories@.len() == 0,
            res.selected is None,
    {
        GameDirectoriesConfig { directories: Vec::new(), selected: None }
    }
}

impl Default for ToolsConfig {
    fn default() -> (res: Self)
        ensures
            res.selected@.len() == 0,
            res.visible@.len() == 0,
    {
        ToolsConfig { selected: Vec::new(), visible: Vec::new() }
    }
}

impl Default for Config {
    fn default() -> (res: Self)
        ensures
            res.is_default(),
    {
        Config {
            proton: ProtonConfig::default(),
            game_prefix: GamePrefixConfig::default(),
            game_directories: GameDirectoriesConfig::default(),
            tools: ToolsConfig::default(),
        }
    }
}

impl Config {
    /// `self` and `other` hold the same settings.
    pub open spec fn same(&self, other: Config) -> bool {
        &&& self.proton == other.proton
        &&& self.game_prefix == other.game_prefix
        &&& self.game_directories.directories@ == other.game_directories.directories@
        &&& self.game_directories.selected == other.game_directories.selected
        &&& self.tools.selected@ == other.tools.selected@
        &&& self.tools.visible@ == other.tools.visible@
    }

    /// Nothing is configured: no paths, no game directories, no tools.
    pub open spec fn is_default(&self) -> bool {
        &&& self.proton.path is None
        &&& self.game_prefix.path is None
        &&& self.game_directories.directories@.len() == 0
        &&& self.game_directories.selected is None
        &&& self.tools.selected@.len() == 0
        &&& self.tools.visible@.len() == 0
    }
}

/// The position of the first directory named `name`.
pub open spec fn first_named(ds: Seq<GameDirectory>, name: Seq<char>) -> Option<int>
    decreases ds.len(),
{
    if ds.len() == 0 {
        None
    } else if ds[0].name@ == name {
        Some(0)
    } else {
        match first_named(ds.drop_first(), name) {
            Some(i) => Some(i + 1),
            None => None,
        }
    }
}

proof fn lemma_first_named_is(ds: Seq<GameDirectory>, name: Seq<char>, i: int)
    requires
        0 <= i < ds.len(),
        ds[i].name@ == name,
        forall|j: int| 0 <= j < i ==> ds[j].name@ != name,
    ensures
        first_named(ds, name) == Some(i),
    decreases ds.len(),
{
    if i > 0 {
        assert(ds[0].name@ != name);
        lemma_first_named_is(ds.drop_first(), name, i - 1);
    }
}

proof fn lemma_first_named_found(ds: Seq<GameDirectory>, name: Seq<char>)
    ensures
        first_named(ds, name) matches Some(i) ==> 0 <= i < ds.len() && ds[i].name@ == name,
        first_named(ds, name) is None ==> forall|j: int| 0 <= j < ds.len() ==> ds[j].name@ != name,
    decreases ds.len(),
{
    if ds.len() > 0 && ds[0].name@ != name {
        lemma_first_named_found(ds.drop_first(), name);
        assert forall|j: int| 1 <= j < ds.len() implies ds[j] == ds.drop_first()[j - 1] by {}
    }
}

/// `ds` without the directories named `name`, order kept.
pub open spec fn without_named(ds: Seq<GameDirectory>, name: Seq<char>) -> Seq<GameDirectory>
    decreases ds.len(),
{
    if ds.len() == 0 {
        ds
    } else if ds.last().name@ == name {
        without_named(ds.drop_last(), name)
    } else {
        without_named(ds.drop_last(), name).push(ds.last())
    }
}

/// A law of `without_named`: no directory named `name` is left.
pub proof fn lemma_without_named_removes(ds: Seq<GameDirectory>, name: Seq<char>)
    ensures
        forall|i: int|
            0 <= i < without_named(ds, name).len() ==> (#[trigger] without_named(ds, name)[i]).name@
                != name,
        without_named(ds, name).len() <= ds.len(),
    decreases ds.len(),
{
    if ds.len() > 0 {
        lemma_without_named_removes(ds.drop_last(), name);
    }
}

/// Keeping what is not named `name` changes nothing when nothing has that
/// name.
pub proof fn lemma_without_named_absent(ds: Seq<GameDirectory>, name: Seq<char>)
    requires
        forall|i: int| 0 <= i < ds.len() ==> (#[trigger] ds[i]).name@ != name,
    ensures
        without_named(ds, name) == ds,
    decreases ds.len(),
{
    if ds.len() > 0 {
        lemma_without_named_absent(ds.drop_last(), name);
        assert(ds.drop_last().push(ds.last()) =~= ds);
    }
}

/// Adding a directory under a name no directory has, then removing that
/// name, leaves the directories as they were.
pub proof fn lemma_add_then_remove(ds: Seq<GameDirectory>, name: String, path: String)
    requires
        first_named(ds, name@) is None,
    ensures
        without_named(ds.push(GameDirectory { name, path }), name@) == ds,
{
    lemma_first_named_found(ds, name@);
    let added = ds.push(GameDirectory { name, path });
    assert(added.drop_last() =~= ds);
    lemma_without_named_absent(ds, name@);
}

/// The game directories as (name, path) texts.
pub open spec fn dir_views(ds: Seq<GameDirectory>) -> Seq<(Seq<char>, Seq<char>)> {
    ds.map_values(|d: GameDirectory| (d.name@, d.path@))
}

/// The position of the first entry of `v` named `name`.
pub open spec fn first_with_name(v: Seq<(Seq<char>, Seq<char>)>, name: Seq<char>) -> Option<int>
    decreases v.len(),
{
    if v.len() == 0 {
        None
    } else if v[0].0 == name {
        Some(0)
    } else {
        match first_with_name(v.drop_first(), name) {
            Some(i) => Some(i + 1),
            None => None,
        }
    }
}

/// The directories `v` after renaming the first one named `old` to `new`.
pub open spec fn renamed_views(v: Seq<(Seq<char>, Seq<char>)>, old: Seq<char>, new: Seq<char>) -> Seq<(Seq<char>, Seq<char>)> {
    match first_with_name(v, old) {
        Some(i) => v.update(i, (new, v[i].1)),
        None => v,
    }
}

/// The selection `sel` after renaming `old` to `new`.
pub open spec fn renamed_selection(sel: Option<Seq<char>>, old: Seq<char>, new: Seq<char>) -> Option<Seq<char>> {
    if sel == Some(old) {
        Some(new)
    } else {
        sel
    }
}

proof fn lemma_first_named_views(ds: Seq<GameDirectory>, name: Seq<char>)
    ensures
        first_named(ds, name) == first_with_name(dir_views(ds), name),
    decreases ds.len(),
{
    if ds.len() > 0 {
        assert(dir_views(ds).drop_first() =~= dir_views(ds.drop_first()));
        lemma_first_named_views(ds.drop_first(), name);
    }
}

proof fn lemma_first_with_name_found(v: Seq<(Seq<char>, Seq<char>)>, name: Seq<char>)
    ensures
        first_with_name(v, name) matches Some(i) ==> 0 <= i < v.len() && v[i].0 == name && forall|j: int|
            0 <= j < i ==> v[j].0 != name,
        first_with_name(v, name) is None ==> forall|j: int| 0 <= j < v.len() ==> v[j].0 != name,
    decreases v.len(),
{
    if v.len() > 0 && v[0].0 != name {
        lemma_first_with_name_found(v.drop_first(), name);
        assert forall|j: int| 1 <= j < v.len() implies v[j] == v.drop_first()[j - 1] by {}
    }
}

proof fn lemma_first_with_name_is(v: Seq<(Seq<char>, Seq<char>)>, name: Seq<char>, i: int)
    requires
        0 <= i < v.len(),
        v[i].0 == name,
        forall|j: int| 0 <= j < i ==> v[j].0 != name,
    ensures
        first_with_name(v, name) == Some(i),
    decreases v.len(),
{
    if i > 0 {
        assert(v[0].0 != name);
        lemma_first_with_name_is(v.drop_first(), name, i - 1);
    }
}

/// Renaming a directory to a name no directory has, then back, restores the
/// directories, and the selection too unless it was that unused name.
pub proof fn lemma_rename_back(v: Seq<(Seq<char>, Seq<char>)>, sel: Option<Seq<char>>, a: Seq<char>, b: Seq<char>)
    requires
        first_with_name(v, a) is Some,
        first_with_name(v, b) is None,
        sel != Some(b),
    ensures
        renamed_views(renamed_views(v, a, b), b, a) == v,
        renamed_selection(renamed_selection(sel, a, b), b, a) == sel,
{
    lemma_first_with_name_found(v, a);
    lemma_first_with_name_found(v, b);
    let i = first_with_name(v, a)->0;
    let w = renamed_views(v, a, b);
    assert(w == v.update(i, (b, v[i].1)));
    lemma_first_with_name_is(w, b, i);
    assert(renamed_views(w, b, a) =~= v);
}

/// A directory named `name` is among `ds`.
pub open spec fn has_named(ds: Seq<GameDirectory>, name: Seq<char>) -> bool {
    exists|j: int| 0 <= j < ds.len() && (#[trigger] ds[j]).name@ == name
}

/// Removing the directories named `name` keeps every other one.
proof fn lemma_without_named_keeps(ds: Seq<GameDirectory>, name: Seq<char>, j: int)
    requires
        0 <= j < ds.len(),
        ds[j].name@ != name,
    ensures
        without_named(ds, name).contains(ds[j]),
    decreases ds.len(),
{
    if j == ds.len() - 1 {
        let w = without_named(ds.drop_last(), name);
        assert(without_named(ds, name) == w.push(ds.last()));
        assert(without_named(ds, name)[w.len() as int] == ds[j]);
    } else {
        lemma_without_named_keeps(ds.drop_last(), name, j);
        let w = without_named(ds.drop_last(), name);
        let k = choose|k: int| 0 <= k < w.len() && w[k] == ds.drop_last()[j];
        if ds.last().name@ == name {
            assert(without_named(ds, name)[k] == ds[j]);
        } else {
            assert(without_named(ds, name) == w.push(ds.last()));
            assert(without_named(ds, name)[k] == ds[j]);
        }
    }
}

/// The position of the first of `ds` named `name`.
fn find_named(ds: &Vec<GameDirectory>, name: &str) -> (res: Option<usize>)
    ensures
        match res {
            Some(i) => first_named(ds@, name@) == Some(i as int) && i < ds@.len(),
            None => first_named(ds@, name@) is None,
        },
{
    proof {
        lemma_first_named_found(ds@, name@);
    }
    let mut i: usize = 0;
    let n = ds.len();
    while i < n
        invariant
            n == ds@.len(),
            i <= n,
            forall|j: int| 0 <= j < i ==> ds@[j].name@ != name@,
        decreases n - i,
    {
        if str_eq(ds[i].name.as_str(), name) {
            proof {
                lemma_first_named_is(ds@, name@, i as int);
            }
            return Some(i);
        }
        i = i + 1;
    }
    None
}

impl GameDirectoriesConfig {
    /// The selection names a configured directory, or there is none.
    pub open spec fn selection_holds(&self) -> bool {
        match self.selected {
            Some(s) => has_named(self.directories@, s@),
            None => true,
        }
    }

    /// Adds a game directory; the first one added, or any added while none
    /// is selected, becomes the selection.
    pub fn add(&mut self, name: String, path: String)
        ensures
            final(self).directories@ == old(self).directories@.push(
                GameDirectory { name: name, path: path },
            ),
            final(self).selected == (if old(self).selected is None || old(self).directories@.len()
                == 0 {
                Some(name)
            } else {
                old(self).selected
            }),
            old(self).selection_holds() ==> final(self).selection_holds(),
    {
        let n2 = name.clone();
        self.directories.push(GameDirectory { name: n2, path: path });
        if self.selected.is_none() || self.directories.len() == 1 {
            self.selected = Some(name);
        }
        proof {
            let ds = self.directories@;
            let k = ds.len() - 1;
            if old(self).selected is None || old(self).directories@.len() == 0 {
                assert(ds[k].name@ == name@);
            } else if old(self).selection_holds() {
                let s = old(self).selected->0@;
                let j = choose|j: int| 0 <= j < old(self).directories@.len() && (#[trigger] old(self).directories@[j]).name@ == s;
                assert(ds[j] == old(self).directories@[j]);
            }
        }
    }

    /// Removes every game directory named `name`; when it was the selection,
    /// the first remaining directory (if any) becomes the selection.
    pub fn remove(&mut self, name: &str)
        ensures
            final(self).directories@ == without_named(old(self).directories@, name@),
            final(self).selected == (if old(self).selected is Some && old(self).selected->0@ == name@ {
                if without_named(old(self).directories@, name@).len() > 0 {
                    Some(without_named(old(self).directories@, name@)[0].name)
                } else {
                    None
                }
            } else {
                old(self).selected
            }),
            old(self).selection_holds() ==> final(self).selection_holds(),
    {
        let mut kept: Vec<GameDirectory> = Vec::new();
        let mut i: usize = 0;
        while i < self.directories.len()
            invariant
                i <= self.directories@.len(),
                self.directories@ == old(self).directories@,
                self.selected == old(self).selected,
                kept@ == without_named(self.directories@.take(i as int), name@),
            decreases self.directories.len() - i,
        {
            let ghost ds = self.directories@;
            assert(ds.take(i + 1).drop_last() =~= ds.take(i as int));
            assert(ds.take(i + 1).last() == ds[i as int]);
            if !str_eq(self.directories[i].name.as_str(), name) {
                kept.push(self.directories[i].clone());
            }
            i = i + 1;
        }
        assert(self.directories@.take(self.directories@.len() as int) =~= self.directories@);
        self.directories = kept;
        let was_selected = match &self.selected {
            Some(s) => str_eq(s.as_str(), name),
            None => false,
        };
        if was_selected {
            if self.directories.len() > 0 {
                self.selected = Some(self.directories[0].name.clone());
            } else {
                self.selected = None;
            }
        }
        proof {
            let ds = self.directories@;
            if !was_selected && old(self).selection_holds() && old(self).selected is Some {
                let s = old(self).selected->0@;
                let j = choose|j: int| 0 <= j < old(self).directories@.len() && (#[trigger] old(self).directories@[j]).name@ == s;
                lemma_without_named_keeps(old(self).directories@, name@, j);
                let k = choose|k: int| 0 <= k < ds.len() && ds[k] == old(self).directories@[j];
                assert(ds[k].name@ == s);
            } else if was_selected && ds.len() > 0 {
                assert(ds[0].name@ == self.selected->0@);
            }
        }
    }

    /// Renames the first game directory named `old_name`, and the selection
    /// with it.
    pub fn rename(&mut self, old_name: &str, new_name: &str)
        ensures
            final(self).directories@ == (match first_named(old(self).directories@, old_name@) {
                Some(i) => old(self).directories@.update(
                    i,
                    GameDirectory {
                        name: final(self).directories@[i].name,
                        path: old(self).directories@[i].path,
                    },
                ),
                None => old(self).directories@,
            }),
            first_named(old(self).directories@, old_name@) is Some ==> final(self).directories@[first_named(
                old(self).directories@,
                old_name@,
            )->0].name@ == new_name@,
            (old(self).selected is Some && old(self).selected->0@ == old_name@) ==> (final(self).selected is Some
                && final(self).selected->0@ == new_name@),
            !(old(self).selected is Some && old(self).selected->0@ == old_name@) ==> final(self).selected
                == old(self).selected,
            dir_views(final(self).directories@) == renamed_views(dir_views(old(self).directories@), old_name@, new_name@),
            opt_view(final(self).selected) == renamed_selection(opt_view(old(self).selected), old_name@, new_name@),
            old(self).selection_holds() ==> final(self).selection_holds(),
    {
        proof {
            lemma_first_named_found(self.directories@, old_name@);
            lemma_first_named_views(self.directories@, old_name@);
        }
        let ghost old_dirs = self.directories@;
        if let Some(i) = find_named(&self.directories, old_name) {
            assert(first_named(old_dirs, old_name@) == Some(i as int));
            let path = self.directories[i].path.clone();
            let entry = GameDirectory { name: String::from_str(new_name), path: path };
            self.directories.set(i, entry);
            assert(self.directories@ == old_dirs.update(i as int, entry));
            assert(self.directories@[i as int] == entry);
            assert(dir_views(self.directories@) =~= dir_views(old_dirs).update(
                i as int,
                (new_name@, dir_views(old_dirs)[i as int].1),
            ));
        } else {
            assert(dir_views(self.directories@) =~= dir_views(old_dirs));
        }
        let was_selected = match &self.selected {
            Some(s) => str_eq(s.as_str(), old_name),
            None => false,
        };
        if was_selected {
            self.selected = Some(String::from_str(new_name));
        }
        proof {
            let ds = self.directories@;
            if old(self).selection_holds() && old(self).selected is Some {
                let s = old(self).selected->0@;
                let j = choose|j: int| 0 <= j < old_dirs.len() && (#[trigger] old_dirs[j]).name@ == s;
                if was_selected {
                    let i = first_named(old_dirs, old_name@)->0;
                    assert(ds[i].name@ == new_name@);
                } else {
                    assert(ds[j].name@ == s);
                }
            }
        }
    }

    /// Whether no game directories are configured.
    pub fn is_empty(&self) -> (b: bool)
        ensures
            b == (self.directories@.len() == 0),
    {
        self.directories.len() == 0
    }

    /// The position of the selected game directory: the first one carrying
    /// the selected name.
    pub fn selected_index(&self) -> (res: Option<usize>)
        ensures
            match res {
                Some(i) => self.selected is Some && first_named(self.directories@, self.selected->0@)
                    == Some(i as int) && i < self.directories@.len(),
                None => self.selected is None || first_named(self.directories@, self.selected->0@) is None,
            },
    {
        match &self.selected {
            None => None,
            Some(s) => find_named(&self.directories, s.as_str()),
        }
    }

    /// The selected game directory's path with `~` and `$VAR` expanded; the
    /// caller keeps it only when it names an existing directory.
    pub fn selected_path(&self) -> (res: Option<String>)
        ensures
            (match self.selected {
                None => true,
                Some(s) => first_named(self.directories@, s@) is None,
            }) ==> res is None,
            (self.selected is Some && first_named(self.directories@, self.selected->0@) is Some)
                ==> expansion_of(
                self.directories@[first_named(self.directories@, self.selected->0@)->0].path@,
                res,
            ),
    {
        proof {
            if self.selected is Some {
                lemma_first_named_found(self.directories@, self.selected->0@);
            }
        }
        match self.selected_index() {
            None => None,
            Some(i) => {
                assert(first_named(self.directories@, self.selected->0@) == Some(i as int));
                expand(self.directories[i].path.as_str())
            },
        }
    }
}

/// What every outcome of expanding `s` satisfies: text without `$` always
/// expands; text that neither holds `$` nor starts with `~` is left as it
/// is; a leading `~` or `~/` becomes some home directory or is kept.
pub open spec fn expansion_of(s: Seq<char>, res: Option<String>) -> bool {
    &&& !s.contains('$') ==> res is Some
    &&& (!s.contains('$') && !(s.len() > 0 && s[0] == '~')) ==> (res matches Some(r) && r@ == s)
    &&& (!s.contains('$') && s.len() > 0 && s[0] == '~' && !(s.len() == 1 || s[1] == '/')) ==> (
    res matches Some(r) && r@ == s)
    &&& (!s.contains('$') && s.len() > 0 && s[0] == '~' && (s.len() == 1 || s[1] == '/')) ==> (
    res matches Some(r) && (r@ == s || exists|h: Seq<char>| r@ == h + s.drop_first()))
}

/// Expands `~` and `$VAR` / `${VAR}` in `s` with `shellexpand::full`; `None`
/// when a variable is not set. The result depends on the environment, so
/// the contract states only what holds of every outcome.
#[verifier::external_body]
pub(crate) fn expand(s: &str) -> (res: Option<String>)
    ensures
        expansion_of(s@, res),
{
    shellexpand::full(s).ok().map(|c| c.into_owned())
}

/// The old default prefix path pointed at `drive_c`; a path whose last
/// component is `drive_c` or `Drive_C` stands for its parent.
pub open spec fn migrate_prefix(p: Seq<char>) -> Seq<char> {
    match file_name_of(p) {
        Some(n) if n == "drive_c"@ || n == "Drive_C"@ => match parent_of(p) {
            Some(q) => q,
            None => p,
        },
        _ => p,
    }
}

/// The standard Sekiro prefix below `home`.
pub open spec fn default_prefix_path(home: Seq<char>) -> Seq<char> {
    join_path(home, ".local/share/Steam/steamapps/compatdata/814380/pfx/"@)
}

impl GamePrefixConfig {
    /// The default Sekiro game prefix below the home directory `home`.
    pub fn default_path(home: &str) -> (res: String)
        ensures
            res@ == default_prefix_path(home@),
    {
        join(home, ".local/share/Steam/steamapps/compatdata/814380/pfx/")
    }

    /// The configured prefix path with `~` and `$VAR` expanded.
    pub fn expanded_path(&self) -> (res: Option<String>)
        ensures
            self.path is None ==> res is None,
            self.path matches Some(p) ==> expansion_of(p@, res),
    {
        match &self.path {
            None => None,
            Some(p) => expand(p.as_str()),
        }
    }

    /// The prefix in use. `existing_dir` is the expanded configured path
    /// when it names an existing directory; it counts only when a path is
    /// configured. Otherwise the default prefix below `home` is used.
    pub fn resolved_path(&self, home: &str, existing_dir: Option<String>) -> (res: String)
        ensures
            res@ == (match (self.path, existing_dir) {
                (Some(_), Some(d)) => migrate_prefix(d@),
                _ => default_prefix_path(home@),
            }),
    {
        match (&self.path, existing_dir) {
            (Some(_), Some(d)) => {
                let name = file_name(d.as_str());
                let is_drive_c = match &name {
                    Some(n) => str_eq(n.as_str(), "drive_c") || str_eq(n.as_str(), "Drive_C"),
                    None => false,
                };
                if is_drive_c {
                    match parent(d.as_str()) {
                        Some(q) => q,
                        None => d,
                    }
                } else {
                    d
                }
            },
            _ => Self::default_path(home),
        }
    }
}

impl ProtonConfig {
    /// The configured Proton path with `~` and `$VAR` expanded.
    pub fn expanded_path(&self) -> (res: Option<String>)
        ensures
            self.path is None ==> res is None,
            self.path matches Some(p) ==> expansion_of(p@, res),
    {
        match &self.path {
            None => None,
            Some(p) => expand(p.as_str()),
        }
    }

    /// Proton is configured when a path is set, it expands, and
    /// `is_directory` says that the expanded path canonicalises to an
    /// existing directory. Which path that is depends on the environment,
    /// so a path with `$` in it is settled by the expansion.
    pub fn is_configured(&self, is_directory: bool) -> (b: bool)
        ensures
            self.path is None ==> !b,
            b ==> is_directory,
            (self.path matches Some(p) && !p@.contains('$')) ==> b == is_directory,
    {
        match self.expanded_path() {
            Some(_) => is_directory,
            None => false,
        }
    }
}

/// Where the configuration file lives below `home`.
pub open spec fn default_config_path(home: Seq<char>) -> Seq<char> {
    join_path(join_path(home, ".config/sekiro-launcher"@), "config.toml"@)
}

/// One field of a TOML document, as the tolerant loader reads it.
pub enum TomlField {
    /// The document does not parse, the section is not a table, or the key
    /// is absent.
    Missing,
    Text(String),
    /// An array, each element as text when it is a string.
    List(Vec<Option<String>>),
    /// Any other kind of value.
    Other,
}

/// The model of a `TomlField`.
pub enum TomlFieldView {
    Missing,
    Text(Seq<char>),
    List(Seq<Option<Seq<char>>>),
    Other,
}

/// The text of an optional string.
pub open spec fn opt_view(o: Option<String>) -> Option<Seq<char>> {
    match o {
        Some(s) => Some(s@),
        None => None,
    }
}

/// The texts of optional strings, in order.
pub open spec fn opt_views(items: Seq<Option<String>>) -> Seq<Option<Seq<char>>> {
    items.map_values(|o: Option<String>| opt_view(o))
}

impl View for TomlField {
    type V = TomlFieldView;

    open spec fn view(&self) -> TomlFieldView {
        match self {
            TomlField::Missing => TomlFieldView::Missing,
            TomlField::Text(s) => TomlFieldView::Text(s@),
            TomlField::List(v) => TomlFieldView::List(opt_views(v@)),
            TomlField::Other => TomlFieldView::Other,
        }
    }
}

/// What the `toml` crate reads at `[section] key` of the document `content`.
pub uninterp spec fn toml_field(content: Seq<char>, section: Seq<char>, key: Seq<char>) -> TomlFieldView;

/// Parses `content` with `toml::from_str` into a `toml::Value` and reads
/// the value at `section`, then `key`, telling its kind apart. The result is
/// named, not stated: it is what the `toml` parser reads there.
#[verifier::external_body]
fn lookup_toml_field(content: &str, section: &str, key: &str) -> (res: TomlField)
    ensures
        res@ == toml_field(content@, section@, key@),
{
    let doc: Option<toml::Value> = toml::from_str(content).ok();
    let table = doc.as_ref().and_then(|d| d.get(section)).and_then(|s| s.as_table());
    match table.and_then(|t| t.get(key)) {
        None => TomlField::Missing,
        Some(toml::Value::String(s)) => TomlField::Text(s.clone()),
        Some(toml::Value::Array(a)) => TomlField::List(a.iter().map(|v| v.as_str().map(String::from)).collect()),
        Some(_) => TomlField::Other,
    }
}

/// The text entries of a TOML array, in order.
pub open spec fn texts_of(items: Seq<Option<Seq<char>>>) -> Seq<Seq<char>>
    decreases items.len(),
{
    if items.len() == 0 {
        Seq::empty()
    } else {
        match items.last() {
            Some(s) => texts_of(items.drop_last()).push(s),
            None => texts_of(items.drop_last()),
        }
    }
}

/// The text of a field, when it is text.
pub open spec fn field_text(f: TomlFieldView) -> Option<Seq<char>> {
    match f {
        TomlFieldView::Text(s) => Some(s),
        _ => None,
    }
}

/// The text entries of a field, when it is an array; empty otherwise.
pub open spec fn field_texts(f: TomlFieldView) -> Seq<Seq<char>> {
    match f {
        TomlFieldView::List(items) => texts_of(items),
        _ => Seq::empty(),
    }
}

/// The texts of strings, in order.
pub open spec fn strings_view(v: Seq<String>) -> Seq<Seq<char>> {
    v.map_values(|s: String| s@)
}

/// The text entries of `items`, in order.
fn collect_texts(items: Vec<Option<String>>) -> (res: Vec<String>)
    ensures
        strings_view(res@) == texts_of(opt_views(items@)),
{
    let mut out: Vec<String> = Vec::new();
    let mut i: usize = 0;
    let ghost model = opt_views(items@);
    while i < items.len()
        invariant
            i <= items@.len(),
            model == opt_views(items@),
            strings_view(out@) == texts_of(model.take(i as int)),
        decreases items.len() - i,
    {
        assert(model.take(i + 1).drop_last() =~= model.take(i as int));
        assert(model.take(i + 1).last() == opt_view(items@[i as int]));
        match &items[i] {
            Some(s) => {
                let ghost before = out@;
                out.push(s.clone());
                assert(strings_view(out@) =~= strings_view(before).push(s@));
            },
            None => {},
        }
        i = i + 1;
    }
    assert(model.take(items@.len() as int) =~= model);
    out
}

impl Config {
    /// `self` holds what the tolerant loader reads from the document
    /// `content`, and defaults elsewhere.
    pub open spec fn merged_from(&self, content: Seq<char>) -> bool {
        &&& opt_view(self.proton.path) == field_text(toml_field(content, "proton"@, "path"@))
        &&& opt_view(self.game_prefix.path) == field_text(toml_field(content, "game_prefix"@, "path"@))
        &&& strings_view(self.tools.selected@) == field_texts(toml_field(content, "tools"@, "selected"@))
        &&& strings_view(self.tools.visible@) == field_texts(toml_field(content, "tools"@, "visible"@))
        &&& self.game_directories.directories@.len() == 0
        &&& self.game_directories.selected is None
    }

    /// A document from which the tolerant loader can read nothing (as one
    /// that is not TOML at all, where every field is missing) gives the
    /// default configuration.
    pub proof fn lemma_unreadable_gives_default(&self, content: Seq<char>)
        requires
            self.merged_from(content),
            toml_field(content, "proton"@, "path"@) is Missing,
            toml_field(content, "game_prefix"@, "path"@) is Missing,
            toml_field(content, "tools"@, "selected"@) is Missing,
            toml_field(content, "tools"@, "visible"@) is Missing,
        ensures
            self.is_default(),
    {
        assert(strings_view(self.tools.selected@).len() == self.tools.selected@.len());
        assert(strings_view(self.tools.visible@).len() == self.tools.visible@.len());
    }

    /// Where the configuration file lives below the home directory `home`.
    pub fn default_path(home: &str) -> (res: String)
        ensures
            res@ == default_config_path(home@),
    {
        let dir = join(home, ".config/sekiro-launcher");
        join(dir.as_str(), "config.toml")
    }

    /// Where saving writes the configuration for the home directory `home`:
    /// the directory to create first, and the file. The file's content is
    /// the TOML form of `self`.
    pub fn save(&self, home: &str) -> (res: (Option<String>, String))
        ensures
            res.1@ == default_config_path(home@),
            match res.0 {
                Some(d) => parent_of(default_config_path(home@)) == Some(d@),
                None => parent_of(default_config_path(home@)) is None,
            },
    {
        let file = Self::default_path(home);
        (parent(file.as_str()), file)
    }

    /// The configuration read from a file whose strict parse failed: the
    /// Proton path, the prefix path and the tool lists are taken where the
    /// document has them with the right kind; everything else, the game
    /// directories among it, keeps its default. A document that does not
    /// parse gives the default configuration.
    pub fn merge_partial(content: &str) -> (res: Config)
        ensures
            res.merged_from(content@),
    {
        let mut config = Config::default();
        if let TomlField::Text(p) = lookup_toml_field(content, "proton", "path") {
            config.proton.path = Some(p);
        }
        if let TomlField::Text(p) = lookup_toml_field(content, "game_prefix", "path") {
            config.game_prefix.path = Some(p);
        }
        let sel = lookup_toml_field(content, "tools", "selected");
        if let TomlField::List(items) = sel {
            config.tools.selected = collect_texts(items);
        } else {
            assert(strings_view(config.tools.selected@) =~= Seq::<Seq<char>>::empty());
        }
        let vis = lookup_toml_field(content, "tools", "visible");
        if let TomlField::List(items) = vis {
            config.tools.visible = collect_texts(items);
        } else {
            assert(strings_view(config.tools.visible@) =~= Seq::<Seq<char>>::empty());
        }
        config
    }

    /// The configuration to start with. `content` is the configuration
    /// file's text, `None` when there is no file; `parsed` is the strict
    /// parse of that text, `None` when it failed. A missing file gives the
    /// default configuration, a strict parse wins, and otherwise what can be
    /// read is merged into the defaults.
    pub fn load(content: Option<String>, parsed: Option<Config>) -> (res: Config)
        ensures
            content is None ==> res.is_default(),
            content is Some && parsed is Some ==> res == parsed->0,
            (content is Some && parsed is None) ==> res.merged_from(content->0@),
    {
        match content {
            None => Config::default(),
            Some(c) => match parsed {
                Some(p) => p,
                None => Config::merge_partial(c.as_str()),
            },
        }
    }
}

} // verus!
