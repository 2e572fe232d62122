//! The tool selection kept in the configuration, and the texts that report
//! a setup run: which tools are picked, toggling a tool, and the log lines
//! of the results.
use vstd::prelude::*;
use crate::config::{strings_view, copy_string};
use crate::manifest::ToolEntry;
use crate::tools::ToolSetupResult;
use crate::text::{str_eq, join2, join3, decimal, decimal_string};

verus! {

/// `s` is among the texts `v`.
pub fn contains_str(v: &Vec<String>, s: &str) -> (b: bool)
    ensures
        b == strings_view(v@).contains(s@),
{
    let mut i: usize = 0;
    while i < v.len()
        invariant
            i <= v@.len(),
            forall|j: int| 0 <= j < i ==> v@[j]@ != s@,
        decreases v.len() - i,
    {
        if str_eq(v[i].as_str(), s) {
            assert(strings_view(v@)[i as int] == s@);
            return true;
        }
        i = i + 1;
    }
    assert(!strings_view(v@).contains(s@)) by {
        assert forall|j: int| 0 <= j < strings_view(v@).len() implies strings_view(v@)[j] != s@ by {
            assert(strings_view(v@)[j] == v@[j]@);
        }
    }
    false
}

/// `s` without any entry equal to `x`, the others in order.
pub open spec fn without(s: Seq<Seq<char>>, x: Seq<char>) -> Seq<Seq<char>>
    decreases s.len(),
{
    if s.len() == 0 {
        Seq::empty()
    } else if s.last() == x {
        without(s.drop_last(), x)
    } else {
        without(s.drop_last(), x).push(s.last())
    }
}

/// The selection after toggling `x`: a selected tool is taken out (every
/// entry of it), any other is added at the end.
pub open spec fn toggled(s: Seq<Seq<char>>, x: Seq<char>) -> Seq<Seq<char>> {
    if s.contains(x) {
        without(s, x)
    } else {
        s.push(x)
    }
}

/// No entry of `s` occurs twice.
pub open spec fn no_duplicates(s: Seq<Seq<char>>) -> bool {
    forall|i: int, j: int| 0 <= i < j < s.len() ==> s[i] != s[j]
}

/// What `without` keeps is in `s` and is not `x`.
pub proof fn lemma_without_within(s: Seq<Seq<char>>, x: Seq<char>)
    ensures
        forall|y: Seq<char>| #[trigger] without(s, x).contains(y) ==> s.contains(y) && y != x,
        !without(s, x).contains(x),
    decreases s.len(),
{
    if s.len() > 0 {
        lemma_without_within(s.drop_last(), x);
        assert forall|y: Seq<char>| #[trigger] without(s, x).contains(y) implies s.contains(y) && y != x by {
            let w = without(s.drop_last(), x);
            if s.last() != x && y == s.last() {
                assert(s[s.len() - 1] == y);
            } else {
                let k = choose|k: int| 0 <= k < without(s, x).len() && without(s, x)[k] == y;
                if s.last() != x {
                    assert(k < w.len());
                    assert(w[k] == y);
                }
                assert(w.contains(y));
                let m = choose|m: int| 0 <= m < s.drop_last().len() && s.drop_last()[m] == y;
                assert(s[m] == y);
            }
        }
    }
}

/// Taking out a text that `s` does not hold leaves `s` as it is.
pub proof fn lemma_without_absent(s: Seq<Seq<char>>, x: Seq<char>)
    requires
        !s.contains(x),
    ensures
        without(s, x) == s,
    decreases s.len(),
{
    if s.len() > 0 {
        assert(!s.drop_last().contains(x)) by {
            if s.drop_last().contains(x) {
                let k = choose|k: int| 0 <= k < s.drop_last().len() && s.drop_last()[k] == x;
                assert(s[k] == x);
            }
        }
        lemma_without_absent(s.drop_last(), x);
        assert(s.last() != x) by {
            assert(s[s.len() - 1] == s.last());
        }
        assert(s.drop_last().push(s.last()) =~= s);
    }
}

/// Taking a text out keeps a selection free of duplicates.
pub proof fn lemma_without_no_duplicates(s: Seq<Seq<char>>, x: Seq<char>)
    requires
        no_duplicates(s),
    ensures
        no_duplicates(without(s, x)),
    decreases s.len(),
{
    if s.len() > 0 {
        let d = s.drop_last();
        assert(no_duplicates(d)) by {
            assert forall|i: int, j: int| 0 <= i < j < d.len() implies d[i] != d[j] by {
                assert(d[i] == s[i] && d[j] == s[j]);
            }
        }
        lemma_without_no_duplicates(d, x);
        if s.last() != x {
            lemma_without_within(d, x);
            let w = without(d, x);
            assert(!w.contains(s.last())) by {
                if w.contains(s.last()) {
                    assert(d.contains(s.last()));
                    let k = choose|k: int| 0 <= k < d.len() && d[k] == s.last();
                    assert(s[k] == s[s.len() - 1]);
                }
            }
            let p = w.push(s.last());
            assert forall|i: int, j: int| 0 <= i < j < p.len() implies p[i] != p[j] by {
                if j == p.len() - 1 {
                    assert(p[i] == w[i]);
                    assert(w.contains(w[i]));
                }
            }
        }
    }
}

/// Toggling keeps a selection free of duplicates.
pub proof fn lemma_toggled_no_duplicates(s: Seq<Seq<char>>, x: Seq<char>)
    requires
        no_duplicates(s),
    ensures
        no_duplicates(toggled(s, x)),
{
    if s.contains(x) {
        lemma_without_no_duplicates(s, x);
    } else {
        let p = s.push(x);
        assert forall|i: int, j: int| 0 <= i < j < p.len() implies p[i] != p[j] by {
            if j == p.len() - 1 {
                assert(p[i] == s[i]);
            }
        }
    }
}

/// Toggling a tool flips whether it is selected.
pub proof fn lemma_toggled_flips(s: Seq<Seq<char>>, x: Seq<char>)
    ensures
        toggled(s, x).contains(x) == !s.contains(x),
{
    if s.contains(x) {
        lemma_without_within(s, x);
    } else {
        assert(s.push(x)[s.len() as int] == x);
    }
}

/// Toggling a tool that is not selected twice gives the selection back.
pub proof fn lemma_toggle_twice(s: Seq<Seq<char>>, x: Seq<char>)
    requires
        !s.contains(x),
    ensures
        toggled(toggled(s, x), x) == s,
{
    assert(s.push(x)[s.len() as int] == x);
    assert(s.push(x).drop_last() =~= s);
    lemma_without_absent(s, x);
}

/// The selection `sel` after toggling `slug`.
pub fn toggle_slug(sel: &mut Vec<String>, slug: String)
    ensures
        strings_view(final(sel)@) == toggled(strings_view(old(sel)@), slug@),
{
    if contains_str(sel, slug.as_str()) {
        let ghost model = strings_view(sel@);
        let mut out: Vec<String> = Vec::new();
        let mut i: usize = 0;
        while i < sel.len()
            invariant
                i <= sel@.len(),
                model == strings_view(sel@),
                strings_view(out@) == without(model.take(i as int), slug@),
            decreases sel.len() - i,
        {
            assert(model.take(i + 1).drop_last() =~= model.take(i as int));
            assert(model.take(i + 1).last() == sel@[i as int]@);
            if !str_eq(sel[i].as_str(), slug.as_str()) {
                let ghost before = out@;
                out.push(copy_string(&sel[i]));
                assert(strings_view(out@) =~= strings_view(before).push(sel@[i as int]@));
            }
            i = i + 1;
        }
        assert(model.take(sel@.len() as int) =~= model);
        *sel = out;
    } else {
        let ghost before = sel@;
        sel.push(slug);
        assert(strings_view(sel@) =~= strings_view(before).push(slug@));
    }
}

/// The tools of `tools` that the selection `sel` holds, in order.
pub open spec fn picked(tools: Seq<ToolEntry>, sel: Seq<Seq<char>>) -> Seq<ToolEntry>
    decreases tools.len(),
{
    if tools.len() == 0 {
        Seq::empty()
    } else if sel.contains(tools.last().slug@) {
        picked(tools.drop_last(), sel).push(tools.last())
    } else {
        picked(tools.drop_last(), sel)
    }
}

/// The tools of `tools` that the selection `sel` holds.
pub fn selected_tools(tools: &Vec<ToolEntry>, sel: &Vec<String>) -> (res: Vec<ToolEntry>)
    ensures
        res@ == picked(tools@, strings_view(sel@)),
{
    let mut out: Vec<ToolEntry> = Vec::new();
    let mut i: usize = 0;
    while i < tools.len()
        invariant
            i <= tools@.len(),
            out@ == picked(tools@.take(i as int), strings_view(sel@)),
        decreases tools.len() - i,
    {
        assert(tools@.take(i + 1).drop_last() =~= tools@.take(i as int));
        assert(tools@.take(i + 1).last() == tools@[i as int]);
        if contains_str(sel, tools[i].slug.as_str()) {
            out.push(tools[i].clone());
        }
        i = i + 1;
    }
    assert(tools@.take(tools@.len() as int) =~= tools@);
    out
}

/// How many tools of `tools` the selection `sel` holds.
pub fn count_selected(tools: &Vec<ToolEntry>, sel: &Vec<String>) -> (n: usize)
    ensures
        n == picked(tools@, strings_view(sel@)).len(),
{
    let mut n: usize = 0;
    let mut i: usize = 0;
    while i < tools.len()
        invariant
            i <= tools@.len(),
            n == picked(tools@.take(i as int), strings_view(sel@)).len(),
            n <= i,
        decreases tools.len() - i,
    {
        assert(tools@.take(i + 1).drop_last() =~= tools@.take(i as int));
        assert(tools@.take(i + 1).last() == tools@[i as int]);
        if contains_str(sel, tools[i].slug.as_str()) {
            n = n + 1;
        }
        i = i + 1;
    }
    assert(tools@.take(tools@.len() as int) =~= tools@);
    n
}

/// The tools to install: those of `candidates` that `sel` holds and that
/// are not installed yet (the flag beside each tool), in order.
pub open spec fn to_install(candidates: Seq<(ToolEntry, bool)>, sel: Seq<Seq<char>>) -> Seq<ToolEntry>
    decreases candidates.len(),
{
    if candidates.len() == 0 {
        Seq::empty()
    } else if sel.contains(candidates.last().0.slug@) && !candidates.last().1 {
        to_install(candidates.drop_last(), sel).push(candidates.last().0)
    } else {
        to_install(candidates.drop_last(), sel)
    }
}

/// The selected tools of `candidates` that are not installed yet.
pub fn tools_to_install(candidates: &Vec<(ToolEntry, bool)>, sel: &Vec<String>) -> (res: Vec<ToolEntry>)
    ensures
        res@ == to_install(candidates@, strings_view(sel@)),
{
    let mut out: Vec<ToolEntry> = Vec::new();
    let mut i: usize = 0;
    while i < candidates.len()
        invariant
            i <= candidates@.len(),
            out@ == to_install(candidates@.take(i as int), strings_view(sel@)),
        decreases candidates.len() - i,
    {
        assert(candidates@.take(i + 1).drop_last() =~= candidates@.take(i as int));
        assert(candidates@.take(i + 1).last() == candidates@[i as int]);
        let (tool, installed) = &candidates[i];
        if contains_str(sel, tool.slug.as_str()) && !*installed {
            out.push(tool.clone());
        }
        i = i + 1;
    }
    assert(candidates@.take(candidates@.len() as int) =~= candidates@);
    out
}

/// Whether the candidate `p` is to be installed: selected and not
/// installed.
pub open spec fn wanted(sel: Seq<Seq<char>>, p: (ToolEntry, bool)) -> bool {
    sel.contains(p.0.slug@) && !p.1
}

/// The tools to install are exactly the wanted candidates, each once and in
/// the candidates' order: keeping each wanted candidate's tool and dropping
/// the rest of the candidates gives them; every wanted candidate's tool is
/// among them; and each of them is the tool of a wanted candidate.
pub proof fn lemma_to_install_is_wanted(candidates: Seq<(ToolEntry, bool)>, sel: Seq<Seq<char>>)
    ensures
        to_install(candidates, sel) == candidates.filter_map(
            |p: (ToolEntry, bool)|
                if wanted(sel, p) {
                    Some(p.0)
                } else {
                    None
                },
        ),
        forall|i: int|
            0 <= i < candidates.len() && wanted(sel, #[trigger] candidates[i]) ==> to_install(candidates, sel).contains(
                candidates[i].0,
            ),
        forall|j: int|
            0 <= j < to_install(candidates, sel).len() ==> exists|i: int|
                0 <= i < candidates.len() && wanted(sel, #[trigger] candidates[i]) && candidates[i].0
                    == #[trigger] to_install(candidates, sel)[j],
    decreases candidates.len(),
{
    if candidates.len() > 0 {
        let rest = candidates.drop_last();
        lemma_to_install_is_wanted(rest, sel);
        let r = to_install(rest, sel);
        let t = to_install(candidates, sel);
        assert forall|i: int|
            0 <= i < candidates.len() && wanted(sel, #[trigger] candidates[i]) implies t.contains(candidates[i].0) by {
            if i < candidates.len() - 1 {
                assert(rest[i] == candidates[i]);
                let k = choose|k: int| 0 <= k < r.len() && r[k] == candidates[i].0;
                assert(t[k] == r[k]);
            } else {
                assert(t[t.len() - 1] == candidates[i].0);
            }
        }
        assert forall|j: int| 0 <= j < t.len() implies exists|i: int|
            0 <= i < candidates.len() && wanted(sel, #[trigger] candidates[i]) && candidates[i].0 == #[trigger] t[j] by {
            if j < r.len() {
                assert(t[j] == r[j]);
                let i = choose|i: int| 0 <= i < rest.len() && wanted(sel, #[trigger] rest[i]) && rest[i].0 == r[j];
                assert(candidates[i] == rest[i]);
            } else {
                assert(candidates[candidates.len() - 1] == candidates.last());
            }
        }
    }
}

/// The log line of one setup result: `✓ name`, or `✗ name: reason` with
/// `unknown` when no reason was given.
pub open spec fn result_line(r: ToolSetupResult) -> Seq<char> {
    if r.success {
        "✓ "@ + r.name@
    } else {
        "✗ "@ + r.name@ + ": "@ + match r.error {
            Some(e) => e@,
            None => "unknown"@,
        }
    }
}

/// The log lines of `rs`, one per result.
pub open spec fn result_lines(rs: Seq<ToolSetupResult>) -> Seq<Seq<char>> {
    rs.map_values(|r: ToolSetupResult| result_line(r))
}

/// How many of `rs` succeeded.
pub open spec fn successes(rs: Seq<ToolSetupResult>) -> nat
    decreases rs.len(),
{
    if rs.len() == 0 {
        0
    } else {
        successes(rs.drop_last()) + if rs.last().success { 1nat } else { 0nat }
    }
}

/// The last line of a setup report.
pub open spec fn summary_line(succeeded: nat, total: nat) -> Seq<char> {
    "Setup complete: "@ + decimal(succeeded) + "/"@ + decimal(total) + " succeeded."@
}

/// The lines a finished setup run adds to the log: one per result, then
/// the count of those that succeeded.
pub open spec fn setup_report(rs: Seq<ToolSetupResult>) -> Seq<Seq<char>> {
    result_lines(rs).push(summary_line(successes(rs), rs.len()))
}

/// The log line of `r`.
pub fn result_line_of(r: &ToolSetupResult) -> (res: String)
    ensures
        res@ == result_line(*r),
{
    if r.success {
        proof {
            reveal_strlit("✓ ");
        }
        join2("✓ ", r.name.as_str())
    } else {
        let reason = match &r.error {
            Some(e) => e.clone(),
            None => String::from_str("unknown"),
        };
        let head = join3("✗ ", r.name.as_str(), ": ");
        head.concat(reason.as_str())
    }
}

/// The summary line for `succeeded` of `total` results.
pub fn summary_text(succeeded: usize, total: usize) -> (res: String)
    ensures
        res@ == summary_line(succeeded as nat, total as nat),
{
    let a = decimal_string(succeeded as u64);
    let b = decimal_string(total as u64);
    let s = join3("Setup complete: ", a.as_str(), "/");
    join3(s.as_str(), b.as_str(), " succeeded.")
}

/// The lines that report the setup results `rs`.
pub fn setup_report_lines(rs: &Vec<ToolSetupResult>) -> (res: Vec<String>)
    ensures
        strings_view(res@) == setup_report(rs@),
{
    let mut out: Vec<String> = Vec::new();
    let mut ok: usize = 0;
    let mut i: usize = 0;
    while i < rs.len()
        invariant
            i <= rs@.len(),
            ok == successes(rs@.take(i as int)),
            ok <= i,
            strings_view(out@) == result_lines(rs@.take(i as int)),
        decreases rs.len() - i,
    {
        proof {
            assert(rs@.take(i + 1).drop_last() =~= rs@.take(i as int));
            assert(rs@.take(i + 1).last() == rs@[i as int]);
            assert(result_lines(rs@.take(i + 1)) =~= result_lines(rs@.take(i as int)).push(
                result_line(rs@[i as int]),
            ));
        }
        let line = result_line_of(&rs[i]);
        let ghost before = out@;
        out.push(line);
        assert(strings_view(out@) =~= strings_view(before).push(line@));
        if rs[i].success {
            ok = ok + 1;
        }
        i = i + 1;
    }
    assert(rs@.take(rs@.len() as int) =~= rs@);
    let s = summary_text(ok, rs.len());
    let ghost before = out@;
    out.push(s);
    assert(strings_view(out@) =~= strings_view(before).push(s@));
    out
}

} // verus!
