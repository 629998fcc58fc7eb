//! In-memory registry of subagent definitions, keyed by name.

use vstd::prelude::*;
use vstd::string::*;

use crate::error::{prefixed, MiniMaxError};
use crate::lexorder::{compare_str, lex_lt, lemma_lex_lt_irreflexive, lemma_lex_lt_transitive, StrOrder};
use super::types::{validation_failure, SubagentDef, SubagentSummary};

verus! {

/// Names strictly increase along the sequence (so no name occurs twice).
pub open spec fn sorted_names(s: Seq<SubagentDef>) -> bool {
    forall|i: int, j: int| 0 <= i < j < s.len() ==> lex_lt(#[trigger] s[i].name@, #[trigger] s[j].name@)
}

/// Some entry of `s` has the name `k`.
pub open spec fn has_name(s: Seq<SubagentDef>, k: Seq<char>) -> bool {
    exists|i: int| 0 <= i < s.len() && #[trigger] s[i].name@ == k
}

/// An index of `s` whose entry has the name `k`.
pub open spec fn index_of_name(s: Seq<SubagentDef>, k: Seq<char>) -> int {
    choose|i: int| 0 <= i < s.len() && #[trigger] s[i].name@ == k
}

/// The definitions of `s` keyed by name.
pub open spec fn defs_map(s: Seq<SubagentDef>) -> Map<Seq<char>, SubagentDef> {
    Map::new(|k: Seq<char>| has_name(s, k), |k: Seq<char>| s[index_of_name(s, k)])
}

/// In a sorted sequence, two entries with the same name are the same entry.
pub proof fn lemma_sorted_unique(s: Seq<SubagentDef>, i: int, j: int)
    requires
        sorted_names(s),
        0 <= i < s.len(),
        0 <= j < s.len(),
        s[i].name@ == s[j].name@,
    ensures
        i == j,
{
    lemma_lex_lt_irreflexive(s[i].name@);
    if i < j {
        assert(lex_lt(s[i].name@, s[j].name@));
    } else if j < i {
        assert(lex_lt(s[j].name@, s[i].name@));
    }
}

/// In a sorted sequence, the entry found under a present name is the one at its index.
pub proof fn lemma_defs_map_at(s: Seq<SubagentDef>, i: int)
    requires
        sorted_names(s),
        0 <= i < s.len(),
    ensures
        defs_map(s).contains_key(s[i].name@),
        defs_map(s)[s[i].name@] == s[i],
{
    let k = s[i].name@;
    assert(has_name(s, k));
    let j = index_of_name(s, k);
    lemma_sorted_unique(s, i, j);
}

/// A file of subagent definitions as read from disk: its path, and either the
/// definition it holds or the reason it could not be parsed.
#[derive(Debug)]
pub struct SubagentSource {
    pub path: String,
    pub parsed: Result<SubagentDef, String>,
}

/// Some file before `i` parsed into a definition named `name`.
pub open spec fn defined_before(files: Seq<SubagentSource>, i: int, name: Seq<char>) -> bool {
    exists|j: int| 0 <= j < i && (#[trigger] files[j].parsed) is Ok && files[j].parsed->Ok_0.name@ == name
}

/// Why file `i` of `files` is refused, if it is: it did not parse, it does not
/// validate, or an earlier file already defined its name.
pub open spec fn source_failure(files: Seq<SubagentSource>, i: int) -> Option<Seq<char>> {
    let f = files[i];
    match f.parsed {
        Err(e) => Some("failed to parse "@ + f.path@ + ": "@ + e@),
        Ok(d) => match validation_failure(d.name@, d.description@, d.system@) {
            Some(e) => Some("invalid subagent config in "@ + f.path@ + ": "@ + e),
            None => if defined_before(files, i, d.name@) {
                Some("duplicate subagent name '"@ + d.name@ + "' (in (earlier file) and "@ + f.path@ + ")"@)
            } else {
                None
            },
        },
    }
}

/// File `i` is the first one refused.
pub open spec fn first_failure(files: Seq<SubagentSource>, i: int) -> bool {
    &&& 0 <= i < files.len()
    &&& source_failure(files, i) is Some
    &&& forall|j: int| 0 <= j < i ==> (#[trigger] source_failure(files, j)) is None
}

/// The definitions of the first `n` files keyed by name (for files that all parsed).
pub open spec fn sources_map(files: Seq<SubagentSource>, n: int) -> Map<Seq<char>, SubagentDef>
    decreases n,
{
    if n <= 0 {
        Map::empty()
    } else {
        let d = files[n - 1].parsed->Ok_0;
        sources_map(files, n - 1).insert(d.name@, d)
    }
}

/// When no file of the first `n` is refused, their map holds exactly their names, each
/// with its own file's definition.
proof fn lemma_sources_map_holds(files: Seq<SubagentSource>, n: int)
    requires
        0 <= n <= files.len(),
        forall|i: int| 0 <= i < n ==> (#[trigger] source_failure(files, i)) is None,
    ensures
        forall|i: int| 0 <= i < n ==> sources_map(files, n).contains_key(#[trigger] files[i].parsed->Ok_0.name@)
            && sources_map(files, n)[files[i].parsed->Ok_0.name@] == files[i].parsed->Ok_0,
        forall|k: Seq<char>| #[trigger] sources_map(files, n).contains_key(k) ==> exists|i: int|
            0 <= i < n && files[i].parsed->Ok_0.name@ == k,
    decreases n,
{
    if n > 0 {
        lemma_sources_map_holds(files, n - 1);
        let d = files[n - 1].parsed->Ok_0;
        assert(source_failure(files, n - 1) is None);
        assert(files[n - 1].parsed is Ok);
        assert(!defined_before(files, n - 1, d.name@));
        assert forall|i: int| 0 <= i < n implies sources_map(files, n).contains_key(
            #[trigger] files[i].parsed->Ok_0.name@,
        ) && sources_map(files, n)[files[i].parsed->Ok_0.name@] == files[i].parsed->Ok_0 by {
            if i < n - 1 {
                assert(source_failure(files, i) is None);
                assert(files[i].parsed is Ok);
                if files[i].parsed->Ok_0.name@ == d.name@ {
                    assert(defined_before(files, n - 1, d.name@));
                }
            }
        }
        assert forall|k: Seq<char>| #[trigger] sources_map(files, n).contains_key(k) implies exists|i: int|
            0 <= i < n && files[i].parsed->Ok_0.name@ == k by {
            if k != d.name@ {
                assert(sources_map(files, n - 1).contains_key(k));
            }
        }
    }
}

/// A successful load holds every file's definition under its name and nothing else, so
/// the map depends only on the files themselves, not on the order in which they come.
pub proof fn law_load_holds_every_file(files: Seq<SubagentSource>)
    requires
        forall|i: int| 0 <= i < files.len() ==> (#[trigger] source_failure(files, i)) is None,
    ensures
        forall|i: int| 0 <= i < files.len() ==> sources_map(files, files.len() as int).contains_key(
            #[trigger] files[i].parsed->Ok_0.name@,
        ) && sources_map(files, files.len() as int)[files[i].parsed->Ok_0.name@] == files[i].parsed->Ok_0,
        forall|k: Seq<char>| #[trigger] sources_map(files, files.len() as int).contains_key(k) ==> exists|i: int|
            0 <= i < files.len() && files[i].parsed->Ok_0.name@ == k,
{
    lemma_sources_map_holds(files, files.len() as int);
}

/// When no file of the first `n` is refused, their map has one entry per file, and each
/// entry is a valid definition kept under its own name.
proof fn lemma_sources_map_count(files: Seq<SubagentSource>, n: int)
    requires
        0 <= n <= files.len(),
        forall|i: int| 0 <= i < n ==> (#[trigger] source_failure(files, i)) is None,
    ensures
        sources_map(files, n).dom().finite(),
        sources_map(files, n).dom().len() == n,
        forall|k: Seq<char>| #[trigger] sources_map(files, n).contains_key(k) ==> {
            let d = sources_map(files, n)[k];
            &&& d.name@ == k
            &&& validation_failure(d.name@, d.description@, d.system@) is None
        },
    decreases n,
{
    if n > 0 {
        lemma_sources_map_count(files, n - 1);
        lemma_sources_map_holds(files, n - 1);
        let d = files[n - 1].parsed->Ok_0;
        assert(source_failure(files, n - 1) is None);
        assert(files[n - 1].parsed is Ok);
        assert(!defined_before(files, n - 1, d.name@));
        if sources_map(files, n - 1).contains_key(d.name@) {
            let i = choose|i: int| 0 <= i < n - 1 && files[i].parsed->Ok_0.name@ == d.name@;
            assert(source_failure(files, i) is None);
            assert(files[i].parsed is Ok);
            assert(defined_before(files, n - 1, d.name@));
        }
        assert(sources_map(files, n).dom() =~= sources_map(files, n - 1).dom().insert(d.name@));
    }
}

/// A successful load has one entry per definition file, and each entry is a valid
/// definition found under its own name.
pub proof fn law_load_one_entry_per_file(files: Seq<SubagentSource>)
    requires
        forall|i: int| 0 <= i < files.len() ==> (#[trigger] source_failure(files, i)) is None,
    ensures
        sources_map(files, files.len() as int).dom().finite(),
        sources_map(files, files.len() as int).dom().len() == files.len(),
        forall|k: Seq<char>| #[trigger] sources_map(files, files.len() as int).contains_key(k) ==> {
            let d = sources_map(files, files.len() as int)[k];
            &&& d.name@ == k
            &&& validation_failure(d.name@, d.description@, d.system@) is None
        },
{
    lemma_sources_map_count(files, files.len() as int);
}

/// In-memory registry of subagents, found by name and listed in name order.
#[derive(Debug)]
pub struct SubagentRegistry {
    subagents: Vec<SubagentDef>,
}

impl View for SubagentRegistry {
    type V = Map<Seq<char>, SubagentDef>;

    /// The definitions, keyed by name.
    closed spec fn view(&self) -> Map<Seq<char>, SubagentDef> {
        defs_map(self.subagents@)
    }
}

impl SubagentRegistry {
    /// The registry's internal order is consistent: names strictly increase.
    pub closed spec fn wf(&self) -> bool {
        sorted_names(self.subagents@)
    }

    /// The definitions in name order.
    pub closed spec fn entries(&self) -> Seq<SubagentDef> {
        self.subagents@
    }

    /// The view is the entries keyed by name, and the entries are in strict name order.
    pub proof fn lemma_entries(&self)
        requires
            self.wf(),
        ensures
            sorted_names(self.entries()),
            self@ == defs_map(self.entries()),
    {
    }

    /// An empty registry.
    pub fn empty() -> (r: SubagentRegistry)
        ensures
            r.wf(),
            r@ == Map::<Seq<char>, SubagentDef>::empty(),
            r.entries().len() == 0,
    {
        let r = SubagentRegistry { subagents: Vec::new() };
        assert(r@ =~= Map::<Seq<char>, SubagentDef>::empty());
        r
    }

    /// Builds the registry from the definition files in the order given. The first
    /// file that did not parse, does not validate, or repeats an earlier name stops the
    /// load with a configuration error that names it.
    pub fn load(files: Vec<SubagentSource>) -> (r: Result<SubagentRegistry, MiniMaxError>)
        ensures
            r is Ok <==> (forall|i: int| 0 <= i < files@.len() ==> (#[trigger] source_failure(files@, i)) is None),
            r matches Ok(reg) ==> reg.wf() && reg@ == sources_map(files@, files@.len() as int),
            r matches Err(e) ==> exists|i: int| #[trigger] first_failure(files@, i) && (e matches MiniMaxError::Config(m)
                && Some(m@) == source_failure(files@, i)),
    {
        let ghost fs = files@;
        let mut rest = files;
        let mut reg = SubagentRegistry::empty();
        let n = rest.len();
        let mut i: usize = 0;
        while i < n
            invariant
                fs == files@,
                n == fs.len(),
                i <= n,
                rest@ == fs.skip(i as int),
                reg.wf(),
                reg@ == sources_map(fs, i as int),
                forall|j: int| 0 <= j < i ==> (#[trigger] source_failure(fs, j)) is None,
                forall|j: int| 0 <= j < i ==> (#[trigger] fs[j].parsed) is Ok,
                forall|k: Seq<char>| #[trigger] reg@.contains_key(k) <==> defined_before(fs, i as int, k),
            decreases n - i,
        {
            let f = rest.remove(0);
            assert(f == fs[i as int]);
            let SubagentSource { path, parsed } = f;
            match parsed {
                Err(e) => {
                    let mut m = prefixed("failed to parse ", path.as_str());
                    m.append(": ");
                    m.append(e.as_str());
                    assert(fs[i as int].parsed == Err::<SubagentDef, String>(e));
                    assert(source_failure(fs, i as int) == Some(m@));
                    assert(first_failure(fs, i as int));
                    return Err(MiniMaxError::Config(m));
                },
                Ok(d) => {
                    match d.validate() {
                        Err(e) => {
                            let mut m = prefixed("invalid subagent config in ", path.as_str());
                            m.append(": ");
                            m.append(e.as_str());
                            assert(validation_failure(d.name@, d.description@, d.system@) == Some(e@));
                            assert(source_failure(fs, i as int) == Some(m@));
                            assert(first_failure(fs, i as int));
                            return Err(MiniMaxError::Config(m));
                        },
                        Ok(()) => {},
                    }
                    let name = d.name.clone();
                    let ghost dd = d;
                    let ghost before = reg@;
                    if !reg.insert(d) {
                        let mut m = prefixed("duplicate subagent name '", name.as_str());
                        m.append("' (in (earlier file) and ");
                        m.append(path.as_str());
                        m.append(")");
                        assert(defined_before(fs, i as int, dd.name@));
                        assert(first_failure(fs, i as int));
                        return Err(MiniMaxError::Config(m));
                    }
                    proof {
                        assert(!defined_before(fs, i as int, dd.name@));
                        assert(source_failure(fs, i as int) is None);
                        assert forall|k: Seq<char>| #[trigger] reg@.contains_key(k) <==> defined_before(
                            fs,
                            i + 1,
                            k,
                        ) by {
                            if defined_before(fs, i + 1, k) {
                                let j = choose|j: int| 0 <= j < i + 1 && (#[trigger] fs[j].parsed) is Ok
                                    && fs[j].parsed->Ok_0.name@ == k;
                                if j < i {
                                    assert(defined_before(fs, i as int, k));
                                }
                            }
                            if defined_before(fs, i as int, k) {
                                let j = choose|j: int| 0 <= j < i && (#[trigger] fs[j].parsed) is Ok
                                    && fs[j].parsed->Ok_0.name@ == k;
                                assert(0 <= j < i + 1 && fs[j].parsed is Ok);
                            }
                            if k == dd.name@ {
                                assert(fs[i as int].parsed is Ok);
                            }
                        }
                    }
                },
            }
            i = i + 1;
        }
        Ok(reg)
    }

    /// Looks a subagent up by name.
    pub fn get(&self, name: &str) -> (r: Option<&SubagentDef>)
        requires
            self.wf(),
        ensures
            r is Some <==> self@.contains_key(name@),
            r matches Some(d) ==> *d == self@[name@],
    {
        let n = self.subagents.len();
        let mut i: usize = 0;
        while i < n
            invariant
                n == self.subagents@.len(),
                sorted_names(self.subagents@),
                i <= n,
                forall|j: int| 0 <= j < i ==> (#[trigger] self.subagents@[j]).name@ != name@,
            decreases n - i,
        {
            if compare_str(self.subagents[i].name.as_str(), name) == StrOrder::Equal {
                proof {
                    lemma_defs_map_at(self.subagents@, i as int);
                }
                return Some(&self.subagents[i]);
            }
            i = i + 1;
        }
        None
    }

    /// Adds a definition unless one with the same name is present. Returns whether it
    /// was added; a refused definition leaves the registry as it was.
    pub fn insert(&mut self, def: SubagentDef) -> (added: bool)
        requires
            old(self).wf(),
        ensures
            final(self).wf(),
            added == !old(self)@.contains_key(def.name@),
            added ==> final(self)@ == old(self)@.insert(def.name@, def),
            !added ==> final(self)@ == old(self)@,
            !added ==> final(self).entries() == old(self).entries(),
    {
        let ghost s = self.subagents@;
        let n = self.subagents.len();
        let mut p: usize = 0;
        while p < n
            invariant
                n == s.len(),
                s == self.subagents@,
                sorted_names(s),
                p <= n,
                forall|j: int| 0 <= j < p ==> lex_lt((#[trigger] s[j]).name@, def.name@),
            ensures
                p <= n,
                forall|j: int| 0 <= j < p ==> lex_lt((#[trigger] s[j]).name@, def.name@),
                p < n ==> lex_lt(def.name@, s[p as int].name@),
            decreases n - p,
        {
            let o = compare_str(self.subagents[p].name.as_str(), def.name.as_str());
            if o == StrOrder::Equal {
                proof {
                    assert(has_name(s, def.name@));
                }
                return false;
            } else if o == StrOrder::Greater {
                break;
            }
            p = p + 1;
        }
        proof {
            // No entry has the new name: those before `p` are smaller, those from `p` on larger.
            assert forall|j: int| 0 <= j < s.len() implies (#[trigger] s[j]).name@ != def.name@ by {
                lemma_lex_lt_irreflexive(def.name@);
                lemma_lex_lt_irreflexive(s[j].name@);
                if j >= p as int && p < n {
                    if j > p as int {
                        assert(lex_lt(s[p as int].name@, s[j].name@));
                        lemma_lex_lt_transitive(def.name@, s[p as int].name@, s[j].name@);
                    }
                }
            }
            assert(!has_name(s, def.name@));
        }
        let mut v: Vec<SubagentDef> = Vec::new();
        std::mem::swap(&mut v, &mut self.subagents);
        let ghost d = def;
        v.insert(p, def);
        let ghost t = v@;
        proof {
            assert(t =~= s.insert(p as int, d));
            assert forall|i: int, j: int| 0 <= i < j < t.len() implies lex_lt(
                #[trigger] t[i].name@,
                #[trigger] t[j].name@,
            ) by {
                if i < p && j < p {
                } else if i < p && j == p {
                } else if i < p && j > p {
                    if p < n {
                        assert(lex_lt(s[p as int].name@, s[j - 1].name@) || p as int == j - 1);
                        lemma_lex_lt_transitive(t[i].name@, d.name@, s[p as int].name@);
                        if p as int != j - 1 {
                            lemma_lex_lt_transitive(t[i].name@, s[p as int].name@, s[j - 1].name@);
                        }
                    }
                } else if i == p {
                    if j - 1 > p as int {
                        lemma_lex_lt_transitive(d.name@, s[p as int].name@, s[j - 1].name@);
                    }
                } else {
                }
            }
            assert forall|k: Seq<char>| #[trigger] defs_map(t).contains_key(k) == old(self)@.insert(
                d.name@,
                d,
            ).contains_key(k) by {
                if has_name(t, k) {
                    let j = choose|j: int| 0 <= j < t.len() && #[trigger] t[j].name@ == k;
                    if j < p {
                        assert(s[j].name@ == k);
                    } else if j > p {
                        assert(s[j - 1].name@ == k);
                    }
                }
                if has_name(s, k) {
                    let j = choose|j: int| 0 <= j < s.len() && #[trigger] s[j].name@ == k;
                    if j < p {
                        assert(t[j].name@ == k);
                    } else {
                        assert(t[j + 1].name@ == k);
                    }
                }
                if k == d.name@ {
                    assert(t[p as int].name@ == k);
                }
            }
            assert forall|k: Seq<char>| #[trigger] defs_map(t).contains_key(k) implies defs_map(t)[k]
                == old(self)@.insert(d.name@, d)[k] by {
                let j = choose|j: int| 0 <= j < t.len() && #[trigger] t[j].name@ == k;
                lemma_defs_map_at(t, j);
                if j < p {
                    lemma_defs_map_at(s, j);
                } else if j > p {
                    lemma_defs_map_at(s, j - 1);
                }
            }
            assert(defs_map(t) =~= old(self)@.insert(d.name@, d));
        }
        self.subagents = v;
        true
    }

    /// Summaries of every subagent, in name order.
    pub fn list(&self) -> (r: Vec<SubagentSummary>)
        requires
            self.wf(),
        ensures
            r@.len() == self.entries().len(),
            forall|i: int| 0 <= i < r@.len() ==> (#[trigger] r@[i]).name@ == self.entries()[i].name@
                && r@[i].description@ == self.entries()[i].description@,
            forall|i: int, j: int| 0 <= i < j < r@.len() ==> lex_lt(#[trigger] r@[i].name@, #[trigger] r@[j].name@),
    {
        let mut r: Vec<SubagentSummary> = Vec::new();
        let n = self.subagents.len();
        let mut i: usize = 0;
        while i < n
            invariant
                n == self.subagents@.len(),
                i <= n,
                r@.len() == i,
                forall|j: int| 0 <= j < i ==> (#[trigger] r@[j]).name@ == self.subagents@[j].name@
                    && r@[j].description@ == self.subagents@[j].description@,
            decreases n - i,
        {
            r.push(SubagentSummary {
                name: self.subagents[i].name.clone(),
                description: self.subagents[i].description.clone(),
            });
            i = i + 1;
        }
        proof {
            assert forall|a: int, b: int| 0 <= a < b < r@.len() implies lex_lt(
                #[trigger] r@[a].name@,
                #[trigger] r@[b].name@,
            ) by {
                assert(lex_lt(self.subagents@[a].name@, self.subagents@[b].name@));
            }
        }
        r
    }

    /// The names of every subagent, in order.
    pub fn names(&self) -> (r: Vec<String>)
        requires
            self.wf(),
        ensures
            r@.len() == self.entries().len(),
            forall|i: int| 0 <= i < r@.len() ==> (#[trigger] r@[i])@ == self.entries()[i].name@,
    {
        let mut r: Vec<String> = Vec::new();
        let n = self.subagents.len();
        let mut i: usize = 0;
        while i < n
            invariant
                n == self.subagents@.len(),
                i <= n,
                r@.len() == i,
                forall|j: int| 0 <= j < i ==> (#[trigger] r@[j])@ == self.subagents@[j].name@,
            decreases n - i,
        {
            r.push(self.subagents[i].name.clone());
            i = i + 1;
        }
        r
    }
}

} // verus!
